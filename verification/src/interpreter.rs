//! The evaluator: a tree walk over the typed intermediate representation
//! against a chain of lexically nested scopes.
//!
//! The spec functions `spec_eval`, `spec_eval_block` and `spec_eval_list`
//! are the mathematical semantics of the language; every exec method is
//! proved to return exactly what they say, and to leave the interpreter
//! state exactly as they say. Evaluation carries a fuel bound: each user
//! function call consumes one unit, and a call with no fuel left is a
//! runtime error, so that evaluation always terminates.

pub mod value;

pub use self::value::Value;

use vstd::prelude::*;
use vstd::string::StringExecFns;

use crate::ast::{
    clone_hirs, clone_names, hir_view, hirs_view, lemma_hirs_view, lemma_names_view,
    names_view, HirExpr,
    HirFunction, HirV, Literal,
};
use crate::builtin::{reduce, spec_reduce};
use crate::environment::{env_lookup, EnvV, Environment};
use crate::error::{error_view, quote_msg, Error, ErrorV};
use crate::interpreter::value::{
    apply_binary, clone_value, lemma_values_view, res_value_view, v_binary, value_view,
    values_view, Builtin, ValueV,
};

verus! {

/// Model of the interpreter state: the environment chain and the output
/// emitted so far (one entry per `println` call, holding its arguments).
pub ghost struct StateV {
    pub env: EnvV,
    pub out: Seq<Seq<ValueV>>,
}

/// The view of the output log.
pub open spec fn outs_view(s: Seq<Vec<Value>>) -> Seq<Seq<ValueV>>
    decreases s,
{
    if s.len() == 0 {
        Seq::empty()
    } else {
        seq![values_view(s[0]@)] + outs_view(s.subrange(1, s.len() as int))
    }
}

/// Every view of an output log views each entry in place.
pub proof fn lemma_outs_view(s: Seq<Vec<Value>>)
    ensures
        outs_view(s).len() == s.len(),
        forall|i: int| 0 <= i < s.len() ==> outs_view(s)[i] == values_view(s[i]@),
    decreases s,
{
    if s.len() > 0 {
        lemma_outs_view(s.subrange(1, s.len() as int));
    }
}

/// The state after binding `name` in the current scope.
pub open spec fn st_define(st: StateV, n: Seq<char>, v: ValueV) -> StateV {
    StateV {
        env: EnvV { vals: st.env.vals.insert(n, v), enclosing: st.env.enclosing },
        out: st.out,
    }
}

/// Parameters bound to their corresponding argument values, positionally:
/// extra arguments are ignored, parameters past the arguments stay unbound.
pub open spec fn bind_params(
    m: Map<Seq<char>, ValueV>,
    params: Seq<Seq<char>>,
    vals: Seq<ValueV>,
    i: int,
) -> Map<Seq<char>, ValueV>
    decreases params.len() - i,
{
    if i < 0 || i >= params.len() || i >= vals.len() {
        m
    } else {
        bind_params(m.insert(params[i], vals[i]), params, vals, i + 1)
    }
}

/// What `println` yields: its first argument, with the argument list
/// appended to the output log.
pub open spec fn spec_println(st: StateV, vals: Seq<ValueV>) -> (Result<ValueV, ErrorV>, StateV) {
    if vals.len() == 0 {
        (Err(ErrorV::InvalidOperation("println expects at least one argument"@)), st)
    } else {
        (Ok(vals[0]), StateV { env: st.env, out: st.out.push(vals) })
    }
}

/// What a built-in call yields.
pub open spec fn spec_builtin(b: Builtin, vals: Seq<ValueV>, st: StateV) -> (
    Result<ValueV, ErrorV>,
    StateV,
) {
    match b {
        Builtin::Println => spec_println(st, vals),
        Builtin::Reduce => (spec_reduce(vals), st),
    }
}

/// What evaluating one node yields, and the state it leaves.
pub open spec fn spec_eval(st: StateV, e: HirV, fuel: nat) -> (Result<ValueV, ErrorV>, StateV)
    decreases fuel, e, 0int,
{
    match e {
        HirV::Literal(l, _) => match l {
            crate::ast::LitV::Int(i) => (Ok(ValueV::Int(i)), st),
            crate::ast::LitV::Bool(b) => (Ok(ValueV::Bool(b)), st),
            crate::ast::LitV::String(s) => (Ok(ValueV::Str(s)), st),
        },
        HirV::Binary(l, op, r, _) => {
            let (rl, st1) = spec_eval(st, *l, fuel);
            match rl {
                Err(e1) => (Err(e1), st1),
                Ok(lv) => {
                    let (rr, st2) = spec_eval(st1, *r, fuel);
                    match rr {
                        Err(e2) => (Err(e2), st2),
                        Ok(rv) => (v_binary(op, lv, rv), st2),
                    }
                },
            }
        },
        HirV::Assign(n, rhs, _) => {
            let (rv, st1) = spec_eval(st, *rhs, fuel);
            match rv {
                Err(e1) => (Err(e1), st1),
                Ok(v) => (Ok(ValueV::Nil), st_define(st1, n, v)),
            }
        },
        HirV::Var(n, _) => match env_lookup(st.env, n) {
            Some(v) => (Ok(v), st),
            None => (
                Err(ErrorV::InvalidOperation("'"@ + n + "' is not defined"@)),
                st,
            ),
        },
        HirV::IfElse(c, tb, eb, _) => {
            let (rc, st1) = spec_eval(st, *c, fuel);
            match rc {
                Err(e1) => (Err(e1), st1),
                Ok(ValueV::Bool(true)) => spec_eval_block(st1, tb, 0, fuel),
                Ok(ValueV::Bool(false)) => spec_eval_block(st1, eb, 0, fuel),
                Ok(_) => (
                    Err(ErrorV::InvalidOperation("Expression must be boolean"@)),
                    st1,
                ),
            }
        },
        HirV::IfStatement(c, blk, _) => {
            let (rc, st1) = spec_eval(st, *c, fuel);
            match rc {
                Err(e1) => (Err(e1), st1),
                Ok(ValueV::Bool(true)) => spec_eval_block(st1, blk, 0, fuel),
                Ok(ValueV::Bool(false)) => (Ok(ValueV::Nil), st1),
                Ok(_) => (
                    Err(ErrorV::InvalidOperation("Expression must be boolean"@)),
                    st1,
                ),
            }
        },
        HirV::Function(name, params, body, _) => (
            Ok(ValueV::Nil),
            st_define(st, name, ValueV::Function(params, body)),
        ),
        HirV::Lambda(params, body, _) => (Ok(ValueV::Function(params, body)), st),
        HirV::List(elems, _) => {
            let (rs, st1) = spec_eval_list(st, elems, 0, fuel);
            match rs {
                Err(e1) => (Err(e1), st1),
                Ok(vs) => (Ok(ValueV::List(vs)), st1),
            }
        },
        HirV::Return(e1, _) => spec_eval(st, *e1, fuel),
        HirV::Call(fname, args, _) => {
            let (ras, st1) = spec_eval_list(st, args, 0, fuel);
            match ras {
                Err(e1) => (Err(e1), st1),
                Ok(vals) => match env_lookup(st1.env, fname) {
                    None => (
                        Err(ErrorV::InvalidOperation(
                            "Function '"@ + fname + "' is not defined"@,
                        )),
                        st1,
                    ),
                    Some(ValueV::BuiltinFunction(b)) => spec_builtin(b, vals, st1),
                    Some(ValueV::Function(params, body)) => if fuel == 0 {
                        (
                            Err(ErrorV::InvalidOperation("Evaluation fuel exhausted"@)),
                            st1,
                        )
                    } else {
                        let child = EnvV {
                            vals: bind_params(Map::empty(), params, vals, 0),
                            enclosing: Some(Box::new(st1.env)),
                        };
                        let (rb, st2) = spec_eval_block(
                            StateV { env: child, out: st1.out },
                            body,
                            0,
                            (fuel - 1) as nat,
                        );
                        (rb, StateV { env: st1.env, out: st2.out })
                    },
                    Some(_) => (
                        Err(ErrorV::InvalidOperation(
                            "'"@ + fname + "' isn't a function"@,
                        )),
                        st1,
                    ),
                },
            }
        },
        HirV::Nothing => (Ok(ValueV::Nil), st),
    }
}

/// What evaluating a block from position `i` yields: the value of the last
/// node (`Nil` for an empty block) and the state it leaves.
pub open spec fn spec_eval_block(st: StateV, hs: Seq<HirV>, i: int, fuel: nat) -> (
    Result<ValueV, ErrorV>,
    StateV,
)
    decreases fuel, hs, hs.len() - i,
{
    if i < 0 || i >= hs.len() {
        (Ok(ValueV::Nil), st)
    } else {
        let (r1, st1) = spec_eval(st, hs[i], fuel);
        match r1 {
            Err(e) => (Err(e), st1),
            Ok(v) => if i + 1 == hs.len() {
                (Ok(v), st1)
            } else {
                spec_eval_block(st1, hs, i + 1, fuel)
            },
        }
    }
}

/// What evaluating a node list from position `i` yields: the values in
/// order, and the state it leaves.
pub open spec fn spec_eval_list(st: StateV, hs: Seq<HirV>, i: int, fuel: nat) -> (
    Result<Seq<ValueV>, ErrorV>,
    StateV,
)
    decreases fuel, hs, hs.len() - i,
{
    if i < 0 || i >= hs.len() {
        (Ok(Seq::empty()), st)
    } else {
        let (r1, st1) = spec_eval(st, hs[i], fuel);
        match r1 {
            Err(e) => (Err(e), st1),
            Ok(v) => {
                let (rr, st2) = spec_eval_list(st1, hs, i + 1, fuel);
                match rr {
                    Err(e) => (Err(e), st2),
                    Ok(rest) => (Ok(seq![v] + rest), st2),
                }
            },
        }
    }
}

/// Evaluation never changes the parent chain of the current scope: every
/// scope that is pushed is popped again on all paths.
pub proof fn lemma_eval_keeps_parent(st: StateV, e: HirV, fuel: nat)
    ensures
        spec_eval(st, e, fuel).1.env.enclosing == st.env.enclosing,
    decreases fuel, e, 0int,
{
    match e {
        HirV::Binary(l, op, r, _) => {
            lemma_eval_keeps_parent(st, *l, fuel);
            let (rl, st1) = spec_eval(st, *l, fuel);
            if rl is Ok {
                lemma_eval_keeps_parent(st1, *r, fuel);
            }
        },
        HirV::Assign(n, rhs, _) => {
            lemma_eval_keeps_parent(st, *rhs, fuel);
        },
        HirV::IfElse(c, tb, eb, _) => {
            lemma_eval_keeps_parent(st, *c, fuel);
            let (rc, st1) = spec_eval(st, *c, fuel);
            if rc is Ok {
                lemma_block_keeps_parent(st1, tb, 0, fuel);
                lemma_block_keeps_parent(st1, eb, 0, fuel);
            }
        },
        HirV::IfStatement(c, blk, _) => {
            lemma_eval_keeps_parent(st, *c, fuel);
            let (rc, st1) = spec_eval(st, *c, fuel);
            if rc is Ok {
                lemma_block_keeps_parent(st1, blk, 0, fuel);
            }
        },
        HirV::List(elems, _) => {
            lemma_list_keeps_parent(st, elems, 0, fuel);
        },
        HirV::Return(e1, _) => {
            lemma_eval_keeps_parent(st, *e1, fuel);
        },
        HirV::Call(fname, args, _) => {
            lemma_list_keeps_parent(st, args, 0, fuel);
        },
        _ => {},
    }
}

/// Block evaluation never changes the parent chain of the current scope.
pub proof fn lemma_block_keeps_parent(st: StateV, hs: Seq<HirV>, i: int, fuel: nat)
    ensures
        spec_eval_block(st, hs, i, fuel).1.env.enclosing == st.env.enclosing,
    decreases fuel, hs, hs.len() - i,
{
    if 0 <= i < hs.len() {
        lemma_eval_keeps_parent(st, hs[i], fuel);
        let (r1, st1) = spec_eval(st, hs[i], fuel);
        if r1 is Ok && i + 1 < hs.len() {
            lemma_block_keeps_parent(st1, hs, i + 1, fuel);
        }
    }
}

/// List evaluation never changes the parent chain of the current scope.
pub proof fn lemma_list_keeps_parent(st: StateV, hs: Seq<HirV>, i: int, fuel: nat)
    ensures
        spec_eval_list(st, hs, i, fuel).1.env.enclosing == st.env.enclosing,
    decreases fuel, hs, hs.len() - i,
{
    if 0 <= i < hs.len() {
        lemma_eval_keeps_parent(st, hs[i], fuel);
        let (r1, st1) = spec_eval(st, hs[i], fuel);
        if r1 is Ok {
            lemma_list_keeps_parent(st1, hs, i + 1, fuel);
        }
    }
}

/// The view of a value-list evaluation result.
pub open spec fn res_values_view(r: Result<Vec<Value>, Error>) -> Result<Seq<ValueV>, ErrorV> {
    match r {
        Ok(vs) => Ok(values_view(vs@)),
        Err(e) => Err(error_view(e)),
    }
}

/// The tree-walking evaluator. It owns the current scope chain and the
/// output log that `println` appends to.
pub struct Interpreter {
    pub env: Environment,
    pub out: Vec<Vec<Value>>,
}

impl View for Interpreter {
    type V = StateV;

    open spec fn view(&self) -> StateV {
        StateV { env: self.env@, out: outs_view(self.out@) }
    }
}

impl Interpreter {
    /// An interpreter over the given root environment, with an empty
    /// output log.
    pub fn new(env: Environment) -> (s: Self)
        ensures
            s@.env == env@,
            s@.out == Seq::<Seq<ValueV>>::empty(),
    {
        Interpreter { env, out: Vec::new() }
    }

    /// Evaluates nodes in order and returns the value of the last one
    /// (`Nil` on an empty list), exactly as `spec_eval_block` says.
    pub fn run(&mut self, exprs: &Vec<HirExpr>, fuel: u64) -> (r: Result<Value, Error>)
        ensures
            ({
                let (res, st2) = spec_eval_block(old(self)@, hirs_view(exprs@), 0, fuel as nat);
                final(self)@ == st2 && res_value_view(r) == res
            }),
        decreases fuel, *exprs, exprs@.len() + 1,
    {
        self.eval_block_from(exprs, 0, fuel)
    }

    /// Evaluates a block against the current scope; the block's value is
    /// the last statement's value.
    pub fn eval_block(&mut self, stmts: &Vec<HirExpr>, fuel: u64) -> (r: Result<Value, Error>)
        ensures
            ({
                let (res, st2) = spec_eval_block(old(self)@, hirs_view(stmts@), 0, fuel as nat);
                final(self)@ == st2 && res_value_view(r) == res
            }),
        decreases fuel, *stmts, stmts@.len() + 1,
    {
        self.eval_block_from(stmts, 0, fuel)
    }

    /// Evaluates a block from position `i` on.
    fn eval_block_from(&mut self, stmts: &Vec<HirExpr>, i: usize, fuel: u64) -> (r: Result<
        Value,
        Error,
    >)
        requires
            i <= stmts@.len(),
        ensures
            ({
                let (res, st2) = spec_eval_block(
                    old(self)@,
                    hirs_view(stmts@),
                    i as int,
                    fuel as nat,
                );
                final(self)@ == st2 && res_value_view(r) == res
            }),
        decreases fuel, *stmts, stmts@.len() - i,
    {
        proof {
            lemma_hirs_view(stmts@);
        }
        if i == stmts.len() {
            Ok(Value::Nil)
        } else {
            match self.expr_eval(&stmts[i], fuel) {
                Err(e) => Err(e),
                Ok(v) => if i + 1 == stmts.len() {
                    Ok(v)
                } else {
                    self.eval_block_from(stmts, i + 1, fuel)
                },
            }
        }
    }

    /// Evaluates each node of a list, left to right.
    pub fn expr_evals(&mut self, exprs: &Vec<HirExpr>, fuel: u64) -> (r: Result<Vec<Value>, Error>)
        ensures
            ({
                let (res, st2) = spec_eval_list(old(self)@, hirs_view(exprs@), 0, fuel as nat);
                final(self)@ == st2 && res_values_view(r) == res
            }),
        decreases fuel, *exprs, exprs@.len() + 1,
    {
        self.expr_evals_from(exprs, 0, fuel)
    }

    /// Evaluates a node list from position `i` on.
    fn expr_evals_from(&mut self, exprs: &Vec<HirExpr>, i: usize, fuel: u64) -> (r: Result<
        Vec<Value>,
        Error,
    >)
        requires
            i <= exprs@.len(),
        ensures
            ({
                let (res, st2) = spec_eval_list(
                    old(self)@,
                    hirs_view(exprs@),
                    i as int,
                    fuel as nat,
                );
                final(self)@ == st2 && res_values_view(r) == res
            }),
        decreases fuel, *exprs, exprs@.len() - i,
    {
        proof {
            lemma_hirs_view(exprs@);
        }
        if i == exprs.len() {
            Ok(Vec::new())
        } else {
            match self.expr_eval(&exprs[i], fuel) {
                Err(e) => Err(e),
                Ok(v) => match self.expr_evals_from(exprs, i + 1, fuel) {
                    Err(e) => Err(e),
                    Ok(mut rest) => {
                        let ghost tail = rest@;
                        rest.insert(0, v);
                        proof {
                            assert(rest@ =~= seq![rest@[0]] + tail);
                            assert(values_view(seq![rest@[0]] + tail) =~= seq![value_view(
                                rest@[0],
                            )] + values_view(tail)) by {
                                assert((seq![rest@[0]] + tail).subrange(
                                    1,
                                    (seq![rest@[0]] + tail).len() as int,
                                ) =~= tail);
                            }
                        }
                        Ok(rest)
                    },
                },
            }
        }
    }

    /// Invokes a built-in function on already evaluated arguments.
    #[verifier::loop_isolation(false)]
    fn call_builtin(&mut self, b: Builtin, vals: Vec<Value>) -> (r: Result<Value, Error>)
        ensures
            ({
                let (res, st2) = spec_builtin(b, values_view(vals@), old(self)@);
                final(self)@ == st2 && res_value_view(r) == res
            }),
    {
        proof {
            lemma_values_view(vals@);
        }
        match b {
            Builtin::Println => {
                if vals.len() == 0 {
                    Err(Error::InvalidOperation(
                        String::from_str("println expects at least one argument"),
                    ))
                } else {
                    let first = clone_value(&vals[0]);
                    let ghost old_out = self.out@;
                    self.out.push(vals);
                    proof {
                        lemma_outs_view(old_out);
                        lemma_outs_view(self.out@);
                        assert(outs_view(self.out@) =~= outs_view(old_out).push(
                            values_view(self.out@[self.out@.len() - 1]@),
                        ));
                    }
                    Ok(first)
                }
            },
            Builtin::Reduce => reduce(vals),
        }
    }

    /// Evaluates one node, exactly as `spec_eval` says.
    #[verifier::loop_isolation(false)]
    pub fn expr_eval(&mut self, expr: &HirExpr, fuel: u64) -> (r: Result<Value, Error>)
        ensures
            ({
                let (res, st2) = spec_eval(old(self)@, hir_view(*expr), fuel as nat);
                final(self)@ == st2 && res_value_view(r) == res
            }),
        decreases fuel, *expr, 0int,
    {
        match expr {
            HirExpr::Literal(Literal::Int(l), _) => Ok(Value::Int(*l)),
            HirExpr::Literal(Literal::Bool(b), _) => Ok(Value::Bool(*b)),
            HirExpr::Literal(Literal::String(s), _) => Ok(Value::Str(s.clone())),
            HirExpr::Binary(lhs, op, rhs, _) => {
                match self.expr_eval(&**lhs, fuel) {
                    Err(e) => Err(e),
                    Ok(lv) => match self.expr_eval(&**rhs, fuel) {
                        Err(e) => Err(e),
                        Ok(rv) => apply_binary(*op, lv, rv),
                    },
                }
            },
            HirExpr::Assign(name, rhs, _) => {
                match self.expr_eval(&**rhs, fuel) {
                    Err(e) => Err(e),
                    Ok(v) => {
                        let _ = self.env.define(name.clone(), v);
                        Ok(Value::Nil)
                    },
                }
            },
            HirExpr::Var(name, _) => {
                match self.env.get_var(name.clone()) {
                    Some(v) => Ok(v),
                    None => Err(Error::InvalidOperation(
                        quote_msg("'", name.as_str(), "' is not defined"),
                    )),
                }
            },
            HirExpr::IfElse(cond, stmts, estmt, _) => {
                match self.expr_eval(&**cond, fuel) {
                    Err(e) => Err(e),
                    Ok(Value::Bool(true)) => self.eval_block(stmts, fuel),
                    Ok(Value::Bool(false)) => self.eval_block(estmt, fuel),
                    Ok(_) => Err(Error::InvalidOperation(
                        String::from_str("Expression must be boolean"),
                    )),
                }
            },
            HirExpr::IfStatement(cond, stmts, _) => {
                match self.expr_eval(&**cond, fuel) {
                    Err(e) => Err(e),
                    Ok(Value::Bool(true)) => self.eval_block(stmts, fuel),
                    Ok(Value::Bool(false)) => Ok(Value::Nil),
                    Ok(_) => Err(Error::InvalidOperation(
                        String::from_str("Expression must be boolean"),
                    )),
                }
            },
            HirExpr::Function(name, args, stmts, _) => {
                let v = Value::Function(clone_names(args), clone_hirs(stmts));
                let _ = self.env.define(name.clone(), v);
                Ok(Value::Nil)
            },
            HirExpr::Lambda(args, stmts, _) => {
                Ok(Value::Function(clone_names(args), clone_hirs(stmts)))
            },
            HirExpr::List(elems, _) => {
                match self.expr_evals(elems, fuel) {
                    Err(e) => Err(e),
                    Ok(vs) => Ok(Value::List(vs)),
                }
            },
            HirExpr::Return(e, _) => self.expr_eval(&**e, fuel),
            HirExpr::Call(HirFunction(function, args), _) => {
                let vals = match self.expr_evals(args, fuel) {
                    Err(e) => {
                        return Err(e);
                    },
                    Ok(vs) => vs,
                };
                proof {
                    lemma_values_view(vals@);
                }
                let function_defined = match self.env.get_var(function.clone()) {
                    Some(v) => v,
                    None => {
                        return Err(Error::InvalidOperation(
                            quote_msg("Function '", function.as_str(), "' is not defined"),
                        ));
                    },
                };
                match function_defined {
                    Value::BuiltinFunction(b) => self.call_builtin(b, vals),
                    Value::Function(params, stmts) => {
                        if fuel == 0 {
                            return Err(Error::InvalidOperation(
                                String::from_str("Evaluation fuel exhausted"),
                            ));
                        }
                        let ghost st1 = self@;
                        // Push a fresh scope whose parent is the current one.
                        let mut parent = Environment { vals: Vec::new(), enclosing: None };
                        core::mem::swap(&mut self.env, &mut parent);
                        self.env = Environment::with_ref(parent);
                        // Bind each parameter to its argument, positionally.
                        proof {
                            lemma_names_view(params@);
                        }
                        let n = if params.len() < vals.len() {
                            params.len()
                        } else {
                            vals.len()
                        };
                        for i in 0..n
                            invariant
                                n == (if params@.len() < vals@.len() {
                                    params@.len()
                                } else {
                                    vals@.len()
                                }),
                                self.env@.enclosing == Some(Box::new(st1.env)),
                                self@.out == st1.out,
                                bind_params(
                                    Map::empty(),
                                    names_view(params@),
                                    values_view(vals@),
                                    0,
                                ) == bind_params(
                                    self.env@.vals,
                                    names_view(params@),
                                    values_view(vals@),
                                    i as int,
                                ),
                            decreases n - i,
                        {
                            let _ = self.env.define(params[i].clone(), clone_value(&vals[i]));
                        }
                        proof {
                            assert(bind_params(
                                self.env@.vals,
                                names_view(params@),
                                values_view(vals@),
                                n as int,
                            ) == self.env@.vals);
                        }
                        // Evaluate the body in the new scope.
                        let result = self.eval_block(&stmts, fuel - 1);
                        // Pop the scope on every path, restoring the caller's.
                        proof {
                            lemma_block_keeps_parent(
                                StateV {
                                    env: EnvV {
                                        vals: bind_params(
                                            Map::empty(),
                                            names_view(params@),
                                            values_view(vals@),
                                            0,
                                        ),
                                        enclosing: Some(Box::new(st1.env)),
                                    },
                                    out: st1.out,
                                },
                                hirs_view(stmts@),
                                0,
                                (fuel - 1) as nat,
                            );
                        }
                        let mut child = Environment { vals: Vec::new(), enclosing: None };
                        core::mem::swap(&mut self.env, &mut child);
                        self.env = child.into_parent();
                        result
                    },
                    _ => Err(Error::InvalidOperation(
                        quote_msg("'", function.as_str(), "' isn't a function"),
                    )),
                }
            },
            HirExpr::Nothing => Ok(Value::Nil),
        }
    }
}

} // verus!
