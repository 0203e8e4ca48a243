//! The typechecker: lowers the surface tree to the typed intermediate
//! representation, unifying primitive types and threading a context of
//! name-to-type bindings through the program.
//!
//! The spec functions `tc_prog`, `tc_block`, `tc_stmt`, `tc_expr` and
//! `tc_exprs` are the mathematical definition of the typechecker; every
//! exec method is proved to return exactly what they say, and to leave the
//! context exactly as they say.

use vstd::prelude::*;
use vstd::string::StringExecFns;

use crate::ast::{
    clone_ascription, clone_names, clone_type, hir_type, lemma_hirs_view,
    lemma_stmts_view, singleton_block,
    prog_view, stmt_view, stmts_view, expr_view, exprs_view, hir_view, hirs_view, type_eq,
    type_label, type_label_view, type_of_node, Ascription, Expr, ExprV, HirExpr, HirFunction,
    HirV, Literal, Operator, Prog, Primitive, Stmt, StmtV, Type,
};
use crate::error::{error_view, Error, ErrorV};

verus! {

/// Model of a [`Context`]: a single-level map from names to types.
pub type CtxV = Map<Seq<char>, Type>;

/// The typechecker's name-to-type table. It is single-level and shared
/// across all typechecker calls of one session.
#[derive(Debug)]
pub struct Context {
    pub values: Vec<(String, Type)>,
}

/// The bindings of the context as a map; a later binding shadows an
/// earlier one of the same name.
pub open spec fn ctx_entries_view(s: Seq<(String, Type)>) -> CtxV
    decreases s.len(),
{
    if s.len() == 0 {
        Map::empty()
    } else {
        ctx_entries_view(s.subrange(0, s.len() - 1)).insert(
            s[s.len() - 1].0@,
            s[s.len() - 1].1,
        )
    }
}

impl View for Context {
    type V = CtxV;

    open spec fn view(&self) -> CtxV {
        ctx_entries_view(self.values@)
    }
}

/// A name bound nowhere in the entry list is not in the map.
proof fn lemma_ctx_absent(s: Seq<(String, Type)>, key: Seq<char>)
    requires
        forall|j: int| 0 <= j < s.len() ==> s[j].0@ != key,
    ensures
        !ctx_entries_view(s).contains_key(key),
    decreases s.len(),
{
    if s.len() > 0 {
        lemma_ctx_absent(s.subrange(0, s.len() - 1), key);
    }
}

/// The map holds, for a bound name, the type of its latest binding.
proof fn lemma_ctx_found(s: Seq<(String, Type)>, key: Seq<char>, i: int)
    requires
        0 <= i < s.len(),
        s[i].0@ == key,
        forall|j: int| i < j < s.len() ==> s[j].0@ != key,
    ensures
        ctx_entries_view(s).contains_key(key),
        ctx_entries_view(s)[key] == s[i].1,
    decreases s.len(),
{
    if i < s.len() - 1 {
        lemma_ctx_found(s.subrange(0, s.len() - 1), key, i);
    }
}

impl Default for Context {
    /// An empty context.
    fn default() -> (c: Context)
        ensures
            c@ == Map::<Seq<char>, Type>::empty(),
    {
        Context { values: Vec::new() }
    }
}

impl Context {
    /// Binds `name` to `type_`, inserting or overwriting; never fails.
    pub fn define(&mut self, name: String, type_: Type) -> (r: Result<(), String>)
        ensures
            r is Ok,
            final(self)@ == old(self)@.insert(name@, type_),
    {
        let ghost old_vals = self.values@;
        self.values.push((name, type_));
        proof {
            assert(self.values@.subrange(0, self.values@.len() - 1) =~= old_vals);
        }
        Ok(())
    }

    /// The type bound to `name`, if any.
    pub fn lookup(&mut self, name: String) -> (r: Option<Type>)
        ensures
            *final(self) == *old(self),
            r == (if old(self)@.contains_key(name@) {
                Some(old(self)@[name@])
            } else {
                None::<Type>
            }),
    {
        let n = self.values.len();
        let mut i = n;
        while i > 0
            invariant
                i <= n,
                n == self.values@.len(),
                forall|j: int| i <= j < n ==> self.values@[j].0@ != name@,
            decreases i,
        {
            i = i - 1;
            if self.values[i].0 == name {
                proof {
                    lemma_ctx_found(self.values@, name@, i as int);
                }
                return Some(clone_type(&self.values[i].1));
            }
        }
        proof {
            lemma_ctx_absent(self.values@, name@);
        }
        None
    }
}

// ---------------------------------------------------------------------------
// The typechecking rules, as spec functions over the models
// ---------------------------------------------------------------------------

/// The primitive a user-written ascription denotes.
pub open spec fn spec_ascription_primitive(a: Ascription) -> Primitive
    decreases a,
{
    match a {
        Ascription::Int => Primitive::Int,
        Ascription::Bool => Primitive::Bool,
        Ascription::Str => Primitive::Str,
        Ascription::List(b) => Primitive::List(Box::new(spec_ascription_primitive(*b))),
    }
}

/// The type a user-written ascription denotes.
pub open spec fn spec_ascription_type(a: Ascription) -> Type {
    Type::Primitive(spec_ascription_primitive(a))
}

/// Unification of two types: equal types unify to themselves, different
/// types do not unify.
pub open spec fn spec_unify(t1: Type, t2: Type) -> Result<Type, ErrorV> {
    if t1 == t2 {
        Ok(t2)
    } else {
        Err(ErrorV::TypeError("Types do not unify"@))
    }
}

/// The type of a variable: its context entry, or `Int` if the name is
/// unknown (the permissive default the surface rules specify).
pub open spec fn var_type(ctx: CtxV, n: Seq<char>) -> Type {
    if ctx.contains_key(n) {
        ctx[n]
    } else {
        Type::Primitive(Primitive::Int)
    }
}

/// Whether every node of a lowered list has the given type.
pub open spec fn all_type(hs: Seq<HirV>, t: Type) -> bool {
    forall|i: int| 0 <= i < hs.len() ==> type_of_node(#[trigger] hs[i]) == t
}

/// The message for an ascription that does not match the bound value.
pub open spec fn msg_assign_mismatch(expected: Type, got: Type) -> Seq<char> {
    "Types mismatch. Expected: "@ + type_label_view(expected) + " but got "@ + type_label_view(
        got,
    )
}

/// The message for a function body that does not match the declared return
/// type.
pub open spec fn msg_func_mismatch(expected: Type, got: Type) -> Seq<char> {
    "Types mismatch. Expected "@ + type_label_view(expected) + " as return type, but got "@
        + type_label_view(got) + " instead."@
}

/// The message for `if`/`else` arms of different types.
pub open spec fn msg_arms_mismatch(t1: Type, t2: Type) -> Seq<char> {
    "Types must match: "@ + type_label_view(t1) + " /= "@ + type_label_view(t2)
}

/// What typechecking one statement yields, and the context it leaves.
pub open spec fn tc_stmt(ctx: CtxV, s: StmtV) -> (Result<HirV, ErrorV>, CtxV)
    decreases s, 0int,
{
    match s {
        StmtV::Expr(e) => tc_expr(ctx, e),
        StmtV::Func(name, params, body, asc) => {
            let ret = spec_ascription_type(asc);
            let (rb, ctx1) = tc_block(ctx, body, 0);
            match rb {
                Err(e) => (Err(e), ctx1),
                Ok(bh) => {
                    let body_type = type_of_node(bh);
                    if body_type != ret {
                        (Err(ErrorV::TypeError(msg_func_mismatch(ret, body_type))), ctx1)
                    } else {
                        (
                            Ok(HirV::Function(name, params, seq![bh], ret)),
                            ctx1.insert(name, ret),
                        )
                    }
                },
            }
        },
        StmtV::Assign(name, rhs, asc) => {
            let (re, ctx1) = tc_expr(ctx, rhs);
            match re {
                Err(e) => (Err(e), ctx1),
                Ok(h) => {
                    let ty = type_of_node(h);
                    let expected = spec_ascription_type(asc);
                    if ty != expected {
                        (Err(ErrorV::TypeError(msg_assign_mismatch(expected, ty))), ctx1)
                    } else {
                        (Ok(HirV::Assign(name, Box::new(h), ty)), ctx1.insert(name, ty))
                    }
                },
            }
        },
        StmtV::Return(e) => {
            let (re, ctx1) = tc_expr(ctx, e);
            match re {
                Err(er) => (Err(er), ctx1),
                Ok(h) => (Ok(HirV::Return(Box::new(h), type_of_node(h))), ctx1),
            }
        },
        StmtV::IfStatement(cond, body) => {
            let (rc, ctx1) = tc_expr(ctx, cond);
            match rc {
                Err(e) => (Err(e), ctx1),
                Ok(ch) => {
                    let ct = type_of_node(ch);
                    if ct != Type::Primitive(Primitive::Bool) {
                        (Err(ErrorV::TypeError("Condition must be boolean"@)), ctx1)
                    } else {
                        let (rb, ctx2) = tc_block(ctx1, body, 0);
                        match rb {
                            Err(e) => (Err(e), ctx2),
                            Ok(bh) => (
                                Ok(HirV::IfStatement(Box::new(ch), seq![bh], ct)),
                                ctx2,
                            ),
                        }
                    }
                },
            }
        },
        StmtV::IfElse(cond, tb, eb) => {
            let (rc, ctx1) = tc_expr(ctx, cond);
            match rc {
                Err(e) => (Err(e), ctx1),
                Ok(ch) => {
                    let ct = type_of_node(ch);
                    if ct != Type::Primitive(Primitive::Bool) {
                        (Err(ErrorV::TypeError("Condition must be boolean"@)), ctx1)
                    } else {
                        let (rt, ctx2) = tc_block(ctx1, tb, 0);
                        match rt {
                            Err(e) => (Err(e), ctx2),
                            Ok(th) => {
                                let (re, ctx3) = tc_block(ctx2, eb, 0);
                                match re {
                                    Err(e) => (Err(e), ctx3),
                                    Ok(eh) => {
                                        let tt = type_of_node(th);
                                        let et = type_of_node(eh);
                                        if tt != et {
                                            (
                                                Err(ErrorV::TypeError(
                                                    msg_arms_mismatch(tt, et),
                                                )),
                                                ctx3,
                                            )
                                        } else {
                                            (
                                                Ok(HirV::IfElse(
                                                    Box::new(ch),
                                                    seq![th],
                                                    seq![eh],
                                                    tt,
                                                )),
                                                ctx3,
                                            )
                                        }
                                    },
                                }
                            },
                        }
                    }
                },
            }
        },
        _ => (
            Err(ErrorV::TypeError("The type system does not support other expressions yet"@)),
            ctx,
        ),
    }
}

/// What typechecking a block from position `i` yields: the lowered last
/// statement (`Nothing` for an empty block) and the context it leaves.
pub open spec fn tc_block(ctx: CtxV, ss: Seq<StmtV>, i: int) -> (Result<HirV, ErrorV>, CtxV)
    decreases ss, ss.len() - i,
{
    if i < 0 || i >= ss.len() {
        (Ok(HirV::Nothing), ctx)
    } else {
        let (r1, ctx1) = tc_stmt(ctx, ss[i]);
        match r1 {
            Err(e) => (Err(e), ctx1),
            Ok(h) => if i + 1 == ss.len() {
                (Ok(h), ctx1)
            } else {
                tc_block(ctx1, ss, i + 1)
            },
        }
    }
}

/// What typechecking one expression yields, and the context it leaves.
pub open spec fn tc_expr(ctx: CtxV, e: ExprV) -> (Result<HirV, ErrorV>, CtxV)
    decreases e, 0int,
{
    match e {
        ExprV::Int(i) => (
            Ok(HirV::Literal(crate::ast::LitV::Int(i), Type::Primitive(Primitive::Int))),
            ctx,
        ),
        ExprV::Bool(b) => (
            Ok(HirV::Literal(crate::ast::LitV::Bool(b), Type::Primitive(Primitive::Bool))),
            ctx,
        ),
        ExprV::Str(s) => (
            Ok(HirV::Literal(crate::ast::LitV::String(s), Type::Primitive(Primitive::Str))),
            ctx,
        ),
        ExprV::Var(n) => (Ok(HirV::Var(n, var_type(ctx, n))), ctx),
        ExprV::Function(params, body) => {
            let (rb, ctx1) = tc_block(ctx, body, 0);
            match rb {
                Err(er) => (Err(er), ctx1),
                Ok(bh) => (
                    Ok(HirV::Lambda(params, seq![bh], type_of_node(bh))),
                    ctx1,
                ),
            }
        },
        ExprV::List(es) => {
            let (rs, ctx1) = tc_exprs(ctx, es, 0);
            match rs {
                Err(er) => (Err(er), ctx1),
                Ok(hs) => if hs.len() == 0 {
                    (Err(ErrorV::TypeError("Cannot type an empty list"@)), ctx1)
                } else {
                    let ht = type_of_node(hs[0]);
                    if !all_type(hs, ht) {
                        (
                            Err(ErrorV::TypeError("List elements must share one type"@)),
                            ctx1,
                        )
                    } else {
                        (Ok(HirV::List(hs, ht)), ctx1)
                    }
                },
            }
        },
        ExprV::Binary(l, op, r) => {
            let (rl, ctx1) = tc_expr(ctx, *l);
            match rl {
                Err(er) => (Err(er), ctx1),
                Ok(lh) => {
                    let (rr, ctx2) = tc_expr(ctx1, *r);
                    match rr {
                        Err(er) => (Err(er), ctx2),
                        Ok(rh) => match op {
                            Operator::Add | Operator::Sub | Operator::Div => {
                                match spec_unify(type_of_node(lh), type_of_node(rh)) {
                                    Err(er) => (Err(er), ctx2),
                                    Ok(ty) => (
                                        Ok(HirV::Binary(Box::new(lh), op, Box::new(rh), ty)),
                                        ctx2,
                                    ),
                                }
                            },
                            Operator::EqTo | Operator::Or | Operator::And
                                | Operator::LessThan | Operator::GreaterThan
                                | Operator::LessOrEqual => (
                                Ok(HirV::Binary(
                                    Box::new(lh),
                                    op,
                                    Box::new(rh),
                                    Type::Primitive(Primitive::Bool),
                                )),
                                ctx2,
                            ),
                            Operator::SumTo => (
                                Err(ErrorV::TypeError("Unimplemented type operator"@)),
                                ctx2,
                            ),
                        },
                    }
                },
            }
        },
        ExprV::CallFunction(fname, args) => {
            let ty = var_type(ctx, fname);
            let (ras, ctx1) = tc_exprs(ctx, args, 0);
            match ras {
                Err(er) => (Err(er), ctx1),
                Ok(hs) => (Ok(HirV::Call(fname, hs, ty)), ctx1),
            }
        },
        ExprV::CallClass(_) => (
            Err(ErrorV::TypeError("The type system does not support this type yet"@)),
            ctx,
        ),
    }
}

/// What typechecking an expression list from position `i` yields.
pub open spec fn tc_exprs(ctx: CtxV, es: Seq<ExprV>, i: int) -> (
    Result<Seq<HirV>, ErrorV>,
    CtxV,
)
    decreases es, es.len() - i,
{
    if i < 0 || i >= es.len() {
        (Ok(Seq::empty()), ctx)
    } else {
        let (r1, ctx1) = tc_expr(ctx, es[i]);
        match r1 {
            Err(e) => (Err(e), ctx1),
            Ok(h) => {
                let (rr, ctx2) = tc_exprs(ctx1, es, i + 1);
                match rr {
                    Err(e) => (Err(e), ctx2),
                    Ok(rest) => (Ok(seq![h] + rest), ctx2),
                }
            },
        }
    }
}

/// What typechecking a whole program from position `i` yields: one lowered
/// node per statement, in program order.
pub open spec fn tc_prog(ctx: CtxV, ss: Seq<StmtV>, i: int) -> (
    Result<Seq<HirV>, ErrorV>,
    CtxV,
)
    decreases ss, ss.len() - i,
{
    if i < 0 || i >= ss.len() {
        (Ok(Seq::empty()), ctx)
    } else {
        let (r1, ctx1) = tc_stmt(ctx, ss[i]);
        match r1 {
            Err(e) => (Err(e), ctx1),
            Ok(h) => {
                let (rr, ctx2) = tc_prog(ctx1, ss, i + 1);
                match rr {
                    Err(e) => (Err(e), ctx2),
                    Ok(rest) => (Ok(seq![h] + rest), ctx2),
                }
            },
        }
    }
}

/// Unification is reflexive, and it fails exactly on distinct types.
pub proof fn lemma_unify_laws(t1: Type, t2: Type)
    ensures
        spec_unify(t1, t1) == Ok::<Type, ErrorV>(t1),
        spec_unify(t1, t2) is Err <==> t1 != t2,
        t1 == t2 ==> spec_unify(t1, t2) == Ok::<Type, ErrorV>(t1),
{
}

// ---------------------------------------------------------------------------
// The exec typechecker
// ---------------------------------------------------------------------------

/// The view of a one-node typechecking result.
pub open spec fn res_hir_view(r: Result<HirExpr, Error>) -> Result<HirV, ErrorV> {
    match r {
        Ok(h) => Ok(hir_view(h)),
        Err(e) => Err(error_view(e)),
    }
}

/// The view of a node-list typechecking result.
pub open spec fn res_hirs_view(r: Result<Vec<HirExpr>, Error>) -> Result<Seq<HirV>, ErrorV> {
    match r {
        Ok(v) => Ok(hirs_view(v@)),
        Err(e) => Err(error_view(e)),
    }
}

/// The view of a unification result.
pub open spec fn res_type_view(r: Result<Type, Error>) -> Result<Type, ErrorV> {
    match r {
        Ok(t) => Ok(t),
        Err(e) => Err(error_view(e)),
    }
}

/// The typechecker. Its state is the context, which persists across calls
/// within one session.
#[derive(Debug)]
pub struct Typechecker {
    pub ctx: Context,
}

impl View for Typechecker {
    type V = CtxV;

    open spec fn view(&self) -> CtxV {
        self.ctx@
    }
}

impl Default for Typechecker {
    /// A typechecker with an empty context.
    fn default() -> (t: Typechecker)
        ensures
            t@ == Map::<Seq<char>, Type>::empty(),
    {
        Typechecker { ctx: Context::default() }
    }
}

/// The primitive a user-written ascription denotes.
fn ascription_primitive(a: Ascription) -> (p: Primitive)
    ensures
        p == spec_ascription_primitive(a),
    decreases a,
{
    match a {
        Ascription::Int => Primitive::Int,
        Ascription::Bool => Primitive::Bool,
        Ascription::Str => Primitive::Str,
        Ascription::List(b) => Primitive::List(Box::new(ascription_primitive(*b))),
    }
}

impl Typechecker {
    /// A typechecker with an empty context.
    pub fn new() -> (t: Self)
        ensures
            t@ == Map::<Seq<char>, Type>::empty(),
    {
        Typechecker { ctx: Context::default() }
    }

    /// Lowers a whole program to a sequence of typed nodes, in program
    /// order, exactly as `tc_prog` says.
    pub fn typecheck(&mut self, program: &Prog) -> (r: Result<Vec<HirExpr>, Error>)
        ensures
            ({
                let (res, c2) = tc_prog(old(self)@, prog_view(*program), 0);
                final(self)@ == c2 && res_hirs_view(r) == res
            }),
    {
        match program {
            Prog::Body(stmts) => self.typecheck_from(stmts, 0),
        }
    }

    /// Lowers the statements from position `i` on.
    fn typecheck_from(&mut self, stmts: &Vec<Stmt>, i: usize) -> (r: Result<Vec<HirExpr>, Error>)
        requires
            i <= stmts@.len(),
        ensures
            ({
                let (res, c2) = tc_prog(old(self)@, stmts_view(stmts@), i as int);
                final(self)@ == c2 && res_hirs_view(r) == res
            }),
        decreases *stmts, stmts@.len() - i, 1int,
    {
        proof {
            lemma_stmts_view(stmts@);
        }
        if i == stmts.len() {
            Ok(Vec::new())
        } else {
            match self.stmt_eval(&stmts[i]) {
                Err(e) => Err(e),
                Ok(h) => match self.typecheck_from(stmts, i + 1) {
                    Err(e) => Err(e),
                    Ok(mut rest) => {
                        let ghost tail = rest@;
                        rest.insert(0, h);
                        proof {
                            assert(rest@ =~= seq![h] + tail);
                            assert(hirs_view(seq![h] + tail) =~= seq![hir_view(h)] + hirs_view(
                                tail,
                            )) by {
                                assert((seq![h] + tail).subrange(
                                    1,
                                    (seq![h] + tail).len() as int,
                                ) =~= tail);
                            }
                        }
                        Ok(rest)
                    },
                },
            }
        }
    }

    /// Lowers a block: the result is the lowered last statement (`Nothing`
    /// for an empty block); earlier statements contribute to the context.
    pub fn eval_block(&mut self, stmts: &Vec<Stmt>) -> (r: Result<HirExpr, Error>)
        ensures
            ({
                let (res, c2) = tc_block(old(self)@, stmts_view(stmts@), 0);
                final(self)@ == c2 && res_hir_view(r) == res
            }),
        decreases *stmts, stmts@.len(), 2int,
    {
        self.eval_block_from(stmts, 0)
    }

    /// Lowers a block from position `i` on.
    fn eval_block_from(&mut self, stmts: &Vec<Stmt>, i: usize) -> (r: Result<HirExpr, Error>)
        requires
            i <= stmts@.len(),
        ensures
            ({
                let (res, c2) = tc_block(old(self)@, stmts_view(stmts@), i as int);
                final(self)@ == c2 && res_hir_view(r) == res
            }),
        decreases *stmts, stmts@.len() - i, 1int,
    {
        proof {
            lemma_stmts_view(stmts@);
        }
        if i == stmts.len() {
            Ok(HirExpr::Nothing)
        } else {
            match self.stmt_eval(&stmts[i]) {
                Err(e) => Err(e),
                Ok(h) => if i + 1 == stmts.len() {
                    Ok(h)
                } else {
                    self.eval_block_from(stmts, i + 1)
                },
            }
        }
    }

    /// The type a user-written ascription denotes.
    pub fn ascription_type(&self, ascription: Ascription) -> (t: Type)
        ensures
            t == spec_ascription_type(ascription),
    {
        Type::Primitive(ascription_primitive(ascription))
    }

    /// Lowers one statement, exactly as `tc_stmt` says.
    pub fn stmt_eval(&mut self, expr: &Stmt) -> (r: Result<HirExpr, Error>)
        ensures
            ({
                let (res, c2) = tc_stmt(old(self)@, stmt_view(*expr));
                final(self)@ == c2 && res_hir_view(r) == res
            }),
        decreases *expr, 0int, 0int,
    {
        match expr {
            Stmt::Expr(x) => self.typecheck_expr(x),
            Stmt::Func(name, args, stmts, ascription) => {
                let return_type = self.ascription_type(clone_ascription(ascription));
                match self.eval_block(stmts) {
                    Err(e) => Err(e),
                    Ok(block_value) => {
                        let body_type = hir_type(&block_value);
                        if !type_eq(&body_type, &return_type) {
                            let mut m = String::from_str("Types mismatch. Expected ");
                            let l1 = type_label(&return_type);
                            m.append(l1.as_str());
                            m.append(" as return type, but got ");
                            let l2 = type_label(&body_type);
                            m.append(l2.as_str());
                            m.append(" instead.");
                            Err(Error::TypeError(m))
                        } else {
                            let _ = self.ctx.define(name.clone(), clone_type(&return_type));
                            Ok(HirExpr::Function(
                                name.clone(),
                                clone_names(args),
                                singleton_block(block_value),
                                return_type,
                            ))
                        }
                    },
                }
            },
            Stmt::Assign(name, rhs, annotation) => {
                match self.typecheck_expr(rhs) {
                    Err(e) => Err(e),
                    Ok(h) => {
                        let ty = hir_type(&h);
                        let expected = self.ascription_type(clone_ascription(annotation));
                        if !type_eq(&ty, &expected) {
                            let mut m = String::from_str("Types mismatch. Expected: ");
                            let l1 = type_label(&expected);
                            m.append(l1.as_str());
                            m.append(" but got ");
                            let l2 = type_label(&ty);
                            m.append(l2.as_str());
                            Err(Error::TypeError(m))
                        } else {
                            let _ = self.ctx.define(name.clone(), clone_type(&ty));
                            Ok(HirExpr::Assign(name.clone(), Box::new(h), ty))
                        }
                    },
                }
            },
            Stmt::Return(e) => {
                match self.typecheck_expr(e) {
                    Err(er) => Err(er),
                    Ok(h) => {
                        let ty = hir_type(&h);
                        Ok(HirExpr::Return(Box::new(h), ty))
                    },
                }
            },
            Stmt::IfStatement(cond, stmts) => {
                match self.typecheck_expr(cond) {
                    Err(e) => Err(e),
                    Ok(ch) => {
                        let ct = hir_type(&ch);
                        if !type_eq(&ct, &Type::Primitive(Primitive::Bool)) {
                            Err(Error::TypeError(String::from_str("Condition must be boolean")))
                        } else {
                            match self.eval_block(stmts) {
                                Err(e) => Err(e),
                                Ok(bh) => Ok(HirExpr::IfStatement(
                                    Box::new(ch),
                                    singleton_block(bh),
                                    ct,
                                )),
                            }
                        }
                    },
                }
            },
            Stmt::IfElse(t1, t2, t3) => {
                match self.typecheck_expr(t1) {
                    Err(e) => Err(e),
                    Ok(ch) => {
                        let ct = hir_type(&ch);
                        if !type_eq(&ct, &Type::Primitive(Primitive::Bool)) {
                            Err(Error::TypeError(String::from_str("Condition must be boolean")))
                        } else {
                            match self.eval_block(t2) {
                                Err(e) => Err(e),
                                Ok(th) => match self.eval_block(t3) {
                                    Err(e) => Err(e),
                                    Ok(eh) => {
                                        let tt = hir_type(&th);
                                        let et = hir_type(&eh);
                                        if !type_eq(&tt, &et) {
                                            let mut m = String::from_str("Types must match: ");
                                            let l1 = type_label(&tt);
                                            m.append(l1.as_str());
                                            m.append(" /= ");
                                            let l2 = type_label(&et);
                                            m.append(l2.as_str());
                                            Err(Error::TypeError(m))
                                        } else {
                                            Ok(HirExpr::IfElse(
                                                Box::new(ch),
                                                singleton_block(th),
                                                singleton_block(eh),
                                                tt,
                                            ))
                                        }
                                    },
                                },
                            }
                        }
                    },
                }
            },
            _ => Err(Error::TypeError(
                String::from_str("The type system does not support other expressions yet"),
            )),
        }
    }

    /// Lowers one expression, exactly as `tc_expr` says.
    #[verifier::loop_isolation(false)]
    pub fn typecheck_expr(&mut self, expr: &Expr) -> (r: Result<HirExpr, Error>)
        ensures
            ({
                let (res, c2) = tc_expr(old(self)@, expr_view(*expr));
                final(self)@ == c2 && res_hir_view(r) == res
            }),
        decreases *expr, 0int, 0int,
    {
        match expr {
            Expr::Int(literal) => Ok(HirExpr::Literal(
                Literal::Int(*literal),
                Type::Primitive(Primitive::Int),
            )),
            Expr::Bool(literal) => Ok(HirExpr::Literal(
                Literal::Bool(*literal),
                Type::Primitive(Primitive::Bool),
            )),
            Expr::Str(s) => Ok(HirExpr::Literal(
                Literal::String(s.clone()),
                Type::Primitive(Primitive::Str),
            )),
            Expr::Var(v) => {
                let type_ = match self.ctx.lookup(v.clone()) {
                    Some(t) => t,
                    None => Type::Primitive(Primitive::Int),
                };
                Ok(HirExpr::Var(v.clone(), type_))
            },
            Expr::Function(args, stmts) => {
                match self.eval_block(stmts) {
                    Err(e) => Err(e),
                    Ok(body) => {
                        let ty = hir_type(&body);
                        Ok(HirExpr::Lambda(clone_names(args), singleton_block(body), ty))
                    },
                }
            },
            Expr::List(elements) => {
                match self.tc_exprs_from(elements, 0) {
                    Err(e) => Err(e),
                    Ok(hirs) => {
                        proof {
                            lemma_hirs_view(hirs@);
                        }
                        if hirs.len() == 0 {
                            Err(Error::TypeError(String::from_str("Cannot type an empty list")))
                        } else {
                            let head_ty = hir_type(&hirs[0]);
                            let n = hirs.len();
                            for j in 1..n
                                invariant
                                    n == hirs@.len(),
                                    n > 0,
                                    head_ty == type_of_node(hir_view(hirs@[0])),
                                    forall|k: int| 0 <= k < j ==> type_of_node(
                                        hir_view(#[trigger] hirs@[k]),
                                    ) == head_ty,
                                decreases n - j,
                            {
                                let tj = hir_type(&hirs[j]);
                                if !type_eq(&tj, &head_ty) {
                                    proof {
                                        lemma_hirs_view(hirs@);
                                        assert(hirs_view(hirs@)[j as int] == hir_view(
                                            hirs@[j as int],
                                        ));
                                        assert(type_of_node(hirs_view(hirs@)[j as int])
                                            != head_ty);
                                    }
                                    return Err(Error::TypeError(
                                        String::from_str("List elements must share one type"),
                                    ));
                                }
                            }
                            proof {
                                lemma_hirs_view(hirs@);
                                assert(all_type(hirs_view(hirs@), head_ty));
                            }
                            Ok(HirExpr::List(hirs, head_ty))
                        }
                    },
                }
            },
            Expr::Binary(lhs, op, rhs) => {
                match self.typecheck_expr(&**lhs) {
                    Err(e) => Err(e),
                    Ok(lh) => match self.typecheck_expr(&**rhs) {
                        Err(e) => Err(e),
                        Ok(rh) => match op {
                            Operator::Add | Operator::Sub | Operator::Div => {
                                let lt = hir_type(&lh);
                                let rt = hir_type(&rh);
                                match self.unify(&lt, &rt) {
                                    Err(e) => Err(e),
                                    Ok(ty) => Ok(HirExpr::Binary(
                                        Box::new(lh),
                                        *op,
                                        Box::new(rh),
                                        ty,
                                    )),
                                }
                            },
                            Operator::EqTo | Operator::Or | Operator::And
                                | Operator::LessThan | Operator::GreaterThan
                                | Operator::LessOrEqual => Ok(HirExpr::Binary(
                                Box::new(lh),
                                *op,
                                Box::new(rh),
                                Type::Primitive(Primitive::Bool),
                            )),
                            Operator::SumTo => Err(Error::TypeError(
                                String::from_str("Unimplemented type operator"),
                            )),
                        },
                    },
                }
            },
            Expr::Call(crate::ast::Call::Function(f)) => {
                let type_ = match self.ctx.lookup(f.func.clone()) {
                    Some(t) => t,
                    None => Type::Primitive(Primitive::Int),
                };
                match self.tc_exprs_from(&f.args, 0) {
                    Err(e) => Err(e),
                    Ok(vals) => Ok(HirExpr::Call(
                        HirFunction(f.func.clone(), vals),
                        type_,
                    )),
                }
            },
            Expr::Call(crate::ast::Call::Class(_)) => Err(Error::TypeError(
                String::from_str("The type system does not support this type yet"),
            )),
        }
    }

    /// Lowers an expression list from position `i` on.
    fn tc_exprs_from(&mut self, es: &Vec<Expr>, i: usize) -> (r: Result<Vec<HirExpr>, Error>)
        requires
            i <= es@.len(),
        ensures
            ({
                let (res, c2) = tc_exprs(old(self)@, exprs_view(es@), i as int);
                final(self)@ == c2 && res_hirs_view(r) == res
            }),
        decreases *es, es@.len() - i, 1int,
    {
        proof {
            crate::ast::lemma_exprs_view(es@);
        }
        if i == es.len() {
            Ok(Vec::new())
        } else {
            match self.typecheck_expr(&es[i]) {
                Err(e) => Err(e),
                Ok(h) => match self.tc_exprs_from(es, i + 1) {
                    Err(e) => Err(e),
                    Ok(mut rest) => {
                        let ghost tail = rest@;
                        rest.insert(0, h);
                        proof {
                            assert(rest@ =~= seq![h] + tail);
                            assert(hirs_view(seq![h] + tail) =~= seq![hir_view(h)] + hirs_view(
                                tail,
                            )) by {
                                assert((seq![h] + tail).subrange(
                                    1,
                                    (seq![h] + tail).len() as int,
                                ) =~= tail);
                            }
                        }
                        Ok(rest)
                    },
                },
            }
        }
    }

    /// Unification: equal types unify to themselves; different types are a
    /// type error.
    pub fn unify(&self, ty1: &Type, ty2: &Type) -> (r: Result<Type, Error>)
        ensures
            res_type_view(r) == spec_unify(*ty1, *ty2),
    {
        if type_eq(ty1, ty2) {
            Ok(clone_type(ty2))
        } else {
            Err(Error::TypeError(String::from_str("Types do not unify")))
        }
    }
}

} // verus!
