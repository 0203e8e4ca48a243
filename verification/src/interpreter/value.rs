//! Runtime values and the semantics of the binary operators.

use vstd::prelude::*;
use vstd::string::StringExecFns;

use crate::ast::{clone_hirs, clone_names, hirs_view, names_view, HirExpr, HirV, Operator};
use crate::error::{error_view, Error, ErrorV};

verus! {

/// A built-in function of the root scope.
#[derive(Debug, Clone, Copy, PartialEq, Eq, Structural)]
pub enum Builtin {
    Println,
    Reduce,
}

/// A runtime value. `Nil` is the value of statements with no natural value:
/// bindings, conditionals with a false guard, and empty blocks.
#[derive(Debug, PartialEq)]
pub enum Value {
    Int(i32),
    Bool(bool),
    Str(String),
    List(Vec<Value>),
    BuiltinFunction(Builtin),
    Function(Vec<String>, Vec<HirExpr>),
    Nil,
}

/// Model of a [`Value`].
pub ghost enum ValueV {
    Int(i32),
    Bool(bool),
    Str(Seq<char>),
    List(Seq<ValueV>),
    BuiltinFunction(Builtin),
    Function(Seq<Seq<char>>, Seq<HirV>),
    Nil,
}

/// The view of a runtime value.
pub open spec fn value_view(v: Value) -> ValueV
    decreases v,
{
    match v {
        Value::Int(i) => ValueV::Int(i),
        Value::Bool(b) => ValueV::Bool(b),
        Value::Str(s) => ValueV::Str(s@),
        Value::List(vs) => ValueV::List(values_view(vs@)),
        Value::BuiltinFunction(b) => ValueV::BuiltinFunction(b),
        Value::Function(ps, b) => ValueV::Function(names_view(ps@), hirs_view(b@)),
        Value::Nil => ValueV::Nil,
    }
}

/// The view of a sequence of runtime values.
pub open spec fn values_view(vs: Seq<Value>) -> Seq<ValueV>
    decreases vs,
{
    if vs.len() == 0 {
        Seq::empty()
    } else {
        seq![value_view(vs[0])] + values_view(vs.subrange(1, vs.len() as int))
    }
}

impl View for Value {
    type V = ValueV;

    open spec fn view(&self) -> ValueV {
        value_view(*self)
    }
}

/// Every view of a value sequence views each element in place.
pub proof fn lemma_values_view(vs: Seq<Value>)
    ensures
        values_view(vs).len() == vs.len(),
        forall|i: int| 0 <= i < vs.len() ==> values_view(vs)[i] == value_view(vs[i]),
    decreases vs,
{
    if vs.len() > 0 {
        lemma_values_view(vs.subrange(1, vs.len() as int));
    }
}

/// The view of an evaluation result.
pub open spec fn res_value_view(r: Result<Value, Error>) -> Result<ValueV, ErrorV> {
    match r {
        Ok(v) => Ok(value_view(v)),
        Err(e) => Err(error_view(e)),
    }
}

/// The view of an equality-test result.
pub open spec fn res_bool_view(r: Result<bool, Error>) -> Result<bool, ErrorV> {
    match r {
        Ok(b) => Ok(b),
        Err(e) => Err(error_view(e)),
    }
}

/// A deep copy of a runtime value, with the same view.
pub fn clone_value(v: &Value) -> (r: Value)
    ensures
        r@ == v@,
    decreases *v,
{
    match v {
        Value::Int(i) => Value::Int(*i),
        Value::Bool(b) => Value::Bool(*b),
        Value::Str(s) => Value::Str(s.clone()),
        Value::List(vs) => Value::List(clone_values(vs)),
        Value::BuiltinFunction(b) => Value::BuiltinFunction(*b),
        Value::Function(ps, b) => Value::Function(clone_names(ps), clone_hirs(b)),
        Value::Nil => Value::Nil,
    }
}

/// A deep copy of a value list, with the same view.
pub fn clone_values(vs: &Vec<Value>) -> (r: Vec<Value>)
    ensures
        values_view(r@) == values_view(vs@),
    decreases *vs,
{
    let mut out: Vec<Value> = Vec::new();
    let n = vs.len();
    for i in 0..n
        invariant
            n == vs@.len(),
            out@.len() == i,
            forall|j: int| 0 <= j < i ==> value_view(#[trigger] out@[j]) == value_view(vs@[j]),
        decreases n - i,
    {
        out.push(clone_value(&vs[i]));
    }
    proof {
        lemma_values_view(out@);
        lemma_values_view(vs@);
        assert(values_view(out@) =~= values_view(vs@));
    }
    out
}

// ---------------------------------------------------------------------------
// Binary operator semantics
// ---------------------------------------------------------------------------

/// What addition yields: integers add (wrapping on overflow); anything else
/// violates the arithmetic invariant.
pub open spec fn v_add(a: ValueV, b: ValueV) -> Result<ValueV, ErrorV> {
    match (a, b) {
        (ValueV::Int(x), ValueV::Int(y)) => Ok(ValueV::Int(x.wrapping_add(y))),
        _ => Err(ErrorV::InvalidOperation("Arithmetic needs integer operands"@)),
    }
}

/// What subtraction yields.
pub open spec fn v_sub(a: ValueV, b: ValueV) -> Result<ValueV, ErrorV> {
    match (a, b) {
        (ValueV::Int(x), ValueV::Int(y)) => Ok(ValueV::Int(x.wrapping_sub(y))),
        _ => Err(ErrorV::InvalidOperation("Arithmetic needs integer operands"@)),
    }
}

/// What division yields: truncated integer division; dividing by zero, or
/// the one overflowing quotient, is a runtime error.
pub open spec fn v_div(a: ValueV, b: ValueV) -> Result<ValueV, ErrorV> {
    match (a, b) {
        (ValueV::Int(x), ValueV::Int(y)) => match x.checked_div(y) {
            Some(q) => Ok(ValueV::Int(q)),
            None => if y == 0 {
                Err(ErrorV::InvalidOperation("Division by zero"@))
            } else {
                Err(ErrorV::InvalidOperation("Division overflow"@))
            },
        },
        _ => Err(ErrorV::InvalidOperation("Arithmetic needs integer operands"@)),
    }
}

/// Lexicographic order on character sequences, by code point; a proper
/// prefix comes first.
pub open spec fn lex_lt(a: Seq<char>, b: Seq<char>) -> bool
    decreases a.len(),
{
    if b.len() == 0 {
        false
    } else if a.len() == 0 {
        true
    } else if (a[0] as u32) < (b[0] as u32) {
        true
    } else if (b[0] as u32) < (a[0] as u32) {
        false
    } else {
        lex_lt(a.subrange(1, a.len() as int), b.subrange(1, b.len() as int))
    }
}

/// Whether one string comes strictly before another, lexicographically by
/// code point.
#[verifier::loop_isolation(false)]
pub fn str_lt(a: &String, b: &String) -> (r: bool)
    ensures
        r == lex_lt(a@, b@),
{
    let alen = a.as_str().unicode_len();
    let blen = b.as_str().unicode_len();
    let n = if alen < blen {
        alen
    } else {
        blen
    };
    proof {
        assert(a@.subrange(0, alen as int) =~= a@);
        assert(b@.subrange(0, blen as int) =~= b@);
    }
    for i in 0..n
        invariant
            alen == a@.len(),
            blen == b@.len(),
            n == (if alen < blen {
                alen
            } else {
                blen
            }),
            lex_lt(a@, b@) == lex_lt(
                a@.subrange(i as int, alen as int),
                b@.subrange(i as int, blen as int),
            ),
        decreases n - i,
    {
        let ca = a.as_str().get_char(i);
        let cb = b.as_str().get_char(i);
        proof {
            assert(a@.subrange(i as int, alen as int)[0] == a@[i as int]);
            assert(b@.subrange(i as int, blen as int)[0] == b@[i as int]);
        }
        if (ca as u32) < (cb as u32) {
            return true;
        }
        if (cb as u32) < (ca as u32) {
            return false;
        }
        proof {
            assert(a@.subrange(i as int, alen as int).subrange(
                1,
                (alen - i) as int,
            ) =~= a@.subrange(i + 1, alen as int));
            assert(b@.subrange(i as int, blen as int).subrange(
                1,
                (blen - i) as int,
            ) =~= b@.subrange(i + 1, blen as int));
        }
    }
    alen < blen
}

/// What an ordering comparison yields: two integers compare as integers,
/// two booleans with `false` below `true`, two strings lexicographically;
/// anything else is a runtime error.
pub open spec fn v_order(op: Operator, a: ValueV, b: ValueV) -> Result<ValueV, ErrorV> {
    match (a, b) {
        (ValueV::Int(x), ValueV::Int(y)) => match op {
            Operator::GreaterThan => Ok(ValueV::Bool(x > y)),
            Operator::LessThan => Ok(ValueV::Bool(x < y)),
            Operator::LessOrEqual => Ok(ValueV::Bool(x <= y)),
            _ => Err(ErrorV::InvalidOperation("Unsupported operator"@)),
        },
        (ValueV::Bool(p), ValueV::Bool(q)) => match op {
            Operator::GreaterThan => Ok(ValueV::Bool(p && !q)),
            Operator::LessThan => Ok(ValueV::Bool(!p && q)),
            Operator::LessOrEqual => Ok(ValueV::Bool(!p || q)),
            _ => Err(ErrorV::InvalidOperation("Unsupported operator"@)),
        },
        (ValueV::Str(s), ValueV::Str(t)) => match op {
            Operator::GreaterThan => Ok(ValueV::Bool(lex_lt(t, s))),
            Operator::LessThan => Ok(ValueV::Bool(lex_lt(s, t))),
            Operator::LessOrEqual => Ok(ValueV::Bool(!lex_lt(t, s))),
            _ => Err(ErrorV::InvalidOperation("Unsupported operator"@)),
        },
        _ => Err(
            ErrorV::InvalidOperation("Comparison needs operands of the same primitive type"@),
        ),
    }
}

/// What an equality test yields: primitives and lists compare structurally,
/// values of different kinds are unequal, and function values cannot be
/// compared.
pub open spec fn v_eq(a: ValueV, b: ValueV) -> Result<bool, ErrorV>
    decreases a, 0int,
{
    match (a, b) {
        (ValueV::Int(x), ValueV::Int(y)) => Ok(x == y),
        (ValueV::Bool(p), ValueV::Bool(q)) => Ok(p == q),
        (ValueV::Str(s), ValueV::Str(t)) => Ok(s == t),
        (ValueV::Nil, ValueV::Nil) => Ok(true),
        (ValueV::List(xs), ValueV::List(ys)) => if xs.len() != ys.len() {
            Ok(false)
        } else {
            v_eq_lists(xs, ys, 0)
        },
        (ValueV::BuiltinFunction(_), _) => Err(
            ErrorV::InvalidOperation("Cannot compare function values"@),
        ),
        (_, ValueV::BuiltinFunction(_)) => Err(
            ErrorV::InvalidOperation("Cannot compare function values"@),
        ),
        (ValueV::Function(_, _), _) => Err(
            ErrorV::InvalidOperation("Cannot compare function values"@),
        ),
        (_, ValueV::Function(_, _)) => Err(
            ErrorV::InvalidOperation("Cannot compare function values"@),
        ),
        _ => Ok(false),
    }
}

/// Elementwise equality of two equally long lists, from position `i` on.
pub open spec fn v_eq_lists(xs: Seq<ValueV>, ys: Seq<ValueV>, i: int) -> Result<bool, ErrorV>
    decreases xs, xs.len() - i,
{
    if i < 0 || xs.len() != ys.len() {
        Ok(false)
    } else if i >= xs.len() {
        Ok(true)
    } else {
        match v_eq(xs[i], ys[i]) {
            Err(e) => Err(e),
            Ok(false) => Ok(false),
            Ok(true) => v_eq_lists(xs, ys, i + 1),
        }
    }
}

/// What one binary operator application yields, both operands evaluated.
pub open spec fn v_binary(op: Operator, a: ValueV, b: ValueV) -> Result<ValueV, ErrorV> {
    match op {
        Operator::Add => v_add(a, b),
        Operator::Sub => v_sub(a, b),
        Operator::Div => v_div(a, b),
        Operator::GreaterThan => v_order(op, a, b),
        Operator::LessThan => v_order(op, a, b),
        Operator::LessOrEqual => v_order(op, a, b),
        Operator::EqTo => match v_eq(a, b) {
            Ok(r) => Ok(ValueV::Bool(r)),
            Err(e) => Err(e),
        },
        Operator::Or => match (a, b) {
            (ValueV::Bool(p), ValueV::Bool(q)) => Ok(ValueV::Bool(p || q)),
            _ => Err(ErrorV::InvalidOperation("Only boolean types allowed in Or operations"@)),
        },
        Operator::And => match (a, b) {
            (ValueV::Bool(p), ValueV::Bool(q)) => Ok(ValueV::Bool(p && q)),
            _ => Err(ErrorV::InvalidOperation("Only boolean types allowed in Or operations"@)),
        },
        Operator::SumTo => Err(ErrorV::InvalidOperation("Unsupported operator"@)),
    }
}

impl Value {
    /// Addition on runtime values.
    pub fn add(self, other: Value) -> (r: Result<Value, Error>)
        ensures
            res_value_view(r) == v_add(self@, other@),
    {
        match (self, other) {
            (Value::Int(x), Value::Int(y)) => Ok(Value::Int(x.wrapping_add(y))),
            _ => Err(Error::InvalidOperation(
                String::from_str("Arithmetic needs integer operands"),
            )),
        }
    }

    /// Subtraction on runtime values.
    pub fn sub(self, other: Value) -> (r: Result<Value, Error>)
        ensures
            res_value_view(r) == v_sub(self@, other@),
    {
        match (self, other) {
            (Value::Int(x), Value::Int(y)) => Ok(Value::Int(x.wrapping_sub(y))),
            _ => Err(Error::InvalidOperation(
                String::from_str("Arithmetic needs integer operands"),
            )),
        }
    }

    /// Division on runtime values.
    pub fn div(self, other: Value) -> (r: Result<Value, Error>)
        ensures
            res_value_view(r) == v_div(self@, other@),
    {
        match (self, other) {
            (Value::Int(x), Value::Int(y)) => match x.checked_div(y) {
                Some(q) => Ok(Value::Int(q)),
                None => if y == 0 {
                    Err(Error::InvalidOperation(String::from_str("Division by zero")))
                } else {
                    Err(Error::InvalidOperation(String::from_str("Division overflow")))
                },
            },
            _ => Err(Error::InvalidOperation(
                String::from_str("Arithmetic needs integer operands"),
            )),
        }
    }
}

/// Equality of two runtime values, as the `==` operator of the language.
pub fn value_eq(a: &Value, b: &Value) -> (r: Result<bool, Error>)
    ensures
        res_bool_view(r) == v_eq(a@, b@),
    decreases *a, 0int,
{
    match (a, b) {
        (Value::Int(x), Value::Int(y)) => Ok(*x == *y),
        (Value::Bool(p), Value::Bool(q)) => Ok(*p == *q),
        (Value::Str(s), Value::Str(t)) => Ok(*s == *t),
        (Value::Nil, Value::Nil) => Ok(true),
        (Value::List(xs), Value::List(ys)) => {
            proof {
                lemma_values_view(xs@);
                lemma_values_view(ys@);
            }
            if xs.len() != ys.len() {
                Ok(false)
            } else {
                value_eq_lists(xs, ys, 0)
            }
        },
        (Value::BuiltinFunction(_), _) => Err(Error::InvalidOperation(
            String::from_str("Cannot compare function values"),
        )),
        (_, Value::BuiltinFunction(_)) => Err(Error::InvalidOperation(
            String::from_str("Cannot compare function values"),
        )),
        (Value::Function(_, _), _) => Err(Error::InvalidOperation(
            String::from_str("Cannot compare function values"),
        )),
        (_, Value::Function(_, _)) => Err(Error::InvalidOperation(
            String::from_str("Cannot compare function values"),
        )),
        _ => Ok(false),
    }
}

/// Elementwise equality of two equally long value lists, from `i` on.
fn value_eq_lists(xs: &Vec<Value>, ys: &Vec<Value>, i: usize) -> (r: Result<bool, Error>)
    requires
        xs@.len() == ys@.len(),
        i <= xs@.len(),
    ensures
        res_bool_view(r) == v_eq_lists(values_view(xs@), values_view(ys@), i as int),
    decreases *xs, xs@.len() - i,
{
    proof {
        lemma_values_view(xs@);
        lemma_values_view(ys@);
    }
    if i == xs.len() {
        Ok(true)
    } else {
        match value_eq(&xs[i], &ys[i]) {
            Err(e) => Err(e),
            Ok(false) => Ok(false),
            Ok(true) => value_eq_lists(xs, ys, i + 1),
        }
    }
}

/// One binary operator application, both operands already evaluated.
pub fn apply_binary(op: Operator, lhs: Value, rhs: Value) -> (r: Result<Value, Error>)
    ensures
        res_value_view(r) == v_binary(op, lhs@, rhs@),
{
    match op {
        Operator::Add => lhs.add(rhs),
        Operator::Sub => lhs.sub(rhs),
        Operator::Div => lhs.div(rhs),
        Operator::GreaterThan => match (lhs, rhs) {
            (Value::Int(x), Value::Int(y)) => Ok(Value::Bool(x > y)),
            (Value::Bool(p), Value::Bool(q)) => Ok(Value::Bool(p && !q)),
            (Value::Str(s), Value::Str(t)) => Ok(Value::Bool(str_lt(&t, &s))),
            _ => Err(Error::InvalidOperation(
                String::from_str("Comparison needs operands of the same primitive type"),
            )),
        },
        Operator::LessThan => match (lhs, rhs) {
            (Value::Int(x), Value::Int(y)) => Ok(Value::Bool(x < y)),
            (Value::Bool(p), Value::Bool(q)) => Ok(Value::Bool(!p && q)),
            (Value::Str(s), Value::Str(t)) => Ok(Value::Bool(str_lt(&s, &t))),
            _ => Err(Error::InvalidOperation(
                String::from_str("Comparison needs operands of the same primitive type"),
            )),
        },
        Operator::LessOrEqual => match (lhs, rhs) {
            (Value::Int(x), Value::Int(y)) => Ok(Value::Bool(x <= y)),
            (Value::Bool(p), Value::Bool(q)) => Ok(Value::Bool(!p || q)),
            (Value::Str(s), Value::Str(t)) => Ok(Value::Bool(!str_lt(&t, &s))),
            _ => Err(Error::InvalidOperation(
                String::from_str("Comparison needs operands of the same primitive type"),
            )),
        },
        Operator::EqTo => match value_eq(&lhs, &rhs) {
            Ok(r) => Ok(Value::Bool(r)),
            Err(e) => Err(e),
        },
        Operator::Or => match (lhs, rhs) {
            (Value::Bool(p), Value::Bool(q)) => Ok(Value::Bool(p || q)),
            _ => Err(Error::InvalidOperation(
                String::from_str("Only boolean types allowed in Or operations"),
            )),
        },
        Operator::And => match (lhs, rhs) {
            (Value::Bool(p), Value::Bool(q)) => Ok(Value::Bool(p && q)),
            _ => Err(Error::InvalidOperation(
                String::from_str("Only boolean types allowed in Or operations"),
            )),
        },
        Operator::SumTo => Err(Error::InvalidOperation(String::from_str("Unsupported operator"))),
    }
}

} // verus!
