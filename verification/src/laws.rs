//! Properties of the pipeline, stated over the spec typechecker and the
//! spec evaluator and proved once and for all.

use vstd::prelude::*;
use vstd::arithmetic::div_mod::{
    lemma_div_by_multiple, lemma_div_nonincreasing, lemma_div_pos_is_pos,
    lemma_fundamental_div_mod, lemma_mod_bound,
};

use crate::ast::{
    fully_typed, lemma_every_node_typed, ExprV, HirV, LitV, Operator, Primitive, Type,
    type_of_node,
};
use crate::interpreter::value::{v_div, ValueV};
use crate::interpreter::{spec_eval, spec_eval_block, StateV};
use crate::type_checker::{tc_expr, tc_prog, CtxV};

verus! {

/// Whether a runtime value has the kind a primitive type announces. Only
/// the three value-carrying primitives claim a kind.
pub open spec fn kind_matches(t: Type, v: ValueV) -> bool {
    match t {
        Type::Primitive(Primitive::Int) => v is Int,
        Type::Primitive(Primitive::Bool) => v is Bool,
        Type::Primitive(Primitive::Str) => v is Str,
        _ => true,
    }
}

/// A surface expression that is a bare literal.
pub open spec fn is_literal_expr(e: ExprV) -> bool {
    e is Int || e is Bool || e is Str
}

/// Every node a typechecked program holds, other than the `Nothing`
/// placeholder, carries a well-defined type.
pub proof fn lemma_typecheck_fully_typed(ctx: CtxV, ss: Seq<crate::ast::StmtV>)
    ensures
        (match tc_prog(ctx, ss, 0).0 {
            Ok(hs) => forall|i: int| 0 <= i < hs.len() ==> fully_typed(#[trigger] hs[i]),
            Err(_) => true,
        }),
{
    match tc_prog(ctx, ss, 0).0 {
        Ok(hs) => {
            assert forall|i: int| 0 <= i < hs.len() implies fully_typed(#[trigger] hs[i]) by {
                lemma_every_node_typed(hs[i]);
            }
        },
        Err(_) => {},
    }
}

/// When a literal, or a binary expression over two literals, typechecks
/// and then evaluates without error, the runtime kind of the value matches
/// the node's static type. (The claim does not extend to call nodes: a
/// call to an unknown callee is typed `Int` whatever its callee returns.)
pub proof fn lemma_eval_kind_matches(ctx: CtxV, st: StateV, e: ExprV, fuel: nat)
    requires
        is_literal_expr(e) || (match e {
            ExprV::Binary(l, _, r) => is_literal_expr(*l) && is_literal_expr(*r),
            _ => false,
        }),
    ensures
        (match tc_expr(ctx, e).0 {
            Ok(h) => match spec_eval(st, h, fuel).0 {
                Ok(v) => kind_matches(type_of_node(h), v),
                Err(_) => true,
            },
            Err(_) => true,
        }),
{
    reveal_with_fuel(tc_expr, 3);
    reveal_with_fuel(spec_eval, 3);
}

/// After a successful assignment, reading the variable back yields exactly
/// the value the right-hand side evaluated to, and leaves the state as the
/// assignment left it.
pub proof fn lemma_assign_then_var(
    st: StateV,
    n: Seq<char>,
    rhs: HirV,
    t1: Type,
    t2: Type,
    fuel: nat,
    fuel2: nat,
)
    requires
        spec_eval(st, HirV::Assign(n, Box::new(rhs), t1), fuel).0 is Ok,
    ensures
        ({
            let (ra, st1) = spec_eval(st, HirV::Assign(n, Box::new(rhs), t1), fuel);
            let (rv, _) = spec_eval(st, rhs, fuel);
            ra == Ok::<ValueV, crate::error::ErrorV>(ValueV::Nil) && spec_eval(
                st1,
                HirV::Var(n, t2),
                fuel2,
            ) == (rv, st1)
        }),
{
}

/// Evaluating an integer literal yields that integer and changes nothing.
pub proof fn lemma_literal_int_eval(st: StateV, n: i32, t: Type, fuel: nat)
    ensures
        spec_eval(st, HirV::Literal(LitV::Int(n), t), fuel) == (
            Ok::<ValueV, crate::error::ErrorV>(ValueV::Int(n)),
            st,
        ),
{
}

/// Adding and then subtracting the same integer is the identity, in the
/// language's wrapping arithmetic.
pub proof fn lemma_wrap_round_trip(a: i32, b: i32)
    ensures
        a.wrapping_add(b).wrapping_sub(b) == a,
{
}

/// The program `(a + b) - b` evaluates to `a`, for every `a` and `b`.
pub proof fn lemma_add_sub_round_trip(st: StateV, a: i32, b: i32, fuel: nat)
    ensures
        ({
            let int_t = Type::Primitive(Primitive::Int);
            let sum = HirV::Binary(
                Box::new(HirV::Literal(LitV::Int(a), int_t)),
                Operator::Add,
                Box::new(HirV::Literal(LitV::Int(b), int_t)),
                int_t,
            );
            let e = HirV::Binary(
                Box::new(sum),
                Operator::Sub,
                Box::new(HirV::Literal(LitV::Int(b), int_t)),
                int_t,
            );
            spec_eval(st, e, fuel) == (Ok::<ValueV, crate::error::ErrorV>(ValueV::Int(a)), st)
        }),
{
    reveal_with_fuel(spec_eval, 4);
    lemma_wrap_round_trip(a, b);
}

/// Division succeeds and the quotient times the divisor is at most the
/// dividend, whenever the dividend is non-negative or the divisor divides
/// it evenly. (Truncated division rounds a negative inexact quotient
/// toward zero, so the bound fails there; and the one overflowing
/// quotient has no representable value at all.)
pub proof fn lemma_div_quotient_bound(a: i32, b: i32)
    requires
        b != 0,
        a >= 0 || ((a as int) % (b as int) == 0 && !(a == i32::MIN && b == -1)),
    ensures
        v_div(ValueV::Int(a), ValueV::Int(b)) is Ok,
        (match v_div(ValueV::Int(a), ValueV::Int(b)) {
            Ok(ValueV::Int(q)) => (q as int) * (b as int) <= a as int,
            _ => false,
        }),
{
    let x = a as int;
    let d = b as int;
    if x == 0 {
    } else if x > 0 && d > 0 {
        lemma_div_pos_is_pos(x, d);
        lemma_div_nonincreasing(x, d);
        lemma_fundamental_div_mod(x, d);
        lemma_mod_bound(x, d);
        assert((x / d) * d == d * (x / d)) by (nonlinear_arith);
    } else if x > 0 {
        let nd = -d;
        lemma_div_pos_is_pos(x, nd);
        lemma_div_nonincreasing(x, nd);
        lemma_fundamental_div_mod(x, nd);
        lemma_mod_bound(x, nd);
        let q0 = x / nd;
        assert((-q0) * d == nd * q0) by (nonlinear_arith)
            requires
                d == -nd,
        ;
    } else if d > 0 {
        // x < 0 and d divides x: the quotient is exact.
        lemma_fundamental_div_mod(x, d);
        let k = x / d;
        assert(x == d * k);
        assert(k < 0) by (nonlinear_arith)
            requires
                x < 0,
                d > 0,
                x == d * k,
        ;
        assert((-k) * d == -x) by (nonlinear_arith)
            requires
                x == d * k,
        ;
        lemma_div_by_multiple(-k, d);
        assert((x * -1) / d == -k);
        assert(k >= x) by (nonlinear_arith)
            requires
                d >= 1,
                k < 0,
                x == d * k,
        ;
        assert(k * d <= x);
    } else {
        // x < 0, d < 0, and d divides x: the quotient is exact.
        lemma_fundamental_div_mod(x, d);
        let k = x / d;
        assert(x == d * k);
        assert(k > 0) by (nonlinear_arith)
            requires
                x < 0,
                d < 0,
                x == d * k,
        ;
        assert(k * (-d) == -x) by (nonlinear_arith)
            requires
                x == d * k,
        ;
        lemma_div_by_multiple(k, -d);
        assert((x * -1) / (d * -1) == k);
        assert(k <= -x) by (nonlinear_arith)
            requires
                -d >= 1,
                k > 0,
                -x == k * (-d),
        ;
        if k > i32::MAX as int {
            assert(-x == k) by (nonlinear_arith)
                requires
                    k <= -x,
                    -x <= 0x8000_0000,
                    k > 0x7fff_ffff,
            ;
            assert(-d == 1) by (nonlinear_arith)
                requires
                    -x == k * (-d),
                    -x == k,
                    k > 0,
                    -d >= 1,
            ;
            assert(false);
        }
        assert(k * d == x);
    }
}

/// A conditional with a literally true guard is its then-arm; with a
/// literally false guard, its else-arm.
pub proof fn lemma_if_else_arms(
    st: StateV,
    g: bool,
    tb: Seq<HirV>,
    eb: Seq<HirV>,
    t1: Type,
    t2: Type,
    fuel: nat,
)
    ensures
        spec_eval(
            st,
            HirV::IfElse(Box::new(HirV::Literal(LitV::Bool(g), t1)), tb, eb, t2),
            fuel,
        ) == (if g {
            spec_eval_block(st, tb, 0, fuel)
        } else {
            spec_eval_block(st, eb, 0, fuel)
        }),
{
    reveal_with_fuel(spec_eval, 3);
}

} // verus!
