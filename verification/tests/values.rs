//! Value semantics: arithmetic laws on concrete inputs, comparisons,
//! strings, lists, the built-ins, and session persistence.

use minilang::ast::{Ascription, Call, Expr, Function, Operator, Prog, Stmt};
use minilang::builtin::reduce;
use minilang::environment::Environment;
use minilang::error::Error;
use minilang::interpreter::{Interpreter, Value};
use minilang::repl::Repl;
use minilang::type_checker::Typechecker;

const FUEL: u64 = 1000;

fn num(n: i32) -> Expr {
    Expr::Int(n)
}

fn boolean(b: bool) -> Expr {
    Expr::Bool(b)
}

fn var(n: &str) -> Expr {
    Expr::Var(n.to_string())
}

fn bin(l: Expr, op: Operator, r: Expr) -> Expr {
    Expr::Binary(Box::new(l), op, Box::new(r))
}

fn call(f: &str, args: Vec<Expr>) -> Expr {
    Expr::Call(Call::Function(Function { func: f.to_string(), args }))
}

fn run(prog: &Prog) -> Result<Value, Error> {
    let mut tc = Typechecker::default();
    let mut interpreter = Interpreter::new(Environment::default());
    let hirs = tc.typecheck(prog)?;
    interpreter.run(&hirs, FUEL)
}

#[test]
fn literal_int_evaluates_to_itself() {
    let source = Prog::Body(vec![Stmt::Expr(num(-12))]);
    assert_eq!(run(&source).unwrap(), Value::Int(-12));
}

#[test]
fn add_then_sub_is_identity() {
    // (a + b) - b == a
    for (a, b) in [(3, 4), (-7, 9), (0, 0), (i32::MAX, 1), (i32::MIN, -1)] {
        let source = Prog::Body(vec![Stmt::Expr(bin(
            bin(num(a), Operator::Add, num(b)),
            Operator::Sub,
            num(b),
        ))]);
        assert_eq!(run(&source).unwrap(), Value::Int(a));
    }
}

#[test]
fn addition_wraps() {
    let source = Prog::Body(vec![Stmt::Expr(bin(num(i32::MAX), Operator::Add, num(1)))]);
    assert_eq!(run(&source).unwrap(), Value::Int(i32::MIN));
}

#[test]
fn division_truncates_and_quotient_bound_holds() {
    // (a / b) * b <= a for a >= 0, b != 0
    for (a, b) in [(7, 2), (7, -2), (0, 5), (9, 3), (1, 7), (-6, 2), (-6, -2)] {
        let source = Prog::Body(vec![Stmt::Expr(bin(num(a), Operator::Div, num(b)))]);
        match run(&source).unwrap() {
            Value::Int(q) => assert!(q * b <= a, "{} / {} gave {}", a, b, q),
            other => panic!("expected an integer, got {:?}", other),
        }
    }
    let source = Prog::Body(vec![Stmt::Expr(bin(num(7), Operator::Div, num(2)))]);
    assert_eq!(run(&source).unwrap(), Value::Int(3));
}

#[test]
fn if_true_is_then_arm_and_if_false_is_else_arm() {
    let source = Prog::Body(vec![Stmt::IfElse(
        boolean(true),
        vec![Stmt::Expr(num(1))],
        vec![Stmt::Expr(num(2))],
    )]);
    assert_eq!(run(&source).unwrap(), Value::Int(1));
    let source = Prog::Body(vec![Stmt::IfElse(
        boolean(false),
        vec![Stmt::Expr(num(1))],
        vec![Stmt::Expr(num(2))],
    )]);
    assert_eq!(run(&source).unwrap(), Value::Int(2));
}

#[test]
fn comparisons_on_integers() {
    let cases = [
        (Operator::LessThan, 1, 2, true),
        (Operator::LessThan, 2, 1, false),
        (Operator::GreaterThan, 2, 1, true),
        (Operator::LessOrEqual, 2, 2, true),
        (Operator::EqTo, 4, 4, true),
        (Operator::EqTo, 1, 4, false),
    ];
    for (op, a, b, expected) in cases {
        let source = Prog::Body(vec![Stmt::Expr(bin(num(a), op, num(b)))]);
        assert_eq!(run(&source).unwrap(), Value::Bool(expected));
    }
}

#[test]
fn string_ordering_is_lexicographic() {
    let cases = [
        (Operator::LessThan, "abc", "abd", true),
        (Operator::LessThan, "abd", "abc", false),
        (Operator::LessThan, "ab", "abc", true),
        (Operator::GreaterThan, "b", "a", true),
        (Operator::LessOrEqual, "same", "same", true),
    ];
    for (op, a, b, expected) in cases {
        let source = Prog::Body(vec![Stmt::Expr(bin(
            Expr::Str(a.to_string()),
            op,
            Expr::Str(b.to_string()),
        ))]);
        assert_eq!(run(&source).unwrap(), Value::Bool(expected), "{} vs {}", a, b);
    }
}

#[test]
fn string_binding_and_equality() {
    // let s: str = "hi"; s
    let source = Prog::Body(vec![
        Stmt::Assign("s".to_string(), Expr::Str("hi".to_string()), Ascription::Str),
        Stmt::Expr(var("s")),
    ]);
    assert_eq!(run(&source).unwrap(), Value::Str("hi".to_string()));
    // "a" == "a"
    let source = Prog::Body(vec![Stmt::Expr(bin(
        Expr::Str("a".to_string()),
        Operator::EqTo,
        Expr::Str("a".to_string()),
    ))]);
    assert_eq!(run(&source).unwrap(), Value::Bool(true));
}

#[test]
fn list_evaluation() {
    // [1, 2]
    let source = Prog::Body(vec![Stmt::Expr(Expr::List(vec![num(1), num(2)]))]);
    assert_eq!(
        run(&source).unwrap(),
        Value::List(vec![Value::Int(1), Value::Int(2)])
    );
}

#[test]
fn list_ascription_binds() {
    // a list node carries its element type, so an `int` ascription
    // matches a list of integers
    let source = Prog::Body(vec![
        Stmt::Assign(
            "l".to_string(),
            Expr::List(vec![num(1), num(2)]),
            Ascription::Int,
        ),
        Stmt::Expr(var("l")),
    ]);
    assert_eq!(
        run(&source).unwrap(),
        Value::List(vec![Value::Int(1), Value::Int(2)])
    );
}

#[test]
fn reduce_folds_a_list() {
    // reduce([1, 2, 3])
    let source = Prog::Body(vec![Stmt::Expr(call(
        "reduce",
        vec![Expr::List(vec![num(1), num(2), num(3)])],
    ))]);
    assert_eq!(run(&source).unwrap(), Value::Int(6));
}

#[test]
fn reduce_direct_calls() {
    let vals = vec![Value::List(vec![Value::Int(10), Value::Int(-4)])];
    assert_eq!(reduce(vals).unwrap(), Value::Int(6));
    assert!(reduce(vec![]).is_err());
    assert!(reduce(vec![Value::Int(3)]).is_err());
    assert!(reduce(vec![Value::List(vec![])]).is_err());
}

#[test]
fn println_returns_first_argument_and_logs() {
    let mut repl = Repl::new();
    let line = Prog::Body(vec![Stmt::Expr(call("println", vec![num(1), num(2)]))]);
    assert_eq!(repl.eval_line(&line, FUEL).unwrap(), Value::Int(1));
    let out = repl.take_output();
    assert_eq!(out, vec![vec![Value::Int(1), Value::Int(2)]]);
    assert!(repl.take_output().is_empty());
}

#[test]
fn assigned_variable_reads_back_the_same_value() {
    // let a: int = 41; a
    let mut repl = Repl::new();
    let line1 = Prog::Body(vec![Stmt::Assign("a".to_string(), num(41), Ascription::Int)]);
    assert_eq!(repl.eval_line(&line1, FUEL).unwrap(), Value::Nil);
    let line2 = Prog::Body(vec![Stmt::Expr(var("a"))]);
    assert_eq!(repl.eval_line(&line2, FUEL).unwrap(), Value::Int(41));
}

#[test]
fn call_scopes_are_discarded_after_the_call() {
    // fn f :: => int { let t: int = 42; } f(); t
    // the binding made inside the call must not leak into the caller
    let source = Prog::Body(vec![
        Stmt::Func(
            "f".to_string(),
            vec![],
            vec![Stmt::Assign("t".to_string(), num(42), Ascription::Int)],
            Ascription::Int,
        ),
        Stmt::Expr(call("f", vec![])),
        Stmt::Expr(var("t")),
    ]);
    let r = run(&source);
    assert!(matches!(r, Err(Error::InvalidOperation(_))));
}

#[test]
fn empty_program_evaluates_to_nil() {
    let source = Prog::Body(vec![]);
    assert_eq!(run(&source).unwrap(), Value::Nil);
}

#[test]
fn extra_call_arguments_are_ignored() {
    // let a: int = | n | => { return n }; a(4, 9);
    let source = Prog::Body(vec![
        Stmt::Assign(
            "a".to_string(),
            Expr::Function(vec!["n".to_string()], vec![Stmt::Return(var("n"))]),
            Ascription::Int,
        ),
        Stmt::Expr(call("a", vec![num(4), num(9)])),
    ]);
    assert_eq!(run(&source).unwrap(), Value::Int(4));
}
