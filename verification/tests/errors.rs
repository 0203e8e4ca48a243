//! Boundary behaviors: every rule violation yields its error, and the
//! session never aborts.

use minilang::ast::{Ascription, Call, Expr, Function, Operator, Prog, Stmt};
use minilang::environment::Environment;
use minilang::error::Error;
use minilang::interpreter::{Interpreter, Value};
use minilang::type_checker::Typechecker;

const FUEL: u64 = 1000;

fn num(n: i32) -> Expr {
    Expr::Int(n)
}

fn boolean(b: bool) -> Expr {
    Expr::Bool(b)
}

fn var(n: &str) -> Expr {
    Expr::Var(n.to_string())
}

fn bin(l: Expr, op: Operator, r: Expr) -> Expr {
    Expr::Binary(Box::new(l), op, Box::new(r))
}

fn call(f: &str, args: Vec<Expr>) -> Expr {
    Expr::Call(Call::Function(Function { func: f.to_string(), args }))
}

fn run(prog: &Prog) -> Result<Value, Error> {
    let mut tc = Typechecker::default();
    let mut interpreter = Interpreter::new(Environment::default());
    let hirs = tc.typecheck(prog)?;
    interpreter.run(&hirs, FUEL)
}

#[test]
fn ascription_mismatch_is_type_error() {
    // let x: int = true;
    let source = Prog::Body(vec![Stmt::Assign(
        "x".to_string(),
        boolean(true),
        Ascription::Int,
    )]);
    let r = run(&source);
    assert!(matches!(r, Err(Error::TypeError(_))));
}

#[test]
fn mixed_binary_is_type_error_before_runtime() {
    // 3 + true is rejected by the typechecker, not at runtime
    let source = Prog::Body(vec![Stmt::Expr(bin(num(3), Operator::Add, boolean(true)))]);
    let mut tc = Typechecker::default();
    let r = tc.typecheck(&source);
    assert!(matches!(r, Err(Error::TypeError(_))));
}

#[test]
fn if_else_arm_mismatch_is_type_error() {
    // if true { 5 } else { false }
    let source = Prog::Body(vec![Stmt::IfElse(
        boolean(true),
        vec![Stmt::Expr(num(5))],
        vec![Stmt::Expr(boolean(false))],
    )]);
    let r = run(&source);
    assert!(matches!(r, Err(Error::TypeError(_))));
}

#[test]
fn non_boolean_condition_is_type_error() {
    // if 1 { 5 } else { 6 }
    let source = Prog::Body(vec![Stmt::IfElse(
        num(1),
        vec![Stmt::Expr(num(5))],
        vec![Stmt::Expr(num(6))],
    )]);
    let r = run(&source);
    assert!(matches!(r, Err(Error::TypeError(_))));
}

#[test]
fn undefined_variable_is_runtime_error() {
    // y (unknown names typecheck as int, so this fails at runtime)
    let source = Prog::Body(vec![Stmt::Expr(var("y"))]);
    let r = run(&source);
    assert!(matches!(r, Err(Error::InvalidOperation(_))));
}

#[test]
fn undefined_variable_message_names_it() {
    let source = Prog::Body(vec![Stmt::Expr(var("y"))]);
    match run(&source) {
        Err(Error::InvalidOperation(m)) => assert_eq!(m, "'y' is not defined".to_string()),
        other => panic!("expected a runtime error, got {:?}", other),
    }
}

#[test]
fn logical_op_with_non_bool_is_runtime_error() {
    // true && 2 typechecks as bool but fails when evaluated
    let source = Prog::Body(vec![Stmt::Expr(bin(boolean(true), Operator::And, num(2)))]);
    let mut tc = Typechecker::default();
    let hirs = tc.typecheck(&source).unwrap();
    let mut interpreter = Interpreter::new(Environment::default());
    let r = interpreter.run(&hirs, FUEL);
    assert!(matches!(r, Err(Error::InvalidOperation(_))));
}

#[test]
fn division_by_zero_is_runtime_error() {
    // 7 / 0
    let source = Prog::Body(vec![Stmt::Expr(bin(num(7), Operator::Div, num(0)))]);
    let r = run(&source);
    assert!(matches!(r, Err(Error::InvalidOperation(_))));
}

#[test]
fn undefined_function_is_runtime_error() {
    // nope(1)
    let source = Prog::Body(vec![Stmt::Expr(call("nope", vec![num(1)]))]);
    let r = run(&source);
    assert!(matches!(r, Err(Error::InvalidOperation(_))));
}

#[test]
fn calling_a_non_function_is_runtime_error() {
    // let a: int = 1; a(2);
    let source = Prog::Body(vec![
        Stmt::Assign("a".to_string(), num(1), Ascription::Int),
        Stmt::Expr(call("a", vec![num(2)])),
    ]);
    let r = run(&source);
    assert!(matches!(r, Err(Error::InvalidOperation(_))));
}

#[test]
fn reassignment_is_unsupported_at_typecheck() {
    // a = 4; (the surface re-assignment form is rejected by the typechecker)
    let source = Prog::Body(vec![Stmt::ReAssign("a".to_string(), num(4))]);
    let mut tc = Typechecker::default();
    let r = tc.typecheck(&source);
    assert!(matches!(r, Err(Error::TypeError(_))));
}

#[test]
fn while_is_unsupported_at_typecheck() {
    let source = Prog::Body(vec![Stmt::While(boolean(true), vec![Stmt::Expr(num(1))])]);
    let mut tc = Typechecker::default();
    let r = tc.typecheck(&source);
    assert!(matches!(r, Err(Error::TypeError(_))));
}

#[test]
fn fuel_exhaustion_is_runtime_error() {
    // fn g :: => int { return g(); } g();
    let source = Prog::Body(vec![
        Stmt::Func(
            "g".to_string(),
            vec![],
            vec![Stmt::Return(call("g", vec![]))],
            Ascription::Int,
        ),
        Stmt::Expr(call("g", vec![])),
    ]);
    let mut tc = Typechecker::default();
    let hirs = tc.typecheck(&source).unwrap();
    let mut interpreter = Interpreter::new(Environment::default());
    let r = interpreter.run(&hirs, 50);
    match r {
        Err(Error::InvalidOperation(m)) => {
            assert_eq!(m, "Evaluation fuel exhausted".to_string());
        },
        other => panic!("expected fuel exhaustion, got {:?}", other),
    }
}

#[test]
fn mixed_binary_message_is_the_unification_message() {
    let source = Prog::Body(vec![Stmt::Expr(bin(num(3), Operator::Add, boolean(true)))]);
    let mut tc = Typechecker::default();
    match tc.typecheck(&source) {
        Err(Error::TypeError(m)) => assert_eq!(m, "Types do not unify".to_string()),
        other => panic!("expected a type error, got {:?}", other),
    }
}

#[test]
fn ascription_mismatch_message_names_both_types() {
    let source = Prog::Body(vec![Stmt::Assign(
        "x".to_string(),
        boolean(true),
        Ascription::Int,
    )]);
    let mut tc = Typechecker::default();
    match tc.typecheck(&source) {
        Err(Error::TypeError(m)) => {
            assert_eq!(m, "Types mismatch. Expected: int but got bool".to_string());
        },
        other => panic!("expected a type error, got {:?}", other),
    }
}

#[test]
fn function_return_mismatch_message_names_both_types() {
    // fn f :: => bool { 1 }
    let source = Prog::Body(vec![Stmt::Func(
        "f".to_string(),
        vec![],
        vec![Stmt::Expr(num(1))],
        Ascription::Bool,
    )]);
    let mut tc = Typechecker::default();
    match tc.typecheck(&source) {
        Err(Error::TypeError(m)) => {
            assert_eq!(
                m,
                "Types mismatch. Expected bool as return type, but got int instead.".to_string()
            );
        },
        other => panic!("expected a type error, got {:?}", other),
    }
}

#[test]
fn bindings_before_a_failure_remain_visible() {
    // let a: int = 1; y;   -- then a is still bound in the session
    let mut repl = minilang::repl::Repl::new();
    let line1 = Prog::Body(vec![
        Stmt::Assign("a".to_string(), num(1), Ascription::Int),
        Stmt::Expr(var("y")),
    ]);
    let r1 = repl.eval_line(&line1, FUEL);
    assert!(matches!(r1, Err(Error::InvalidOperation(_))));
    let line2 = Prog::Body(vec![Stmt::Expr(var("a"))]);
    assert_eq!(repl.eval_line(&line2, FUEL).unwrap(), Value::Int(1));
}
