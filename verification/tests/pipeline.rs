//! End-to-end runs of the pipeline: typecheck a program, evaluate it, and
//! check the final value.

use minilang::ast::{Ascription, Call, Expr, Function, Operator, Prog, Stmt};
use minilang::environment::Environment;
use minilang::error::Error;
use minilang::interpreter::value::Builtin;
use minilang::interpreter::{Interpreter, Value};
use minilang::type_checker::Typechecker;

const FUEL: u64 = 1000;

fn num(n: i32) -> Expr {
    Expr::Int(n)
}

fn boolean(b: bool) -> Expr {
    Expr::Bool(b)
}

fn var(n: &str) -> Expr {
    Expr::Var(n.to_string())
}

fn bin(l: Expr, op: Operator, r: Expr) -> Expr {
    Expr::Binary(Box::new(l), op, Box::new(r))
}

fn call(f: &str, args: Vec<Expr>) -> Expr {
    Expr::Call(Call::Function(Function { func: f.to_string(), args }))
}

fn run(prog: &Prog) -> Result<Value, Error> {
    let mut tc = Typechecker::default();
    let mut interpreter = Interpreter::new(Environment::default());
    let hirs = tc.typecheck(prog)?;
    interpreter.run(&hirs, FUEL)
}

#[test]
fn anonymous_fn() {
    // let a: int = | n | => { return n + 1 }; a(4);
    let mut env = Environment::default();
    let mut tc = Typechecker::default();
    env.define("println".to_string(), Value::BuiltinFunction(Builtin::Println))
        .unwrap();
    let mut interpreter = Interpreter::new(env);
    let source = Prog::Body(vec![
        Stmt::Assign(
            "a".to_string(),
            Expr::Function(
                vec!["n".to_string()],
                vec![Stmt::Return(bin(var("n"), Operator::Add, num(1)))],
            ),
            Ascription::Int,
        ),
        Stmt::Expr(call("a", vec![num(4)])),
    ]);
    let tc_value = tc.typecheck(&source).unwrap();
    let res = interpreter.run(&tc_value, FUEL).unwrap();

    assert_eq!(res, Value::Int(5));
}

#[test]
fn fibonacci() {
    // fn sum :: n => int { if n < 2 { return n; } else { return sum(n-1) + sum(n-2); } }
    // let n: int = 8; sum(n);
    let env = Environment::default();
    let mut tc = Typechecker::default();
    let mut interpreter = Interpreter::new(env);
    let source = Prog::Body(vec![
        Stmt::Func(
            "sum".to_string(),
            vec!["n".to_string()],
            vec![Stmt::IfElse(
                bin(var("n"), Operator::LessThan, num(2)),
                vec![Stmt::Return(var("n"))],
                vec![Stmt::Return(bin(
                    call("sum", vec![bin(var("n"), Operator::Sub, num(1))]),
                    Operator::Add,
                    call("sum", vec![bin(var("n"), Operator::Sub, num(2))]),
                ))],
            )],
            Ascription::Int,
        ),
        Stmt::Assign("n".to_string(), num(8), Ascription::Int),
        Stmt::Expr(call("sum", vec![var("n")])),
    ]);
    let tc_value = tc.typecheck(&source).unwrap();
    let res = interpreter.run(&tc_value, FUEL).unwrap();

    assert_eq!(res, Value::Int(21));
}

#[test]
#[should_panic]
fn bool_operation() {
    // true && 2
    let env = Environment::default();
    let mut tc = Typechecker::default();
    let mut interpreter = Interpreter::new(env);
    let source = Prog::Body(vec![Stmt::Expr(bin(boolean(true), Operator::And, num(2)))]);
    let tc_value = tc.typecheck(&source).unwrap();
    let res = interpreter.run(&tc_value, FUEL).unwrap();

    assert_eq!(res, Value::Int(1));
}

#[test]
fn int_parsing() {
    // 197
    let source = Prog::Body(vec![Stmt::Expr(num(197))]);
    assert_eq!(run(&source).unwrap(), Value::Int(197));
}

#[test]
fn bool_parsing() {
    // true
    let source = Prog::Body(vec![Stmt::Expr(boolean(true))]);
    assert_eq!(run(&source).unwrap(), Value::Bool(true));
}

#[test]
fn int_printing() {
    // println(40 + 6);
    let mut env = Environment::default();
    let mut tc = Typechecker::default();
    env.define("println".to_string(), Value::BuiltinFunction(Builtin::Println))
        .unwrap();
    let mut interpreter = Interpreter::new(env);
    let source = Prog::Body(vec![Stmt::Expr(call(
        "println",
        vec![bin(num(40), Operator::Add, num(6))],
    ))]);
    let tc_value = tc.typecheck(&source).unwrap();
    let res = interpreter.run(&tc_value, FUEL).unwrap();

    assert_eq!(res, Value::Int(46));
}

#[test]
fn assignment_and_println() {
    // let x: int = 5; let a: int = x; a;
    let source = Prog::Body(vec![
        Stmt::Assign("x".to_string(), num(5), Ascription::Int),
        Stmt::Assign("a".to_string(), var("x"), Ascription::Int),
        Stmt::Expr(var("a")),
    ]);
    assert_eq!(run(&source).unwrap(), Value::Int(5));
}

#[test]
fn false_bool_parsing() {
    // false
    let source = Prog::Body(vec![Stmt::Expr(boolean(false))]);
    assert_eq!(run(&source).unwrap(), Value::Bool(false));
}

#[test]
fn binary_bool_assignment() {
    // let b: bool = false && false; b
    let source = Prog::Body(vec![
        Stmt::Assign(
            "b".to_string(),
            bin(boolean(false), Operator::And, boolean(false)),
            Ascription::Bool,
        ),
        Stmt::Expr(var("b")),
    ]);
    assert_eq!(run(&source).unwrap(), Value::Bool(false));
}

#[test]
fn if_should_not_evaluate() {
    // if false || false { 99; }
    let mut env = Environment::default();
    let mut tc = Typechecker::default();
    env.define("println".to_string(), Value::BuiltinFunction(Builtin::Println))
        .unwrap();
    let mut interpreter = Interpreter::new(env);
    let source = Prog::Body(vec![Stmt::IfStatement(
        bin(boolean(false), Operator::Or, boolean(false)),
        vec![Stmt::Expr(num(99))],
    )]);
    let tc_value = tc.typecheck(&source).unwrap();
    let res = interpreter.run(&tc_value, FUEL).unwrap();
    assert_eq!(res, Value::Nil);
}

#[test]
fn if_should_evaluate() {
    // if true { println(99); } else { println(86); }
    let mut env = Environment::default();
    let mut tc = Typechecker::default();
    env.define("println".to_string(), Value::BuiltinFunction(Builtin::Println))
        .unwrap();
    let mut interpreter = Interpreter::new(env);
    let source = Prog::Body(vec![Stmt::IfElse(
        boolean(true),
        vec![Stmt::Expr(call("println", vec![num(99)]))],
        vec![Stmt::Expr(call("println", vec![num(86)]))],
    )]);
    let tc_value = tc.typecheck(&source).unwrap();
    let res = interpreter.run(&tc_value, FUEL).unwrap();

    assert_eq!(res, Value::Int(99));
}

#[test]
fn else_evaluation() {
    // if 1 == 4 { println(99); } else { println(86); }
    let mut env = Environment::default();
    let mut tc = Typechecker::default();
    env.define("println".to_string(), Value::BuiltinFunction(Builtin::Println))
        .unwrap();
    let mut interpreter = Interpreter::new(env);
    let source = Prog::Body(vec![Stmt::IfElse(
        bin(num(1), Operator::EqTo, num(4)),
        vec![Stmt::Expr(call("println", vec![num(99)]))],
        vec![Stmt::Expr(call("println", vec![num(86)]))],
    )]);
    let tc_value = tc.typecheck(&source).unwrap();
    let res = interpreter.run(&tc_value, FUEL).unwrap();

    assert_eq!(res, Value::Int(86));
}
