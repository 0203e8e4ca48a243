//! The data model: node-to-type conversion and unification.

use minilang::ast::{Ascription, HirExpr, Literal, Primitive, Type};
use minilang::error::Error;
use minilang::type_checker::Typechecker;

#[test]
fn expression_to_type() {
    let ty1: Type =
        HirExpr::Literal(Literal::Bool(true), Type::Primitive(Primitive::Bool)).into();
    let expected = Type::Primitive(Primitive::Bool);
    assert_eq!(ty1, expected);
}

#[test]
fn type_is_int() {
    let ty1: Type = HirExpr::Literal(Literal::Int(80), Type::Primitive(Primitive::Int)).into();
    let expected = Type::Primitive(Primitive::Int);
    assert_eq!(ty1, expected);
}

#[test]
fn unify_equal_types() {
    let tc = Typechecker::new();
    let t = Type::Primitive(Primitive::Int);
    assert_eq!(tc.unify(&t, &t).unwrap(), Type::Primitive(Primitive::Int));
    let s = Type::Primitive(Primitive::Str);
    assert_eq!(tc.unify(&s, &s).unwrap(), Type::Primitive(Primitive::Str));
}

#[test]
fn unify_distinct_types_fails() {
    let tc = Typechecker::new();
    let t1 = Type::Primitive(Primitive::Int);
    let t2 = Type::Primitive(Primitive::Bool);
    let r = tc.unify(&t1, &t2);
    assert!(matches!(r, Err(Error::TypeError(_))));
}

#[test]
fn unify_list_types() {
    let tc = Typechecker::new();
    let l1 = Type::Primitive(Primitive::List(Box::new(Primitive::Int)));
    let l2 = Type::Primitive(Primitive::List(Box::new(Primitive::Int)));
    let l3 = Type::Primitive(Primitive::List(Box::new(Primitive::Bool)));
    assert!(tc.unify(&l1, &l2).is_ok());
    assert!(tc.unify(&l1, &l3).is_err());
}

#[test]
fn nothing_converts_to_unit() {
    let ty: Type = HirExpr::Nothing.into();
    assert_eq!(ty, Type::Primitive(Primitive::Unit));
}

#[test]
fn type_label_renders_nested_lists() {
    let t = Type::Primitive(Primitive::List(Box::new(Primitive::Int)));
    assert_eq!(minilang::ast::type_label(&t), "list(int)".to_string());
}

#[test]
fn ascription_denotes_its_type() {
    let tc = Typechecker::new();
    assert_eq!(
        tc.ascription_type(Ascription::Int),
        Type::Primitive(Primitive::Int)
    );
    assert_eq!(
        tc.ascription_type(Ascription::List(Box::new(Ascription::Str))),
        Type::Primitive(Primitive::List(Box::new(Primitive::Str)))
    );
    assert_eq!(
        tc.ascription_type(Ascription::List(Box::new(Ascription::List(Box::new(
            Ascription::Bool
        ))))),
        Type::Primitive(Primitive::List(Box::new(Primitive::List(Box::new(
            Primitive::Bool
        )))))
    );
}
