//! A small, statically typechecked, tree-walking scripting language.
//!
//! The pipeline has three stages: an external parser produces the surface
//! abstract syntax tree ([`ast::Prog`]), the typechecker lowers it to a typed
//! intermediate representation ([`ast::HirExpr`]), and the evaluator walks
//! that representation against a chain of lexically nested scopes.

pub mod ast;
pub mod builtin;
pub mod environment;
pub mod error;
pub mod interpreter;
pub mod laws;
pub mod repl;
pub mod type_checker;
