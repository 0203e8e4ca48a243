//! The surface abstract syntax tree, the typed intermediate representation
//! that the typechecker lowers it to, and the mathematical models of both.
//!
//! Exec values carry `String` and `Vec`; their models replace every `String`
//! by a `Seq<char>` and every `Vec` by a `Seq`, so that contracts can speak
//! of the trees as pure mathematical values.

use vstd::prelude::*;
use vstd::string::StringExecFns;

verus! {

/// A whole surface program: a sequence of statements.
#[derive(Debug, PartialEq)]
pub enum Prog {
    Body(Block),
}

pub type Block = Vec<Stmt>;

pub type HirBlock = Vec<HirExpr>;

/// A surface statement, as the parser produces it.
#[derive(Debug, PartialEq)]
pub enum Stmt {
    Expr(Expr),
    Return(Expr),
    Assign(String, Expr, Ascription),
    ReAssign(String, Expr),
    IfStatement(Expr, Vec<Stmt>),
    While(Expr, Vec<Stmt>),
    IfElse(Expr, Vec<Stmt>, Vec<Stmt>),
    Func(String, Vec<String>, Block, Ascription),
    Class(String, Block),
}

/// A surface expression, with no type information.
#[derive(Debug, PartialEq)]
pub enum Expr {
    Int(i32),
    Bool(bool),
    Str(String),
    Var(String),
    Binary(Box<Expr>, Operator, Box<Expr>),
    Call(Call),
    Function(Vec<String>, Vec<Stmt>),
    List(Vec<Expr>),
}

/// A surface call site: either a function call or the reserved class form.
#[derive(Debug, PartialEq)]
pub enum Call {
    Function(Function),
    Class(Class),
}

/// A function call: a callee name and its argument expressions.
#[derive(Debug, PartialEq)]
pub struct Function {
    pub func: String,
    pub args: Vec<Expr>,
}

/// The reserved class construction form; not part of the core language.
#[derive(Debug, PartialEq)]
pub struct Class {
    pub identifier: String,
}

/// A binary operator. `SumTo` is a reserved comprehension form.
#[derive(Debug, Clone, Copy, PartialEq, Eq, Structural)]
pub enum Operator {
    Add,
    Sub,
    Div,
    Or,
    And,
    GreaterThan,
    LessThan,
    LessOrEqual,
    EqTo,
    SumTo,
}

/// A user-written type annotation on a binding or function return.
#[derive(Debug, PartialEq)]
pub enum Ascription {
    Int,
    Bool,
    Str,
    List(Box<Ascription>),
}

/// A resolved type; the core has only primitive types.
#[derive(Debug, PartialEq)]
pub enum Type {
    Primitive(Primitive),
}

/// The primitive types. `Unit` is the type of the empty program and of
/// calls whose return type is unknown at the call site.
#[derive(Debug, PartialEq)]
pub enum Primitive {
    Int,
    Bool,
    Str,
    Unit,
    List(Box<Primitive>),
}

/// A literal constant.
#[derive(Debug, PartialEq)]
pub enum Literal {
    Bool(bool),
    Int(i32),
    String(String),
}

/// A node of the typed intermediate representation. Statements and
/// expressions are unified into one tree; every variant except `Nothing`
/// (the placeholder for an empty block) carries its resolved `Type`.
#[derive(Debug, PartialEq)]
pub enum HirExpr {
    Literal(Literal, Type),
    Binary(Box<HirExpr>, Operator, Box<HirExpr>, Type),
    Assign(String, Box<HirExpr>, Type),
    Var(String, Type),
    IfElse(Box<HirExpr>, Vec<HirExpr>, Vec<HirExpr>, Type),
    IfStatement(Box<HirExpr>, Vec<HirExpr>, Type),
    Function(String, Vec<String>, HirBlock, Type),
    Lambda(Vec<String>, Vec<HirExpr>, Type),
    List(Vec<HirExpr>, Type),
    Return(Box<HirExpr>, Type),
    Call(HirFunction, Type),
    Nothing,
}

/// A lowered call site: the callee name and the typed arguments.
#[derive(Debug, PartialEq)]
pub struct HirFunction(pub String, pub Vec<HirExpr>);

// ---------------------------------------------------------------------------
// Mathematical models
// ---------------------------------------------------------------------------

/// Model of a [`Literal`]: the string literal becomes a `Seq<char>`.
pub ghost enum LitV {
    Bool(bool),
    Int(i32),
    String(Seq<char>),
}

/// Model of a [`Stmt`].
pub ghost enum StmtV {
    Expr(ExprV),
    Return(ExprV),
    Assign(Seq<char>, ExprV, Ascription),
    ReAssign(Seq<char>, ExprV),
    IfStatement(ExprV, Seq<StmtV>),
    While(ExprV, Seq<StmtV>),
    IfElse(ExprV, Seq<StmtV>, Seq<StmtV>),
    Func(Seq<char>, Seq<Seq<char>>, Seq<StmtV>, Ascription),
    Class(Seq<char>, Seq<StmtV>),
}

/// Model of an [`Expr`].
pub ghost enum ExprV {
    Int(i32),
    Bool(bool),
    Str(Seq<char>),
    Var(Seq<char>),
    Binary(Box<ExprV>, Operator, Box<ExprV>),
    CallFunction(Seq<char>, Seq<ExprV>),
    CallClass(Seq<char>),
    Function(Seq<Seq<char>>, Seq<StmtV>),
    List(Seq<ExprV>),
}

/// Model of a [`HirExpr`].
pub ghost enum HirV {
    Literal(LitV, Type),
    Binary(Box<HirV>, Operator, Box<HirV>, Type),
    Assign(Seq<char>, Box<HirV>, Type),
    Var(Seq<char>, Type),
    IfElse(Box<HirV>, Seq<HirV>, Seq<HirV>, Type),
    IfStatement(Box<HirV>, Seq<HirV>, Type),
    Function(Seq<char>, Seq<Seq<char>>, Seq<HirV>, Type),
    Lambda(Seq<Seq<char>>, Seq<HirV>, Type),
    List(Seq<HirV>, Type),
    Return(Box<HirV>, Type),
    Call(Seq<char>, Seq<HirV>, Type),
    Nothing,
}

/// The view of a sequence of parameter names.
pub open spec fn names_view(ns: Seq<String>) -> Seq<Seq<char>>
    decreases ns.len(),
{
    if ns.len() == 0 {
        Seq::empty()
    } else {
        seq![ns[0]@] + names_view(ns.subrange(1, ns.len() as int))
    }
}

/// The view of a literal.
pub open spec fn literal_view(l: Literal) -> LitV {
    match l {
        Literal::Bool(b) => LitV::Bool(b),
        Literal::Int(i) => LitV::Int(i),
        Literal::String(s) => LitV::String(s@),
    }
}

/// The view of a surface statement.
pub open spec fn stmt_view(s: Stmt) -> StmtV
    decreases s,
{
    match s {
        Stmt::Expr(e) => StmtV::Expr(expr_view(e)),
        Stmt::Return(e) => StmtV::Return(expr_view(e)),
        Stmt::Assign(n, e, a) => StmtV::Assign(n@, expr_view(e), a),
        Stmt::ReAssign(n, e) => StmtV::ReAssign(n@, expr_view(e)),
        Stmt::IfStatement(c, b) => StmtV::IfStatement(expr_view(c), stmts_view(b@)),
        Stmt::While(c, b) => StmtV::While(expr_view(c), stmts_view(b@)),
        Stmt::IfElse(c, t, e) => StmtV::IfElse(expr_view(c), stmts_view(t@), stmts_view(e@)),
        Stmt::Func(n, ps, b, a) => StmtV::Func(n@, names_view(ps@), stmts_view(b@), a),
        Stmt::Class(n, b) => StmtV::Class(n@, stmts_view(b@)),
    }
}

/// The view of a sequence of surface statements.
pub open spec fn stmts_view(ss: Seq<Stmt>) -> Seq<StmtV>
    decreases ss,
{
    if ss.len() == 0 {
        Seq::empty()
    } else {
        seq![stmt_view(ss[0])] + stmts_view(ss.subrange(1, ss.len() as int))
    }
}

/// The view of a surface expression.
pub open spec fn expr_view(e: Expr) -> ExprV
    decreases e,
{
    match e {
        Expr::Int(i) => ExprV::Int(i),
        Expr::Bool(b) => ExprV::Bool(b),
        Expr::Str(s) => ExprV::Str(s@),
        Expr::Var(n) => ExprV::Var(n@),
        Expr::Binary(l, op, r) => ExprV::Binary(
            Box::new(expr_view(*l)),
            op,
            Box::new(expr_view(*r)),
        ),
        Expr::Call(c) => match c {
            Call::Function(f) => ExprV::CallFunction(f.func@, exprs_view(f.args@)),
            Call::Class(cl) => ExprV::CallClass(cl.identifier@),
        },
        Expr::Function(ps, b) => ExprV::Function(names_view(ps@), stmts_view(b@)),
        Expr::List(es) => ExprV::List(exprs_view(es@)),
    }
}

/// The view of a sequence of surface expressions.
pub open spec fn exprs_view(es: Seq<Expr>) -> Seq<ExprV>
    decreases es,
{
    if es.len() == 0 {
        Seq::empty()
    } else {
        seq![expr_view(es[0])] + exprs_view(es.subrange(1, es.len() as int))
    }
}

/// The view of an intermediate-representation node.
pub open spec fn hir_view(h: HirExpr) -> HirV
    decreases h,
{
    match h {
        HirExpr::Literal(l, t) => HirV::Literal(literal_view(l), t),
        HirExpr::Binary(l, op, r, t) => HirV::Binary(
            Box::new(hir_view(*l)),
            op,
            Box::new(hir_view(*r)),
            t,
        ),
        HirExpr::Assign(n, e, t) => HirV::Assign(n@, Box::new(hir_view(*e)), t),
        HirExpr::Var(n, t) => HirV::Var(n@, t),
        HirExpr::IfElse(c, tb, eb, t) => HirV::IfElse(
            Box::new(hir_view(*c)),
            hirs_view(tb@),
            hirs_view(eb@),
            t,
        ),
        HirExpr::IfStatement(c, b, t) => HirV::IfStatement(
            Box::new(hir_view(*c)),
            hirs_view(b@),
            t,
        ),
        HirExpr::Function(n, ps, b, t) => HirV::Function(n@, names_view(ps@), hirs_view(b@), t),
        HirExpr::Lambda(ps, b, t) => HirV::Lambda(names_view(ps@), hirs_view(b@), t),
        HirExpr::List(es, t) => HirV::List(hirs_view(es@), t),
        HirExpr::Return(e, t) => HirV::Return(Box::new(hir_view(*e)), t),
        HirExpr::Call(f, t) => HirV::Call(f.0@, hirs_view(f.1@), t),
        HirExpr::Nothing => HirV::Nothing,
    }
}

/// The view of a sequence of intermediate-representation nodes.
pub open spec fn hirs_view(hs: Seq<HirExpr>) -> Seq<HirV>
    decreases hs,
{
    if hs.len() == 0 {
        Seq::empty()
    } else {
        seq![hir_view(hs[0])] + hirs_view(hs.subrange(1, hs.len() as int))
    }
}

/// The view of a whole program.
pub open spec fn prog_view(p: Prog) -> Seq<StmtV> {
    match p {
        Prog::Body(ss) => stmts_view(ss@),
    }
}

impl View for Stmt {
    type V = StmtV;

    open spec fn view(&self) -> StmtV {
        stmt_view(*self)
    }
}

impl View for Expr {
    type V = ExprV;

    open spec fn view(&self) -> ExprV {
        expr_view(*self)
    }
}

impl View for HirExpr {
    type V = HirV;

    open spec fn view(&self) -> HirV {
        hir_view(*self)
    }
}

impl View for Prog {
    type V = Seq<StmtV>;

    open spec fn view(&self) -> Seq<StmtV> {
        prog_view(*self)
    }
}

/// The type a model node carries, or `None` for the `Nothing` placeholder.
pub open spec fn node_type(h: HirV) -> Option<Type> {
    match h {
        HirV::Literal(_, t) => Some(t),
        HirV::Binary(_, _, _, t) => Some(t),
        HirV::Assign(_, _, t) => Some(t),
        HirV::Var(_, t) => Some(t),
        HirV::IfElse(_, _, _, t) => Some(t),
        HirV::IfStatement(_, _, t) => Some(t),
        HirV::Function(_, _, _, t) => Some(t),
        HirV::Lambda(_, _, t) => Some(t),
        HirV::List(_, t) => Some(t),
        HirV::Return(_, t) => Some(t),
        HirV::Call(_, _, t) => Some(t),
        HirV::Nothing => None,
    }
}

/// The type a model node carries; the `Nothing` placeholder is given `Unit`,
/// the type of the empty program.
pub open spec fn type_of_node(h: HirV) -> Type {
    match node_type(h) {
        Some(t) => t,
        None => Type::Primitive(Primitive::Unit),
    }
}

/// The type an exec node carries, `Unit` for the `Nothing` placeholder.
pub open spec fn type_of_hir(h: HirExpr) -> Type {
    type_of_node(hir_view(h))
}

/// Every view of a statement sequence has the same length as the sequence
/// and views each element in place.
pub proof fn lemma_stmts_view(ss: Seq<Stmt>)
    ensures
        stmts_view(ss).len() == ss.len(),
        forall|i: int| 0 <= i < ss.len() ==> stmts_view(ss)[i] == stmt_view(ss[i]),
    decreases ss,
{
    if ss.len() > 0 {
        lemma_stmts_view(ss.subrange(1, ss.len() as int));
    }
}

/// Every view of an expression sequence views each element in place.
pub proof fn lemma_exprs_view(es: Seq<Expr>)
    ensures
        exprs_view(es).len() == es.len(),
        forall|i: int| 0 <= i < es.len() ==> exprs_view(es)[i] == expr_view(es[i]),
    decreases es,
{
    if es.len() > 0 {
        lemma_exprs_view(es.subrange(1, es.len() as int));
    }
}

/// Every view of a node sequence views each element in place.
pub proof fn lemma_hirs_view(hs: Seq<HirExpr>)
    ensures
        hirs_view(hs).len() == hs.len(),
        forall|i: int| 0 <= i < hs.len() ==> hirs_view(hs)[i] == hir_view(hs[i]),
    decreases hs,
{
    if hs.len() > 0 {
        lemma_hirs_view(hs.subrange(1, hs.len() as int));
    }
}

/// Every view of a name sequence views each element in place.
pub proof fn lemma_names_view(ns: Seq<String>)
    ensures
        names_view(ns).len() == ns.len(),
        forall|i: int| 0 <= i < ns.len() ==> names_view(ns)[i] == ns[i]@,
    decreases ns.len(),
{
    if ns.len() > 0 {
        lemma_names_view(ns.subrange(1, ns.len() as int));
    }
}

/// The view of a one-node sequence.
pub proof fn lemma_hirs_view_singleton(h: HirExpr)
    ensures
        hirs_view(seq![h]) == seq![hir_view(h)],
{
    assert(seq![h].subrange(1, 1) =~= Seq::<HirExpr>::empty());
    assert(hirs_view(Seq::<HirExpr>::empty()) == Seq::<HirV>::empty());
    assert(hirs_view(seq![h]) =~= seq![hir_view(h)]);
}

/// Every node of the tree, other than the `Nothing` placeholder, carries a
/// well-defined type.
pub open spec fn fully_typed(h: HirV) -> bool
    decreases h, 0int,
{
    let children_ok = match h {
        HirV::Literal(_, _) => true,
        HirV::Binary(l, _, r, _) => fully_typed(*l) && fully_typed(*r),
        HirV::Assign(_, e, _) => fully_typed(*e),
        HirV::Var(_, _) => true,
        HirV::IfElse(c, tb, eb, _) => fully_typed(*c) && fully_typed_seq(tb) && fully_typed_seq(
            eb,
        ),
        HirV::IfStatement(c, b, _) => fully_typed(*c) && fully_typed_seq(b),
        HirV::Function(_, _, b, _) => fully_typed_seq(b),
        HirV::Lambda(_, b, _) => fully_typed_seq(b),
        HirV::List(es, _) => fully_typed_seq(es),
        HirV::Return(e, _) => fully_typed(*e),
        HirV::Call(_, args, _) => fully_typed_seq(args),
        HirV::Nothing => true,
    };
    children_ok && (h is Nothing || node_type(h) is Some)
}

/// Every node of every tree in the sequence is typed.
pub open spec fn fully_typed_seq(hs: Seq<HirV>) -> bool
    decreases hs, hs.len(),
{
    if hs.len() == 0 {
        true
    } else {
        fully_typed(hs[0]) && fully_typed_seq(hs.subrange(1, hs.len() as int))
    }
}

/// The data model guarantees well-typedness structurally: every variant of
/// the intermediate representation except `Nothing` carries its `Type`.
pub proof fn lemma_every_node_typed(h: HirV)
    ensures
        fully_typed(h),
    decreases h, 0int,
{
    match h {
        HirV::Binary(l, _, r, _) => {
            lemma_every_node_typed(*l);
            lemma_every_node_typed(*r);
        },
        HirV::Assign(_, e, _) => {
            lemma_every_node_typed(*e);
        },
        HirV::IfElse(c, tb, eb, _) => {
            lemma_every_node_typed(*c);
            lemma_every_node_typed_seq(tb);
            lemma_every_node_typed_seq(eb);
        },
        HirV::IfStatement(c, b, _) => {
            lemma_every_node_typed(*c);
            lemma_every_node_typed_seq(b);
        },
        HirV::Function(_, _, b, _) => {
            lemma_every_node_typed_seq(b);
        },
        HirV::Lambda(_, b, _) => {
            lemma_every_node_typed_seq(b);
        },
        HirV::List(es, _) => {
            lemma_every_node_typed_seq(es);
        },
        HirV::Return(e, _) => {
            lemma_every_node_typed(*e);
        },
        HirV::Call(_, args, _) => {
            lemma_every_node_typed_seq(args);
        },
        _ => {},
    }
}

/// Every node of every tree in a sequence is typed.
pub proof fn lemma_every_node_typed_seq(hs: Seq<HirV>)
    ensures
        fully_typed_seq(hs),
    decreases hs, hs.len(),
{
    if hs.len() > 0 {
        lemma_every_node_typed(hs[0]);
        lemma_every_node_typed_seq(hs.subrange(1, hs.len() as int));
    }
}

/// A block holding one lowered node, as the typechecker emits for bodies
/// and conditional arms.
pub fn singleton_block(h: HirExpr) -> (r: Vec<HirExpr>)
    ensures
        r@ == seq![h],
        hirs_view(r@) == seq![hir_view(h)],
{
    let ghost g = h;
    let mut bv: Vec<HirExpr> = Vec::new();
    bv.push(h);
    proof {
        assert(bv@ =~= seq![g]);
        lemma_hirs_view_singleton(g);
    }
    bv
}

/// A deep copy of a primitive type, equal to the original.
pub fn clone_primitive(p: &Primitive) -> (r: Primitive)
    ensures
        r == *p,
    decreases *p,
{
    match p {
        Primitive::Int => Primitive::Int,
        Primitive::Bool => Primitive::Bool,
        Primitive::Str => Primitive::Str,
        Primitive::Unit => Primitive::Unit,
        Primitive::List(q) => Primitive::List(Box::new(clone_primitive(&**q))),
    }
}

/// A deep copy of a type, equal to the original.
pub fn clone_type(t: &Type) -> (r: Type)
    ensures
        r == *t,
{
    match t {
        Type::Primitive(p) => Type::Primitive(clone_primitive(p)),
    }
}

/// A deep copy of an ascription, equal to the original.
pub fn clone_ascription(a: &Ascription) -> (r: Ascription)
    ensures
        r == *a,
    decreases *a,
{
    match a {
        Ascription::Int => Ascription::Int,
        Ascription::Bool => Ascription::Bool,
        Ascription::Str => Ascription::Str,
        Ascription::List(b) => Ascription::List(Box::new(clone_ascription(&**b))),
    }
}

/// A deep copy of a literal, equal to the original.
pub fn clone_literal(l: &Literal) -> (r: Literal)
    ensures
        r == *l,
{
    match l {
        Literal::Bool(b) => Literal::Bool(*b),
        Literal::Int(i) => Literal::Int(*i),
        Literal::String(s) => Literal::String(s.clone()),
    }
}

/// A deep copy of a parameter-name list, with the same view.
pub fn clone_names(ns: &Vec<String>) -> (r: Vec<String>)
    ensures
        r@ == ns@,
{
    let mut out: Vec<String> = Vec::new();
    let n = ns.len();
    for i in 0..n
        invariant
            n == ns@.len(),
            out@.len() == i,
            forall|j: int| 0 <= j < i ==> out@[j] == ns@[j],
    {
        out.push(ns[i].clone());
    }
    proof {
        assert(out@ =~= ns@);
    }
    out
}

/// A deep copy of an intermediate-representation node, with the same view.
pub fn clone_hir(h: &HirExpr) -> (r: HirExpr)
    ensures
        r@ == h@,
    decreases *h,
{
    match h {
        HirExpr::Literal(l, t) => HirExpr::Literal(clone_literal(l), clone_type(t)),
        HirExpr::Binary(l, op, r0, t) => HirExpr::Binary(
            Box::new(clone_hir(&**l)),
            *op,
            Box::new(clone_hir(&**r0)),
            clone_type(t),
        ),
        HirExpr::Assign(n, e, t) => HirExpr::Assign(
            n.clone(),
            Box::new(clone_hir(&**e)),
            clone_type(t),
        ),
        HirExpr::Var(n, t) => HirExpr::Var(n.clone(), clone_type(t)),
        HirExpr::IfElse(c, tb, eb, t) => HirExpr::IfElse(
            Box::new(clone_hir(&**c)),
            clone_hirs(tb),
            clone_hirs(eb),
            clone_type(t),
        ),
        HirExpr::IfStatement(c, b, t) => HirExpr::IfStatement(
            Box::new(clone_hir(&**c)),
            clone_hirs(b),
            clone_type(t),
        ),
        HirExpr::Function(n, ps, b, t) => HirExpr::Function(
            n.clone(),
            clone_names(ps),
            clone_hirs(b),
            clone_type(t),
        ),
        HirExpr::Lambda(ps, b, t) => HirExpr::Lambda(
            clone_names(ps),
            clone_hirs(b),
            clone_type(t),
        ),
        HirExpr::List(es, t) => HirExpr::List(clone_hirs(es), clone_type(t)),
        HirExpr::Return(e, t) => HirExpr::Return(Box::new(clone_hir(&**e)), clone_type(t)),
        HirExpr::Call(f, t) => HirExpr::Call(
            HirFunction(f.0.clone(), clone_hirs(&f.1)),
            clone_type(t),
        ),
        HirExpr::Nothing => HirExpr::Nothing,
    }
}

/// A deep copy of a node list, with the same view.
pub fn clone_hirs(hs: &Vec<HirExpr>) -> (r: Vec<HirExpr>)
    ensures
        hirs_view(r@) == hirs_view(hs@),
    decreases *hs,
{
    let mut out: Vec<HirExpr> = Vec::new();
    let n = hs.len();
    for i in 0..n
        invariant
            n == hs@.len(),
            out@.len() == i,
            forall|j: int| 0 <= j < i ==> hir_view(#[trigger] out@[j]) == hir_view(hs@[j]),
        decreases n - i,
    {
        out.push(clone_hir(&hs[i]));
    }
    proof {
        lemma_hirs_view(out@);
        lemma_hirs_view(hs@);
        assert(hirs_view(out@) =~= hirs_view(hs@));
    }
    out
}

/// Equality of primitive types.
pub fn primitive_eq(a: &Primitive, b: &Primitive) -> (r: bool)
    ensures
        r == (*a == *b),
    decreases *a,
{
    match (a, b) {
        (Primitive::Int, Primitive::Int) => true,
        (Primitive::Bool, Primitive::Bool) => true,
        (Primitive::Str, Primitive::Str) => true,
        (Primitive::Unit, Primitive::Unit) => true,
        (Primitive::List(x), Primitive::List(y)) => primitive_eq(&**x, &**y),
        _ => false,
    }
}

/// Equality of resolved types.
pub fn type_eq(a: &Type, b: &Type) -> (r: bool)
    ensures
        r == (*a == *b),
{
    match (a, b) {
        (Type::Primitive(p), Type::Primitive(q)) => primitive_eq(p, q),
    }
}

/// The printed name of a primitive type.
pub open spec fn primitive_label_view(p: Primitive) -> Seq<char>
    decreases p,
{
    match p {
        Primitive::Int => "int"@,
        Primitive::Bool => "bool"@,
        Primitive::Str => "str"@,
        Primitive::Unit => "unit"@,
        Primitive::List(q) => "list("@ + primitive_label_view(*q) + ")"@,
    }
}

/// The printed name of a type.
pub open spec fn type_label_view(t: Type) -> Seq<char> {
    match t {
        Type::Primitive(p) => primitive_label_view(p),
    }
}

/// Renders a primitive type for error messages.
pub fn primitive_label(p: &Primitive) -> (r: String)
    ensures
        r@ == primitive_label_view(*p),
    decreases *p,
{
    match p {
        Primitive::Int => String::from_str("int"),
        Primitive::Bool => String::from_str("bool"),
        Primitive::Str => String::from_str("str"),
        Primitive::Unit => String::from_str("unit"),
        Primitive::List(q) => {
            let mut m = String::from_str("list(");
            let inner = primitive_label(&**q);
            m.append(inner.as_str());
            m.append(")");
            m
        },
    }
}

/// Renders a type for error messages.
pub fn type_label(t: &Type) -> (r: String)
    ensures
        r@ == type_label_view(*t),
{
    match t {
        Type::Primitive(p) => primitive_label(p),
    }
}

/// The resolved type of a borrowed node; `Unit` for the `Nothing`
/// placeholder.
pub fn hir_type(h: &HirExpr) -> (t: Type)
    ensures
        t == type_of_node(hir_view(*h)),
{
    match h {
        HirExpr::Literal(_, t) => clone_type(t),
        HirExpr::Binary(_, _, _, t) => clone_type(t),
        HirExpr::Assign(_, _, t) => clone_type(t),
        HirExpr::Var(_, t) => clone_type(t),
        HirExpr::IfElse(_, _, _, t) => clone_type(t),
        HirExpr::IfStatement(_, _, t) => clone_type(t),
        HirExpr::Function(_, _, _, t) => clone_type(t),
        HirExpr::Lambda(_, _, t) => clone_type(t),
        HirExpr::List(_, t) => clone_type(t),
        HirExpr::Return(_, t) => clone_type(t),
        HirExpr::Call(_, t) => clone_type(t),
        HirExpr::Nothing => Type::Primitive(Primitive::Unit),
    }
}

impl vstd::std_specs::convert::FromSpecImpl<HirExpr> for Type {
    open spec fn obeys_from_spec() -> bool {
        true
    }

    open spec fn from_spec(h: HirExpr) -> Type {
        type_of_hir(h)
    }
}

impl From<HirExpr> for Type {
    /// The resolved type of an intermediate-representation node.
    fn from(hir: HirExpr) -> (t: Type)
    {
        match hir {
            HirExpr::Literal(_, t) => t,
            HirExpr::Binary(_, _, _, t) => t,
            HirExpr::Assign(_, _, t) => t,
            HirExpr::Var(_, t) => t,
            HirExpr::IfElse(_, _, _, t) => t,
            HirExpr::IfStatement(_, _, t) => t,
            HirExpr::Function(_, _, _, t) => t,
            HirExpr::Lambda(_, _, t) => t,
            HirExpr::List(_, t) => t,
            HirExpr::Return(_, t) => t,
            HirExpr::Call(_, t) => t,
            HirExpr::Nothing => Type::Primitive(Primitive::Unit),
        }
    }
}

} // verus!
