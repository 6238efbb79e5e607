//! The abstract syntax tree the parser builds, and its mathematical view.
//!
//! `Expr` and `Stmt` are the executable tree; `ExprV` and `StmtV` are their
//! ghost mirrors, with names as `Seq<char>` and statement lists as `Seq`, and
//! are what every contract and grammar specification speaks of.

use vstd::prelude::*;
use crate::token::TokenKind;

verus! {

/// A literal value as it appears in the source.  A number is carried as the
/// IEEE-754 bit pattern the scanner produced.
#[derive(Debug, PartialEq)]
pub enum LiteralType {
    Boolean(bool),
    Number(u64),
    Str(String),
}

/// An expression node.  Trees are finite, immutable once built, and every
/// child is exclusively owned by its parent.
#[derive(Debug, PartialEq)]
pub enum Expr {
    Literal(LiteralType),
    Variable(String),
    Unary { op: TokenKind, right: Box<Expr> },
    Binary { left: Box<Expr>, op: TokenKind, right: Box<Expr> },
    Logical { left: Box<Expr>, op: TokenKind, right: Box<Expr> },
    Grouping(Box<Expr>),
    Assign { name: String, value: Box<Expr> },
    Get { object: Box<Expr>, name: String },
    SetProp { object: Box<Expr>, name: String, value: Box<Expr> },
    Super { name: String },
}

/// A statement node.
#[derive(Debug, PartialEq)]
pub enum Stmt {
    Let { name: String, value: Option<Expr>, is_const: bool },
    Function { name: String, params: Vec<String>, body: Box<Stmt> },
    Class { name: String, super_class: Option<String>, methods: Vec<Stmt> },
    Expr { expr: Expr },
    Print { expr: Expr },
    Return { value: Option<Expr> },
    If { condition: Expr, truthy: Box<Stmt>, falsy: Option<Box<Stmt>> },
    While { condition: Expr, body: Box<Stmt> },
    For {
        initializer: Option<Box<Stmt>>,
        condition: Option<Box<Expr>>,
        increment: Option<Box<Expr>>,
        body: Box<Stmt>,
    },
    Block { stmt: Vec<Stmt> },
}

/// Ghost mirror of [`LiteralType`].
pub enum LitV {
    Boolean(bool),
    Number(u64),
    Str(Seq<char>),
}

/// Ghost mirror of [`Expr`].
pub enum ExprV {
    Literal(LitV),
    Variable(Seq<char>),
    Unary { op: TokenKind, right: Box<ExprV> },
    Binary { left: Box<ExprV>, op: TokenKind, right: Box<ExprV> },
    Logical { left: Box<ExprV>, op: TokenKind, right: Box<ExprV> },
    Grouping(Box<ExprV>),
    Assign { name: Seq<char>, value: Box<ExprV> },
    Get { object: Box<ExprV>, name: Seq<char> },
    SetProp { object: Box<ExprV>, name: Seq<char>, value: Box<ExprV> },
    Super { name: Seq<char> },
}

/// Ghost mirror of [`Stmt`].
pub enum StmtV {
    Let { name: Seq<char>, value: Option<ExprV>, is_const: bool },
    Function { name: Seq<char>, params: Seq<Seq<char>>, body: Box<StmtV> },
    Class { name: Seq<char>, super_class: Option<Seq<char>>, methods: Seq<StmtV> },
    Expr { expr: ExprV },
    Print { expr: ExprV },
    Return { value: Option<ExprV> },
    If { condition: ExprV, truthy: Box<StmtV>, falsy: Option<Box<StmtV>> },
    While { condition: ExprV, body: Box<StmtV> },
    For {
        initializer: Option<Box<StmtV>>,
        condition: Option<Box<ExprV>>,
        increment: Option<Box<ExprV>>,
        body: Box<StmtV>,
    },
    Block { stmt: Seq<StmtV> },
}

pub open spec fn lit_view(l: LiteralType) -> LitV {
    match l {
        LiteralType::Boolean(b) => LitV::Boolean(b),
        LiteralType::Number(n) => LitV::Number(n),
        LiteralType::Str(s) => LitV::Str(s@),
    }
}

pub open spec fn expr_view(e: Expr) -> ExprV
    decreases e,
{
    match e {
        Expr::Literal(l) => ExprV::Literal(lit_view(l)),
        Expr::Variable(x) => ExprV::Variable(x@),
        Expr::Unary { op, right } => ExprV::Unary { op, right: Box::new(expr_view(*right)) },
        Expr::Binary { left, op, right } => ExprV::Binary {
            left: Box::new(expr_view(*left)),
            op,
            right: Box::new(expr_view(*right)),
        },
        Expr::Logical { left, op, right } => ExprV::Logical {
            left: Box::new(expr_view(*left)),
            op,
            right: Box::new(expr_view(*right)),
        },
        Expr::Grouping(inner) => ExprV::Grouping(Box::new(expr_view(*inner))),
        Expr::Assign { name, value } => ExprV::Assign {
            name: name@,
            value: Box::new(expr_view(*value)),
        },
        Expr::Get { object, name } => ExprV::Get {
            object: Box::new(expr_view(*object)),
            name: name@,
        },
        Expr::SetProp { object, name, value } => ExprV::SetProp {
            object: Box::new(expr_view(*object)),
            name: name@,
            value: Box::new(expr_view(*value)),
        },
        Expr::Super { name } => ExprV::Super { name: name@ },
    }
}

pub open spec fn names_view(v: Seq<String>) -> Seq<Seq<char>> {
    v.map_values(|s: String| s@)
}

pub open spec fn stmt_view(s: Stmt) -> StmtV
    decreases s,
{
    match s {
        Stmt::Let { name, value, is_const } => StmtV::Let {
            name: name@,
            value: match value {
                Some(e) => Some(expr_view(e)),
                None => None,
            },
            is_const,
        },
        Stmt::Function { name, params, body } => StmtV::Function {
            name: name@,
            params: names_view(params@),
            body: Box::new(stmt_view(*body)),
        },
        Stmt::Class { name, super_class, methods } => StmtV::Class {
            name: name@,
            super_class: match super_class {
                Some(n) => Some(n@),
                None => None,
            },
            methods: stmts_view(methods@),
        },
        Stmt::Expr { expr } => StmtV::Expr { expr: expr_view(expr) },
        Stmt::Print { expr } => StmtV::Print { expr: expr_view(expr) },
        Stmt::Return { value } => StmtV::Return {
            value: match value {
                Some(e) => Some(expr_view(e)),
                None => None,
            },
        },
        Stmt::If { condition, truthy, falsy } => StmtV::If {
            condition: expr_view(condition),
            truthy: Box::new(stmt_view(*truthy)),
            falsy: match falsy {
                Some(f) => Some(Box::new(stmt_view(*f))),
                None => None,
            },
        },
        Stmt::While { condition, body } => StmtV::While {
            condition: expr_view(condition),
            body: Box::new(stmt_view(*body)),
        },
        Stmt::For { initializer, condition, increment, body } => StmtV::For {
            initializer: match initializer {
                Some(i) => Some(Box::new(stmt_view(*i))),
                None => None,
            },
            condition: match condition {
                Some(c) => Some(Box::new(expr_view(*c))),
                None => None,
            },
            increment: match increment {
                Some(i) => Some(Box::new(expr_view(*i))),
                None => None,
            },
            body: Box::new(stmt_view(*body)),
        },
        Stmt::Block { stmt } => StmtV::Block { stmt: stmts_view(stmt@) },
    }
}

pub open spec fn stmts_view(v: Seq<Stmt>) -> Seq<StmtV>
    decreases v,
{
    if v.len() == 0 {
        Seq::empty()
    } else {
        seq![stmt_view(v[0])] + stmts_view(v.subrange(1, v.len() as int))
    }
}

impl View for Expr {
    type V = ExprV;

    open spec fn view(&self) -> ExprV {
        expr_view(*self)
    }
}

impl View for Stmt {
    type V = StmtV;

    open spec fn view(&self) -> StmtV {
        stmt_view(*self)
    }
}

/// `stmts_view` is pointwise `stmt_view`.
pub proof fn lemma_stmts_view(v: Seq<Stmt>)
    ensures
        stmts_view(v).len() == v.len(),
        forall|i: int| 0 <= i < v.len() ==> stmts_view(v)[i] == stmt_view(v[i]),
    decreases v,
{
    if v.len() > 0 {
        lemma_stmts_view(v.subrange(1, v.len() as int));
    }
}

/// Appending one statement extends the viewed sequence by its view.
pub proof fn lemma_stmts_view_push(v: Seq<Stmt>, s: Stmt)
    ensures
        stmts_view(v.push(s)) == stmts_view(v).push(stmt_view(s)),
    decreases v,
{
    reveal_with_fuel(stmts_view, 3);
    let w = v.push(s);
    if v.len() == 0 {
        assert(w[0] == s);
        assert(w.subrange(1, w.len() as int) =~= Seq::<Stmt>::empty());
        assert(stmts_view(v.push(s)) =~= stmts_view(v).push(stmt_view(s)));
    } else {
        let tail = v.subrange(1, v.len() as int);
        assert(w[0] == v[0]);
        assert(w.subrange(1, w.len() as int) =~= tail.push(s));
        lemma_stmts_view_push(tail, s);
        assert(stmts_view(w) == seq![stmt_view(v[0])] + stmts_view(tail).push(stmt_view(s)));
        assert(stmts_view(v) == seq![stmt_view(v[0])] + stmts_view(tail));
        assert((seq![stmt_view(v[0])] + stmts_view(tail)).push(stmt_view(s)) =~= seq![
            stmt_view(v[0]),
        ] + stmts_view(tail).push(stmt_view(s)));
        assert(stmts_view(v.push(s)) == stmts_view(v).push(stmt_view(s)));
    }
}

} // verus!
