//! Expression trees of the line grammar.

use vstd::prelude::*;

verus! {

/// A type of the line grammar.
#[derive(Debug, PartialEq)]
pub enum Type {
    Unknown,
    Unit,
    Int64,
    UInt64,
    Bool,
    /// A type that is still to be found, with its number.
    Variable(Box<VarType>),
}

/// A numbered type variable.
#[derive(Debug, PartialEq)]
pub struct VarType {
    pub id: u64,
    pub ty: Type,
}

/// A name with its type.
#[derive(Debug, PartialEq)]
pub struct TVar {
    pub s: String,
    pub ty: Type,
}

/// An operator of the line grammar.
#[derive(Debug, Clone, Copy, PartialEq, Eq, Structural)]
pub enum Operator {
    Assign,
    IAdd,
    ISub,
    IMul,
    IDiv,
    EQ,
    NE,
    LT,
    LE,
    GT,
    GE,
    LogicalAnd,
    LogicalOr,
}

/// The operands of a binary expression.
#[derive(Debug, PartialEq)]
pub struct BinaryExpr {
    pub op: Operator,
    pub lhs: Expr,
    pub rhs: Expr,
}

/// An expression of the line grammar, as a tree.
#[derive(Debug, PartialEq)]
pub enum Expr {
    Binary(Box<BinaryExpr>),
    Int64(i64),
    UInt64(u64),
    Identifier(TVar),
    Null,
    Call(TVar, Vec<Expr>),
    /// The name, the declared type, and the value.
    Val(String, TVar, Option<Box<Expr>>),
}

/// The mathematical value of a `TVar`.
pub ghost struct TVarView {
    pub s: Seq<char>,
    pub ty: Type,
}

/// The mathematical value of an `Expr`.
pub ghost enum ExprView {
    Binary(Operator, Box<ExprView>, Box<ExprView>),
    Int64(i64),
    UInt64(u64),
    Identifier(TVarView),
    Null,
    Call(TVarView, Seq<ExprView>),
    Val(Seq<char>, TVarView, Option<Box<ExprView>>),
}

impl View for TVar {
    type V = TVarView;

    open spec fn view(&self) -> TVarView {
        TVarView { s: self.s@, ty: self.ty }
    }
}

/// The value of an expression.
pub open spec fn expr_value(expr: Expr) -> ExprView
    decreases expr,
{
    match expr {
        Expr::Binary(binary) => ExprView::Binary(
            binary.op,
            Box::new(expr_value(binary.lhs)),
            Box::new(expr_value(binary.rhs)),
        ),
        Expr::Int64(value) => ExprView::Int64(value),
        Expr::UInt64(value) => ExprView::UInt64(value),
        Expr::Identifier(name) => ExprView::Identifier(name@),
        Expr::Null => ExprView::Null,
        Expr::Call(name, arguments) => ExprView::Call(
            name@,
            Seq::new(
                arguments@.len(),
                |i: int|
                    if 0 <= i < arguments@.len() {
                        expr_value(arguments@[i])
                    } else {
                        ExprView::Null
                    },
            ),
        ),
        Expr::Val(name, declared, value) => ExprView::Val(
            name@,
            declared@,
            match value {
                Some(v) => Some(Box::new(expr_value(*v))),
                None => None,
            },
        ),
    }
}

impl View for Expr {
    type V = ExprView;

    open spec fn view(&self) -> ExprView {
        expr_value(*self)
    }
}

/// The values of a sequence of expressions.
pub open spec fn exprs_view(exprs: Seq<Expr>) -> Seq<ExprView> {
    Seq::new(exprs.len(), |i: int| exprs[i]@)
}

} // verus!
