//! The grammar of single expression lines, as functions from tokens to
//! trees.

use crate::syntax::{ExprView, Operator, TVarView, Type, VarType};
use crate::token::{Token, TokenView};
use vstd::prelude::*;

verus! {

// The functions of this grammar call one another until the tokens run out.
// Where a function compares the tokens that a step left with the tokens
// before it, the comparison always holds: a step never adds tokens. It
// stands there to show that the function ends, and the branch behind it is
// never taken.

/// The outcome of a parsing step: the result, the tokens that are left,
/// and the number of the last type variable given out.
pub ghost struct Parsed<T> {
    pub result: Result<T, Seq<char>>,
    pub rest: Seq<TokenView>,
    pub id: u64,
}

/// A level of the binary operators, loosest last; `Primary` stands for the
/// operands below them all.
#[derive(Debug, Clone, Copy, PartialEq, Eq, Structural)]
pub enum Level {
    Primary,
    Mul,
    Add,
    Relational,
    Equality,
    Logical,
}

impl Level {
    /// The place of the level among the levels, tightest first.
    pub open spec fn rank(self) -> nat {
        match self {
            Level::Primary => 0,
            Level::Mul => 1,
            Level::Add => 2,
            Level::Relational => 3,
            Level::Equality => 4,
            Level::Logical => 5,
        }
    }

    /// The level of the first operand.
    pub open spec fn first(self) -> Level {
        match self {
            Level::Primary => Level::Primary,
            Level::Mul => Level::Primary,
            Level::Add => Level::Mul,
            Level::Relational => Level::Add,
            Level::Equality => Level::Relational,
            Level::Logical => Level::Equality,
        }
    }

    /// The level of the operands that follow an operator.
    pub open spec fn following(self) -> Level {
        match self {
            Level::Primary => Level::Primary,
            Level::Mul => Level::Mul,
            Level::Add => Level::Mul,
            Level::Relational => Level::Add,
            Level::Equality => Level::Relational,
            Level::Logical => Level::Relational,
        }
    }

    /// The operator of this level that `token` writes.
    pub open spec fn operator(self, token: TokenView) -> Option<Operator> {
        match self {
            Level::Primary => None,
            Level::Mul => if token == TokenView::Simple(Token::IMul) {
                Some(Operator::IMul)
            } else if token == TokenView::Simple(Token::IDiv) {
                Some(Operator::IDiv)
            } else {
                None
            },
            Level::Add => if token == TokenView::Simple(Token::IAdd) {
                Some(Operator::IAdd)
            } else if token == TokenView::Simple(Token::ISub) {
                Some(Operator::ISub)
            } else {
                None
            },
            Level::Relational => if token == TokenView::Simple(Token::LT) {
                Some(Operator::LT)
            } else if token == TokenView::Simple(Token::LE) {
                Some(Operator::LE)
            } else if token == TokenView::Simple(Token::GT) {
                Some(Operator::GT)
            } else if token == TokenView::Simple(Token::GE) {
                Some(Operator::GE)
            } else {
                None
            },
            Level::Equality => if token == TokenView::Simple(Token::DoubleEqual) {
                Some(Operator::EQ)
            } else if token == TokenView::Simple(Token::NotEqual) {
                Some(Operator::NE)
            } else {
                None
            },
            Level::Logical => if token == TokenView::Simple(Token::DoubleAnd) {
                Some(Operator::LogicalAnd)
            } else if token == TokenView::Simple(Token::DoubleOr) {
                Some(Operator::LogicalOr)
            } else {
                None
            },
        }
    }
}

/// Whether the first token is `token`.
pub open spec fn starts_with(tokens: Seq<TokenView>, token: Token) -> bool {
    tokens.len() > 0 && tokens[0] == TokenView::Simple(token)
}

/// The name of a token's variant.
pub open spec fn token_name(token: TokenView) -> Seq<char> {
    match token {
        TokenView::Simple(t) => t.name_spec(),
        TokenView::Integer(_) => "Integer"@,
        TokenView::Identifier(_) => "Identifier"@,
        TokenView::Text(_) => "String"@,
    }
}

/// The name of the first token, or `None` where none is left.
pub open spec fn describe(tokens: Seq<TokenView>) -> Seq<char> {
    if tokens.len() > 0 {
        token_name(tokens[0])
    } else {
        "None"@
    }
}

/// The number of the next type variable.
pub open spec fn fresh(id: u64) -> u64 {
    if id < u64::MAX {
        (id + 1) as u64
    } else {
        id
    }
}

/// A type variable with the number `id`.
pub open spec fn variable(id: u64) -> Type {
    Type::Variable(Box::new(VarType { id, ty: Type::Unknown }))
}

/// A step that failed with `message`.
pub open spec fn failed<T>(message: Seq<char>, rest: Seq<TokenView>, id: u64) -> Parsed<T> {
    Parsed { result: Err(message), rest, id }
}

/// A step that gave `value`.
pub open spec fn done<T>(value: T, rest: Seq<TokenView>, id: u64) -> Parsed<T> {
    Parsed { result: Ok(value), rest, id }
}

/// Takes the token `accept` if it comes next.
pub open spec fn expect_err(tokens: Seq<TokenView>, id: u64, accept: TokenView) -> Parsed<()> {
    if tokens.len() > 0 && tokens[0] == accept {
        done((), tokens.drop_first(), id)
    } else {
        failed(token_name(accept) + " expected but "@ + describe(tokens), tokens, id)
    }
}

/// `def_ty := "u64" | "i64" | identifier`
pub open spec fn parse_def_ty(tokens: Seq<TokenView>, id: u64) -> Parsed<TVarView> {
    if starts_with(tokens, Token::U64) {
        done(TVarView { s: Seq::empty(), ty: Type::UInt64 }, tokens.drop_first(), id)
    } else if starts_with(tokens, Token::I64) {
        done(TVarView { s: Seq::empty(), ty: Type::Int64 }, tokens.drop_first(), id)
    } else if tokens.len() > 0 && tokens[0] is Identifier {
        done(
            TVarView { s: tokens[0]->Identifier_0, ty: variable(fresh(id)) },
            tokens.drop_first(),
            fresh(id),
        )
    } else {
        failed("parse_def_ty: expected type but "@ + describe(tokens), tokens, id)
    }
}

/// An expression and the closing parenthesis behind it.
pub open spec fn parse_parenthesised(tokens: Seq<TokenView>, id: u64) -> Parsed<ExprView>
    decreases tokens.len(), 17nat,
{
    let inner = parse_expr(tokens, id);
    match inner.result {
        Err(_) => inner,
        Ok(node) => {
            let close = expect_err(inner.rest, inner.id, TokenView::Simple(Token::ParenClose));
            match close.result {
                Err(message) => failed(message, close.rest, close.id),
                Ok(_) => done(node, close.rest, close.id),
            }
        },
    }
}

/// What follows the identifier `name`: the arguments of a call in
/// parentheses, or nothing.
pub open spec fn parse_named(name: Seq<char>, tokens: Seq<TokenView>, id: u64) -> Parsed<ExprView>
    decreases tokens.len(), 17nat,
{
    if starts_with(tokens, Token::ParenOpen) {
        let arguments = parse_expr_list(Seq::empty(), tokens.drop_first(), fresh(id));
        match arguments.result {
            Err(message) => failed(message, arguments.rest, arguments.id),
            Ok(list) => {
                let close = expect_err(
                    arguments.rest,
                    arguments.id,
                    TokenView::Simple(Token::ParenClose),
                );
                match close.result {
                    Err(message) => failed(message, close.rest, close.id),
                    Ok(_) => done(
                        ExprView::Call(TVarView { s: name, ty: variable(fresh(id)) }, list),
                        close.rest,
                        close.id,
                    ),
                }
            },
        }
    } else {
        done(
            ExprView::Identifier(TVarView { s: name, ty: variable(fresh(id)) }),
            tokens,
            fresh(id),
        )
    }
}

/// The literal that the token writes. An integer without a suffix stands
/// for `Int64(0)`: the line grammar does not read its digits.
pub open spec fn literal(token: TokenView) -> Option<ExprView> {
    match token {
        TokenView::Simple(Token::UInt64(value)) => Some(ExprView::UInt64(value)),
        TokenView::Simple(Token::Int64(value)) => Some(ExprView::Int64(value)),
        TokenView::Integer(_) => Some(ExprView::Int64(0)),
        TokenView::Simple(Token::Null) => Some(ExprView::Null),
        _ => None,
    }
}

/// `primary := "(" expr ")" | identifier "(" expr_list ")" | identifier
///           | UInt64 | Int64 | Integer | "null"`
pub open spec fn parse_primary(tokens: Seq<TokenView>, id: u64) -> Parsed<ExprView>
    decreases tokens.len(), 0nat,
{
    if tokens.len() == 0 {
        failed("parse_primary: unexpected token None"@, tokens, id)
    } else if tokens[0] == TokenView::Simple(Token::ParenOpen) {
        parse_parenthesised(tokens.drop_first(), id)
    } else if tokens[0] is Identifier {
        parse_named(tokens[0]->Identifier_0, tokens.drop_first(), id)
    } else {
        match literal(tokens[0]) {
            Some(expr) => done(expr, tokens.drop_first(), id),
            None => failed("parse_primary: unexpected token "@ + describe(tokens), tokens, id),
        }
    }
}

/// The operators of `level` that follow the operand `lhs`, each with its
/// right operand.
pub open spec fn parse_tail(level: Level, lhs: ExprView, tokens: Seq<TokenView>, id: u64) -> Parsed<
    ExprView,
>
    decreases tokens.len(), 2 * level.rank(),
{
    if tokens.len() > 0 && level.operator(tokens[0]) is Some {
        let rhs = parse_level(level.following(), tokens.drop_first(), id);
        match rhs.result {
            Err(_) => rhs,
            Ok(operand) => if rhs.rest.len() < tokens.len() {
                parse_tail(
                    level,
                    ExprView::Binary(
                        level.operator(tokens[0])->0,
                        Box::new(lhs),
                        Box::new(operand),
                    ),
                    rhs.rest,
                    rhs.id,
                )
            } else {
                rhs
            },
        }
    } else {
        done(lhs, tokens, id)
    }
}

/// An expression of the binary operators up to `level`:
/// `level := first (operator following)*`.
pub open spec fn parse_level(level: Level, tokens: Seq<TokenView>, id: u64) -> Parsed<ExprView>
    decreases tokens.len(), 2 * level.rank() + 1,
{
    if level == Level::Primary {
        parse_primary(tokens, id)
    } else {
        let lhs = parse_level(level.first(), tokens, id);
        match lhs.result {
            Err(_) => lhs,
            Ok(operand) => if lhs.rest.len() <= tokens.len() {
                parse_tail(level, operand, lhs.rest, lhs.id)
            } else {
                lhs
            },
        }
    }
}

/// `val_def := identifier (":" def_ty)? ("=" logical_expr)?`, after `val`.
pub open spec fn parse_val_def(tokens: Seq<TokenView>, id: u64) -> Parsed<ExprView>
    decreases tokens.len(), 13nat,
{
    if tokens.len() > 0 && tokens[0] is Identifier {
        let name = tokens[0]->Identifier_0;
        let after_name = tokens.drop_first();
        let declared = if starts_with(after_name, Token::Colon) {
            parse_def_ty(after_name.drop_first(), id)
        } else {
            done(TVarView { s: Seq::empty(), ty: Type::Unknown }, after_name, id)
        };
        match declared.result {
            Err(message) => failed(message, declared.rest, declared.id),
            Ok(def_ty) => if starts_with(declared.rest, Token::Equal) && declared.rest.len()
                <= tokens.len() {
                let value = parse_level(Level::Logical, declared.rest.drop_first(), declared.id);
                match value.result {
                    Err(_) => value,
                    Ok(rhs) => done(
                        ExprView::Val(name, def_ty, Some(Box::new(rhs))),
                        value.rest,
                        value.id,
                    ),
                }
            } else {
                done(ExprView::Val(name, def_ty, None), declared.rest, declared.id)
            },
        }
    } else {
        failed("parse_val_def: expected identifier but "@ + describe(tokens), tokens, id)
    }
}

/// `assign := "val" val_def | logical_expr ("=" logical_expr)?`
pub open spec fn parse_assign(tokens: Seq<TokenView>, id: u64) -> Parsed<ExprView>
    decreases tokens.len(), 14nat,
{
    if starts_with(tokens, Token::Val) {
        parse_val_def(tokens.drop_first(), id)
    } else {
        let lhs = parse_level(Level::Logical, tokens, id);
        match lhs.result {
            Err(_) => lhs,
            Ok(target) => if starts_with(lhs.rest, Token::Equal) && lhs.rest.len() <= tokens.len() {
                let rhs = parse_level(Level::Logical, lhs.rest.drop_first(), lhs.id);
                match rhs.result {
                    Err(_) => rhs,
                    Ok(value) => done(
                        ExprView::Binary(Operator::Assign, Box::new(target), Box::new(value)),
                        rhs.rest,
                        rhs.id,
                    ),
                }
            } else {
                lhs
            },
        }
    }
}

/// `expr := assign`
pub open spec fn parse_expr(tokens: Seq<TokenView>, id: u64) -> Parsed<ExprView>
    decreases tokens.len(), 15nat,
{
    parse_assign(tokens, id)
}

/// `expr_list := "" | expr | expr "," expr_list`, up to a closing
/// parenthesis, which stays.
pub open spec fn parse_expr_list(arguments: Seq<ExprView>, tokens: Seq<TokenView>, id: u64) -> Parsed<
    Seq<ExprView>,
>
    decreases tokens.len(), 16nat,
{
    if starts_with(tokens, Token::ParenClose) {
        done(arguments, tokens, id)
    } else {
        let expr = parse_expr(tokens, id);
        match expr.result {
            Err(message) => failed(
                "parse_expr_list: expected expr: "@ + message,
                expr.rest,
                expr.id,
            ),
            Ok(argument) => if starts_with(expr.rest, Token::Comma) && expr.rest.len()
                <= tokens.len() {
                parse_expr_list(arguments.push(argument), expr.rest.drop_first(), expr.id)
            } else if starts_with(expr.rest, Token::ParenClose) {
                done(arguments.push(argument), expr.rest, expr.id)
            } else {
                failed(
                    "parse_expr_list: unexpected token "@ + describe(expr.rest),
                    expr.rest,
                    expr.id,
                )
            },
        }
    }
}

/// `expr_line := expr (NewLine | end of input)`
pub open spec fn parse_expr_line(tokens: Seq<TokenView>, id: u64) -> Parsed<ExprView> {
    let expr = parse_expr(tokens, id);
    match expr.result {
        Err(_) => expr,
        Ok(_) => if starts_with(expr.rest, Token::NewLine) {
            Parsed { rest: expr.rest.drop_first(), ..expr }
        } else if expr.rest.len() == 0 {
            expr
        } else {
            failed(
                "parse_expr: expected NewLine or EOF(None) but "@ + describe(expr.rest),
                expr.rest,
                expr.id,
            )
        },
    }
}

} // verus!
