//! The grammar of programs, as functions from tokens to pool nodes.

use crate::ast::{
    ExprNode, ExprRef, FunctionNode, MethodNode, Operator, ProgramNode, StmtNode, StmtRef, MAX_NODES,
};
use crate::grammar::{describe, starts_with, Level};
use crate::interner::{no_room, symbol_of, with_string};
use crate::number::parse_u64_spec;
use crate::symbol::Symbol;
use crate::token::{Token, TokenView};
use crate::type_checker::error::SourceLocation;
use crate::type_decl::Ty;
use vstd::prelude::*;

verus! {

// The functions of this grammar call one another until the tokens run out.
// Where a function compares the tokens that a step left with the tokens
// before it, the comparison always holds: a step never adds tokens. It
// stands there to show that the function ends, and the branch behind it is
// never taken.

/// The program with one more expression node, and the node's ref; an error
/// where the pool is full.
pub open spec fn with_expr(program: ProgramNode, node: ExprNode, place: Option<SourceLocation>) -> (
    ProgramNode,
    Result<ExprRef, Seq<char>>,
) {
    if program.exprs.len() >= MAX_NODES {
        (program, Err("the program has too many expressions"@))
    } else {
        (
            ProgramNode {
                exprs: program.exprs.push(node),
                expr_locations: program.expr_locations.push(place),
                ..program
            },
            Ok(ExprRef(program.exprs.len() as u32)),
        )
    }
}

/// The program with one more statement node, and the node's ref; an error
/// where the pool is full.
pub open spec fn with_stmt(program: ProgramNode, node: StmtNode, place: Option<SourceLocation>) -> (
    ProgramNode,
    Result<StmtRef, Seq<char>>,
) {
    if program.stmts.len() >= MAX_NODES {
        (program, Err("the program has too many statements"@))
    } else {
        (
            ProgramNode {
                stmts: program.stmts.push(node),
                stmt_locations: program.stmt_locations.push(place),
                ..program
            },
            Ok(StmtRef(program.stmts.len() as u32)),
        )
    }
}

/// The program with `text` interned, and the symbol of `text`; an error
/// where `text` is new and the interner has no symbol left.
pub open spec fn with_name(program: ProgramNode, text: Seq<char>) -> (
    ProgramNode,
    Result<Symbol, Seq<char>>,
) {
    if no_room(program.strings, text) {
        (program, Err("the program has too many names"@))
    } else {
        let strings = with_string(program.strings, text);
        match symbol_of(strings, text) {
            Some(symbol) => (ProgramNode { strings, ..program }, Ok(symbol)),
            None => (program, Err("the program has too many names"@)),
        }
    }
}

/// The state of parsing a program: the tokens that are still to come, the
/// places at which they start, and the program as far as it is built.
pub ghost struct Parse {
    pub tokens: Seq<TokenView>,
    pub starts: Seq<SourceLocation>,
    pub program: ProgramNode,
}

/// The outcome of a parsing step.
pub type Out<T> = (Parse, Result<T, Seq<char>>);

impl Parse {
    /// Whether the next token is `token`.
    pub open spec fn at(self, token: Token) -> bool {
        starts_with(self.tokens, token)
    }

    /// The state behind the next token.
    pub open spec fn skip(self) -> Parse {
        Parse { tokens: self.tokens.drop_first(), starts: self.starts.drop_first(), ..self }
    }

    /// The place at which the next token starts.
    pub open spec fn here(self) -> Option<SourceLocation> {
        if self.starts.len() > 0 {
            Some(self.starts[0])
        } else {
            None
        }
    }

    /// Whether the next token ends a statement: a line feed or a semicolon.
    pub open spec fn at_separator(self) -> bool {
        self.at(Token::NewLine) || self.at(Token::Semicolon)
    }

    /// Adds an expression node to the pool and gives its ref.
    pub open spec fn add_expr(self, node: ExprNode, place: Option<SourceLocation>) -> Out<ExprRef> {
        let (program, r) = with_expr(self.program, node, place);
        (Parse { program, ..self }, r)
    }

    /// Adds a statement node to the pool and gives its ref.
    pub open spec fn add_stmt(self, node: StmtNode, place: Option<SourceLocation>) -> Out<StmtRef> {
        let (program, r) = with_stmt(self.program, node, place);
        (Parse { program, ..self }, r)
    }

    /// Interns a string and gives its symbol.
    pub open spec fn intern(self, text: Seq<char>) -> Out<Symbol> {
        let (program, r) = with_name(self.program, text);
        (Parse { program, ..self }, r)
    }

    /// Takes the token `token`, which must come next.
    pub open spec fn expect(self, token: Token) -> Out<()> {
        if self.at(token) {
            (self.skip(), Ok(()))
        } else {
            (self, Err(token.name_spec() + " expected but "@ + describe(self.tokens)))
        }
    }

    /// Takes an identifier, which must come next, and interns it.
    pub open spec fn name(self) -> Out<Symbol> {
        if self.tokens.len() > 0 && self.tokens[0] is Identifier {
            self.skip().intern(self.tokens[0]->Identifier_0)
        } else {
            (self, Err("Identifier expected but "@ + describe(self.tokens)))
        }
    }

    /// A failure with a message that ends in the name of the next token.
    pub open spec fn unexpected<T>(self, message: Seq<char>) -> Out<T> {
        (self, Err(message + describe(self.tokens)))
    }
}

/// The state behind the line feeds and semicolons that come next.
pub open spec fn skip_separators(s: Parse) -> Parse
    decreases s.tokens.len(),
{
    if s.at_separator() {
        skip_separators(s.skip())
    } else {
        s
    }
}

/// The operator of `level` that `token` writes.
pub open spec fn node_operator(level: Level, token: TokenView) -> Option<Operator> {
    match level {
        Level::Primary => None,
        Level::Mul => if token == TokenView::Simple(Token::IMul) {
            Some(Operator::IMul)
        } else if token == TokenView::Simple(Token::IDiv) {
            Some(Operator::IDiv)
        } else {
            None
        },
        Level::Add => if token == TokenView::Simple(Token::IAdd) {
            Some(Operator::IAdd)
        } else if token == TokenView::Simple(Token::ISub) {
            Some(Operator::ISub)
        } else {
            None
        },
        Level::Relational => if token == TokenView::Simple(Token::LT) {
            Some(Operator::LT)
        } else if token == TokenView::Simple(Token::LE) {
            Some(Operator::LE)
        } else if token == TokenView::Simple(Token::GT) {
            Some(Operator::GT)
        } else if token == TokenView::Simple(Token::GE) {
            Some(Operator::GE)
        } else {
            None
        },
        Level::Equality => if token == TokenView::Simple(Token::DoubleEqual) {
            Some(Operator::EQ)
        } else if token == TokenView::Simple(Token::NotEqual) {
            Some(Operator::NE)
        } else {
            None
        },
        Level::Logical => if token == TokenView::Simple(Token::DoubleAnd) {
            Some(Operator::LogicalAnd)
        } else if token == TokenView::Simple(Token::DoubleOr) {
            Some(Operator::LogicalOr)
        } else {
            None
        },
    }
}

/// `type := "i64" | "u64" | "bool" | "str" | identifier
///        | "[" type ";" integer "]"`
pub open spec fn parse_type(s: Parse) -> Out<Ty>
    decreases s.tokens.len(),
{
    if s.at(Token::I64) {
        (s.skip(), Ok(Ty::Int64))
    } else if s.at(Token::U64) {
        (s.skip(), Ok(Ty::UInt64))
    } else if s.at(Token::Bool) {
        (s.skip(), Ok(Ty::Bool))
    } else if s.at(Token::Str) {
        (s.skip(), Ok(Ty::String))
    } else if s.tokens.len() > 0 && s.tokens[0] is Identifier {
        let (s1, r) = s.name();
        match r {
            Err(message) => (s1, Err(message)),
            Ok(symbol) => (s1, Ok(Ty::Identifier(symbol))),
        }
    } else if s.at(Token::BracketOpen) {
        let (s1, r1) = parse_type(s.skip());
        match r1 {
            Err(message) => (s1, Err(message)),
            Ok(element) => {
                let (s2, r2) = s1.expect(Token::Semicolon);
                match r2 {
                    Err(message) => (s2, Err(message)),
                    Ok(_) => if s2.tokens.len() > 0 && s2.tokens[0] is Integer && parse_u64_spec(
                        s2.tokens[0]->Integer_0,
                    ) is Some && parse_u64_spec(s2.tokens[0]->Integer_0)->0 <= usize::MAX {
                        let size = parse_u64_spec(s2.tokens[0]->Integer_0)->0;
                        let (s3, r3) = s2.skip().expect(Token::BracketClose);
                        match r3 {
                            Err(message) => (s3, Err(message)),
                            Ok(_) => (s3, Ok(Ty::Array(seq![element], size as nat))),
                        }
                    } else {
                        s2.unexpected("parse_type: expected array size but "@)
                    },
                }
            },
        }
    } else {
        s.unexpected("parse_type: expected type but "@)
    }
}

/// The literal that the token writes, if it is one that needs no name.
pub open spec fn plain_literal(token: TokenView) -> Option<ExprNode> {
    match token {
        TokenView::Simple(Token::Int64(value)) => Some(ExprNode::Int64(value)),
        TokenView::Simple(Token::UInt64(value)) => Some(ExprNode::UInt64(value)),
        TokenView::Simple(Token::True) => Some(ExprNode::True),
        TokenView::Simple(Token::False) => Some(ExprNode::False),
        TokenView::Simple(Token::Null) => Some(ExprNode::Null),
        _ => None,
    }
}

/// `primary := literal | identifier | identifier "(" list ")"
///           | identifier "{" fields "}" | "(" expr ")" | block | if
///           | "[" list "]"`
///
/// A struct literal is read only where `structs` allows it: not in the
/// condition of an `if` or a loop, where a brace opens the body.
pub open spec fn parse_primary(s: Parse, structs: bool) -> Out<ExprRef>
    decreases s.tokens.len(), 0nat,
{
    if s.tokens.len() == 0 {
        s.unexpected("parse_primary: unexpected token "@)
    } else {
        let place = s.here();
        match s.tokens[0] {
            TokenView::Integer(text) => {
                let (s1, r) = s.skip().intern(text);
                match r {
                    Err(message) => (s1, Err(message)),
                    Ok(symbol) => s1.add_expr(ExprNode::Number(symbol), place),
                }
            },
            TokenView::Text(text) => {
                let (s1, r) = s.skip().intern(text);
                match r {
                    Err(message) => (s1, Err(message)),
                    Ok(symbol) => s1.add_expr(ExprNode::String(symbol), place),
                }
            },
            TokenView::Identifier(text) => {
                let (s1, r) = s.skip().intern(text);
                match r {
                    Err(message) => (s1, Err(message)),
                    Ok(symbol) => parse_named(s1, symbol, place, structs),
                }
            },
            TokenView::Simple(Token::ParenOpen) => {
                let (s1, r) = parse_expr(s.skip(), true);
                match r {
                    Err(message) => (s1, Err(message)),
                    Ok(inner) => {
                        let (s2, r2) = s1.expect(Token::ParenClose);
                        match r2 {
                            Err(message) => (s2, Err(message)),
                            Ok(_) => (s2, Ok(inner)),
                        }
                    },
                }
            },
            TokenView::Simple(Token::BraceOpen) => parse_block_body(s.skip(), place),
            TokenView::Simple(Token::If) => parse_if(s.skip(), place),
            TokenView::Simple(Token::BracketOpen) => {
                let (s1, r) = parse_list(s.skip(), Token::BracketClose, Seq::empty());
                match r {
                    Err(message) => (s1, Err(message)),
                    Ok(elements) => {
                        let (s2, r2) = s1.expect(Token::BracketClose);
                        match r2 {
                            Err(message) => (s2, Err(message)),
                            Ok(_) => s2.add_expr(ExprNode::ArrayLiteral(elements), place),
                        }
                    },
                }
            },
            token => match plain_literal(token) {
                Some(node) => s.skip().add_expr(node, place),
                None => s.unexpected("parse_primary: unexpected token "@),
            },
        }
    }
}

/// What follows a name: the arguments of a call, the fields of a struct
/// literal, or nothing.
pub open spec fn parse_named(s: Parse, name: Symbol, place: Option<SourceLocation>, structs: bool) -> Out<
    ExprRef,
>
    decreases s.tokens.len(), 1nat,
{
    if s.at(Token::ParenOpen) {
        let (s1, r) = parse_list(s.skip(), Token::ParenClose, Seq::empty());
        match r {
            Err(message) => (s1, Err(message)),
            Ok(arguments) => {
                let (s2, r2) = s1.expect(Token::ParenClose);
                match r2 {
                    Err(message) => (s2, Err(message)),
                    Ok(_) => {
                        let (s3, r3) = s2.add_expr(ExprNode::ExprList(arguments), place);
                        match r3 {
                            Err(message) => (s3, Err(message)),
                            Ok(list) => s3.add_expr(ExprNode::Call(name, list), place),
                        }
                    },
                }
            },
        }
    } else if structs && s.at(Token::BraceOpen) {
        let (s1, r) = parse_fields(s.skip(), Seq::empty());
        match r {
            Err(message) => (s1, Err(message)),
            Ok(fields) => {
                let (s2, r2) = s1.expect(Token::BraceClose);
                match r2 {
                    Err(message) => (s2, Err(message)),
                    Ok(_) => s2.add_expr(ExprNode::StructLiteral(name, fields), place),
                }
            },
        }
    } else {
        s.add_expr(ExprNode::Identifier(name), place)
    }
}

/// The indexings, field accesses and method calls that follow the operand
/// `operand`.
pub open spec fn postfix_tail(s: Parse, operand: ExprRef, place: Option<SourceLocation>) -> Out<ExprRef>
    decreases s.tokens.len(), 1nat,
{
    if s.at(Token::BracketOpen) {
        let (s1, r) = parse_expr(s.skip(), true);
        match r {
            Err(message) => (s1, Err(message)),
            Ok(index) => {
                let (s2, r2) = s1.expect(Token::BracketClose);
                match r2 {
                    Err(message) => (s2, Err(message)),
                    Ok(_) => {
                        let (s3, r3) = s2.add_expr(ExprNode::ArrayAccess(operand, index), place);
                        match r3 {
                            Err(message) => (s3, Err(message)),
                            Ok(access) => if s3.tokens.len() < s.tokens.len() {
                                postfix_tail(s3, access, place)
                            } else {
                                (s3, Ok(access))
                            },
                        }
                    },
                }
            },
        }
    } else if s.at(Token::Dot) {
        let (s1, r) = s.skip().name();
        match r {
            Err(message) => (s1, Err(message)),
            Ok(member) => if s1.at(Token::ParenOpen) && s1.tokens.len() < s.tokens.len() {
                let (s2, r2) = parse_list(s1.skip(), Token::ParenClose, Seq::empty());
                match r2 {
                    Err(message) => (s2, Err(message)),
                    Ok(arguments) => {
                        let (s3, r3) = s2.expect(Token::ParenClose);
                        match r3 {
                            Err(message) => (s3, Err(message)),
                            Ok(_) => {
                                let (s4, r4) = s3.add_expr(
                                    ExprNode::MethodCall(operand, member, arguments),
                                    place,
                                );
                                match r4 {
                                    Err(message) => (s4, Err(message)),
                                    Ok(call) => if s4.tokens.len() < s.tokens.len() {
                                        postfix_tail(s4, call, place)
                                    } else {
                                        (s4, Ok(call))
                                    },
                                }
                            },
                        }
                    },
                }
            } else {
                let (s2, r2) = s1.add_expr(ExprNode::FieldAccess(operand, member), place);
                match r2 {
                    Err(message) => (s2, Err(message)),
                    Ok(access) => if s2.tokens.len() < s.tokens.len() {
                        postfix_tail(s2, access, place)
                    } else {
                        (s2, Ok(access))
                    },
                }
            },
        }
    } else {
        (s, Ok(operand))
    }
}

/// `postfix := primary ("[" expr "]" | "." name | "." name "(" list ")")*`
pub open spec fn parse_postfix(s: Parse, structs: bool) -> Out<ExprRef>
    decreases s.tokens.len(), 2nat,
{
    let place = s.here();
    let (s1, r) = parse_primary(s, structs);
    match r {
        Err(message) => (s1, Err(message)),
        Ok(operand) => if s1.tokens.len() <= s.tokens.len() {
            postfix_tail(s1, operand, place)
        } else {
            (s1, Ok(operand))
        },
    }
}

/// The operators of `level` that follow the operand `lhs`, each with its
/// right operand; they group to the left.
pub open spec fn binary_tail(
    level: Level,
    s: Parse,
    lhs: ExprRef,
    place: Option<SourceLocation>,
    structs: bool,
) -> Out<ExprRef>
    decreases s.tokens.len(), 2 * level.rank() + 2,
{
    if s.tokens.len() > 0 && node_operator(level, s.tokens[0]) is Some {
        let (s1, r) = parse_binary(level.first(), s.skip(), structs);
        match r {
            Err(message) => (s1, Err(message)),
            Ok(rhs) => {
                let (s2, r2) = s1.add_expr(
                    ExprNode::Binary(node_operator(level, s.tokens[0])->0, lhs, rhs),
                    place,
                );
                match r2 {
                    Err(message) => (s2, Err(message)),
                    Ok(node) => if s2.tokens.len() < s.tokens.len() {
                        binary_tail(level, s2, node, place, structs)
                    } else {
                        (s2, Ok(node))
                    },
                }
            },
        }
    } else {
        (s, Ok(lhs))
    }
}

/// An expression of the binary operators up to `level`.
pub open spec fn parse_binary(level: Level, s: Parse, structs: bool) -> Out<ExprRef>
    decreases s.tokens.len(), 2 * level.rank() + 3,
{
    if level == Level::Primary {
        parse_postfix(s, structs)
    } else {
        let place = s.here();
        let (s1, r) = parse_binary(level.first(), s, structs);
        match r {
            Err(message) => (s1, Err(message)),
            Ok(lhs) => if s1.tokens.len() <= s.tokens.len() {
                binary_tail(level, s1, lhs, place, structs)
            } else {
                (s1, Ok(lhs))
            },
        }
    }
}

/// `expr := logical ("=" expr)?`
pub open spec fn parse_expr(s: Parse, structs: bool) -> Out<ExprRef>
    decreases s.tokens.len(), 14nat,
{
    let place = s.here();
    let (s1, r) = parse_binary(Level::Logical, s, structs);
    match r {
        Err(message) => (s1, Err(message)),
        Ok(lhs) => if s1.at(Token::Equal) && s1.tokens.len() <= s.tokens.len() {
            let (s2, r2) = parse_expr(s1.skip(), structs);
            match r2 {
                Err(message) => (s2, Err(message)),
                Ok(rhs) => s2.add_expr(ExprNode::Assign(lhs, rhs), place),
            }
        } else {
            (s1, Ok(lhs))
        },
    }
}

/// `list := "" | expr ("," expr)*`, up to the token `closer`, which stays.
pub open spec fn parse_list(s: Parse, closer: Token, items: Seq<ExprRef>) -> Out<Seq<ExprRef>>
    decreases s.tokens.len(), 15nat,
{
    if s.at(closer) {
        (s, Ok(items))
    } else {
        let (s1, r) = parse_expr(s, true);
        match r {
            Err(message) => (s1, Err(message)),
            Ok(item) => if s1.at(Token::Comma) && s1.tokens.len() <= s.tokens.len() {
                parse_list(s1.skip(), closer, items.push(item))
            } else {
                (s1, Ok(items.push(item)))
            },
        }
    }
}

/// `fields := "" | name ":" expr ("," name ":" expr)*`, up to the closing
/// brace, which stays. Line feeds may stand between the fields.
pub open spec fn parse_fields(s: Parse, fields: Seq<(Symbol, ExprRef)>) -> Out<Seq<(Symbol, ExprRef)>>
    decreases s.tokens.len(), 15nat,
{
    let s0 = skip_separators(s);
    if s0.at(Token::BraceClose) || s0.tokens.len() > s.tokens.len() {
        (s0, Ok(fields))
    } else {
        let (s1, r1) = s0.name();
        match r1 {
            Err(message) => (s1, Err(message)),
            Ok(name) => {
                let (s2, r2) = s1.expect(Token::Colon);
                match r2 {
                    Err(message) => (s2, Err(message)),
                    Ok(_) => if s2.tokens.len() < s.tokens.len() {
                        let (s3, r3) = parse_expr(s2, true);
                        match r3 {
                            Err(message) => (s3, Err(message)),
                            Ok(value) => if s3.at(Token::Comma) && s3.tokens.len()
                                <= s2.tokens.len() {
                                parse_fields(s3.skip(), fields.push((name, value)))
                            } else {
                                (skip_separators(s3), Ok(fields.push((name, value))))
                            },
                        }
                    } else {
                        (s2, Ok(fields))
                    },
                }
            },
        }
    }
}

/// An optional type annotation: `(":" type)?`
pub open spec fn parse_annotation(s: Parse) -> Out<Option<Ty>> {
    if s.at(Token::Colon) {
        let (s1, r) = parse_type(s.skip());
        match r {
            Err(message) => (s1, Err(message)),
            Ok(ty) => (s1, Ok(Some(ty))),
        }
    } else {
        (s, Ok(None))
    }
}

/// Whether a statement ends here: at a separator, a closing brace, or the
/// end of the input.
pub open spec fn at_statement_end(s: Parse) -> bool {
    s.tokens.len() == 0 || s.at_separator() || s.at(Token::BraceClose)
}

/// `statement := "val" name (":" type)? "=" expr
///             | "var" name (":" type)? ("=" expr)?
///             | "return" expr? | "break" | "continue"
///             | "for" name "in" expr "to" expr block
///             | "while" expr block | expr`
pub open spec fn parse_statement(s: Parse) -> Out<StmtRef>
    decreases s.tokens.len(), 16nat,
{
    let place = s.here();
    if s.at(Token::Val) {
        let (s1, r1) = s.skip().name();
        match r1 {
            Err(message) => (s1, Err(message)),
            Ok(name) => {
                let (s2, r2) = parse_annotation(s1);
                match r2 {
                    Err(message) => (s2, Err(message)),
                    Ok(ty) => {
                        let (s3, r3) = s2.expect(Token::Equal);
                        match r3 {
                            Err(message) => (s3, Err(message)),
                            Ok(_) => if s3.tokens.len() < s.tokens.len() {
                                let (s4, r4) = parse_expr(s3, true);
                                match r4 {
                                    Err(message) => (s4, Err(message)),
                                    Ok(value) => s4.add_stmt(StmtNode::Val(name, ty, value), place),
                                }
                            } else {
                                (s3, Err(Seq::empty()))
                            },
                        }
                    },
                }
            },
        }
    } else if s.at(Token::Var) {
        let (s1, r1) = s.skip().name();
        match r1 {
            Err(message) => (s1, Err(message)),
            Ok(name) => {
                let (s2, r2) = parse_annotation(s1);
                match r2 {
                    Err(message) => (s2, Err(message)),
                    Ok(ty) => if s2.at(Token::Equal) && s2.tokens.len() <= s.tokens.len() {
                        let (s3, r3) = parse_expr(s2.skip(), true);
                        match r3 {
                            Err(message) => (s3, Err(message)),
                            Ok(value) => s3.add_stmt(StmtNode::Var(name, ty, Some(value)), place),
                        }
                    } else {
                        s2.add_stmt(StmtNode::Var(name, ty, None), place)
                    },
                }
            },
        }
    } else if s.at(Token::Return) {
        if at_statement_end(s.skip()) {
            s.skip().add_stmt(StmtNode::Return(None), place)
        } else {
            let (s1, r1) = parse_expr(s.skip(), true);
            match r1 {
                Err(message) => (s1, Err(message)),
                Ok(value) => s1.add_stmt(StmtNode::Return(Some(value)), place),
            }
        }
    } else if s.at(Token::Break) {
        s.skip().add_stmt(StmtNode::Break, place)
    } else if s.at(Token::Continue) {
        s.skip().add_stmt(StmtNode::Continue, place)
    } else if s.at(Token::For) {
        parse_for(s.skip(), place)
    } else if s.at(Token::While) {
        let (s1, r1) = parse_expr(s.skip(), false);
        match r1 {
            Err(message) => (s1, Err(message)),
            Ok(cond) => {
                let (s2, r2) = parse_block(s1, s.tokens.len());
                match r2 {
                    Err(message) => (s2, Err(message)),
                    Ok(body) => s2.add_stmt(StmtNode::While(cond, body), place),
                }
            },
        }
    } else {
        let (s1, r1) = parse_expr(s, true);
        match r1 {
            Err(message) => (s1, Err(message)),
            Ok(value) => s1.add_stmt(StmtNode::Expression(value), place),
        }
    }
}

/// What follows `for`: `name "in" expr "to" expr block`
pub open spec fn parse_for(s: Parse, place: Option<SourceLocation>) -> Out<StmtRef>
    decreases s.tokens.len(), 19nat,
{
    let (s1, r1) = s.name();
    match r1 {
        Err(message) => (s1, Err(message)),
        Ok(variable) => {
            let (s2, r2) = s1.expect(Token::In);
            match r2 {
                Err(message) => (s2, Err(message)),
                Ok(_) => if s2.tokens.len() <= s.tokens.len() {
                    let (s3, r3) = parse_expr(s2, false);
                    match r3 {
                        Err(message) => (s3, Err(message)),
                        Ok(first) => {
                            let (s4, r4) = s3.expect(Token::To);
                            match r4 {
                                Err(message) => (s4, Err(message)),
                                Ok(_) => if s4.tokens.len() <= s.tokens.len() {
                                    let (s5, r5) = parse_expr(s4, false);
                                    match r5 {
                                        Err(message) => (s5, Err(message)),
                                        Ok(bound) => {
                                            let (s6, r6) = parse_block(s5, s.tokens.len());
                                            match r6 {
                                                Err(message) => (s6, Err(message)),
                                                Ok(body) => s6.add_stmt(
                                                    StmtNode::For(variable, first, bound, body),
                                                    place,
                                                ),
                                            }
                                        },
                                    }
                                } else {
                                    (s4, Err(Seq::empty()))
                                },
                            }
                        },
                    }
                } else {
                    (s2, Err(Seq::empty()))
                },
            }
        },
    }
}

/// The statements up to a closing brace or the end of the input, with
/// separators between them.
pub open spec fn parse_statements(s: Parse, stmts: Seq<StmtRef>) -> Out<Seq<StmtRef>>
    decreases s.tokens.len(), 17nat,
{
    let s0 = skip_separators(s);
    if s0.tokens.len() == 0 || s0.at(Token::BraceClose) || s0.tokens.len() > s.tokens.len() {
        (s0, Ok(stmts))
    } else {
        let (s1, r) = parse_statement(s0);
        match r {
            Err(message) => (s1, Err(message)),
            Ok(stmt) => if !at_statement_end(s1) {
                s1.unexpected("parse_statements: expected the end of the statement but "@)
            } else if s1.tokens.len() < s.tokens.len() {
                parse_statements(s1, stmts.push(stmt))
            } else {
                (s1, Ok(stmts.push(stmt)))
            },
        }
    }
}

/// What follows the opening brace of a block: `statements "}"`
pub open spec fn parse_block_body(s: Parse, place: Option<SourceLocation>) -> Out<ExprRef>
    decreases s.tokens.len(), 18nat,
{
    let (s1, r) = parse_statements(s, Seq::empty());
    match r {
        Err(message) => (s1, Err(message)),
        Ok(stmts) => {
            let (s2, r2) = s1.expect(Token::BraceClose);
            match r2 {
                Err(message) => (s2, Err(message)),
                Ok(_) => s2.add_expr(ExprNode::Block(stmts), place),
            }
        },
    }
}

/// `block := "{" statements "}"`. `limit` is no less than the number of
/// tokens that are left.
pub open spec fn parse_block(s: Parse, limit: nat) -> Out<ExprRef>
    decreases limit, 0nat,
{
    if s.at(Token::BraceOpen) && s.tokens.len() <= limit {
        parse_block_body(s.skip(), s.here())
    } else {
        s.unexpected("BraceOpen expected but "@)
    }
}

/// The `elif` branches and the `else` branch that follow.
pub open spec fn parse_elifs(s: Parse, elifs: Seq<(ExprRef, ExprRef)>) -> Out<
    (Seq<(ExprRef, ExprRef)>, Option<ExprRef>),
>
    decreases s.tokens.len(), 19nat,
{
    if s.at(Token::Elif) {
        let (s1, r1) = parse_expr(s.skip(), false);
        match r1 {
            Err(message) => (s1, Err(message)),
            Ok(cond) => {
                let (s2, r2) = parse_block(s1, s.tokens.len());
                match r2 {
                    Err(message) => (s2, Err(message)),
                    Ok(body) => if s2.tokens.len() < s.tokens.len() {
                        parse_elifs(s2, elifs.push((cond, body)))
                    } else {
                        (s2, Ok((elifs.push((cond, body)), None)))
                    },
                }
            },
        }
    } else if s.at(Token::Else) {
        let (s1, r1) = parse_block(s.skip(), s.tokens.len());
        match r1 {
            Err(message) => (s1, Err(message)),
            Ok(body) => (s1, Ok((elifs, Some(body)))),
        }
    } else {
        (s, Ok((elifs, None)))
    }
}

/// What follows `if`: `expr block ("elif" expr block)* ("else" block)?`.
/// An `if` without `else` gets a block without statements in its place.
pub open spec fn parse_if(s: Parse, place: Option<SourceLocation>) -> Out<ExprRef>
    decreases s.tokens.len(), 21nat,
{
    let (s1, r1) = parse_expr(s, false);
    match r1 {
        Err(message) => (s1, Err(message)),
        Ok(cond) => {
            let (s2, r2) = parse_block(s1, s.tokens.len());
            match r2 {
                Err(message) => (s2, Err(message)),
                Ok(then_block) => if s2.tokens.len() <= s.tokens.len() {
                    let (s3, r3) = parse_elifs(s2, Seq::empty());
                    match r3 {
                        Err(message) => (s3, Err(message)),
                        Ok((elifs, otherwise)) => {
                            let (s4, r4) = match otherwise {
                                Some(block) => (s3, Ok(block)),
                                None => s3.add_expr(ExprNode::Block(Seq::empty()), place),
                            };
                            match r4 {
                                Err(message) => (s4, Err(message)),
                                Ok(else_block) => s4.add_expr(
                                    ExprNode::IfElifElse(cond, then_block, elifs, else_block),
                                    place,
                                ),
                            }
                        },
                    }
                } else {
                    (s2, Err(Seq::empty()))
                },
            }
        },
    }
}

/// `params := "" | name ":" type ("," name ":" type)*`, up to the closing
/// parenthesis, which stays.
pub open spec fn parse_params(s: Parse, params: Seq<(Symbol, Ty)>) -> Out<Seq<(Symbol, Ty)>>
    decreases s.tokens.len(),
{
    if s.at(Token::ParenClose) {
        (s, Ok(params))
    } else {
        let (s1, r1) = s.name();
        match r1 {
            Err(message) => (s1, Err(message)),
            Ok(name) => {
                let (s2, r2) = s1.expect(Token::Colon);
                match r2 {
                    Err(message) => (s2, Err(message)),
                    Ok(_) => {
                        let (s3, r3) = parse_type(s2);
                        match r3 {
                            Err(message) => (s3, Err(message)),
                            Ok(ty) => if s3.at(Token::Comma) && s3.tokens.len() <= s.tokens.len() {
                                parse_params(s3.skip(), params.push((name, ty)))
                            } else {
                                (s3, Ok(params.push((name, ty))))
                            },
                        }
                    },
                }
            },
        }
    }
}

/// What follows the parameters: `")" ("->" type)? block`. The body becomes
/// an expression statement that holds the block.
pub open spec fn parse_result_and_body(s: Parse) -> Out<(Option<Ty>, StmtRef)> {
    let (s1, r1) = s.expect(Token::ParenClose);
    match r1 {
        Err(message) => (s1, Err(message)),
        Ok(_) => {
            let (s2, r2) = if s1.at(Token::Arrow) {
                let (s3, r3) = parse_type(s1.skip());
                match r3 {
                    Err(message) => (s3, Err::<Option<Ty>, Seq<char>>(message)),
                    Ok(ty) => (s3, Ok(Some(ty))),
                }
            } else {
                (s1, Ok(None))
            };
            match r2 {
                Err(message) => (s2, Err(message)),
                Ok(result) => {
                    let place = s2.here();
                    let (s4, r4) = parse_block(s2, s2.tokens.len());
                    match r4 {
                        Err(message) => (s4, Err(message)),
                        Ok(block) => {
                            let (s5, r5) = s4.add_stmt(StmtNode::Expression(block), place);
                            match r5 {
                                Err(message) => (s5, Err(message)),
                                Ok(code) => (s5, Ok((result, code))),
                            }
                        },
                    }
                },
            }
        },
    }
}

/// What follows `fn`: `name "(" params ")" ("->" type)? block`
pub open spec fn parse_function(s: Parse) -> Out<FunctionNode> {
    let (s1, r1) = s.name();
    match r1 {
        Err(message) => (s1, Err(message)),
        Ok(name) => {
            let (s2, r2) = s1.expect(Token::ParenOpen);
            match r2 {
                Err(message) => (s2, Err(message)),
                Ok(_) => {
                    let (s3, r3) = parse_params(s2, Seq::empty());
                    match r3 {
                        Err(message) => (s3, Err(message)),
                        Ok(parameter) => {
                            let (s4, r4) = parse_result_and_body(s3);
                            match r4 {
                                Err(message) => (s4, Err(message)),
                                Ok((return_type, code)) => (
                                    s4,
                                    Ok(FunctionNode { name, parameter, return_type, code }),
                                ),
                            }
                        },
                    }
                },
            }
        },
    }
}

/// Whether the next token is the name `self`.
pub open spec fn at_self(s: Parse) -> bool {
    s.tokens.len() > 0 && s.tokens[0] == TokenView::Identifier("self"@)
}

/// The state behind a receiver `self` and the comma after it.
pub open spec fn skip_receiver(s: Parse) -> Parse {
    if at_self(s) {
        if s.skip().at(Token::Comma) {
            s.skip().skip()
        } else {
            s.skip()
        }
    } else {
        s
    }
}

/// What follows `fn` in an `impl` block:
/// `name "(" ("self" ","?)? params ")" ("->" type)? block`
pub open spec fn parse_method(s: Parse) -> Out<MethodNode> {
    let (s1, r1) = s.name();
    match r1 {
        Err(message) => (s1, Err(message)),
        Ok(name) => {
            let (s2, r2) = s1.expect(Token::ParenOpen);
            match r2 {
                Err(message) => (s2, Err(message)),
                Ok(_) => {
                    let (s3, r3) = parse_params(skip_receiver(s2), Seq::empty());
                    match r3 {
                        Err(message) => (s3, Err(message)),
                        Ok(parameter) => {
                            let (s4, r4) = parse_result_and_body(s3);
                            match r4 {
                                Err(message) => (s4, Err(message)),
                                Ok((return_type, code)) => (
                                    s4,
                                    Ok(
                                        MethodNode {
                                            name,
                                            parameter,
                                            return_type,
                                            code,
                                            has_self_param: at_self(s2),
                                        },
                                    ),
                                ),
                            }
                        },
                    }
                },
            }
        },
    }
}

/// The state behind the line feeds, semicolons and commas that come next.
pub open spec fn skip_field_separators(s: Parse) -> Parse
    decreases s.tokens.len(),
{
    if s.at_separator() || s.at(Token::Comma) {
        skip_field_separators(s.skip())
    } else {
        s
    }
}

/// The fields of a struct declaration, `name ":" type` each, up to the
/// closing brace, which stays.
pub open spec fn parse_struct_fields(s: Parse, fields: Seq<(Seq<char>, Ty)>) -> Out<
    Seq<(Seq<char>, Ty)>,
>
    decreases s.tokens.len(),
{
    let s0 = skip_field_separators(s);
    if s0.at(Token::BraceClose) || s0.tokens.len() > s.tokens.len() {
        (s0, Ok(fields))
    } else if s0.tokens.len() > 0 && s0.tokens[0] is Identifier {
        let (s1, r1) = s0.skip().expect(Token::Colon);
        match r1 {
            Err(message) => (s1, Err(message)),
            Ok(_) => {
                let (s2, r2) = parse_type(s1);
                match r2 {
                    Err(message) => (s2, Err(message)),
                    Ok(ty) => if s2.tokens.len() < s.tokens.len() {
                        parse_struct_fields(s2, fields.push((s0.tokens[0]->Identifier_0, ty)))
                    } else {
                        (s2, Ok(fields))
                    },
                }
            },
        }
    } else {
        s0.unexpected("Identifier expected but "@)
    }
}

/// What follows `struct`: `name "{" fields "}"`
pub open spec fn parse_struct_decl(s: Parse, place: Option<SourceLocation>) -> Out<StmtRef> {
    if s.tokens.len() > 0 && s.tokens[0] is Identifier {
        let (s1, r1) = s.skip().expect(Token::BraceOpen);
        match r1 {
            Err(message) => (s1, Err(message)),
            Ok(_) => {
                let (s2, r2) = parse_struct_fields(s1, Seq::empty());
                match r2 {
                    Err(message) => (s2, Err(message)),
                    Ok(fields) => {
                        let (s3, r3) = s2.expect(Token::BraceClose);
                        match r3 {
                            Err(message) => (s3, Err(message)),
                            Ok(_) => s3.add_stmt(
                                StmtNode::StructDecl {
                                    name: s.tokens[0]->Identifier_0,
                                    fields,
                                },
                                place,
                            ),
                        }
                    },
                }
            },
        }
    } else {
        s.unexpected("Identifier expected but "@)
    }
}

/// The methods of an `impl` block, `"fn" method` each, up to the closing
/// brace, which stays.
pub open spec fn parse_methods(s: Parse, methods: Seq<MethodNode>) -> Out<Seq<MethodNode>>
    decreases s.tokens.len(),
{
    let s0 = skip_separators(s);
    if s0.at(Token::BraceClose) || s0.tokens.len() > s.tokens.len() {
        (s0, Ok(methods))
    } else {
        let (s1, r1) = s0.expect(Token::Function);
        match r1 {
            Err(message) => (s1, Err(message)),
            Ok(_) => {
                let (s2, r2) = parse_method(s1);
                match r2 {
                    Err(message) => (s2, Err(message)),
                    Ok(method) => if s2.tokens.len() < s.tokens.len() {
                        parse_methods(s2, methods.push(method))
                    } else {
                        (s2, Ok(methods))
                    },
                }
            },
        }
    }
}

/// What follows `impl`: `name "{" methods "}"`
pub open spec fn parse_impl(s: Parse, place: Option<SourceLocation>) -> Out<StmtRef> {
    if s.tokens.len() > 0 && s.tokens[0] is Identifier {
        let (s1, r1) = s.skip().expect(Token::BraceOpen);
        match r1 {
            Err(message) => (s1, Err(message)),
            Ok(_) => {
                let (s2, r2) = parse_methods(s1, Seq::empty());
                match r2 {
                    Err(message) => (s2, Err(message)),
                    Ok(methods) => {
                        let (s3, r3) = s2.expect(Token::BraceClose);
                        match r3 {
                            Err(message) => (s3, Err(message)),
                            Ok(_) => s3.add_stmt(
                                StmtNode::ImplBlock {
                                    target_type: s.tokens[0]->Identifier_0,
                                    methods,
                                },
                                place,
                            ),
                        }
                    },
                }
            },
        }
    } else {
        s.unexpected("Identifier expected but "@)
    }
}

/// `program := (function | struct_decl | impl_block)*`, with separators
/// between the items.
pub open spec fn parse_items(s: Parse) -> Out<()>
    decreases s.tokens.len(),
{
    let s0 = skip_separators(s);
    if s0.tokens.len() == 0 || s0.tokens.len() > s.tokens.len() {
        (s0, Ok(()))
    } else if s0.at(Token::Function) {
        let (s1, r1) = parse_function(s0.skip());
        match r1 {
            Err(message) => (s1, Err(message)),
            Ok(function) => if s1.tokens.len() < s.tokens.len() {
                parse_items(
                    Parse {
                        program: ProgramNode {
                            functions: s1.program.functions.push(function),
                            ..s1.program
                        },
                        ..s1
                    },
                )
            } else {
                (s1, Ok(()))
            },
        }
    } else if s0.at(Token::Struct) {
        let (s1, r1) = parse_struct_decl(s0.skip(), s0.here());
        match r1 {
            Err(message) => (s1, Err(message)),
            Ok(_) => if s1.tokens.len() < s.tokens.len() {
                parse_items(s1)
            } else {
                (s1, Ok(()))
            },
        }
    } else if s0.at(Token::Impl) {
        let (s1, r1) = parse_impl(s0.skip(), s0.here());
        match r1 {
            Err(message) => (s1, Err(message)),
            Ok(_) => if s1.tokens.len() < s.tokens.len() {
                parse_items(s1)
            } else {
                (s1, Ok(()))
            },
        }
    } else {
        s0.unexpected("parse_program: unexpected token "@)
    }
}

} // verus!
