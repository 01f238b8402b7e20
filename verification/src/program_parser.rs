//! The parser of programs: it builds the pools that the grammar describes.

use crate::ast::{
    expr_nodes, function_nodes, methods_view, parameters_view, stmt_nodes, struct_fields_view, Expr,
    ExprNode, ExprRef, Function, FunctionNode, MethodFunction, MethodNode, Operator, Program,
    ProgramNode, Stmt, StmtNode, StmtRef, StructField, MAX_NODES,
};
use crate::grammar::Level;
use crate::number::parse_u64;
use crate::parser::{Parser, ParserView};
use crate::program_grammar as rules;
use crate::program_grammar::Parse;
use crate::symbol::Symbol;
use crate::token::{Token, TokenView};
use crate::type_checker::error::SourceLocation;
use crate::type_decl::{option_view, types_view, Ty, TypeDecl};
use std::rc::Rc;
use vstd::prelude::*;
use vstd::string::*;

verus! {

/// The state of parsing that a parser and a program stand for.
pub open spec fn state(parser: ParserView, program: ProgramNode) -> Parse {
    Parse { tokens: parser.tokens, starts: parser.starts, program }
}

/// The value of a result that holds a plain value.
pub open spec fn plain<T>(result: Result<T, String>) -> Result<T, Seq<char>> {
    match result {
        Ok(value) => Ok(value),
        Err(message) => Err(message@),
    }
}

/// The value of a result that holds a type.
pub open spec fn type_result(result: Result<TypeDecl, String>) -> Result<Ty, Seq<char>> {
    match result {
        Ok(ty) => Ok(ty@),
        Err(message) => Err(message@),
    }
}

/// The value of a result that holds a list of plain values.
pub open spec fn list_result<T>(result: Result<Vec<T>, String>) -> Result<Seq<T>, Seq<char>> {
    match result {
        Ok(items) => Ok(items@),
        Err(message) => Err(message@),
    }
}

/// The operator of `level` that `token` writes.
pub fn node_operator(level: Level, token: &Token) -> (op: Option<Operator>)
    ensures
        op == rules::node_operator(level, token@),
{
    match level {
        Level::Primary => None,
        Level::Mul => match token {
            Token::IMul => Some(Operator::IMul),
            Token::IDiv => Some(Operator::IDiv),
            _ => None,
        },
        Level::Add => match token {
            Token::IAdd => Some(Operator::IAdd),
            Token::ISub => Some(Operator::ISub),
            _ => None,
        },
        Level::Relational => match token {
            Token::LT => Some(Operator::LT),
            Token::LE => Some(Operator::LE),
            Token::GT => Some(Operator::GT),
            Token::GE => Some(Operator::GE),
            _ => None,
        },
        Level::Equality => match token {
            Token::DoubleEqual => Some(Operator::EQ),
            Token::NotEqual => Some(Operator::NE),
            _ => None,
        },
        Level::Logical => match token {
            Token::DoubleAnd => Some(Operator::LogicalAnd),
            Token::DoubleOr => Some(Operator::LogicalOr),
            _ => None,
        },
    }
}

/// The literal that the token writes, if it is one that needs no name.
pub fn plain_literal(token: &Token) -> (node: Option<Expr>)
    ensures
        match node {
            Some(expr) => rules::plain_literal(token@) == Some(expr@),
            None => rules::plain_literal(token@) is None,
        },
{
    match token {
        Token::Int64(value) => Some(Expr::Int64(*value)),
        Token::UInt64(value) => Some(Expr::UInt64(*value)),
        Token::True => Some(Expr::True),
        Token::False => Some(Expr::False),
        Token::Null => Some(Expr::Null),
        _ => None,
    }
}

/// A program that is being built.
pub struct Builder {
    pub program: Program,
}

impl View for Builder {
    type V = ProgramNode;

    open spec fn view(&self) -> ProgramNode {
        self.program@
    }
}

impl Builder {
    /// A builder that holds a program without a function.
    pub fn new() -> (builder: Builder)
        ensures
            builder@ == (ProgramNode {
                exprs: Seq::empty(),
                stmts: Seq::empty(),
                expr_locations: Seq::empty(),
                stmt_locations: Seq::empty(),
                functions: Seq::empty(),
                strings: Seq::empty(),
            }),
    {
        Builder { program: Program::new() }
    }

    /// Adds an expression node to the pool.
    pub fn add_expr(&mut self, expr: Expr, place: Option<SourceLocation>) -> (result: Result<
        ExprRef,
        String,
    >)
        ensures
            (final(self)@, plain(result)) == rules::with_expr(old(self)@, expr@, place),
    {
        if self.program.expression.len() >= MAX_NODES {
            return Err(String::from_str("the program has too many expressions"));
        }
        let r = self.program.expression.add(expr);
        self.program.location_pool.add_expr_location(place);
        assert(self@.exprs =~= old(self)@.exprs.push(expr@));
        Ok(r)
    }

    /// Adds a statement node to the pool.
    pub fn add_stmt(&mut self, stmt: Stmt, place: Option<SourceLocation>) -> (result: Result<
        StmtRef,
        String,
    >)
        ensures
            (final(self)@, plain(result)) == rules::with_stmt(old(self)@, stmt@, place),
    {
        if self.program.statement.len() >= MAX_NODES {
            return Err(String::from_str("the program has too many statements"));
        }
        let r = self.program.statement.add(stmt);
        self.program.location_pool.add_stmt_location(place);
        assert(self@.stmts =~= old(self)@.stmts.push(stmt@));
        Ok(r)
    }

    /// Interns a string.
    pub fn intern(&mut self, text: &str) -> (result: Result<Symbol, String>)
        ensures
            (final(self)@, plain(result)) == rules::with_name(old(self)@, text@),
    {
        match self.program.string_interner.get_or_intern(text) {
            Some(symbol) => Ok(symbol),
            None => Err(String::from_str("the program has too many names")),
        }
    }

    /// Takes an identifier and interns it.
    pub fn name(&mut self, tokens: &mut Parser) -> (result: Result<Symbol, String>)
        requires
            old(tokens).wf(),
        ensures
            final(tokens).wf(),
            final(tokens)@.id == old(tokens)@.id,
            (state(final(tokens)@, final(self)@), plain(result)) == state(
                old(tokens)@,
                old(self)@,
            ).name(),
            final(tokens)@.tokens.len() <= old(tokens)@.tokens.len(),
            result is Ok ==> final(tokens)@.tokens.len() < old(tokens)@.tokens.len(),
    {
        match tokens.identifier() {
            Some(text) => self.intern(text.as_str()),
            None => Err(tokens.complaint("Identifier expected but ")),
        }
    }

    /// Takes the token `token`, which must come next.
    pub fn expect(&mut self, tokens: &mut Parser, token: &Token) -> (result: Result<(), String>)
        requires
            old(tokens).wf(),
            token@ == TokenView::Simple(*token),
        ensures
            final(tokens).wf(),
            final(tokens)@.id == old(tokens)@.id,
            final(self)@ == old(self)@,
            (state(final(tokens)@, final(self)@), plain(result)) == state(
                old(tokens)@,
                old(self)@,
            ).expect(*token),
            final(tokens)@.tokens.len() <= old(tokens)@.tokens.len(),
            result is Ok ==> final(tokens)@.tokens.len() < old(tokens)@.tokens.len(),
    {
        tokens.expect_err(token)
    }

    /// Takes the line feeds and semicolons that come next.
    pub fn skip_separators(&mut self, tokens: &mut Parser)
        requires
            old(tokens).wf(),
        ensures
            final(tokens).wf(),
            final(tokens)@.id == old(tokens)@.id,
            final(self)@ == old(self)@,
            state(final(tokens)@, final(self)@) == rules::skip_separators(
                state(old(tokens)@, old(self)@),
            ),
            final(tokens)@.tokens.len() <= old(tokens)@.tokens.len(),
    {
        loop
            invariant
                tokens.wf(),
                tokens@.id == old(tokens)@.id,
                *self == *old(self),
                tokens@.tokens.len() <= old(tokens)@.tokens.len(),
                rules::skip_separators(state(old(tokens)@, old(self)@)) == rules::skip_separators(
                    state(tokens@, self@),
                ),
            decreases tokens@.tokens.len(),
        {
            let separator = match tokens.peek() {
                Some(Token::NewLine) => true,
                Some(Token::Semicolon) => true,
                _ => false,
            };
            if !separator {
                return ;
            }
            tokens.next();
        }
    }

    /// Parses a type.
#[verifier::rlimit(100)]
    pub fn parse_type(&mut self, tokens: &mut Parser) -> (result: Result<TypeDecl, String>)
        requires
            old(tokens).wf(),
        ensures
            final(tokens).wf(),
            final(tokens)@.id == old(tokens)@.id,
            (state(final(tokens)@, final(self)@), type_result(result)) == rules::parse_type(
                state(old(tokens)@, old(self)@),
            ),
            final(tokens)@.tokens.len() <= old(tokens)@.tokens.len(),
            result is Ok ==> final(tokens)@.tokens.len() < old(tokens)@.tokens.len(),
        decreases old(tokens)@.tokens.len(),
    {
        let kind = match tokens.peek() {
            Some(Token::I64) => 0u8,
            Some(Token::U64) => 1u8,
            Some(Token::Bool) => 2u8,
            Some(Token::Str) => 3u8,
            Some(Token::Identifier(_)) => 4u8,
            Some(Token::BracketOpen) => 5u8,
            _ => 6u8,
        };
        if kind == 0 {
            tokens.next();
            Ok(TypeDecl::Int64)
        } else if kind == 1 {
            tokens.next();
            Ok(TypeDecl::UInt64)
        } else if kind == 2 {
            tokens.next();
            Ok(TypeDecl::Bool)
        } else if kind == 3 {
            tokens.next();
            Ok(TypeDecl::String)
        } else if kind == 4 {
            match self.name(tokens) {
                Ok(symbol) => Ok(TypeDecl::Identifier(symbol)),
                Err(message) => Err(message),
            }
        } else if kind == 5 {
            tokens.next();
            let element = match self.parse_type(tokens) {
                Ok(element) => element,
                Err(message) => {
                    return Err(message);
                },
            };
            match self.expect(tokens, &Token::Semicolon) {
                Ok(_) => {},
                Err(message) => {
                    return Err(message);
                },
            }
            let size = match tokens.peek() {
                Some(Token::Integer(text)) => match parse_u64(text.as_str()) {
                    Some(size) => if size <= usize::MAX as u64 {
                        Some(size as usize)
                    } else {
                        None
                    },
                    None => None,
                },
                _ => None,
            };
            let size = match size {
                Some(size) => size,
                None => {
                    return Err(tokens.complaint("parse_type: expected array size but "));
                },
            };
            tokens.next();
            match self.expect(tokens, &Token::BracketClose) {
                Ok(_) => {},
                Err(message) => {
                    return Err(message);
                },
            }
            let mut elements: Vec<TypeDecl> = Vec::new();
            elements.push(element);
            let array = TypeDecl::Array(elements, size);
            assert(array@->Array_0 =~= seq![element@]);
            Ok(array)
        } else {
            Err(tokens.complaint("parse_type: expected type but "))
        }
    }

    /// Parses an operand.
#[verifier::rlimit(100)]
    pub fn parse_primary(&mut self, tokens: &mut Parser, structs: bool) -> (result: Result<
        ExprRef,
        String,
    >)
        requires
            old(tokens).wf(),
        ensures
            final(tokens).wf(),
            final(tokens)@.id == old(tokens)@.id,
            (state(final(tokens)@, final(self)@), plain(result)) == rules::parse_primary(
                state(old(tokens)@, old(self)@),
                structs,
            ),
            final(tokens)@.tokens.len() <= old(tokens)@.tokens.len(),
            result is Ok ==> final(tokens)@.tokens.len() < old(tokens)@.tokens.len(),
        decreases old(tokens)@.tokens.len(), 0nat,
    {
        let place = tokens.place();
        let kind = match tokens.peek() {
            None => 0u8,
            Some(Token::Integer(_)) => 1u8,
            Some(Token::String(_)) => 2u8,
            Some(Token::Identifier(_)) => 3u8,
            Some(Token::ParenOpen) => 4u8,
            Some(Token::BraceOpen) => 5u8,
            Some(Token::If) => 6u8,
            Some(Token::BracketOpen) => 7u8,
            Some(_) => 8u8,
        };
        if kind == 0 {
            Err(tokens.complaint("parse_primary: unexpected token "))
        } else if kind == 1 || kind == 2 {
            let text = match tokens.peek() {
                Some(Token::Integer(text)) => text.clone(),
                Some(Token::String(text)) => text.clone(),
                _ => String::new(),
            };
            tokens.next();
            let symbol = match self.intern(text.as_str()) {
                Ok(symbol) => symbol,
                Err(message) => {
                    return Err(message);
                },
            };
            if kind == 1 {
                self.add_expr(Expr::Number(symbol), place)
            } else {
                self.add_expr(Expr::String(symbol), place)
            }
        } else if kind == 3 {
            let symbol = match self.name(tokens) {
                Ok(symbol) => symbol,
                Err(message) => {
                    return Err(message);
                },
            };
            self.parse_named(tokens, symbol, place, structs)
        } else if kind == 4 {
            tokens.next();
            let inner = match self.parse_expr(tokens, true) {
                Ok(inner) => inner,
                Err(message) => {
                    return Err(message);
                },
            };
            match self.expect(tokens, &Token::ParenClose) {
                Ok(_) => Ok(inner),
                Err(message) => Err(message),
            }
        } else if kind == 5 {
            tokens.next();
            self.parse_block_body(tokens, place)
        } else if kind == 6 {
            tokens.next();
            self.parse_if(tokens, place)
        } else if kind == 7 {
            tokens.next();
            let elements = match self.parse_list(tokens, &Token::BracketClose, Vec::new()) {
                Ok(elements) => elements,
                Err(message) => {
                    return Err(message);
                },
            };
            match self.expect(tokens, &Token::BracketClose) {
                Ok(_) => {},
                Err(message) => {
                    return Err(message);
                },
            }
            self.add_expr(Expr::ArrayLiteral(elements), place)
        } else {
            let node = match tokens.peek() {
                Some(token) => plain_literal(token),
                None => None,
            };
            match node {
                Some(expr) => {
                    tokens.next();
                    self.add_expr(expr, place)
                },
                None => Err(tokens.complaint("parse_primary: unexpected token ")),
            }
        }
    }

    /// Parses what follows a name.
#[verifier::rlimit(100)]
    pub fn parse_named(
        &mut self,
        tokens: &mut Parser,
        name: Symbol,
        place: Option<SourceLocation>,
        structs: bool,
    ) -> (result: Result<ExprRef, String>)
        requires
            old(tokens).wf(),
        ensures
            final(tokens).wf(),
            final(tokens)@.id == old(tokens)@.id,
            (state(final(tokens)@, final(self)@), plain(result)) == rules::parse_named(
                state(old(tokens)@, old(self)@),
                name,
                place,
                structs,
            ),
            final(tokens)@.tokens.len() <= old(tokens)@.tokens.len(),
        decreases old(tokens)@.tokens.len(), 1nat,
    {
        if tokens.at(&Token::ParenOpen) {
            tokens.next();
            let arguments = match self.parse_list(tokens, &Token::ParenClose, Vec::new()) {
                Ok(arguments) => arguments,
                Err(message) => {
                    return Err(message);
                },
            };
            match self.expect(tokens, &Token::ParenClose) {
                Ok(_) => {},
                Err(message) => {
                    return Err(message);
                },
            }
            let list = match self.add_expr(Expr::ExprList(arguments), place) {
                Ok(list) => list,
                Err(message) => {
                    return Err(message);
                },
            };
            self.add_expr(Expr::Call(name, list), place)
        } else if structs && tokens.at(&Token::BraceOpen) {
            tokens.next();
            let fields = match self.parse_fields(tokens, Vec::new()) {
                Ok(fields) => fields,
                Err(message) => {
                    return Err(message);
                },
            };
            match self.expect(tokens, &Token::BraceClose) {
                Ok(_) => {},
                Err(message) => {
                    return Err(message);
                },
            }
            self.add_expr(Expr::StructLiteral(name, fields), place)
        } else {
            self.add_expr(Expr::Identifier(name), place)
        }
    }

    /// Parses an operand with the indexings, field accesses and method
    /// calls that follow it.
#[verifier::rlimit(100)]
    pub fn parse_postfix(&mut self, tokens: &mut Parser, structs: bool) -> (result: Result<
        ExprRef,
        String,
    >)
        requires
            old(tokens).wf(),
        ensures
            final(tokens).wf(),
            final(tokens)@.id == old(tokens)@.id,
            (state(final(tokens)@, final(self)@), plain(result)) == rules::parse_postfix(
                state(old(tokens)@, old(self)@),
                structs,
            ),
            final(tokens)@.tokens.len() <= old(tokens)@.tokens.len(),
            result is Ok ==> final(tokens)@.tokens.len() < old(tokens)@.tokens.len(),
        decreases old(tokens)@.tokens.len(), 2nat,
    {
        let place = tokens.place();
        let mut operand = match self.parse_primary(tokens, structs) {
            Ok(operand) => operand,
            Err(message) => {
                return Err(message);
            },
        };
        loop
            invariant
                tokens.wf(),
                tokens@.id == old(tokens)@.id,
                tokens@.tokens.len() < old(tokens)@.tokens.len(),
                rules::parse_postfix(state(old(tokens)@, old(self)@), structs) == rules::postfix_tail(
                    state(tokens@, self@),
                    operand,
                    place,
                ),
            decreases tokens@.tokens.len(),
        {
            if tokens.at(&Token::BracketOpen) {
                tokens.next();
                let index = match self.parse_expr(tokens, true) {
                    Ok(index) => index,
                    Err(message) => {
                        return Err(message);
                    },
                };
                match self.expect(tokens, &Token::BracketClose) {
                    Ok(_) => {},
                    Err(message) => {
                        return Err(message);
                    },
                }
                operand = match self.add_expr(Expr::ArrayAccess(operand, index), place) {
                    Ok(access) => access,
                    Err(message) => {
                        return Err(message);
                    },
                };
            } else if tokens.at(&Token::Dot) {
                tokens.next();
                let member = match self.name(tokens) {
                    Ok(member) => member,
                    Err(message) => {
                        return Err(message);
                    },
                };
                if tokens.at(&Token::ParenOpen) {
                    tokens.next();
                    let arguments = match self.parse_list(tokens, &Token::ParenClose, Vec::new()) {
                        Ok(arguments) => arguments,
                        Err(message) => {
                            return Err(message);
                        },
                    };
                    match self.expect(tokens, &Token::ParenClose) {
                        Ok(_) => {},
                        Err(message) => {
                            return Err(message);
                        },
                    }
                    operand = match self.add_expr(
                        Expr::MethodCall(operand, member, arguments),
                        place,
                    ) {
                        Ok(call) => call,
                        Err(message) => {
                            return Err(message);
                        },
                    };
                } else {
                    operand = match self.add_expr(Expr::FieldAccess(operand, member), place) {
                        Ok(access) => access,
                        Err(message) => {
                            return Err(message);
                        },
                    };
                }
            } else {
                return Ok(operand);
            }
        }
    }

    /// Parses an expression of the binary operators up to `level`.
#[verifier::rlimit(100)]
    pub fn parse_binary(&mut self, tokens: &mut Parser, level: Level, structs: bool) -> (result: Result<
        ExprRef,
        String,
    >)
        requires
            old(tokens).wf(),
        ensures
            final(tokens).wf(),
            final(tokens)@.id == old(tokens)@.id,
            (state(final(tokens)@, final(self)@), plain(result)) == rules::parse_binary(
                level,
                state(old(tokens)@, old(self)@),
                structs,
            ),
            final(tokens)@.tokens.len() <= old(tokens)@.tokens.len(),
            result is Ok ==> final(tokens)@.tokens.len() < old(tokens)@.tokens.len(),
        decreases old(tokens)@.tokens.len(), 2 * level.rank() + 3,
    {
        if matches!(level, Level::Primary) {
            return self.parse_postfix(tokens, structs);
        }
        let place = tokens.place();
        let mut lhs = match self.parse_binary(tokens, level.first_level(), structs) {
            Ok(lhs) => lhs,
            Err(message) => {
                return Err(message);
            },
        };
        loop
            invariant
                tokens.wf(),
                level != Level::Primary,
                tokens@.id == old(tokens)@.id,
                tokens@.tokens.len() < old(tokens)@.tokens.len(),
                rules::parse_binary(level, state(old(tokens)@, old(self)@), structs)
                    == rules::binary_tail(level, state(tokens@, self@), lhs, place, structs),
            decreases tokens@.tokens.len(),
        {
            let op = match tokens.peek() {
                Some(token) => node_operator(level, token),
                None => None,
            };
            let op = match op {
                Some(op) => op,
                None => {
                    return Ok(lhs);
                },
            };
            tokens.next();
            let rhs = match self.parse_binary(tokens, level.first_level(), structs) {
                Ok(rhs) => rhs,
                Err(message) => {
                    return Err(message);
                },
            };
            lhs = match self.add_expr(Expr::Binary(op, lhs, rhs), place) {
                Ok(node) => node,
                Err(message) => {
                    return Err(message);
                },
            };
        }
    }

    /// Parses an expression.
    pub fn parse_expr(&mut self, tokens: &mut Parser, structs: bool) -> (result: Result<
        ExprRef,
        String,
    >)
        requires
            old(tokens).wf(),
        ensures
            final(tokens).wf(),
            final(tokens)@.id == old(tokens)@.id,
            (state(final(tokens)@, final(self)@), plain(result)) == rules::parse_expr(
                state(old(tokens)@, old(self)@),
                structs,
            ),
            final(tokens)@.tokens.len() <= old(tokens)@.tokens.len(),
            result is Ok ==> final(tokens)@.tokens.len() < old(tokens)@.tokens.len(),
        decreases old(tokens)@.tokens.len(), 14nat,
    {
        let place = tokens.place();
        let lhs = match self.parse_binary(tokens, Level::Logical, structs) {
            Ok(lhs) => lhs,
            Err(message) => {
                return Err(message);
            },
        };
        if tokens.at(&Token::Equal) {
            tokens.next();
            let rhs = match self.parse_expr(tokens, structs) {
                Ok(rhs) => rhs,
                Err(message) => {
                    return Err(message);
                },
            };
            self.add_expr(Expr::Assign(lhs, rhs), place)
        } else {
            Ok(lhs)
        }
    }

    /// Parses a list of expressions up to the token `closer`, which stays.
    pub fn parse_list(&mut self, tokens: &mut Parser, closer: &Token, items: Vec<ExprRef>) -> (result:
        Result<Vec<ExprRef>, String>)
        requires
            old(tokens).wf(),
            closer@ == TokenView::Simple(*closer),
        ensures
            final(tokens).wf(),
            final(tokens)@.id == old(tokens)@.id,
            (state(final(tokens)@, final(self)@), list_result(result)) == rules::parse_list(
                state(old(tokens)@, old(self)@),
                *closer,
                items@,
            ),
            final(tokens)@.tokens.len() <= old(tokens)@.tokens.len(),
        decreases old(tokens)@.tokens.len(), 15nat,
    {
        if tokens.at(closer) {
            return Ok(items);
        }
        let mut items = items;
        match self.parse_expr(tokens, true) {
            Ok(item) => {
                items.push(item);
            },
            Err(message) => {
                return Err(message);
            },
        }
        if tokens.at(&Token::Comma) {
            tokens.next();
            self.parse_list(tokens, closer, items)
        } else {
            Ok(items)
        }
    }

    /// Parses the fields of a struct literal up to the closing brace.
#[verifier::rlimit(100)]
    pub fn parse_fields(&mut self, tokens: &mut Parser, fields: Vec<(Symbol, ExprRef)>) -> (result:
        Result<Vec<(Symbol, ExprRef)>, String>)
        requires
            old(tokens).wf(),
        ensures
            final(tokens).wf(),
            final(tokens)@.id == old(tokens)@.id,
            (state(final(tokens)@, final(self)@), list_result(result)) == rules::parse_fields(
                state(old(tokens)@, old(self)@),
                fields@,
            ),
            final(tokens)@.tokens.len() <= old(tokens)@.tokens.len(),
        decreases old(tokens)@.tokens.len(), 15nat,
    {
        self.skip_separators(tokens);
        if tokens.at(&Token::BraceClose) {
            return Ok(fields);
        }
        let name = match self.name(tokens) {
            Ok(name) => name,
            Err(message) => {
                return Err(message);
            },
        };
        match self.expect(tokens, &Token::Colon) {
            Ok(_) => {},
            Err(message) => {
                return Err(message);
            },
        }
        let value = match self.parse_expr(tokens, true) {
            Ok(value) => value,
            Err(message) => {
                return Err(message);
            },
        };
        let mut fields = fields;
        fields.push((name, value));
        if tokens.at(&Token::Comma) {
            tokens.next();
            self.parse_fields(tokens, fields)
        } else {
            self.skip_separators(tokens);
            Ok(fields)
        }
    }

    /// Parses an optional type annotation.
    pub fn parse_annotation(&mut self, tokens: &mut Parser) -> (result: Result<Option<TypeDecl>, String>)
        requires
            old(tokens).wf(),
        ensures
            final(tokens).wf(),
            final(tokens)@.id == old(tokens)@.id,
            rules::parse_annotation(state(old(tokens)@, old(self)@)) == (
                state(final(tokens)@, final(self)@),
                match result {
                    Ok(ty) => Ok::<Option<Ty>, Seq<char>>(option_view(ty)),
                    Err(message) => Err::<Option<Ty>, Seq<char>>(message@),
                },
            ),
            final(tokens)@.tokens.len() <= old(tokens)@.tokens.len(),
    {
        if tokens.at(&Token::Colon) {
            tokens.next();
            match self.parse_type(tokens) {
                Ok(ty) => Ok(Some(ty)),
                Err(message) => Err(message),
            }
        } else {
            Ok(None)
        }
    }

    /// Whether a statement ends here.
    pub fn at_statement_end(&mut self, tokens: &mut Parser) -> (yes: bool)
        requires
            old(tokens).wf(),
        ensures
            final(tokens).wf(),
            final(tokens)@ == old(tokens)@,
            final(self)@ == old(self)@,
            yes == rules::at_statement_end(state(old(tokens)@, old(self)@)),
    {
        match tokens.peek() {
            None => true,
            Some(Token::NewLine) => true,
            Some(Token::Semicolon) => true,
            Some(Token::BraceClose) => true,
            Some(_) => false,
        }
    }

    /// Parses a statement.
#[verifier::rlimit(100)]
    pub fn parse_statement(&mut self, tokens: &mut Parser) -> (result: Result<StmtRef, String>)
        requires
            old(tokens).wf(),
        ensures
            final(tokens).wf(),
            final(tokens)@.id == old(tokens)@.id,
            (state(final(tokens)@, final(self)@), plain(result)) == rules::parse_statement(
                state(old(tokens)@, old(self)@),
            ),
            final(tokens)@.tokens.len() <= old(tokens)@.tokens.len(),
            result is Ok ==> final(tokens)@.tokens.len() < old(tokens)@.tokens.len(),
        decreases old(tokens)@.tokens.len(), 16nat,
    {
        let place = tokens.place();
        let kind = match tokens.peek() {
            Some(Token::Val) => 0u8,
            Some(Token::Var) => 1u8,
            Some(Token::Return) => 2u8,
            Some(Token::Break) => 3u8,
            Some(Token::Continue) => 4u8,
            Some(Token::For) => 5u8,
            Some(Token::While) => 6u8,
            _ => 7u8,
        };
        if kind == 0 {
            tokens.next();
            let name = match self.name(tokens) {
                Ok(name) => name,
                Err(message) => {
                    return Err(message);
                },
            };
            let ty = match self.parse_annotation(tokens) {
                Ok(ty) => ty,
                Err(message) => {
                    return Err(message);
                },
            };
            match self.expect(tokens, &Token::Equal) {
                Ok(_) => {},
                Err(message) => {
                    return Err(message);
                },
            }
            let value = match self.parse_expr(tokens, true) {
                Ok(value) => value,
                Err(message) => {
                    return Err(message);
                },
            };
            self.add_stmt(Stmt::Val(name, ty, value), place)
        } else if kind == 1 {
            tokens.next();
            let name = match self.name(tokens) {
                Ok(name) => name,
                Err(message) => {
                    return Err(message);
                },
            };
            let ty = match self.parse_annotation(tokens) {
                Ok(ty) => ty,
                Err(message) => {
                    return Err(message);
                },
            };
            if tokens.at(&Token::Equal) {
                tokens.next();
                let value = match self.parse_expr(tokens, true) {
                    Ok(value) => value,
                    Err(message) => {
                        return Err(message);
                    },
                };
                self.add_stmt(Stmt::Var(name, ty, Some(value)), place)
            } else {
                self.add_stmt(Stmt::Var(name, ty, None), place)
            }
        } else if kind == 2 {
            tokens.next();
            if self.at_statement_end(tokens) {
                self.add_stmt(Stmt::Return(None), place)
            } else {
                let value = match self.parse_expr(tokens, true) {
                    Ok(value) => value,
                    Err(message) => {
                        return Err(message);
                    },
                };
                self.add_stmt(Stmt::Return(Some(value)), place)
            }
        } else if kind == 3 {
            tokens.next();
            self.add_stmt(Stmt::Break, place)
        } else if kind == 4 {
            tokens.next();
            self.add_stmt(Stmt::Continue, place)
        } else if kind == 5 {
            tokens.next();
            self.parse_for(tokens, place)
        } else if kind == 6 {
            tokens.next();
            let cond = match self.parse_expr(tokens, false) {
                Ok(cond) => cond,
                Err(message) => {
                    return Err(message);
                },
            };
            let body = match self.parse_block(tokens, Ghost(old(tokens)@.tokens.len())) {
                Ok(body) => body,
                Err(message) => {
                    return Err(message);
                },
            };
            self.add_stmt(Stmt::While(cond, body), place)
        } else {
            let value = match self.parse_expr(tokens, true) {
                Ok(value) => value,
                Err(message) => {
                    return Err(message);
                },
            };
            self.add_stmt(Stmt::Expression(value), place)
        }
    }

    /// Parses what follows `for`.
#[verifier::rlimit(100)]
    pub fn parse_for(&mut self, tokens: &mut Parser, place: Option<SourceLocation>) -> (result: Result<
        StmtRef,
        String,
    >)
        requires
            old(tokens).wf(),
        ensures
            final(tokens).wf(),
            final(tokens)@.id == old(tokens)@.id,
            (state(final(tokens)@, final(self)@), plain(result)) == rules::parse_for(
                state(old(tokens)@, old(self)@),
                place,
            ),
            final(tokens)@.tokens.len() <= old(tokens)@.tokens.len(),
        decreases old(tokens)@.tokens.len(), 19nat,
    {
        let variable = match self.name(tokens) {
            Ok(variable) => variable,
            Err(message) => {
                return Err(message);
            },
        };
        match self.expect(tokens, &Token::In) {
            Ok(_) => {},
            Err(message) => {
                return Err(message);
            },
        }
        let first = match self.parse_expr(tokens, false) {
            Ok(first) => first,
            Err(message) => {
                return Err(message);
            },
        };
        match self.expect(tokens, &Token::To) {
            Ok(_) => {},
            Err(message) => {
                return Err(message);
            },
        }
        let bound = match self.parse_expr(tokens, false) {
            Ok(bound) => bound,
            Err(message) => {
                return Err(message);
            },
        };
        let body = match self.parse_block(tokens, Ghost(old(tokens)@.tokens.len())) {
            Ok(body) => body,
            Err(message) => {
                return Err(message);
            },
        };
        self.add_stmt(Stmt::For(variable, first, bound, body), place)
    }

    /// Parses the statements up to a closing brace or the end of the input.
    pub fn parse_statements(&mut self, tokens: &mut Parser) -> (result: Result<Vec<StmtRef>, String>)
        requires
            old(tokens).wf(),
        ensures
            final(tokens).wf(),
            final(tokens)@.id == old(tokens)@.id,
            (state(final(tokens)@, final(self)@), list_result(result)) == rules::parse_statements(
                state(old(tokens)@, old(self)@),
                Seq::empty(),
            ),
            final(tokens)@.tokens.len() <= old(tokens)@.tokens.len(),
        decreases old(tokens)@.tokens.len(), 17nat,
    {
        let mut stmts: Vec<StmtRef> = Vec::new();
        loop
            invariant
                tokens.wf(),
                tokens@.id == old(tokens)@.id,
                tokens@.tokens.len() <= old(tokens)@.tokens.len(),
                rules::parse_statements(state(old(tokens)@, old(self)@), Seq::empty())
                    == rules::parse_statements(state(tokens@, self@), stmts@),
            decreases tokens@.tokens.len(),
        {
            self.skip_separators(tokens);
            let done = match tokens.peek() {
                None => true,
                Some(Token::BraceClose) => true,
                Some(_) => false,
            };
            if done {
                return Ok(stmts);
            }
            match self.parse_statement(tokens) {
                Ok(stmt) => {
                    stmts.push(stmt);
                },
                Err(message) => {
                    return Err(message);
                },
            }
            if !self.at_statement_end(tokens) {
                return Err(
                    tokens.complaint("parse_statements: expected the end of the statement but "),
                );
            }
        }
    }

    /// Parses what follows the opening brace of a block.
    pub fn parse_block_body(&mut self, tokens: &mut Parser, place: Option<SourceLocation>) -> (result:
        Result<ExprRef, String>)
        requires
            old(tokens).wf(),
        ensures
            final(tokens).wf(),
            final(tokens)@.id == old(tokens)@.id,
            (state(final(tokens)@, final(self)@), plain(result)) == rules::parse_block_body(
                state(old(tokens)@, old(self)@),
                place,
            ),
            final(tokens)@.tokens.len() <= old(tokens)@.tokens.len(),
        decreases old(tokens)@.tokens.len(), 18nat,
    {
        let stmts = match self.parse_statements(tokens) {
            Ok(stmts) => stmts,
            Err(message) => {
                return Err(message);
            },
        };
        match self.expect(tokens, &Token::BraceClose) {
            Ok(_) => {},
            Err(message) => {
                return Err(message);
            },
        }
        self.add_expr(Expr::Block(stmts), place)
    }

    /// Parses a block.
    pub fn parse_block(&mut self, tokens: &mut Parser, Ghost(limit): Ghost<nat>) -> (result: Result<
        ExprRef,
        String,
    >)
        requires
            old(tokens).wf(),
            old(tokens)@.tokens.len() <= limit,
        ensures
            final(tokens).wf(),
            final(tokens)@.id == old(tokens)@.id,
            (state(final(tokens)@, final(self)@), plain(result)) == rules::parse_block(
                state(old(tokens)@, old(self)@),
                limit,
            ),
            final(tokens)@.tokens.len() <= old(tokens)@.tokens.len(),
            result is Ok ==> final(tokens)@.tokens.len() < old(tokens)@.tokens.len(),
        decreases limit, 0nat,
    {
        let place = tokens.place();
        if tokens.at(&Token::BraceOpen) {
            tokens.next();
            self.parse_block_body(tokens, place)
        } else {
            Err(tokens.complaint("BraceOpen expected but "))
        }
    }

    /// Parses the `elif` branches and the `else` branch that follow.
    #[verifier::rlimit(100)]
    pub fn parse_elifs(&mut self, tokens: &mut Parser, elifs: Vec<(ExprRef, ExprRef)>) -> (result:
        Result<(Vec<(ExprRef, ExprRef)>, Option<ExprRef>), String>)
        requires
            old(tokens).wf(),
        ensures
            final(tokens).wf(),
            final(tokens)@.id == old(tokens)@.id,
            rules::parse_elifs(state(old(tokens)@, old(self)@), elifs@) == (
                state(final(tokens)@, final(self)@),
                match result {
                    Ok(found) => Ok::<(Seq<(ExprRef, ExprRef)>, Option<ExprRef>), Seq<char>>(
                        (found.0@, found.1),
                    ),
                    Err(message) => Err::<(Seq<(ExprRef, ExprRef)>, Option<ExprRef>), Seq<char>>(
                        message@,
                    ),
                },
            ),
            final(tokens)@.tokens.len() <= old(tokens)@.tokens.len(),
        decreases old(tokens)@.tokens.len(), 19nat,
    {
        if tokens.at(&Token::Elif) {
            tokens.next();
            let cond = match self.parse_expr(tokens, false) {
                Ok(cond) => cond,
                Err(message) => {
                    return Err(message);
                },
            };
            let body = match self.parse_block(tokens, Ghost(old(tokens)@.tokens.len())) {
                Ok(body) => body,
                Err(message) => {
                    return Err(message);
                },
            };
            let mut elifs = elifs;
            elifs.push((cond, body));
            self.parse_elifs(tokens, elifs)
        } else if tokens.at(&Token::Else) {
            tokens.next();
            match self.parse_block(tokens, Ghost(old(tokens)@.tokens.len())) {
                Ok(body) => Ok((elifs, Some(body))),
                Err(message) => Err(message),
            }
        } else {
            Ok((elifs, None))
        }
    }

    /// Parses what follows `if`.
    #[verifier::rlimit(100)]
    pub fn parse_if(&mut self, tokens: &mut Parser, place: Option<SourceLocation>) -> (result: Result<
        ExprRef,
        String,
    >)
        requires
            old(tokens).wf(),
        ensures
            final(tokens).wf(),
            final(tokens)@.id == old(tokens)@.id,
            (state(final(tokens)@, final(self)@), plain(result)) == rules::parse_if(
                state(old(tokens)@, old(self)@),
                place,
            ),
            final(tokens)@.tokens.len() <= old(tokens)@.tokens.len(),
        decreases old(tokens)@.tokens.len(), 21nat,
    {
        let cond = match self.parse_expr(tokens, false) {
            Ok(cond) => cond,
            Err(message) => {
                return Err(message);
            },
        };
        let then_block = match self.parse_block(tokens, Ghost(old(tokens)@.tokens.len())) {
            Ok(then_block) => then_block,
            Err(message) => {
                return Err(message);
            },
        };
        let (elifs, otherwise) = match self.parse_elifs(tokens, Vec::new()) {
            Ok(found) => found,
            Err(message) => {
                return Err(message);
            },
        };
        let else_block = match otherwise {
            Some(block) => block,
            None => match self.add_expr(Expr::Block(Vec::new()), place) {
                Ok(block) => block,
                Err(message) => {
                    return Err(message);
                },
            },
        };
        self.add_expr(Expr::IfElifElse(cond, then_block, elifs, else_block), place)
    }

    /// Parses the parameters of a function up to the closing parenthesis.
    #[verifier::rlimit(100)]
    pub fn parse_params(&mut self, tokens: &mut Parser, params: Vec<(Symbol, TypeDecl)>) -> (result:
        Result<Vec<(Symbol, TypeDecl)>, String>)
        requires
            old(tokens).wf(),
        ensures
            final(tokens).wf(),
            final(tokens)@.id == old(tokens)@.id,
            rules::parse_params(state(old(tokens)@, old(self)@), parameters_view(params@)) == (
                state(final(tokens)@, final(self)@),
                match result {
                    Ok(list) => Ok::<Seq<(Symbol, Ty)>, Seq<char>>(parameters_view(list@)),
                    Err(message) => Err::<Seq<(Symbol, Ty)>, Seq<char>>(message@),
                },
            ),
            final(tokens)@.tokens.len() <= old(tokens)@.tokens.len(),
        decreases old(tokens)@.tokens.len(),
    {
        if tokens.at(&Token::ParenClose) {
            return Ok(params);
        }
        let name = match self.name(tokens) {
            Ok(name) => name,
            Err(message) => {
                return Err(message);
            },
        };
        match self.expect(tokens, &Token::Colon) {
            Ok(_) => {},
            Err(message) => {
                return Err(message);
            },
        }
        let ty = match self.parse_type(tokens) {
            Ok(ty) => ty,
            Err(message) => {
                return Err(message);
            },
        };
        let mut params = params;
        let ghost before = parameters_view(params@);
        params.push((name, ty));
        assert(parameters_view(params@) =~= before.push((name, ty@)));
        if tokens.at(&Token::Comma) {
            tokens.next();
            self.parse_params(tokens, params)
        } else {
            Ok(params)
        }
    }

    /// Parses what follows the parameters: the return type and the body.
    #[verifier::rlimit(100)]
    pub fn parse_result_and_body(&mut self, tokens: &mut Parser) -> (result: Result<
        (Option<TypeDecl>, StmtRef),
        String,
    >)
        requires
            old(tokens).wf(),
        ensures
            final(tokens).wf(),
            final(tokens)@.id == old(tokens)@.id,
            rules::parse_result_and_body(state(old(tokens)@, old(self)@)) == (
                state(final(tokens)@, final(self)@),
                match result {
                    Ok(found) => Ok::<(Option<Ty>, StmtRef), Seq<char>>(
                        (option_view(found.0), found.1),
                    ),
                    Err(message) => Err::<(Option<Ty>, StmtRef), Seq<char>>(message@),
                },
            ),
            final(tokens)@.tokens.len() <= old(tokens)@.tokens.len(),
            result is Ok ==> final(tokens)@.tokens.len() < old(tokens)@.tokens.len(),
    {
        match self.expect(tokens, &Token::ParenClose) {
            Ok(_) => {},
            Err(message) => {
                return Err(message);
            },
        }
        let return_type = if tokens.at(&Token::Arrow) {
            tokens.next();
            match self.parse_type(tokens) {
                Ok(ty) => Some(ty),
                Err(message) => {
                    return Err(message);
                },
            }
        } else {
            None
        };
        let place = tokens.place();
        let block = match self.parse_block(tokens, Ghost(tokens@.tokens.len())) {
            Ok(block) => block,
            Err(message) => {
                return Err(message);
            },
        };
        match self.add_stmt(Stmt::Expression(block), place) {
            Ok(code) => Ok((return_type, code)),
            Err(message) => Err(message),
        }
    }

    /// Parses what follows `fn`: a function.
    pub fn parse_function(&mut self, tokens: &mut Parser) -> (result: Result<Function, String>)
        requires
            old(tokens).wf(),
        ensures
            final(tokens).wf(),
            final(tokens)@.id == old(tokens)@.id,
            rules::parse_function(state(old(tokens)@, old(self)@)) == (
                state(final(tokens)@, final(self)@),
                match result {
                    Ok(function) => Ok::<FunctionNode, Seq<char>>(function@),
                    Err(message) => Err::<FunctionNode, Seq<char>>(message@),
                },
            ),
            final(tokens)@.tokens.len() <= old(tokens)@.tokens.len(),
            result is Ok ==> final(tokens)@.tokens.len() < old(tokens)@.tokens.len(),
    {
        let name = match self.name(tokens) {
            Ok(name) => name,
            Err(message) => {
                return Err(message);
            },
        };
        match self.expect(tokens, &Token::ParenOpen) {
            Ok(_) => {},
            Err(message) => {
                return Err(message);
            },
        }
        let empty: Vec<(Symbol, TypeDecl)> = Vec::new();
        assert(parameters_view(empty@) =~= Seq::<(Symbol, Ty)>::empty());
        let parameter = match self.parse_params(tokens, empty) {
            Ok(parameter) => parameter,
            Err(message) => {
                return Err(message);
            },
        };
        match self.parse_result_and_body(tokens) {
            Ok((return_type, code)) => Ok(Function { name, parameter, return_type, code }),
            Err(message) => Err(message),
        }
    }

    /// Takes a receiver `self` and the comma after it; says whether there
    /// was one.
    pub fn skip_receiver(&mut self, tokens: &mut Parser) -> (found: bool)
        requires
            old(tokens).wf(),
        ensures
            final(tokens).wf(),
            final(tokens)@.id == old(tokens)@.id,
            final(self)@ == old(self)@,
            found == rules::at_self(state(old(tokens)@, old(self)@)),
            state(final(tokens)@, final(self)@) == rules::skip_receiver(
                state(old(tokens)@, old(self)@),
            ),
            final(tokens)@.tokens.len() <= old(tokens)@.tokens.len(),
    {
        let found = match tokens.peek() {
            Some(Token::Identifier(name)) => *name == String::from_str("self"),
            _ => false,
        };
        if found {
            tokens.next();
            if tokens.at(&Token::Comma) {
                tokens.next();
            }
        }
        found
    }

    /// Parses what follows `fn` in an `impl` block: a method.
    pub fn parse_method(&mut self, tokens: &mut Parser) -> (result: Result<MethodFunction, String>)
        requires
            old(tokens).wf(),
        ensures
            final(tokens).wf(),
            final(tokens)@.id == old(tokens)@.id,
            rules::parse_method(state(old(tokens)@, old(self)@)) == (
                state(final(tokens)@, final(self)@),
                match result {
                    Ok(method) => Ok::<MethodNode, Seq<char>>(method@),
                    Err(message) => Err::<MethodNode, Seq<char>>(message@),
                },
            ),
            final(tokens)@.tokens.len() <= old(tokens)@.tokens.len(),
            result is Ok ==> final(tokens)@.tokens.len() < old(tokens)@.tokens.len(),
    {
        let name = match self.name(tokens) {
            Ok(name) => name,
            Err(message) => {
                return Err(message);
            },
        };
        match self.expect(tokens, &Token::ParenOpen) {
            Ok(_) => {},
            Err(message) => {
                return Err(message);
            },
        }
        let has_self_param = self.skip_receiver(tokens);
        let empty: Vec<(Symbol, TypeDecl)> = Vec::new();
        assert(parameters_view(empty@) =~= Seq::<(Symbol, Ty)>::empty());
        let parameter = match self.parse_params(tokens, empty) {
            Ok(parameter) => parameter,
            Err(message) => {
                return Err(message);
            },
        };
        match self.parse_result_and_body(tokens) {
            Ok((return_type, code)) => Ok(
                MethodFunction { name, parameter, return_type, code, has_self_param },
            ),
            Err(message) => Err(message),
        }
    }

    /// Takes the line feeds, semicolons and commas that come next.
    pub fn skip_field_separators(&mut self, tokens: &mut Parser)
        requires
            old(tokens).wf(),
        ensures
            final(tokens).wf(),
            final(tokens)@.id == old(tokens)@.id,
            final(self)@ == old(self)@,
            state(final(tokens)@, final(self)@) == rules::skip_field_separators(
                state(old(tokens)@, old(self)@),
            ),
            final(tokens)@.tokens.len() <= old(tokens)@.tokens.len(),
    {
        loop
            invariant
                tokens.wf(),
                tokens@.id == old(tokens)@.id,
                *self == *old(self),
                tokens@.tokens.len() <= old(tokens)@.tokens.len(),
                rules::skip_field_separators(state(old(tokens)@, old(self)@))
                    == rules::skip_field_separators(state(tokens@, self@)),
            decreases tokens@.tokens.len(),
        {
            let separator = match tokens.peek() {
                Some(Token::NewLine) => true,
                Some(Token::Semicolon) => true,
                Some(Token::Comma) => true,
                _ => false,
            };
            if !separator {
                return ;
            }
            tokens.next();
        }
    }

    /// Parses the fields of a struct declaration up to the closing brace.
    #[verifier::rlimit(100)]
    pub fn parse_struct_fields(&mut self, tokens: &mut Parser, fields: Vec<StructField>) -> (result:
        Result<Vec<StructField>, String>)
        requires
            old(tokens).wf(),
        ensures
            final(tokens).wf(),
            final(tokens)@.id == old(tokens)@.id,
            rules::parse_struct_fields(
                state(old(tokens)@, old(self)@),
                struct_fields_view(fields@),
            ) == (
                state(final(tokens)@, final(self)@),
                match result {
                    Ok(list) => Ok::<Seq<(Seq<char>, Ty)>, Seq<char>>(struct_fields_view(list@)),
                    Err(message) => Err::<Seq<(Seq<char>, Ty)>, Seq<char>>(message@),
                },
            ),
            final(tokens)@.tokens.len() <= old(tokens)@.tokens.len(),
        decreases old(tokens)@.tokens.len(),
    {
        self.skip_field_separators(tokens);
        if tokens.at(&Token::BraceClose) {
            return Ok(fields);
        }
        let name = match tokens.identifier() {
            Some(name) => name,
            None => {
                return Err(tokens.complaint("Identifier expected but "));
            },
        };
        match self.expect(tokens, &Token::Colon) {
            Ok(_) => {},
            Err(message) => {
                return Err(message);
            },
        }
        let type_decl = match self.parse_type(tokens) {
            Ok(ty) => ty,
            Err(message) => {
                return Err(message);
            },
        };
        let mut fields = fields;
        let ghost before = struct_fields_view(fields@);
        fields.push(StructField { name, type_decl });
        assert(struct_fields_view(fields@) =~= before.push((name@, type_decl@)));
        self.parse_struct_fields(tokens, fields)
    }

    /// Parses what follows `struct`: a struct declaration.
    #[verifier::rlimit(100)]
    pub fn parse_struct_decl(&mut self, tokens: &mut Parser, place: Option<SourceLocation>) -> (result:
        Result<StmtRef, String>)
        requires
            old(tokens).wf(),
        ensures
            final(tokens).wf(),
            final(tokens)@.id == old(tokens)@.id,
            (state(final(tokens)@, final(self)@), plain(result)) == rules::parse_struct_decl(
                state(old(tokens)@, old(self)@),
                place,
            ),
            final(tokens)@.tokens.len() <= old(tokens)@.tokens.len(),
            result is Ok ==> final(tokens)@.tokens.len() < old(tokens)@.tokens.len(),
    {
        let name = match tokens.identifier() {
            Some(name) => name,
            None => {
                return Err(tokens.complaint("Identifier expected but "));
            },
        };
        match self.expect(tokens, &Token::BraceOpen) {
            Ok(_) => {},
            Err(message) => {
                return Err(message);
            },
        }
        let empty: Vec<StructField> = Vec::new();
        assert(struct_fields_view(empty@) =~= Seq::<(Seq<char>, Ty)>::empty());
        let fields = match self.parse_struct_fields(tokens, empty) {
            Ok(fields) => fields,
            Err(message) => {
                return Err(message);
            },
        };
        match self.expect(tokens, &Token::BraceClose) {
            Ok(_) => {},
            Err(message) => {
                return Err(message);
            },
        }
        self.add_stmt(Stmt::StructDecl { name, fields }, place)
    }

    /// Parses the methods of an `impl` block up to the closing brace.
    #[verifier::rlimit(100)]
    pub fn parse_methods(&mut self, tokens: &mut Parser, methods: Vec<Rc<MethodFunction>>) -> (result:
        Result<Vec<Rc<MethodFunction>>, String>)
        requires
            old(tokens).wf(),
        ensures
            final(tokens).wf(),
            final(tokens)@.id == old(tokens)@.id,
            rules::parse_methods(state(old(tokens)@, old(self)@), methods_view(methods@)) == (
                state(final(tokens)@, final(self)@),
                match result {
                    Ok(list) => Ok::<Seq<MethodNode>, Seq<char>>(methods_view(list@)),
                    Err(message) => Err::<Seq<MethodNode>, Seq<char>>(message@),
                },
            ),
            final(tokens)@.tokens.len() <= old(tokens)@.tokens.len(),
        decreases old(tokens)@.tokens.len(),
    {
        self.skip_separators(tokens);
        if tokens.at(&Token::BraceClose) {
            return Ok(methods);
        }
        match self.expect(tokens, &Token::Function) {
            Ok(_) => {},
            Err(message) => {
                return Err(message);
            },
        }
        let method = match self.parse_method(tokens) {
            Ok(method) => method,
            Err(message) => {
                return Err(message);
            },
        };
        let mut methods = methods;
        let ghost before = methods_view(methods@);
        let shared = Rc::new(method);
        methods.push(shared);
        assert(methods_view(methods@) =~= before.push(method@));
        self.parse_methods(tokens, methods)
    }

    /// Parses what follows `impl`: an `impl` block.
    #[verifier::rlimit(100)]
    pub fn parse_impl(&mut self, tokens: &mut Parser, place: Option<SourceLocation>) -> (result: Result<
        StmtRef,
        String,
    >)
        requires
            old(tokens).wf(),
        ensures
            final(tokens).wf(),
            final(tokens)@.id == old(tokens)@.id,
            (state(final(tokens)@, final(self)@), plain(result)) == rules::parse_impl(
                state(old(tokens)@, old(self)@),
                place,
            ),
            final(tokens)@.tokens.len() <= old(tokens)@.tokens.len(),
            result is Ok ==> final(tokens)@.tokens.len() < old(tokens)@.tokens.len(),
    {
        let target_type = match tokens.identifier() {
            Some(name) => name,
            None => {
                return Err(tokens.complaint("Identifier expected but "));
            },
        };
        match self.expect(tokens, &Token::BraceOpen) {
            Ok(_) => {},
            Err(message) => {
                return Err(message);
            },
        }
        let empty: Vec<Rc<MethodFunction>> = Vec::new();
        assert(methods_view(empty@) =~= Seq::<MethodNode>::empty());
        let methods = match self.parse_methods(tokens, empty) {
            Ok(methods) => methods,
            Err(message) => {
                return Err(message);
            },
        };
        match self.expect(tokens, &Token::BraceClose) {
            Ok(_) => {},
            Err(message) => {
                return Err(message);
            },
        }
        self.add_stmt(Stmt::ImplBlock { target_type, methods }, place)
    }

    /// Adds a function to the program.
    pub fn add_function(&mut self, function: Function)
        ensures
            final(self)@ == (ProgramNode {
                functions: old(self)@.functions.push(function@),
                ..old(self)@
            }),
    {
        self.program.function.push(Rc::new(function));
        assert(self@.functions =~= old(self)@.functions.push(function@));
    }

    /// Parses the items of a program up to the end of the tokens.
    #[verifier::rlimit(100)]
    pub fn parse_items(&mut self, tokens: &mut Parser) -> (result: Result<(), String>)
        requires
            old(tokens).wf(),
        ensures
            final(tokens).wf(),
            final(tokens)@.id == old(tokens)@.id,
            (state(final(tokens)@, final(self)@), plain(result)) == rules::parse_items(
                state(old(tokens)@, old(self)@),
            ),
        decreases old(tokens)@.tokens.len(),
    {
        self.skip_separators(tokens);
        let place = tokens.place();
        let kind = match tokens.peek() {
            None => 0u8,
            Some(Token::Function) => 1u8,
            Some(Token::Struct) => 2u8,
            Some(Token::Impl) => 3u8,
            Some(_) => 4u8,
        };
        if kind == 0 {
            Ok(())
        } else if kind == 1 {
            tokens.next();
            match self.parse_function(tokens) {
                Ok(function) => {
                    self.add_function(function);
                },
                Err(message) => {
                    return Err(message);
                },
            }
            self.parse_items(tokens)
        } else if kind == 2 {
            tokens.next();
            match self.parse_struct_decl(tokens, place) {
                Ok(_) => {},
                Err(message) => {
                    return Err(message);
                },
            }
            self.parse_items(tokens)
        } else if kind == 3 {
            tokens.next();
            match self.parse_impl(tokens, place) {
                Ok(_) => {},
                Err(message) => {
                    return Err(message);
                },
            }
            self.parse_items(tokens)
        } else {
            Err(tokens.complaint("parse_program: unexpected token "))
        }
    }
}

} // verus!
