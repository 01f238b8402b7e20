//! The parser: it reads tokens from the lexer and builds expression trees
//! line by line, or the pools of a whole program.

use crate::grammar;
use crate::grammar::{Level, Parsed};
use crate::lexer::{
    lemma_lex_step_advances, lemma_starts_match, lex_step, starts_from, tokens_from, Lexed, Lexer,
};
use crate::ast::{Program, ProgramNode};
use crate::lexer::{find_invalid, first_invalid};
use crate::program_grammar::{parse_items, Parse};
use crate::program_parser::Builder;
use crate::text::push_decimal;
use crate::type_checker::error::{location_text, SourceLocation};
use crate::syntax::{exprs_view, BinaryExpr, Expr, ExprView, Operator, TVar, Type, VarType};
use crate::token::{tokens_view, Token, TokenView};
use vstd::prelude::*;
use vstd::string::*;

verus! {

/// A parser for single expression lines. It reads its tokens from the
/// lexer as it needs them, and numbers the type variables it gives out.
pub struct Parser {
    pub lexer: Lexer,
    /// The tokens that were read ahead.
    pub ahead: Vec<Token>,
    /// The places at which the tokens in `ahead` start.
    pub starts: Vec<SourceLocation>,
    pub current_id: u64,
}

/// The mathematical value of a parser: the tokens that are still to come
/// and the number of the last type variable.
pub ghost struct ParserView {
    pub tokens: Seq<TokenView>,
    /// The places at which the tokens start.
    pub starts: Seq<SourceLocation>,
    pub id: u64,
}

impl View for Parser {
    type V = ParserView;

    open spec fn view(&self) -> ParserView {
        ParserView {
            tokens: tokens_view(self.ahead@) + self.lexer.rest(),
            starts: self.starts@ + self.lexer.rest_starts(),
            id: self.current_id,
        }
    }
}

/// The value of a parsing result.
pub open spec fn result_view(result: Result<Expr, String>) -> Result<ExprView, Seq<char>> {
    match result {
        Ok(expr) => Ok(expr@),
        Err(message) => Err(message@),
    }
}

/// The outcome that a parser's state and result stand for.
pub open spec fn parsed(parser: ParserView, result: Result<Expr, String>) -> Parsed<ExprView> {
    Parsed { result: result_view(result), rest: parser.tokens, id: parser.id }
}

impl Level {
    /// The level of the first operand.
    pub fn first_level(self) -> (level: Level)
        ensures
            level == self.first(),
    {
        match self {
            Level::Primary => Level::Primary,
            Level::Mul => Level::Primary,
            Level::Add => Level::Mul,
            Level::Relational => Level::Add,
            Level::Equality => Level::Relational,
            Level::Logical => Level::Equality,
        }
    }

    /// The level of the operands that follow an operator.
    pub fn following_level(self) -> (level: Level)
        ensures
            level == self.following(),
    {
        match self {
            Level::Primary => Level::Primary,
            Level::Mul => Level::Mul,
            Level::Add => Level::Mul,
            Level::Relational => Level::Add,
            Level::Equality => Level::Relational,
            Level::Logical => Level::Relational,
        }
    }

    /// The operator of this level that `token` writes.
    pub fn operator_of(self, token: &Token) -> (op: Option<Operator>)
        ensures
            op == self.operator(token@),
    {
        match self {
            Level::Primary => None,
            Level::Mul => match token {
                Token::IMul => Some(Operator::IMul),
                Token::IDiv => Some(Operator::IDiv),
                _ => None,
            },
            Level::Add => match token {
                Token::IAdd => Some(Operator::IAdd),
                Token::ISub => Some(Operator::ISub),
                _ => None,
            },
            Level::Relational => match token {
                Token::LT => Some(Operator::LT),
                Token::LE => Some(Operator::LE),
                Token::GT => Some(Operator::GT),
                Token::GE => Some(Operator::GE),
                _ => None,
            },
            Level::Equality => match token {
                Token::DoubleEqual => Some(Operator::EQ),
                Token::NotEqual => Some(Operator::NE),
                _ => None,
            },
            Level::Logical => match token {
                Token::DoubleAnd => Some(Operator::LogicalAnd),
                Token::DoubleOr => Some(Operator::LogicalOr),
                _ => None,
            },
        }
    }
}

/// The name of a token's variant, as the grammar's messages give it.
pub fn token_name(token: &Token) -> (name: &'static str)
    ensures
        name@ == grammar::token_name(token@),
{
    token.name()
}

impl Parser {
    /// Whether the lexer stands within its input.
    pub open spec fn wf(&self) -> bool {
        self.lexer.wf() && self.starts@.len() == self.ahead@.len()
    }

    /// A parser at the start of `input`.
    pub fn new(input: &str) -> (parser: Parser)
        ensures
            parser.wf(),
            parser@.tokens == tokens_from(input@, 0),
            parser@.starts == starts_from(input@, 0),
            parser@.id == 0,
    {
        let parser = Parser {
            lexer: Lexer::new(input, 1u64),
            ahead: Vec::new(),
            starts: Vec::new(),
            current_id: 0,
        };
        assert(parser@.tokens =~= tokens_from(input@, 0));
        assert(parser@.starts =~= starts_from(input@, 0));
        parser
    }

    /// Reads one more token from the lexer; says whether there was one.
    fn fill(&mut self) -> (filled: bool)
        requires
            old(self).wf(),
        ensures
            final(self).wf(),
            final(self)@ == old(self)@,
            filled ==> final(self).ahead@.len() == old(self).ahead@.len() + 1,
            !filled ==> final(self).ahead@ == old(self).ahead@ && final(self)@.tokens.len() == old(self).ahead@.len(),
            forall|i: int| 0 <= i < old(self).ahead@.len() ==> final(self).ahead@[i] == old(self).ahead@[i],
    {
        proof {
            lemma_lex_step_advances(self.lexer.input@, self.lexer.pos as int);
        }
        match self.lexer.yylex() {
            Ok(token) => {
                self.ahead.push(token);
                self.starts.push(self.lexer.last_start);
                assert(self@.tokens =~= old(self)@.tokens);
                assert(self@.starts =~= old(self)@.starts);
                true
            },
            Err(_) => {
                assert(self@.tokens =~= tokens_view(self.ahead@));
                false
            },
        }
    }

    /// The next token, which stays where it is.
    pub fn peek(&mut self) -> (token: Option<&Token>)
        requires
            old(self).wf(),
        ensures
            final(self).wf(),
            final(self)@ == old(self)@,
            match token {
                Some(t) => final(self)@.tokens.len() > 0 && t@ == final(self)@.tokens[0] && final(self).ahead@.len() > 0,
                None => final(self)@.tokens.len() == 0,
            },
    {
        if self.ahead.len() == 0 {
            if !self.fill() {
                return None;
            }
        }
        Some(&self.ahead[0])
    }

    /// The token `pos` places after the next one, which stays where it is.
    pub fn peek_n(&mut self, pos: usize) -> (token: Option<&Token>)
        requires
            old(self).wf(),
        ensures
            final(self).wf(),
            final(self)@ == old(self)@,
            match token {
                Some(t) => pos < final(self)@.tokens.len() && t@ == final(self)@.tokens[pos as int]
                    && pos < final(self).ahead@.len(),
                None => final(self)@.tokens.len() <= pos,
            },
    {
        while self.ahead.len() <= pos
            invariant
                self.wf(),
                self@ == old(self)@,
            decreases pos + 1 - self.ahead@.len(),
        {
            let ghost before = self.ahead@.len();
            if !self.fill() {
                return None;
            }
            assert(self.ahead@.len() == before + 1);
        }
        Some(&self.ahead[pos])
    }

    /// Drops the next `count` tokens, which were looked at before.
    pub fn consume(&mut self, count: usize) -> (dropped: usize)
        requires
            old(self).wf(),
            count <= old(self).ahead@.len(),
        ensures
            final(self).wf(),
            dropped == count,
            final(self)@.id == old(self)@.id,
            final(self)@.tokens == old(self)@.tokens.subrange(
                count as int,
                old(self)@.tokens.len() as int,
            ),
            final(self)@.starts == old(self)@.starts.subrange(
                count as int,
                old(self)@.starts.len() as int,
            ),
    {
        let mut i: usize = 0;
        assert(self@.tokens.subrange(0, self@.tokens.len() as int) =~= self@.tokens);
        assert(self@.starts.subrange(0, self@.starts.len() as int) =~= self@.starts);
        while i < count
            invariant
                i <= count <= old(self).ahead@.len(),
                old(self).starts@.len() == old(self).ahead@.len(),
                self.wf(),
                self.ahead@.len() == old(self).ahead@.len() - i,
                self@.id == old(self)@.id,
                self@.tokens == old(self)@.tokens.subrange(i as int, old(self)@.tokens.len() as int),
                self@.starts == old(self)@.starts.subrange(i as int, old(self)@.starts.len() as int),
            decreases count - i,
        {
            let ghost before = self@.tokens;
            let ghost places = self@.starts;
            self.ahead.remove(0);
            self.starts.remove(0);
            assert(self@.starts =~= places.drop_first());
            assert(places.drop_first() =~= old(self)@.starts.subrange(
                i + 1,
                old(self)@.starts.len() as int,
            ));
            assert(self@.tokens =~= before.drop_first());
            assert(before.drop_first() =~= old(self)@.tokens.subrange(
                i + 1,
                old(self)@.tokens.len() as int,
            ));
            i += 1;
        }
        count
    }

    /// Drops the next token, which was looked at before.
    pub fn next(&mut self)
        requires
            old(self).wf(),
            old(self).ahead@.len() > 0,
        ensures
            final(self).wf(),
            final(self)@.id == old(self)@.id,
            final(self)@.tokens == old(self)@.tokens.drop_first(),
            final(self)@.starts == old(self)@.starts.drop_first(),
    {
        self.ahead.remove(0);
        self.starts.remove(0);
        assert(self@.tokens =~= old(self)@.tokens.drop_first());
        assert(self@.starts =~= old(self)@.starts.drop_first());
    }

    /// Takes the next token if it is `accept`; says whether it was.
    pub fn expect(&mut self, accept: &Token) -> (taken: bool)
        requires
            old(self).wf(),
        ensures
            final(self).wf(),
            taken == (old(self)@.tokens.len() > 0 && old(self)@.tokens[0] == accept@),
            final(self)@.id == old(self)@.id,
            final(self)@.tokens == if taken {
                old(self)@.tokens.drop_first()
            } else {
                old(self)@.tokens
            },
            final(self)@.starts == if taken {
                old(self)@.starts.drop_first()
            } else {
                old(self)@.starts
            },
    {
        let matches = match self.peek() {
            Some(token) => token.same(accept),
            None => false,
        };
        if matches {
            self.next();
        }
        matches
    }

    /// The name of the next token, or `None` where none is left.
    pub fn describe_next(&mut self) -> (name: &'static str)
        requires
            old(self).wf(),
        ensures
            final(self).wf(),
            final(self)@ == old(self)@,
            name@ == grammar::describe(old(self)@.tokens),
    {
        match self.peek() {
            Some(token) => token_name(token),
            None => "None",
        }
    }

    /// Whether the next token is `token`.
    pub fn at(&mut self, token: &Token) -> (yes: bool)
        requires
            old(self).wf(),
        ensures
            final(self).wf(),
            final(self)@ == old(self)@,
            yes == (old(self)@.tokens.len() > 0 && old(self)@.tokens[0] == token@),
            yes ==> final(self).ahead@.len() > 0,
    {
        match self.peek() {
            Some(next) => next.same(token),
            None => false,
        }
    }

    /// The place at which the next token starts.
    pub fn place(&mut self) -> (place: Option<SourceLocation>)
        requires
            old(self).wf(),
        ensures
            final(self).wf(),
            final(self)@ == old(self)@,
            old(self)@.starts.len() == old(self)@.tokens.len(),
            place == if old(self)@.starts.len() > 0 {
                Some(old(self)@.starts[0])
            } else {
                None
            },
    {
        proof {
            lemma_starts_match(self.lexer.input@, self.lexer.pos as int);
        }
        let present = self.peek().is_some();
        proof {
            lemma_starts_match(self.lexer.input@, self.lexer.pos as int);
        }
        if present {
            Some(self.starts[0])
        } else {
            None
        }
    }

    /// The text of the identifier that comes next, which is taken; `None`,
    /// with nothing taken, where another token comes next.
    pub fn identifier(&mut self) -> (text: Option<String>)
        requires
            old(self).wf(),
        ensures
            final(self).wf(),
            final(self)@.id == old(self)@.id,
            match text {
                Some(name) => old(self)@.tokens.len() > 0 && old(self)@.tokens[0]
                    == TokenView::Identifier(name@) && final(self)@.tokens == old(self)@.tokens.drop_first() && final(self)@.starts == old(self)@.starts.drop_first(),
                None => !(old(self)@.tokens.len() > 0 && old(self)@.tokens[0] is Identifier)
                    && final(self)@ == old(self)@,
            },
    {
        let text = match self.peek() {
            Some(Token::Identifier(name)) => Some(name.clone()),
            _ => None,
        };
        if text.is_some() {
            self.next();
        }
        text
    }

    /// A message that ends in the name of the next token.
    pub fn complaint(&mut self, prefix: &str) -> (message: String)
        requires
            old(self).wf(),
        ensures
            final(self).wf(),
            final(self)@ == old(self)@,
            message@ == prefix@ + grammar::describe(old(self)@.tokens),
    {
        let mut message = String::from_str(prefix);
        message.append(self.describe_next());
        message
    }

    /// Takes the next token if it is `accept`, and fails if it is not.
    pub fn expect_err(&mut self, accept: &Token) -> (result: Result<(), String>)
        requires
            old(self).wf(),
        ensures
            final(self).wf(),
            grammar::expect_err(old(self)@.tokens, old(self)@.id, accept@) == (Parsed {
                result: match result {
                    Ok(_) => Ok::<(), Seq<char>>(()),
                    Err(message) => Err::<(), Seq<char>>(message@),
                },
                rest: final(self)@.tokens,
                id: final(self)@.id,
            }),
            final(self)@.starts == if result is Ok {
                old(self)@.starts.drop_first()
            } else {
                old(self)@.starts
            },
    {
        if !self.expect(accept) {
            let mut message = String::from_str(token_name(accept));
            message.append(" expected but ");
            message.append(self.describe_next());
            return Err(message);
        }
        Ok(())
    }

    /// A binary expression.
    pub fn new_binary(op: Operator, lhs: Expr, rhs: Expr) -> (expr: Expr)
        ensures
            expr@ == ExprView::Binary(op, Box::new(lhs@), Box::new(rhs@)),
    {
        Expr::Binary(Box::new(BinaryExpr { op, lhs, rhs }))
    }

    /// A type variable with the next number.
    pub fn fresh_ty(&mut self) -> (var: VarType)
        ensures
            final(self).current_id == grammar::fresh(old(self).current_id),
            final(self).lexer == old(self).lexer,
            final(self).ahead == old(self).ahead,
            final(self).starts == old(self).starts,
            var == (VarType { id: grammar::fresh(old(self).current_id), ty: Type::Unknown }),
    {
        if self.current_id < u64::MAX {
            self.current_id += 1;
        }
        VarType { id: self.current_id, ty: Type::Unknown }
    }

    /// Parses an expression that fills a line.
    pub fn parse_expr_line(&mut self) -> (result: Result<Expr, String>)
        requires
            old(self).wf(),
        ensures
            final(self).wf(),
            parsed(final(self)@, result) == grammar::parse_expr_line(
                old(self)@.tokens,
                old(self)@.id,
            ),
    {
        let lhs = self.parse_expr();
        if lhs.is_err() {
            return lhs;
        }
        let at_end = match self.peek() {
            Some(Token::NewLine) => {
                self.next();
                true
            },
            None => true,
            Some(_) => false,
        };
        if !at_end {
            return Err(self.complaint("parse_expr: expected NewLine or EOF(None) but "));
        }
        lhs
    }

    /// Parses an expression.
    pub fn parse_expr(&mut self) -> (result: Result<Expr, String>)
        requires
            old(self).wf(),
        ensures
            final(self).wf(),
            parsed(final(self)@, result) == grammar::parse_expr(old(self)@.tokens, old(self)@.id),
            final(self)@.tokens.len() <= old(self)@.tokens.len(),
        decreases old(self)@.tokens.len(), 15nat,
    {
        self.parse_assign()
    }

    /// Parses a `val` definition, an assignment or a plain expression.
    pub fn parse_assign(&mut self) -> (result: Result<Expr, String>)
        requires
            old(self).wf(),
        ensures
            final(self).wf(),
            parsed(final(self)@, result) == grammar::parse_assign(old(self)@.tokens, old(self)@.id),
            final(self)@.tokens.len() <= old(self)@.tokens.len(),
        decreases old(self)@.tokens.len(), 14nat,
    {
        let is_val = match self.peek() {
            Some(Token::Val) => true,
            _ => false,
        };
        if is_val {
            self.next();
            return self.parse_val_def();
        }
        let lhs = match self.parse_level(Level::Logical) {
            Ok(lhs) => lhs,
            Err(message) => {
                return Err(message);
            },
        };
        let is_equal = match self.peek() {
            Some(Token::Equal) => true,
            _ => false,
        };
        if is_equal {
            self.next();
            match self.parse_level(Level::Logical) {
                Ok(rhs) => Ok(Self::new_binary(Operator::Assign, lhs, rhs)),
                Err(message) => Err(message),
            }
        } else {
            Ok(lhs)
        }
    }

    /// Parses what follows `val`: the name, its type and its value.
    pub fn parse_val_def(&mut self) -> (result: Result<Expr, String>)
        requires
            old(self).wf(),
        ensures
            final(self).wf(),
            parsed(final(self)@, result) == grammar::parse_val_def(old(self)@.tokens, old(self)@.id),
            final(self)@.tokens.len() <= old(self)@.tokens.len(),
        decreases old(self)@.tokens.len(), 13nat,
    {
        let name = match self.peek() {
            Some(Token::Identifier(s)) => Some(s.clone()),
            _ => None,
        };
        let ident = match name {
            Some(ident) => ident,
            None => {
                return Err(self.complaint("parse_val_def: expected identifier but "));
            },
        };
        self.next();
        let is_colon = match self.peek() {
            Some(Token::Colon) => true,
            _ => false,
        };
        let def_ty = if is_colon {
            self.next();
            match self.parse_def_ty() {
                Ok(def_ty) => def_ty,
                Err(message) => {
                    return Err(message);
                },
            }
        } else {
            TVar { s: String::new(), ty: Type::Unknown }
        };
        let is_equal = match self.peek() {
            Some(Token::Equal) => true,
            _ => false,
        };
        let rhs = if is_equal {
            self.next();
            match self.parse_level(Level::Logical) {
                Ok(rhs) => Some(Box::new(rhs)),
                Err(message) => {
                    return Err(message);
                },
            }
        } else {
            None
        };
        Ok(Expr::Val(ident, def_ty, rhs))
    }

    /// Parses a declared type.
    pub fn parse_def_ty(&mut self) -> (result: Result<TVar, String>)
        requires
            old(self).wf(),
        ensures
            final(self).wf(),
            grammar::parse_def_ty(old(self)@.tokens, old(self)@.id) == (Parsed {
                result: match result {
                    Ok(def_ty) => Ok::<crate::syntax::TVarView, Seq<char>>(def_ty@),
                    Err(message) => Err::<crate::syntax::TVarView, Seq<char>>(message@),
                },
                rest: final(self)@.tokens,
                id: final(self)@.id,
            }),
            final(self)@.tokens.len() <= old(self)@.tokens.len(),
    {
        let found = match self.peek() {
            Some(Token::U64) => Some((String::new(), 0u8)),
            Some(Token::I64) => Some((String::new(), 1u8)),
            Some(Token::Identifier(s)) => Some((s.clone(), 2u8)),
            _ => None,
        };
        match found {
            Some((ident, which)) => {
                let ty = if which == 0 {
                    Type::UInt64
                } else if which == 1 {
                    Type::Int64
                } else {
                    Type::Variable(Box::new(self.fresh_ty()))
                };
                self.next();
                Ok(TVar { s: ident, ty })
            },
            None => Err(self.complaint("parse_def_ty: expected type but ")),
        }
    }

    /// Parses an expression of the binary operators up to `level`.
    pub fn parse_level(&mut self, level: Level) -> (result: Result<Expr, String>)
        requires
            old(self).wf(),
        ensures
            final(self).wf(),
            parsed(final(self)@, result) == grammar::parse_level(
                level,
                old(self)@.tokens,
                old(self)@.id,
            ),
            final(self)@.tokens.len() <= old(self)@.tokens.len(),
        decreases old(self)@.tokens.len(), 2 * level.rank() + 1,
    {
        if matches!(level, Level::Primary) {
            return self.parse_primary();
        }
        let mut lhs = match self.parse_level(level.first_level()) {
            Ok(lhs) => lhs,
            Err(message) => {
                return Err(message);
            },
        };
        loop
            invariant
                self.wf(),
                level != Level::Primary,
                self@.tokens.len() <= old(self)@.tokens.len(),
                grammar::parse_level(level, old(self)@.tokens, old(self)@.id) == grammar::parse_tail(
                    level,
                    lhs@,
                    self@.tokens,
                    self@.id,
                ),
            decreases self@.tokens.len(),
        {
            let op = match self.peek() {
                Some(token) => level.operator_of(token),
                None => None,
            };
            match op {
                Some(op) => {
                    self.next();
                    let rhs = match self.parse_level(level.following_level()) {
                        Ok(rhs) => rhs,
                        Err(message) => {
                            return Err(message);
                        },
                    };
                    lhs = Self::new_binary(op, lhs, rhs);
                },
                None => {
                    return Ok(lhs);
                },
            }
        }
    }

    /// Parses an expression of `&&` and `||`.
    pub fn parse_logical_expr(&mut self) -> (result: Result<Expr, String>)
        requires
            old(self).wf(),
        ensures
            final(self).wf(),
            parsed(final(self)@, result) == grammar::parse_level(
                Level::Logical,
                old(self)@.tokens,
                old(self)@.id,
            ),
    {
        self.parse_level(Level::Logical)
    }

    /// Parses an expression of `==` and `!=`.
    pub fn parse_equality(&mut self) -> (result: Result<Expr, String>)
        requires
            old(self).wf(),
        ensures
            final(self).wf(),
            parsed(final(self)@, result) == grammar::parse_level(
                Level::Equality,
                old(self)@.tokens,
                old(self)@.id,
            ),
    {
        self.parse_level(Level::Equality)
    }

    /// Parses an expression of `<`, `<=`, `>` and `>=`.
    pub fn parse_relational(&mut self) -> (result: Result<Expr, String>)
        requires
            old(self).wf(),
        ensures
            final(self).wf(),
            parsed(final(self)@, result) == grammar::parse_level(
                Level::Relational,
                old(self)@.tokens,
                old(self)@.id,
            ),
    {
        self.parse_level(Level::Relational)
    }

    /// Parses an expression of `+` and `-`.
    pub fn parse_add(&mut self) -> (result: Result<Expr, String>)
        requires
            old(self).wf(),
        ensures
            final(self).wf(),
            parsed(final(self)@, result) == grammar::parse_level(
                Level::Add,
                old(self)@.tokens,
                old(self)@.id,
            ),
    {
        self.parse_level(Level::Add)
    }

    /// Parses an expression of `*` and `/`.
    pub fn parse_mul(&mut self) -> (result: Result<Expr, String>)
        requires
            old(self).wf(),
        ensures
            final(self).wf(),
            parsed(final(self)@, result) == grammar::parse_level(
                Level::Mul,
                old(self)@.tokens,
                old(self)@.id,
            ),
    {
        self.parse_level(Level::Mul)
    }

    /// Parses an expression and the closing parenthesis behind it.
    pub fn parse_parenthesised(&mut self) -> (result: Result<Expr, String>)
        requires
            old(self).wf(),
        ensures
            final(self).wf(),
            parsed(final(self)@, result) == grammar::parse_parenthesised(
                old(self)@.tokens,
                old(self)@.id,
            ),
            final(self)@.tokens.len() <= old(self)@.tokens.len(),
        decreases old(self)@.tokens.len(), 17nat,
    {
        let node = match self.parse_expr() {
            Ok(node) => node,
            Err(message) => {
                return Err(message);
            },
        };
        match self.expect_err(&Token::ParenClose) {
            Ok(_) => Ok(node),
            Err(message) => Err(message),
        }
    }

    /// Parses what follows the identifier `s`: the arguments of a call, or
    /// nothing.
    pub fn parse_named(&mut self, s: String) -> (result: Result<Expr, String>)
        requires
            old(self).wf(),
        ensures
            final(self).wf(),
            parsed(final(self)@, result) == grammar::parse_named(
                s@,
                old(self)@.tokens,
                old(self)@.id,
            ),
            final(self)@.tokens.len() <= old(self)@.tokens.len(),
        decreases old(self)@.tokens.len(), 17nat,
    {
        let is_call = match self.peek() {
            Some(Token::ParenOpen) => true,
            _ => false,
        };
        if is_call {
            self.next();
            let ty = Type::Variable(Box::new(self.fresh_ty()));
            let empty: Vec<Expr> = Vec::new();
            assert(exprs_view(empty@) =~= Seq::<ExprView>::empty());
            let args = match self.parse_expr_list(empty) {
                Ok(args) => args,
                Err(message) => {
                    return Err(message);
                },
            };
            return match self.expect_err(&Token::ParenClose) {
                Ok(_) => {
                    let ghost list = exprs_view(args@);
                    let call = Expr::Call(TVar { s, ty }, args);
                    assert(call@->Call_1 =~= list);
                    Ok(call)
                },
                Err(message) => Err(message),
            };
        }
        let ty = Type::Variable(Box::new(self.fresh_ty()));
        Ok(Expr::Identifier(TVar { s, ty }))
    }

    /// The literal that the token writes.
    pub fn literal(token: &Token) -> (expr: Option<Expr>)
        ensures
            match expr {
                Some(e) => grammar::literal(token@) == Some(e@),
                None => grammar::literal(token@) is None,
            },
    {
        match token {
            Token::UInt64(num) => Some(Expr::UInt64(*num)),
            Token::Int64(num) => Some(Expr::Int64(*num)),
            Token::Integer(_) => Some(Expr::Int64(0)),
            Token::Null => Some(Expr::Null),
            _ => None,
        }
    }

    /// Parses an operand: a parenthesised expression, a call, a name or a
    /// literal.
    pub fn parse_primary(&mut self) -> (result: Result<Expr, String>)
        requires
            old(self).wf(),
        ensures
            final(self).wf(),
            parsed(final(self)@, result) == grammar::parse_primary(old(self)@.tokens, old(self)@.id),
            final(self)@.tokens.len() <= old(self)@.tokens.len(),
        decreases old(self)@.tokens.len(), 0nat,
    {
        let first = match self.peek() {
            Some(Token::ParenOpen) => 0u8,
            Some(Token::Identifier(_)) => 1u8,
            Some(_) => 2u8,
            None => 3u8,
        };
        if first == 3 {
            return Err(String::from_str("parse_primary: unexpected token None"));
        }
        if first == 0 {
            self.next();
            return self.parse_parenthesised();
        }
        if first == 1 {
            let s = match self.peek() {
                Some(Token::Identifier(s)) => s.clone(),
                _ => String::new(),
            };
            self.next();
            return self.parse_named(s);
        }
        let literal = match self.peek() {
            Some(token) => Self::literal(token),
            None => None,
        };
        match literal {
            Some(expr) => {
                self.next();
                Ok(expr)
            },
            None => Err(self.complaint("parse_primary: unexpected token ")),
        }
    }

    /// Parses the arguments of a call, up to the closing parenthesis, and
    /// adds them to `args`.
    pub fn parse_expr_list(&mut self, args: Vec<Expr>) -> (result: Result<Vec<Expr>, String>)
        requires
            old(self).wf(),
        ensures
            final(self).wf(),
            grammar::parse_expr_list(exprs_view(args@), old(self)@.tokens, old(self)@.id) == (Parsed {
                result: match result {
                    Ok(list) => Ok::<Seq<ExprView>, Seq<char>>(exprs_view(list@)),
                    Err(message) => Err::<Seq<ExprView>, Seq<char>>(message@),
                },
                rest: final(self)@.tokens,
                id: final(self)@.id,
            }),
            final(self)@.tokens.len() <= old(self)@.tokens.len(),
        decreases old(self)@.tokens.len(), 16nat,
    {
        let closed = match self.peek() {
            Some(Token::ParenClose) => true,
            _ => false,
        };
        if closed {
            return Ok(args);
        }
        let mut args = args;
        let ghost before = exprs_view(args@);
        match self.parse_expr() {
            Ok(expr) => {
                args.push(expr);
                assert(exprs_view(args@) =~= before.push(expr@));
            },
            Err(inner) => {
                let mut message = String::from_str("parse_expr_list: expected expr: ");
                message.append(inner.as_str());
                return Err(message);
            },
        }
        let follows = match self.peek() {
            Some(Token::Comma) => 0u8,
            Some(Token::ParenClose) => 1u8,
            _ => 2u8,
        };
        if follows == 0 {
            self.next();
            self.parse_expr_list(args)
        } else if follows == 1 {
            Ok(args)
        } else {
            Err(self.complaint("parse_expr_list: unexpected token "))
        }
    }
}

/// What parsing a program gives: the program that the tokens write, or a
/// message. A character at which no token starts is reported first, with
/// its line, column and offset.
pub open spec fn program_of(input: Seq<char>, parser: ParserView) -> Result<ProgramNode, Seq<char>> {
    match first_invalid(input, 0) {
        Some(place) => Err(location_text(place) + ": unexpected character"@),
        None => {
            let (end, r) = parse_items(
                Parse {
                    tokens: parser.tokens,
                    starts: parser.starts,
                    program: ProgramNode {
                        exprs: Seq::empty(),
                        stmts: Seq::empty(),
                        expr_locations: Seq::empty(),
                        stmt_locations: Seq::empty(),
                        functions: Seq::empty(),
                        strings: Seq::empty(),
                    },
                },
            );
            match r {
                Ok(_) => Ok(end.program),
                Err(message) => Err(message),
            }
        },
    }
}

impl Parser {
    /// Parses a program: functions, struct declarations and `impl` blocks.
    pub fn parse_program(&mut self) -> (result: Result<Program, String>)
        requires
            old(self).wf(),
        ensures
            final(self).wf(),
            match result {
                Ok(program) => program_of(old(self).lexer.input@, old(self)@) == Ok::<
                    ProgramNode,
                    Seq<char>,
                >(program@),
                Err(message) => program_of(old(self).lexer.input@, old(self)@) == Err::<
                    ProgramNode,
                    Seq<char>,
                >(message@),
            },
    {
        match find_invalid(&self.lexer.input) {
            Some(place) => {
                let mut message = String::new();
                push_decimal(&mut message, place.line as u64);
                message.append(":");
                push_decimal(&mut message, place.column as u64);
                message.append(":");
                push_decimal(&mut message, place.offset as u64);
                message.append(": unexpected character");
                assert(message@ =~= location_text(place) + ": unexpected character"@);
                return Err(message);
            },
            None => {},
        }
        let mut builder = Builder::new();
        match builder.parse_items(self) {
            Ok(_) => Ok(builder.program),
            Err(message) => Err(message),
        }
    }
}

} // verus!
