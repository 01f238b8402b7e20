//! The tokens of the source text.

use vstd::prelude::*;
use vstd::string::*;

verus! {

/// A token of the source text.
#[derive(Debug)]
pub enum Token {
    If,
    Else,
    Elif,
    While,
    For,
    In,
    To,
    Class,
    Struct,
    Impl,
    Function,
    Val,
    Var,
    Return,
    Break,
    Continue,
    Null,
    True,
    False,
    U64,
    I64,
    Bool,
    Str,
    ParenOpen,
    ParenClose,
    BraceOpen,
    BraceClose,
    BracketOpen,
    BracketClose,
    Comma,
    Semicolon,
    Dot,
    DoubleColon,
    Colon,
    Arrow,
    Equal,
    DoubleEqual,
    NotEqual,
    LE,
    LT,
    GE,
    GT,
    DoubleAnd,
    DoubleOr,
    IAdd,
    ISub,
    IMul,
    IDiv,
    FAdd,
    FSub,
    FMul,
    FDiv,
    NewLine,
    Int64(i64),
    UInt64(u64),
    /// An integer literal without a suffix: its text, with its sign.
    Integer(String),
    Identifier(String),
    /// A string literal: the text between the quotes.
    String(String),
}

/// The mathematical value of a token: the token itself where it carries no
/// text, else its text.
pub ghost enum TokenView {
    Simple(Token),
    Integer(Seq<char>),
    Identifier(Seq<char>),
    Text(Seq<char>),
}

impl View for Token {
    type V = TokenView;

    open spec fn view(&self) -> TokenView {
        match self {
            Token::Integer(text) => TokenView::Integer(text@),
            Token::Identifier(text) => TokenView::Identifier(text@),
            Token::String(text) => TokenView::Text(text@),
            _ => TokenView::Simple(*self),
        }
    }
}

/// The values of a sequence of tokens.
pub open spec fn tokens_view(tokens: Seq<Token>) -> Seq<TokenView> {
    Seq::new(tokens.len(), |i: int| tokens[i]@)
}

impl Token {
    /// A number that tells the variants apart.
    pub open spec fn kind(self) -> nat {
        match self {
            Token::If => 0,
            Token::Else => 1,
            Token::Elif => 2,
            Token::While => 3,
            Token::For => 4,
            Token::In => 5,
            Token::To => 6,
            Token::Class => 7,
            Token::Struct => 8,
            Token::Impl => 9,
            Token::Function => 10,
            Token::Val => 11,
            Token::Var => 12,
            Token::Return => 13,
            Token::Break => 14,
            Token::Continue => 15,
            Token::Null => 16,
            Token::True => 17,
            Token::False => 18,
            Token::U64 => 19,
            Token::I64 => 20,
            Token::Bool => 21,
            Token::Str => 22,
            Token::ParenOpen => 23,
            Token::ParenClose => 24,
            Token::BraceOpen => 25,
            Token::BraceClose => 26,
            Token::BracketOpen => 27,
            Token::BracketClose => 28,
            Token::Comma => 29,
            Token::Semicolon => 30,
            Token::Dot => 31,
            Token::DoubleColon => 32,
            Token::Colon => 33,
            Token::Arrow => 34,
            Token::Equal => 35,
            Token::DoubleEqual => 36,
            Token::NotEqual => 37,
            Token::LE => 38,
            Token::LT => 39,
            Token::GE => 40,
            Token::GT => 41,
            Token::DoubleAnd => 42,
            Token::DoubleOr => 43,
            Token::IAdd => 44,
            Token::ISub => 45,
            Token::IMul => 46,
            Token::IDiv => 47,
            Token::FAdd => 48,
            Token::FSub => 49,
            Token::FMul => 50,
            Token::FDiv => 51,
            Token::NewLine => 52,
            Token::Int64(_) => 53,
            Token::UInt64(_) => 54,
            Token::Integer(_) => 55,
            Token::Identifier(_) => 56,
            Token::String(_) => 57,
        }
    }

    /// The number of the token's variant.
    pub fn variant_index(&self) -> (index: u8)
        ensures
            index == self.kind(),
    {
        match self {
            Token::If => 0,
            Token::Else => 1,
            Token::Elif => 2,
            Token::While => 3,
            Token::For => 4,
            Token::In => 5,
            Token::To => 6,
            Token::Class => 7,
            Token::Struct => 8,
            Token::Impl => 9,
            Token::Function => 10,
            Token::Val => 11,
            Token::Var => 12,
            Token::Return => 13,
            Token::Break => 14,
            Token::Continue => 15,
            Token::Null => 16,
            Token::True => 17,
            Token::False => 18,
            Token::U64 => 19,
            Token::I64 => 20,
            Token::Bool => 21,
            Token::Str => 22,
            Token::ParenOpen => 23,
            Token::ParenClose => 24,
            Token::BraceOpen => 25,
            Token::BraceClose => 26,
            Token::BracketOpen => 27,
            Token::BracketClose => 28,
            Token::Comma => 29,
            Token::Semicolon => 30,
            Token::Dot => 31,
            Token::DoubleColon => 32,
            Token::Colon => 33,
            Token::Arrow => 34,
            Token::Equal => 35,
            Token::DoubleEqual => 36,
            Token::NotEqual => 37,
            Token::LE => 38,
            Token::LT => 39,
            Token::GE => 40,
            Token::GT => 41,
            Token::DoubleAnd => 42,
            Token::DoubleOr => 43,
            Token::IAdd => 44,
            Token::ISub => 45,
            Token::IMul => 46,
            Token::IDiv => 47,
            Token::FAdd => 48,
            Token::FSub => 49,
            Token::FMul => 50,
            Token::FDiv => 51,
            Token::NewLine => 52,
            Token::Int64(_) => 53,
            Token::UInt64(_) => 54,
            Token::Integer(_) => 55,
            Token::Identifier(_) => 56,
            Token::String(_) => 57,
        }
    }

    /// The name of the token's variant.
    pub open spec fn name_spec(self) -> Seq<char> {
        match self {
            Token::If => "If"@,
            Token::Else => "Else"@,
            Token::Elif => "Elif"@,
            Token::While => "While"@,
            Token::For => "For"@,
            Token::In => "In"@,
            Token::To => "To"@,
            Token::Class => "Class"@,
            Token::Struct => "Struct"@,
            Token::Impl => "Impl"@,
            Token::Function => "Function"@,
            Token::Val => "Val"@,
            Token::Var => "Var"@,
            Token::Return => "Return"@,
            Token::Break => "Break"@,
            Token::Continue => "Continue"@,
            Token::Null => "Null"@,
            Token::True => "True"@,
            Token::False => "False"@,
            Token::U64 => "U64"@,
            Token::I64 => "I64"@,
            Token::Bool => "Bool"@,
            Token::Str => "Str"@,
            Token::ParenOpen => "ParenOpen"@,
            Token::ParenClose => "ParenClose"@,
            Token::BraceOpen => "BraceOpen"@,
            Token::BraceClose => "BraceClose"@,
            Token::BracketOpen => "BracketOpen"@,
            Token::BracketClose => "BracketClose"@,
            Token::Comma => "Comma"@,
            Token::Semicolon => "Semicolon"@,
            Token::Dot => "Dot"@,
            Token::DoubleColon => "DoubleColon"@,
            Token::Colon => "Colon"@,
            Token::Arrow => "Arrow"@,
            Token::Equal => "Equal"@,
            Token::DoubleEqual => "DoubleEqual"@,
            Token::NotEqual => "NotEqual"@,
            Token::LE => "LE"@,
            Token::LT => "LT"@,
            Token::GE => "GE"@,
            Token::GT => "GT"@,
            Token::DoubleAnd => "DoubleAnd"@,
            Token::DoubleOr => "DoubleOr"@,
            Token::IAdd => "IAdd"@,
            Token::ISub => "ISub"@,
            Token::IMul => "IMul"@,
            Token::IDiv => "IDiv"@,
            Token::FAdd => "FAdd"@,
            Token::FSub => "FSub"@,
            Token::FMul => "FMul"@,
            Token::FDiv => "FDiv"@,
            Token::NewLine => "NewLine"@,
            Token::Int64(_) => "Int64"@,
            Token::UInt64(_) => "UInt64"@,
            Token::Integer(_) => "Integer"@,
            Token::Identifier(_) => "Identifier"@,
            Token::String(_) => "String"@,
        }
    }

    /// The name of the token's variant.
    pub fn name(&self) -> (name: &'static str)
        ensures
            name@ == self.name_spec(),
    {
        match self {
            Token::If => "If",
            Token::Else => "Else",
            Token::Elif => "Elif",
            Token::While => "While",
            Token::For => "For",
            Token::In => "In",
            Token::To => "To",
            Token::Class => "Class",
            Token::Struct => "Struct",
            Token::Impl => "Impl",
            Token::Function => "Function",
            Token::Val => "Val",
            Token::Var => "Var",
            Token::Return => "Return",
            Token::Break => "Break",
            Token::Continue => "Continue",
            Token::Null => "Null",
            Token::True => "True",
            Token::False => "False",
            Token::U64 => "U64",
            Token::I64 => "I64",
            Token::Bool => "Bool",
            Token::Str => "Str",
            Token::ParenOpen => "ParenOpen",
            Token::ParenClose => "ParenClose",
            Token::BraceOpen => "BraceOpen",
            Token::BraceClose => "BraceClose",
            Token::BracketOpen => "BracketOpen",
            Token::BracketClose => "BracketClose",
            Token::Comma => "Comma",
            Token::Semicolon => "Semicolon",
            Token::Dot => "Dot",
            Token::DoubleColon => "DoubleColon",
            Token::Colon => "Colon",
            Token::Arrow => "Arrow",
            Token::Equal => "Equal",
            Token::DoubleEqual => "DoubleEqual",
            Token::NotEqual => "NotEqual",
            Token::LE => "LE",
            Token::LT => "LT",
            Token::GE => "GE",
            Token::GT => "GT",
            Token::DoubleAnd => "DoubleAnd",
            Token::DoubleOr => "DoubleOr",
            Token::IAdd => "IAdd",
            Token::ISub => "ISub",
            Token::IMul => "IMul",
            Token::IDiv => "IDiv",
            Token::FAdd => "FAdd",
            Token::FSub => "FSub",
            Token::FMul => "FMul",
            Token::FDiv => "FDiv",
            Token::NewLine => "NewLine",
            Token::Int64(_) => "Int64",
            Token::UInt64(_) => "UInt64",
            Token::Integer(_) => "Integer",
            Token::Identifier(_) => "Identifier",
            Token::String(_) => "String",
        }
    }

    /// Whether two tokens are the same token.
    pub fn same(&self, other: &Token) -> (equal: bool)
        ensures
            equal == (self@ == other@),
    {
        match self {
            Token::Int64(left) => match other {
                Token::Int64(right) => *left == *right,
                _ => false,
            },
            Token::UInt64(left) => match other {
                Token::UInt64(right) => *left == *right,
                _ => false,
            },
            Token::Integer(left) => match other {
                Token::Integer(right) => *left == *right,
                _ => false,
            },
            Token::Identifier(left) => match other {
                Token::Identifier(right) => *left == *right,
                _ => false,
            },
            Token::String(left) => match other {
                Token::String(right) => *left == *right,
                _ => false,
            },
            _ => self.variant_index() == other.variant_index(),
        }
    }
}

impl PartialEq for Token {
    fn eq(&self, other: &Token) -> (equal: bool) {
        self.same(other)
    }
}

impl vstd::std_specs::cmp::PartialEqSpecImpl for Token {
    open spec fn obeys_eq_spec() -> bool {
        true
    }

    open spec fn eq_spec(&self, other: &Token) -> bool {
        self@ == other@
    }
}

} // verus!
