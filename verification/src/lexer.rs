//! The lexer: what the tokens of a text are, and a scanner that yields them.

use crate::number::{is_digit, parse_i64_chars, parse_i64_spec, parse_u64_chars, parse_u64_spec};
use crate::text::{byte_len, capped, chars_of, offset_behind, position_after, string_of, width_of};
use crate::type_checker::error::SourceLocation;
use crate::token::{Token, TokenView};
use vstd::prelude::*;
use vstd::string::*;

verus! {

/// Why the lexer gave no token.
#[derive(Debug, Clone, Copy, PartialEq, Eq, Structural)]
pub enum LexError {
    /// The input is at its end.
    EOF,
    /// No token starts at the next character.
    Unmatch,
}

/// A class of characters.
#[derive(Debug, Clone, Copy, PartialEq, Eq, Structural)]
pub enum CharClass {
    /// Space, tab and carriage return.
    Blank,
    /// Letters, digits and the underscore.
    Word,
    Digit,
    /// Everything but the double quote and the line feed.
    Quoted,
}

/// Whether a name may start with `c`: a letter or the underscore.
pub open spec fn is_word_start(c: char) -> bool {
    ('a' <= c <= 'z') || ('A' <= c <= 'Z') || c == '_'
}

impl CharClass {
    /// Whether `c` is of the class.
    pub open spec fn has(self, c: char) -> bool {
        match self {
            CharClass::Blank => c == ' ' || c == '\t' || c == '\r',
            CharClass::Word => is_word_start(c) || is_digit(c),
            CharClass::Digit => is_digit(c),
            CharClass::Quoted => c != '"' && c != '\n',
        }
    }

    /// Whether `c` is of the class.
    pub fn contains(self, c: char) -> (yes: bool)
        ensures
            yes == self.has(c),
    {
        match self {
            CharClass::Blank => c == ' ' || c == '\t' || c == '\r',
            CharClass::Word => (c >= 'a' && c <= 'z') || (c >= 'A' && c <= 'Z') || c == '_' || (c
                >= '0' && c <= '9'),
            CharClass::Digit => c >= '0' && c <= '9',
            CharClass::Quoted => c != '"' && c != '\n',
        }
    }
}

/// The end of the run of characters of `class` that starts at `pos`.
pub open spec fn run_end(input: Seq<char>, pos: int, class: CharClass) -> int
    decreases input.len() - pos,
{
    if 0 <= pos < input.len() && class.has(input[pos]) {
        run_end(input, pos + 1, class)
    } else {
        pos
    }
}

/// A run ends at or after its start, and within the input.
pub proof fn lemma_run_end_bounds(input: Seq<char>, pos: int, class: CharClass)
    requires
        0 <= pos <= input.len(),
    ensures
        pos <= run_end(input, pos, class) <= input.len(),
        0 <= pos < input.len() && class.has(input[pos]) ==> pos < run_end(input, pos, class),
    decreases input.len() - pos,
{
    if pos < input.len() && class.has(input[pos]) {
        lemma_run_end_bounds(input, pos + 1, class);
    }
}

/// The keyword that `word` spells.
pub open spec fn keyword(word: Seq<char>) -> Option<Token> {
    if word == "if"@ {
        Some(Token::If)
    } else if word == "else"@ {
        Some(Token::Else)
    } else if word == "elif"@ {
        Some(Token::Elif)
    } else if word == "while"@ {
        Some(Token::While)
    } else if word == "for"@ {
        Some(Token::For)
    } else if word == "in"@ {
        Some(Token::In)
    } else if word == "to"@ {
        Some(Token::To)
    } else if word == "class"@ {
        Some(Token::Class)
    } else if word == "struct"@ {
        Some(Token::Struct)
    } else if word == "impl"@ {
        Some(Token::Impl)
    } else if word == "fn"@ {
        Some(Token::Function)
    } else if word == "val"@ {
        Some(Token::Val)
    } else if word == "var"@ {
        Some(Token::Var)
    } else if word == "return"@ {
        Some(Token::Return)
    } else if word == "break"@ {
        Some(Token::Break)
    } else if word == "continue"@ {
        Some(Token::Continue)
    } else if word == "null"@ {
        Some(Token::Null)
    } else if word == "true"@ {
        Some(Token::True)
    } else if word == "false"@ {
        Some(Token::False)
    } else if word == "u64"@ {
        Some(Token::U64)
    } else if word == "i64"@ {
        Some(Token::I64)
    } else if word == "bool"@ {
        Some(Token::Bool)
    } else if word == "str"@ {
        Some(Token::Str)
    } else {
        None
    }
}

/// The token that the two characters spell.
pub open spec fn two_char(a: char, b: char) -> Option<Token> {
    if a == '=' && b == '=' {
        Some(Token::DoubleEqual)
    } else if a == '!' && b == '=' {
        Some(Token::NotEqual)
    } else if a == '<' && b == '=' {
        Some(Token::LE)
    } else if a == '>' && b == '=' {
        Some(Token::GE)
    } else if a == '&' && b == '&' {
        Some(Token::DoubleAnd)
    } else if a == '|' && b == '|' {
        Some(Token::DoubleOr)
    } else if a == ':' && b == ':' {
        Some(Token::DoubleColon)
    } else if a == '-' && b == '>' {
        Some(Token::Arrow)
    } else if a == '+' && b == '.' {
        Some(Token::FAdd)
    } else if a == '-' && b == '.' {
        Some(Token::FSub)
    } else if a == '*' && b == '.' {
        Some(Token::FMul)
    } else if a == '/' && b == '.' {
        Some(Token::FDiv)
    } else {
        None
    }
}

/// The token that the character spells.
pub open spec fn one_char(a: char) -> Option<Token> {
    if a == '(' {
        Some(Token::ParenOpen)
    } else if a == ')' {
        Some(Token::ParenClose)
    } else if a == '{' {
        Some(Token::BraceOpen)
    } else if a == '}' {
        Some(Token::BraceClose)
    } else if a == '[' {
        Some(Token::BracketOpen)
    } else if a == ']' {
        Some(Token::BracketClose)
    } else if a == ',' {
        Some(Token::Comma)
    } else if a == ';' {
        Some(Token::Semicolon)
    } else if a == '.' {
        Some(Token::Dot)
    } else if a == ':' {
        Some(Token::Colon)
    } else if a == '=' {
        Some(Token::Equal)
    } else if a == '<' {
        Some(Token::LT)
    } else if a == '>' {
        Some(Token::GT)
    } else if a == '+' {
        Some(Token::IAdd)
    } else if a == '-' {
        Some(Token::ISub)
    } else if a == '*' {
        Some(Token::IMul)
    } else if a == '/' {
        Some(Token::IDiv)
    } else {
        None
    }
}

/// What the lexer finds at a position.
pub ghost enum Lexed {
    /// A token, and the position behind it.
    Token(TokenView, int),
    End,
    Invalid,
}

/// Whether the three characters stand at `pos`.
pub open spec fn has_suffix(input: Seq<char>, pos: int, a: char, b: char, c: char) -> bool {
    0 <= pos && pos + 3 <= input.len() && input[pos] == a && input[pos + 1] == b && input[pos + 2]
        == c
}

/// Whether a number starts at `p`: a digit, or a minus sign before a digit.
pub open spec fn number_starts(input: Seq<char>, p: int) -> bool {
    0 <= p < input.len() && (is_digit(input[p]) || (input[p] == '-' && p + 1 < input.len()
        && is_digit(input[p + 1])))
}

/// The number at `p`: digits after an optional minus sign, with the suffix
/// `i64`, or without a sign and with the suffix `u64`, or without a suffix.
pub open spec fn lex_number(input: Seq<char>, p: int) -> Lexed {
    let q = if input[p] == '-' {
        p + 1
    } else {
        p
    };
    let e = run_end(input, q, CharClass::Digit);
    let text = input.subrange(p, e);
    if has_suffix(input, e, 'i', '6', '4') {
        match parse_i64_spec(text) {
            Some(value) => Lexed::Token(TokenView::Simple(Token::Int64(value)), e + 3),
            None => Lexed::Invalid,
        }
    } else if q == p && has_suffix(input, e, 'u', '6', '4') {
        match parse_u64_spec(text) {
            Some(value) => Lexed::Token(TokenView::Simple(Token::UInt64(value)), e + 3),
            None => Lexed::Invalid,
        }
    } else {
        Lexed::Token(TokenView::Integer(text), e)
    }
}

/// The token that starts at `p`, where `p` is no blank.
pub open spec fn lex_at(input: Seq<char>, p: int) -> Lexed {
    let c = input[p];
    if c == '\n' {
        Lexed::Token(TokenView::Simple(Token::NewLine), p + 1)
    } else if is_word_start(c) {
        let e = run_end(input, p, CharClass::Word);
        match keyword(input.subrange(p, e)) {
            Some(token) => Lexed::Token(TokenView::Simple(token), e),
            None => Lexed::Token(TokenView::Identifier(input.subrange(p, e)), e),
        }
    } else if number_starts(input, p) {
        lex_number(input, p)
    } else if c == '"' {
        let e = run_end(input, p + 1, CharClass::Quoted);
        if e >= input.len() || input[e] != '"' {
            Lexed::Invalid
        } else {
            Lexed::Token(TokenView::Text(input.subrange(p + 1, e)), e + 1)
        }
    } else if p + 1 < input.len() && two_char(c, input[p + 1]) is Some {
        Lexed::Token(TokenView::Simple(two_char(c, input[p + 1])->0), p + 2)
    } else {
        match one_char(c) {
            Some(token) => Lexed::Token(TokenView::Simple(token), p + 1),
            None => Lexed::Invalid,
        }
    }
}

/// The next token from `pos` on: blanks are skipped, and the longest token
/// that starts there is taken.
pub open spec fn lex_step(input: Seq<char>, pos: int) -> Lexed {
    let p = run_end(input, pos, CharClass::Blank);
    if p < 0 || p >= input.len() {
        Lexed::End
    } else {
        lex_at(input, p)
    }
}

/// A token ends behind the position at which the lexer was asked, and
/// within the input.
pub proof fn lemma_lex_step_advances(input: Seq<char>, pos: int)
    requires
        0 <= pos <= input.len(),
    ensures
        match lex_step(input, pos) {
            Lexed::Token(_, next) => pos < next <= input.len(),
            _ => true,
        },
{
    let p = run_end(input, pos, CharClass::Blank);
    lemma_run_end_bounds(input, pos, CharClass::Blank);
    if p < input.len() {
        lemma_run_end_bounds(input, p, CharClass::Word);
        lemma_run_end_bounds(input, p, CharClass::Digit);
        lemma_run_end_bounds(input, p + 1, CharClass::Digit);
        lemma_run_end_bounds(input, p + 1, CharClass::Quoted);
    }
}

/// The tokens from `pos` up to the end of the input or the first place
/// where no token starts.
pub open spec fn tokens_from(input: Seq<char>, pos: int) -> Seq<TokenView>
    decreases input.len() - pos,
{
    match lex_step(input, pos) {
        Lexed::Token(token, next) => if pos < next <= input.len() {
            seq![token] + tokens_from(input, next)
        } else {
            Seq::empty()
        },
        _ => Seq::empty(),
    }
}

/// The line count after a token.
pub open spec fn line_after(line: u64, token: TokenView) -> u64 {
    if token == TokenView::Simple(Token::NewLine) && line < u64::MAX {
        (line + 1) as u64
    } else {
        line
    }
}

/// The keyword that `word` spells.
pub fn keyword_of(word: &String) -> (token: Option<Token>)
    ensures
        token == keyword(word@),
{
    if *word == String::from_str("if") {
        Some(Token::If)
    } else if *word == String::from_str("else") {
        Some(Token::Else)
    } else if *word == String::from_str("elif") {
        Some(Token::Elif)
    } else if *word == String::from_str("while") {
        Some(Token::While)
    } else if *word == String::from_str("for") {
        Some(Token::For)
    } else if *word == String::from_str("in") {
        Some(Token::In)
    } else if *word == String::from_str("to") {
        Some(Token::To)
    } else if *word == String::from_str("class") {
        Some(Token::Class)
    } else if *word == String::from_str("struct") {
        Some(Token::Struct)
    } else if *word == String::from_str("impl") {
        Some(Token::Impl)
    } else if *word == String::from_str("fn") {
        Some(Token::Function)
    } else if *word == String::from_str("val") {
        Some(Token::Val)
    } else if *word == String::from_str("var") {
        Some(Token::Var)
    } else if *word == String::from_str("return") {
        Some(Token::Return)
    } else if *word == String::from_str("break") {
        Some(Token::Break)
    } else if *word == String::from_str("continue") {
        Some(Token::Continue)
    } else if *word == String::from_str("null") {
        Some(Token::Null)
    } else if *word == String::from_str("true") {
        Some(Token::True)
    } else if *word == String::from_str("false") {
        Some(Token::False)
    } else if *word == String::from_str("u64") {
        Some(Token::U64)
    } else if *word == String::from_str("i64") {
        Some(Token::I64)
    } else if *word == String::from_str("bool") {
        Some(Token::Bool)
    } else if *word == String::from_str("str") {
        Some(Token::Str)
    } else {
        None
    }
}

/// The token that the two characters spell.
pub fn two_char_token(a: char, b: char) -> (token: Option<Token>)
    ensures
        token == two_char(a, b),
{
    if a == '=' && b == '=' {
        Some(Token::DoubleEqual)
    } else if a == '!' && b == '=' {
        Some(Token::NotEqual)
    } else if a == '<' && b == '=' {
        Some(Token::LE)
    } else if a == '>' && b == '=' {
        Some(Token::GE)
    } else if a == '&' && b == '&' {
        Some(Token::DoubleAnd)
    } else if a == '|' && b == '|' {
        Some(Token::DoubleOr)
    } else if a == ':' && b == ':' {
        Some(Token::DoubleColon)
    } else if a == '-' && b == '>' {
        Some(Token::Arrow)
    } else if a == '+' && b == '.' {
        Some(Token::FAdd)
    } else if a == '-' && b == '.' {
        Some(Token::FSub)
    } else if a == '*' && b == '.' {
        Some(Token::FMul)
    } else if a == '/' && b == '.' {
        Some(Token::FDiv)
    } else {
        None
    }
}

/// The token that the character spells.
pub fn one_char_token(a: char) -> (token: Option<Token>)
    ensures
        token == one_char(a),
{
    if a == '(' {
        Some(Token::ParenOpen)
    } else if a == ')' {
        Some(Token::ParenClose)
    } else if a == '{' {
        Some(Token::BraceOpen)
    } else if a == '}' {
        Some(Token::BraceClose)
    } else if a == '[' {
        Some(Token::BracketOpen)
    } else if a == ']' {
        Some(Token::BracketClose)
    } else if a == ',' {
        Some(Token::Comma)
    } else if a == ';' {
        Some(Token::Semicolon)
    } else if a == '.' {
        Some(Token::Dot)
    } else if a == ':' {
        Some(Token::Colon)
    } else if a == '=' {
        Some(Token::Equal)
    } else if a == '<' {
        Some(Token::LT)
    } else if a == '>' {
        Some(Token::GT)
    } else if a == '+' {
        Some(Token::IAdd)
    } else if a == '-' {
        Some(Token::ISub)
    } else if a == '*' {
        Some(Token::IMul)
    } else if a == '/' {
        Some(Token::IDiv)
    } else {
        None
    }
}

/// The place of the `n`-th character of the input: its line and column,
/// counted from 1 in characters, and its byte offset in the input as
/// UTF-8, which stops at the largest 32-bit number.
pub open spec fn location_at(input: Seq<char>, n: int) -> SourceLocation {
    SourceLocation {
        line: position_after(input, n).0,
        column: position_after(input, n).1,
        offset: capped(byte_len(input, n)),
    }
}

/// The place at which the next token from `pos` on starts.
pub open spec fn token_start(input: Seq<char>, pos: int) -> SourceLocation {
    location_at(input, run_end(input, pos, CharClass::Blank))
}

/// The places at which the tokens from `pos` on start.
pub open spec fn starts_from(input: Seq<char>, pos: int) -> Seq<SourceLocation>
    decreases input.len() - pos,
{
    match lex_step(input, pos) {
        Lexed::Token(_, next) => if pos < next <= input.len() {
            seq![token_start(input, pos)] + starts_from(input, next)
        } else {
            Seq::empty()
        },
        _ => Seq::empty(),
    }
}

/// There are as many places as tokens.
pub proof fn lemma_starts_match(input: Seq<char>, pos: int)
    requires
        0 <= pos <= input.len(),
    ensures
        starts_from(input, pos).len() == tokens_from(input, pos).len(),
    decreases input.len() - pos,
{
    match lex_step(input, pos) {
        Lexed::Token(_, next) => {
            if pos < next <= input.len() {
                lemma_starts_match(input, next);
            }
        },
        _ => {},
    }
}

/// The lexer: the characters of the input, the position of the next one
/// with its line, column and byte offset, and the number of the line it
/// stands in, counted from the number that the lexer was made with.
pub struct Lexer {
    pub input: Vec<char>,
    pub pos: usize,
    pub line_count: u64,
    pub line: u32,
    pub column: u32,
    pub offset: u32,
    /// The place at which the last token started.
    pub last_start: SourceLocation,
}

impl Lexer {
    /// Whether the position is within the input, and the line, the column
    /// and the byte offset are those of the position.
    pub open spec fn wf(&self) -> bool {
        &&& self.pos <= self.input@.len()
        &&& (self.line, self.column) == position_after(self.input@, self.pos as int)
        &&& self.offset == capped(byte_len(self.input@, self.pos as int))
    }

    /// The tokens that are still to come.
    pub open spec fn rest(&self) -> Seq<TokenView> {
        tokens_from(self.input@, self.pos as int)
    }

    /// The places at which the tokens that are still to come start.
    pub open spec fn rest_starts(&self) -> Seq<SourceLocation> {
        starts_from(self.input@, self.pos as int)
    }

    /// A lexer at the start of `input`, which begins in line `line`.
    pub fn new(input: &str, line: u64) -> (lexer: Lexer)
        ensures
            lexer.wf(),
            lexer.input@ == input@,
            lexer.pos == 0,
            lexer.line_count == line,
    {
        Lexer {
            input: chars_of(input),
            pos: 0,
            line_count: line,
            line: 1,
            column: 1,
            offset: 0,
            last_start: SourceLocation { line: 1, column: 1, offset: 0 },
        }
    }

    /// The number of the current line.
    pub fn get_line_count(&self) -> (line: &u64)
        ensures
            *line == self.line_count,
    {
        &self.line_count
    }

    /// The end of the run of characters of `class` that starts at `pos`.
    pub fn scan(&self, pos: usize, class: CharClass) -> (end: usize)
        requires
            pos <= self.input@.len(),
        ensures
            end == run_end(self.input@, pos as int, class),
            pos <= end <= self.input@.len(),
    {
        let mut end = pos;
        while end < self.input.len() && class.contains(self.input[end])
            invariant
                pos <= end <= self.input@.len(),
                run_end(self.input@, pos as int, class) == run_end(self.input@, end as int, class),
            decreases self.input@.len() - end,
        {
            end += 1;
        }
        end
    }

    /// Whether the three characters stand at `pos`.
    pub fn suffix_at(&self, pos: usize, a: char, b: char, c: char) -> (yes: bool)
        requires
            pos <= self.input@.len(),
        ensures
            yes == has_suffix(self.input@, pos as int, a, b, c),
    {
        self.input.len() - pos >= 3 && self.input[pos] == a && self.input[pos + 1] == b
            && self.input[pos + 2] == c
    }

    /// The number that starts at `p`, and the position behind it.
    fn number_at(&self, p: usize) -> (result: Option<(Token, usize)>)
        requires
            self.pos <= self.input@.len(),
            number_starts(self.input@, p as int),
        ensures
            match lex_number(self.input@, p as int) {
                Lexed::Token(token, next) => match result {
                    Some(found) => found.0@ == token && found.1 == next,
                    None => false,
                },
                _ => result is None,
            },
    {
        assert(p < self.input.len());
        let negative = self.input[p] == '-';
        let q = if negative {
            p + 1
        } else {
            p
        };
        let e = self.scan(q, CharClass::Digit);
        assert(e <= self.input.len());
        if self.suffix_at(e, 'i', '6', '4') {
            assert(e + 3 <= self.input.len());
            match parse_i64_chars(&self.input, p, e) {
                Some(value) => Some((Token::Int64(value), e + 3)),
                None => None,
            }
        } else if !negative && self.suffix_at(e, 'u', '6', '4') {
            assert(e + 3 <= self.input.len());
            match parse_u64_chars(&self.input, p, e) {
                Some(value) => Some((Token::UInt64(value), e + 3)),
                None => None,
            }
        } else {
            Some((Token::Integer(string_of(&self.input, p, e)), e))
        }
    }

    /// The token that starts at `p`, where `p` is no blank, and the
    /// position behind it.
    fn token_at(&self, p: usize) -> (result: Option<(Token, usize)>)
        requires
            self.pos <= self.input@.len(),
            p < self.input@.len(),
        ensures
            match lex_at(self.input@, p as int) {
                Lexed::Token(token, next) => match result {
                    Some(found) => found.0@ == token && found.1 == next && p < next
                        <= self.input@.len(),
                    None => false,
                },
                _ => result is None,
            },
    {
        proof {
            lemma_run_end_bounds(self.input@, p as int, CharClass::Word);
            lemma_run_end_bounds(self.input@, p as int, CharClass::Digit);
            lemma_run_end_bounds(self.input@, p + 1, CharClass::Digit);
            lemma_run_end_bounds(self.input@, p + 1, CharClass::Quoted);
        }
        assert(p < self.input.len());
        let c = self.input[p];
        if c == '\n' {
            Some((Token::NewLine, p + 1))
        } else if (c >= 'a' && c <= 'z') || (c >= 'A' && c <= 'Z') || c == '_' {
            let e = self.scan(p, CharClass::Word);
            let word = string_of(&self.input, p, e);
            match keyword_of(&word) {
                Some(token) => Some((token, e)),
                None => Some((Token::Identifier(word), e)),
            }
        } else if (c >= '0' && c <= '9') || (c == '-' && self.input.len() - p > 1 && self.input[p
            + 1] >= '0' && self.input[p + 1] <= '9') {
            self.number_at(p)
        } else if c == '"' {
            let e = self.scan(p + 1, CharClass::Quoted);
            if e >= self.input.len() || self.input[e] != '"' {
                None
            } else {
                Some((Token::String(string_of(&self.input, p + 1, e)), e + 1))
            }
        } else {
            if self.input.len() - p > 1 {
                match two_char_token(c, self.input[p + 1]) {
                    Some(token) => {
                        return Some((token, p + 2));
                    },
                    None => {},
                }
            }
            match one_char_token(c) {
                Some(token) => Some((token, p + 1)),
                None => None,
            }
        }
    }

    /// Moves the position forward to `to`, and the line, the column and the
    /// byte offset with it.
    fn advance(&mut self, to: usize)
        requires
            old(self).wf(),
            old(self).pos <= to <= old(self).input@.len(),
        ensures
            final(self).wf(),
            final(self).pos == to,
            final(self).input == old(self).input,
            final(self).line_count == old(self).line_count,
            final(self).last_start == old(self).last_start,
    {
        while self.pos < to
            invariant
                self.wf(),
                self.pos <= to <= self.input@.len(),
                self.input == old(self).input,
                self.line_count == old(self).line_count,
                self.last_start == old(self).last_start,
            decreases to - self.pos,
        {
            if self.input[self.pos] == '\n' {
                if self.line < u32::MAX {
                    self.line += 1;
                }
                self.column = 1;
            } else {
                if self.column < u32::MAX {
                    self.column += 1;
                }
            }
            self.offset = offset_behind(self.offset, width_of(self.input[self.pos]));
            self.pos += 1;
        }
    }

    /// The next token. At the end of the input, and where no token starts,
    /// the lexer stays where it is.
    pub fn yylex(&mut self) -> (result: Result<Token, LexError>)
        requires
            old(self).wf(),
        ensures
            final(self).wf(),
            final(self).input == old(self).input,
            match lex_step(old(self).input@, old(self).pos as int) {
                Lexed::Token(token, next) => {
                    &&& result is Ok
                    &&& result->Ok_0@ == token
                    &&& final(self).pos == next
                    &&& old(self).pos < next <= old(self).input@.len()
                    &&& final(self).line_count == line_after(old(self).line_count, token)
                    &&& final(self).last_start == token_start(
                        old(self).input@,
                        old(self).pos as int,
                    )
                },
                Lexed::End => result == Err::<Token, LexError>(LexError::EOF) && *final(self) == *old(self),
                Lexed::Invalid => result == Err::<Token, LexError>(LexError::Unmatch) && *final(self)
                    == *old(self),
            },
    {
        let p = self.scan(self.pos, CharClass::Blank);
        if p >= self.input.len() {
            return Err(LexError::EOF);
        }
        let (token, end) = match self.token_at(p) {
            Some(found) => found,
            None => {
                return Err(LexError::Unmatch);
            },
        };
        self.advance(p);
        self.last_start = SourceLocation {
            line: self.line,
            column: self.column,
            offset: self.offset,
        };
        self.advance(end);
        if matches!(token, Token::NewLine) && self.line_count < u64::MAX {
            self.line_count += 1;
        }
        Ok(token)
    }
}

/// The place of the first character from `pos` on at which no token
/// starts; `None` where the input is tokens to its end.
pub open spec fn first_invalid(input: Seq<char>, pos: int) -> Option<SourceLocation>
    decreases input.len() - pos,
{
    match lex_step(input, pos) {
        Lexed::Token(_, next) => if pos < next <= input.len() {
            first_invalid(input, next)
        } else {
            None
        },
        Lexed::End => None,
        Lexed::Invalid => Some(token_start(input, pos)),
    }
}

/// The place of the first character of `input` at which no token starts.
pub fn find_invalid(input: &Vec<char>) -> (place: Option<SourceLocation>)
    ensures
        place == first_invalid(input@, 0),
{
    let mut probe = Lexer {
        input: crate::type_checker::visit::copy_vec(input),
        pos: 0,
        line_count: 1,
        line: 1,
        column: 1,
        offset: 0,
        last_start: SourceLocation { line: 1, column: 1, offset: 0 },
    };
    loop
        invariant
            probe.wf(),
            probe.input@ == input@,
            first_invalid(input@, 0) == first_invalid(input@, probe.pos as int),
        decreases input@.len() - probe.pos,
    {
        match probe.yylex() {
            Ok(_) => {},
            Err(LexError::EOF) => {
                return None;
            },
            Err(LexError::Unmatch) => {
                let p = probe.scan(probe.pos, CharClass::Blank);
                probe.advance(p);
                return Some(
                    SourceLocation {
                        line: probe.line,
                        column: probe.column,
                        offset: probe.offset,
                    },
                );
            },
        }
    }
}

} // verus!
