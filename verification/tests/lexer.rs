use toylang::lexer::Lexer;
use toylang::token::Token;

#[test]
fn lexer_simple_keyword() {
    let s = " if else while for class fn val var";
    let mut l = Lexer::new(&s, 1u64);
    assert_eq!(l.yylex().unwrap(), Token::If);
    assert_eq!(l.yylex().unwrap(), Token::Else);
    assert_eq!(l.yylex().unwrap(), Token::While);
    assert_eq!(l.yylex().unwrap(), Token::For);
    assert_eq!(l.yylex().unwrap(), Token::Class);
    assert_eq!(l.yylex().unwrap(), Token::Function);
    assert_eq!(l.yylex().unwrap(), Token::Val);
    assert_eq!(l.yylex().unwrap(), Token::Var);
}

#[test]
fn lexer_simple_integer() {
    let s = " -1i64 1i64 2u64 123 -456";
    let mut l = Lexer::new(&s, 1u64);
    assert_eq!(l.yylex().unwrap(), Token::Int64(-1));
    assert_eq!(l.yylex().unwrap(), Token::Int64(1));
    assert_eq!(l.yylex().unwrap(), Token::UInt64(2u64));
    assert_eq!(l.yylex().unwrap(), Token::Integer("123".to_string()));
    assert_eq!(l.yylex().unwrap(), Token::Integer("-456".to_string()));
}

#[test]
fn lexer_simple_symbol1() {
    let s = " ( ) { } [ ] , . :: : =";
    let mut l = Lexer::new(&s, 1u64);
    assert_eq!(l.yylex().unwrap(), Token::ParenOpen);
    assert_eq!(l.yylex().unwrap(), Token::ParenClose);
    assert_eq!(l.yylex().unwrap(), Token::BraceOpen);
    assert_eq!(l.yylex().unwrap(), Token::BraceClose);
    assert_eq!(l.yylex().unwrap(), Token::BracketOpen);
    assert_eq!(l.yylex().unwrap(), Token::BracketClose);
    assert_eq!(l.yylex().unwrap(), Token::Comma);
    assert_eq!(l.yylex().unwrap(), Token::Dot);
    assert_eq!(l.yylex().unwrap(), Token::DoubleColon);
    assert_eq!(l.yylex().unwrap(), Token::Colon);
    assert_eq!(l.yylex().unwrap(), Token::Equal);
}

#[test]
fn lexer_simple_symbol2() {
    let s = "== != <= < >= >";
    let mut l = Lexer::new(&s, 1u64);
    assert_eq!(l.yylex().unwrap(), Token::DoubleEqual);
    assert_eq!(l.yylex().unwrap(), Token::NotEqual);
    assert_eq!(l.yylex().unwrap(), Token::LE);
    assert_eq!(l.yylex().unwrap(), Token::LT);
    assert_eq!(l.yylex().unwrap(), Token::GE);
    assert_eq!(l.yylex().unwrap(), Token::GT);
}

#[test]
fn lexer_arithmetic_operator_symbol() {
    let s = " + - * / +. -. *. /.";
    let mut l = Lexer::new(&s, 1u64);
    assert_eq!(l.yylex().unwrap(), Token::IAdd);
    assert_eq!(l.yylex().unwrap(), Token::ISub);
    assert_eq!(l.yylex().unwrap(), Token::IMul);
    assert_eq!(l.yylex().unwrap(), Token::IDiv);
    assert_eq!(l.yylex().unwrap(), Token::FAdd);
    assert_eq!(l.yylex().unwrap(), Token::FSub);
    assert_eq!(l.yylex().unwrap(), Token::FMul);
    assert_eq!(l.yylex().unwrap(), Token::FDiv);
}

#[test]
fn lexer_simple_identifier() {
    let s = " A _name Identifier ";
    let mut l = Lexer::new(&s, 1u64);
    assert_eq!(l.yylex().unwrap(), Token::Identifier("A".to_string()));
    assert_eq!(l.yylex().unwrap(), Token::Identifier("_name".to_string()));
    assert_eq!(
        l.yylex().unwrap(),
        Token::Identifier("Identifier".to_string())
    );
}

#[test]
fn lexer_multiple_lines() {
    let s = " A \n B ";
    let mut l = Lexer::new(&s, 1u64);
    assert_eq!(l.yylex().unwrap(), Token::Identifier("A".to_string()));
    assert_eq!(l.yylex().unwrap(), Token::NewLine);
    assert_eq!(l.yylex().unwrap(), Token::Identifier("B".to_string()));
    assert_eq!(*l.get_line_count(), 2);
}
