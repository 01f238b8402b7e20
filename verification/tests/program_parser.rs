use toylang::ast::{Expr, Operator, Stmt};
use toylang::lexer::{find_invalid, LexError, Lexer};
use toylang::parser::Parser;
use toylang::token::Token;
use toylang::type_checker::error::SourceLocation;
use toylang::type_decl::TypeDecl;
use toylang::typing::Environment;

#[test]
fn a_function_becomes_pool_nodes() {
    let program = Parser::new("fn add(a: u64, b: i64) -> u64 {\n a + 1\n}").parse_program().unwrap();
    assert_eq!(program.function.len(), 1);
    let f = &program.function[0];
    let intern = &program.string_interner;
    assert_eq!(intern.resolve(f.name), Some("add"));
    assert_eq!(f.parameter.len(), 2);
    assert_eq!(intern.resolve(f.parameter[0].0), Some("a"));
    assert_eq!(f.parameter[0].1, TypeDecl::UInt64);
    assert_eq!(f.parameter[1].1, TypeDecl::Int64);
    assert_eq!(f.return_type, Some(TypeDecl::UInt64));
    let block = match program.statement.get(f.code.to_index()) {
        Some(Stmt::Expression(e)) => *e,
        other => panic!("{:?}", other),
    };
    let stmts = match program.expression.get(block.to_index()) {
        Some(Expr::Block(stmts)) => stmts.clone(),
        other => panic!("{:?}", other),
    };
    assert_eq!(stmts.len(), 1);
    let sum = match program.statement.get(stmts[0].to_index()) {
        Some(Stmt::Expression(e)) => *e,
        other => panic!("{:?}", other),
    };
    match program.expression.get(sum.to_index()) {
        Some(Expr::Binary(Operator::IAdd, l, r)) => {
            assert!(matches!(program.expression.get(l.to_index()), Some(Expr::Identifier(_))));
            match program.expression.get(r.to_index()) {
                Some(Expr::Number(text)) => assert_eq!(intern.resolve(*text), Some("1")),
                other => panic!("{:?}", other),
            }
        }
        other => panic!("{:?}", other),
    }
    assert_eq!(program.location_pool.expr_locations.len(), program.expression.len());
    assert_eq!(program.location_pool.stmt_locations.len(), program.statement.len());
    assert_eq!(
        program.location_pool.get_expr_location(&sum),
        Some(SourceLocation { line: 2, column: 2, offset: 33 })
    );
}

#[test]
fn operators_group_to_the_left_by_precedence() {
    let program = Parser::new("fn main() -> u64 { 10u64 - 2u64 - 3u64 * 2u64 }").parse_program().unwrap();
    // 10 - 2 - 3 * 2 is (10 - 2) - (3 * 2).
    let nodes = &program.expression.0;
    let top = nodes.iter().rev().find(|e| matches!(e, Expr::Binary(..))).unwrap();
    match top {
        Expr::Binary(Operator::ISub, l, r) => {
            assert!(matches!(nodes[l.to_index()], Expr::Binary(Operator::ISub, _, _)));
            assert!(matches!(nodes[r.to_index()], Expr::Binary(Operator::IMul, _, _)));
        }
        other => panic!("{:?}", other),
    }
}

#[test]
fn statements_end_at_line_feeds_or_semicolons() {
    let program = Parser::new("fn main() -> u64 { val a = 1u64; val b = 2u64\n\n;a + b }").parse_program().unwrap();
    let block = program.expression.0.iter().rev().find_map(|e| match e {
        Expr::Block(stmts) => Some(stmts.len()),
        _ => None,
    });
    assert_eq!(block, Some(3));
    let error = Parser::new("fn main() -> u64 { 1u64 2u64 }").parse_program().err().unwrap();
    assert_eq!(error, "parse_statements: expected the end of the statement but UInt64");
}

#[test]
fn types_are_read() {
    let program = Parser::new("fn f(a: bool, b: str, c: [i64; 3], d: Point) { }").parse_program().unwrap();
    let p = &program.function[0].parameter;
    assert_eq!(p[0].1, TypeDecl::Bool);
    assert_eq!(p[1].1, TypeDecl::String);
    assert_eq!(p[2].1, TypeDecl::Array(vec![TypeDecl::Int64], 3));
    assert!(matches!(p[3].1, TypeDecl::Identifier(name) if program.string_interner.resolve(name) == Some("Point")));
    assert_eq!(program.function[0].return_type, None);
}

#[test]
fn a_brace_after_a_condition_opens_the_body() {
    let program = Parser::new("fn main() -> u64 {\n val p = 1u64\n if p == p { 1u64 } else { 2u64 }\n}").parse_program().unwrap();
    assert!(program.expression.0.iter().any(|e| matches!(e, Expr::IfElifElse(..))));
    assert!(!program.expression.0.iter().any(|e| matches!(e, Expr::StructLiteral(..))));
}

#[test]
fn an_if_without_else_gets_an_empty_block() {
    let program = Parser::new("fn main() { if true { 1u64 } }").parse_program().unwrap();
    let found = program.expression.0.iter().find_map(|e| match e {
        Expr::IfElifElse(_, _, elifs, otherwise) => Some((elifs.len(), *otherwise)),
        _ => None,
    });
    let (elifs, otherwise) = found.unwrap();
    assert_eq!(elifs, 0);
    assert!(matches!(program.expression.get(otherwise.to_index()), Some(Expr::Block(s)) if s.is_empty()));
}

#[test]
fn parse_errors_name_the_token() {
    let parse = |source: &str| Parser::new(source).parse_program().err().unwrap();
    assert_eq!(parse("val a = 1u64"), "parse_program: unexpected token Val");
    assert_eq!(parse("fn main( { }"), "Identifier expected but BraceOpen");
    assert_eq!(parse("fn main() -> { }"), "parse_type: expected type but BraceOpen");
    assert_eq!(parse("fn main() { 1u64 + }"), "parse_primary: unexpected token BraceClose");
    assert_eq!(parse("fn main() { (1u64 "), "ParenClose expected but None");
    assert_eq!(parse("fn main() { val = 1u64 }"), "Identifier expected but Equal");
    assert_eq!(parse("fn main() { for i in 1u64 { } }"), "To expected but BraceOpen");
    assert_eq!(parse("fn main() -> u64 { 1u64 }\n$"), "2:1:26: unexpected character");
    assert_eq!(parse("fn main() { \"open }"), "1:13:12: unexpected character");
    assert_eq!(parse("fn f(a: [u64; x]) { }"), "parse_type: expected array size but Identifier");
    assert_eq!(parse("struct { }"), "Identifier expected but BraceOpen");
    assert_eq!(parse("impl A { val }"), "Function expected but Val");
}

#[test]
fn declarations_become_statements() {
    let source = "struct P {\n x: u64\n y: bool,\n}\nimpl P {\n fn get(self, k: u64) -> u64 { k }\n fn make() -> u64 { 1u64 }\n}";
    let program = Parser::new(source).parse_program().unwrap();
    let decl = program.statement.0.iter().find_map(|s| match s {
        Stmt::StructDecl { name, fields } => Some((name.clone(), fields.len(), fields[1].name.clone(), fields[1].type_decl.clone())),
        _ => None,
    });
    assert_eq!(decl, Some(("P".to_string(), 2, "y".to_string(), TypeDecl::Bool)));
    let methods = program.statement.0.iter().find_map(|s| match s {
        Stmt::ImplBlock { target_type, methods } => Some((target_type.clone(), methods.clone())),
        _ => None,
    });
    let (target, methods) = methods.unwrap();
    assert_eq!(target, "P");
    assert_eq!(methods.len(), 2);
    assert!(methods[0].has_self_param && methods[0].parameter.len() == 1);
    assert!(!methods[1].has_self_param && methods[1].parameter.is_empty());
}

#[test]
fn the_lexer_reports_ends_and_unknown_characters() {
    let mut lexer = Lexer::new("a $", 1);
    assert_eq!(lexer.yylex().unwrap(), Token::Identifier("a".to_string()));
    assert_eq!(lexer.yylex(), Err(LexError::Unmatch));
    assert_eq!(lexer.yylex(), Err(LexError::Unmatch));
    let mut lexer = Lexer::new("a  ", 1);
    lexer.yylex().unwrap();
    assert_eq!(lexer.yylex(), Err(LexError::EOF));
    assert_eq!(find_invalid(&"ab cd".chars().collect()), None);
    assert_eq!(
        find_invalid(&"ab\n  #".chars().collect()),
        Some(SourceLocation { line: 2, column: 3, offset: 5 })
    );
}

#[test]
fn the_lexer_reads_the_longest_token() {
    let mut lexer = Lexer::new("a-1 b - 1 c->d 5i64x 7u64 -7u64 elif iffy \"hi there\" ; 99999999999999999999u64", 5);
    let mut tokens = vec![];
    loop {
        match lexer.yylex() {
            Ok(token) => tokens.push(token),
            Err(error) => {
                assert_eq!(error, LexError::Unmatch);
                break;
            }
        }
    }
    let name = |s: &str| Token::Identifier(s.to_string());
    assert_eq!(
        tokens,
        vec![
            name("a"),
            Token::Integer("-1".to_string()),
            name("b"),
            Token::ISub,
            Token::Integer("1".to_string()),
            name("c"),
            Token::Arrow,
            name("d"),
            Token::Int64(5),
            name("x"),
            Token::UInt64(7),
            Token::Integer("-7".to_string()),
            Token::U64,
            Token::Elif,
            name("iffy"),
            Token::String("hi there".to_string()),
            Token::Semicolon,
        ]
    );
    assert_eq!(*lexer.get_line_count(), 5);
    assert_eq!(lexer.last_start, SourceLocation { line: 1, column: 54, offset: 53 });
}

#[test]
fn the_line_parser_numbers_its_type_variables() {
    let mut parser = Parser::new("a + b(c)\n d");
    parser.parse_expr_line().unwrap();
    assert_eq!(parser.current_id, 3);
    parser.parse_expr_line().unwrap();
    assert_eq!(parser.current_id, 4);
    assert!(parser.peek().is_none());
    assert_eq!(
        Parser::new("(1u64").parse_expr_line().unwrap_err(),
        "ParenClose expected but None"
    );
    assert_eq!(
        Parser::new("1u64 2u64").parse_expr_line().unwrap_err(),
        "parse_expr: expected NewLine or EOF(None) but UInt64"
    );
    assert_eq!(
        Parser::new("val 5").parse_expr_line().unwrap_err(),
        "parse_val_def: expected identifier but Integer"
    );
    assert_eq!(
        Parser::new("val a: 5").parse_expr_line().unwrap_err(),
        "parse_def_ty: expected type but Integer"
    );
    assert!(!Parser::new("").expect(&Token::Val));
    assert!(Parser::new("a").expect_err(&Token::Val).is_err());
    assert!(Parser::new("val").expect(&Token::Val));
}

#[test]
fn a_new_typing_environment_knows_nothing() {
    assert!(Environment::new().context.is_empty());
}

#[test]
fn pool_nodes_keep_their_refs() {
    use_pools();
}

fn use_pools() {
    let mut exprs = toylang::ast::ExprPool::new();
    let a = exprs.add(Expr::UInt64(1));
    let b = exprs.add(Expr::Null);
    assert_eq!((a.0, b.0, exprs.len()), (0, 1, 2));
    assert!(exprs.get(2).is_none() && exprs.get_mut(2).is_none());
    *exprs.get_mut(0).unwrap() = Expr::Int64(-1);
    assert!(matches!(exprs.get(0), Some(Expr::Int64(-1))));
    assert!(matches!(exprs.get(1), Some(Expr::Null)));
    exprs.replace(1, Expr::True);
    assert!(matches!(exprs.get(1), Some(Expr::True)));
    assert!(!exprs.is_number(1) && !exprs.is_number(7));
    assert_eq!(exprs.len(), 2);
    let mut stmts = toylang::ast::StmtPool::new();
    let s = stmts.add(Stmt::Break);
    *stmts.get_mut(s.to_index()).unwrap() = Stmt::Continue;
    assert!(matches!(stmts.get(0), Some(Stmt::Continue)));
    assert!(stmts.get(1).is_none() && stmts.get_mut(1).is_none());
    assert_eq!(stmts.len(), 1);
}
