use toylang::ast::{Expr, ExprPool, ExprRef, LocationPool, Program, StmtPool, StmtRef};
use toylang::interner::Interner;
use toylang::interpreter::{calculate_line_col_from_offset, check_typing};
use toylang::lexer::Lexer;
use toylang::parser::Parser;
use toylang::type_checker::error::{SourceLocation, TypeCheckErrorKind};
use toylang::type_checker::TypeCheckerVisitor;
use toylang::type_decl::TypeDecl;

fn parsed(source: &str) -> Program {
    Parser::new(source).parse_program().unwrap()
}

#[test]
fn array_index_literal_is_rewritten_at_the_visit() {
    let mut interner = Interner::new();
    let one = interner.get_or_intern("1").unwrap();
    let mut exprs = ExprPool::new();
    let first = exprs.add(Expr::UInt64(10));
    let second = exprs.add(Expr::UInt64(20));
    let array = exprs.add(Expr::ArrayLiteral(vec![first, second]));
    let index = exprs.add(Expr::Number(one));
    assert_eq!((array, index), (ExprRef(2), ExprRef(3)));
    let stmts = StmtPool::new();
    let locations = LocationPool::new();
    let mut tc = TypeCheckerVisitor::new(&stmts, exprs, &interner, &locations);
    let element = tc.visit_array_access(&ExprRef(2), &ExprRef(3), 64);
    assert!(matches!(element, Ok(TypeDecl::UInt64)));
    assert!(matches!(tc.core.expr_pool.get(3), Some(Expr::UInt64(1))));
    assert_eq!(tc.core.expr_pool.len(), 4);
    assert!(tc.hint().is_none());
    assert!(matches!(tc.core.expr_pool.get(0), Some(Expr::UInt64(10))));
    assert!(matches!(tc.core.expr_pool.get(1), Some(Expr::UInt64(20))));
}

#[test]
fn array_index_literal_is_rewritten_under_a_signed_hint() {
    let mut interner = Interner::new();
    let zero = interner.get_or_intern("0").unwrap();
    let mut exprs = ExprPool::new();
    let first = exprs.add(Expr::Int64(-3));
    let array = exprs.add(Expr::ArrayLiteral(vec![first]));
    let index = exprs.add(Expr::Number(zero));
    let stmts = StmtPool::new();
    let locations = LocationPool::new();
    let mut tc = TypeCheckerVisitor::new(&stmts, exprs, &interner, &locations);
    tc.set_hint(Some(TypeDecl::Int64));
    let element = tc.visit_array_access(&array, &index, 64);
    assert!(matches!(element, Ok(TypeDecl::Int64)));
    assert!(matches!(tc.core.expr_pool.get(2), Some(Expr::UInt64(0))));
    assert!(matches!(tc.hint(), Some(TypeDecl::Int64)));
}

#[test]
fn a_failed_check_leaves_the_state_as_it_was() {
    let program = parsed("fn main() -> u64 {\n var a = 1u64\n for i in 0u64 to 3u64 {\n val b: i64 = 2\n a = true\n }\n a\n}");
    let Program { statement, expression, location_pool, function, string_interner } = program;
    let mut tc = TypeCheckerVisitor::new(&statement, expression, &string_interner, &location_pool);
    tc.add_function(function[0].clone());
    tc.push_context();
    tc.set_hint(Some(TypeDecl::Int64));
    let frames = tc.context.vars.len();
    let depth = tc.function_checking.call_depth;
    let nodes = tc.core.expr_pool.len();
    assert!(tc.type_check(function[0].clone()).is_err());
    assert_eq!(tc.context.vars.len(), frames);
    assert_eq!(tc.function_checking.call_depth, depth);
    assert!(matches!(tc.hint(), Some(TypeDecl::Int64)));
    assert_eq!(tc.core.expr_pool.len(), nodes);
    assert!(tc.check_status(function[0].name).is_none());
    assert!(tc.type_check(function[0].clone()).is_err());
    assert_eq!(tc.context.vars.len(), frames);
    assert_eq!(tc.function_checking.call_depth, depth);
}

#[test]
fn a_failed_call_leaves_the_state_as_it_was() {
    let program = parsed("fn g() -> u64 { true }\nfn main() -> u64 {\n val a = 1u64\n { g() }\n}");
    let Program { statement, expression, location_pool, function, string_interner } = program;
    let mut tc = TypeCheckerVisitor::new(&statement, expression, &string_interner, &location_pool);
    for f in &function {
        tc.add_function(f.clone());
    }
    let error = tc.type_check(function[1].clone()).unwrap_err();
    assert!(matches!(
        error.kind,
        TypeCheckErrorKind::TypeMismatch { expected: TypeDecl::UInt64, actual: TypeDecl::Bool }
    ));
    assert_eq!(tc.context.vars.len(), 0);
    assert_eq!(tc.function_checking.call_depth, 0);
    assert!(tc.hint().is_none());
    assert!(tc.check_status(function[0].name).is_none());
    assert!(tc.check_status(function[1].name).is_none());
}

#[test]
fn a_passed_check_records_the_declared_type() {
    let program = parsed("fn twice(n: u64) -> u64 { n + n }\nfn main() -> u64 { twice(4u64) }");
    let Program { statement, expression, location_pool, function, string_interner } = program;
    let mut tc = TypeCheckerVisitor::new(&statement, expression, &string_interner, &location_pool);
    for f in &function {
        tc.add_function(f.clone());
    }
    assert!(matches!(tc.type_check(function[1].clone()), Ok(TypeDecl::UInt64)));
    assert_eq!(tc.context.vars.len(), 0);
    assert_eq!(tc.function_checking.call_depth, 0);
    assert!(tc.hint().is_none());
    assert!(matches!(tc.check_status(function[1].name), Some(Some(TypeDecl::UInt64))));
    assert!(matches!(tc.check_status(function[0].name), Some(Some(TypeDecl::UInt64))));
    assert!(matches!(function[1].return_type, Some(TypeDecl::UInt64)));
}

#[test]
fn every_failed_function_is_reported_once() {
    let source = "fn main() -> u64 { g() }\nfn g() -> u64 { true }";
    let mut program = parsed(source);
    let nodes = program.expression.len();
    let reports = check_typing(&mut program, None, None).unwrap_err();
    assert_eq!(reports.len(), 2);
    assert!(reports[0].starts_with("type_check failed in main: "));
    assert!(reports[1].starts_with("type_check failed in g: "));
    assert!(reports[1].ends_with("Type mismatch: expected UInt64, but got Bool"));
    assert_eq!(program.expression.len(), nodes);

    let source = "fn g() -> u64 { true }\nfn main() -> u64 { g() }\nfn fine() -> bool { true }";
    let mut program = parsed(source);
    let reports = check_typing(&mut program, None, None).unwrap_err();
    assert_eq!(reports.len(), 2);
    assert!(reports[0].starts_with("type_check failed in g: "));
    assert!(reports[1].starts_with("type_check failed in main: "));
}

#[test]
fn a_statement_outside_the_pool_is_an_error() {
    let stmts = StmtPool::new();
    let exprs = ExprPool::new();
    let interner = Interner::new();
    let locations = LocationPool::new();
    let mut tc = TypeCheckerVisitor::new(&stmts, exprs, &interner, &locations);
    let error = tc.visit_stmt(&StmtRef(7), 16).unwrap_err();
    match &error.kind {
        TypeCheckErrorKind::GenericError { message } => assert_eq!(message, "Invalid statement reference"),
        other => panic!("unexpected error: {:?}", other),
    }
}

#[test]
fn offsets_count_bytes() {
    let source = "\u{e9}\nx";
    assert_eq!(source.len(), 4);
    assert_eq!(calculate_line_col_from_offset(source, 0), (1, 1));
    assert_eq!(calculate_line_col_from_offset(source, 1), (1, 2));
    assert_eq!(calculate_line_col_from_offset(source, 2), (1, 2));
    assert_eq!(calculate_line_col_from_offset(source, 3), (2, 1));
    assert_eq!(calculate_line_col_from_offset(source, 4), (2, 2));
    assert_eq!(calculate_line_col_from_offset(source, 40), (2, 2));
    let wide = "\u{20ac}\u{1f600}z";
    assert_eq!(wide.len(), 8);
    assert_eq!(calculate_line_col_from_offset(wide, 3), (1, 2));
    assert_eq!(calculate_line_col_from_offset(wide, 7), (1, 3));
    assert_eq!(calculate_line_col_from_offset(wide, 8), (1, 4));
}

#[test]
fn the_lexer_gives_byte_offsets() {
    let mut lexer = Lexer::new("\"\u{e9}\u{20ac}\" x", 1);
    assert!(lexer.yylex().is_ok());
    assert_eq!(lexer.last_start, SourceLocation { line: 1, column: 1, offset: 0 });
    assert!(lexer.yylex().is_ok());
    assert_eq!(lexer.last_start, SourceLocation { line: 1, column: 6, offset: 8 });
}

#[test]
fn a_held_string_keeps_its_symbol() {
    let mut interner = Interner::new();
    let a = interner.get_or_intern("a").unwrap();
    let b = interner.get_or_intern("b").unwrap();
    assert_eq!(interner.get_or_intern("a"), Some(a));
    assert_eq!(interner.get("b"), Some(b));
    assert_eq!(interner.len(), 2);
    assert_eq!(interner.get("c"), None);
}
