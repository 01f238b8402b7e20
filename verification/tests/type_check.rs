use std::rc::Rc;
use toylang::ast::{Expr, ExprPool, ExprRef, Function, LocationPool, Operator, Program, Stmt, StmtPool};
use toylang::interner::Interner;
use toylang::interpreter::object::Object;
use toylang::interpreter::{check_typing, execute_program};
use toylang::parser::Parser;
use toylang::type_checker::accept::Acceptable;
use toylang::type_checker::error::{SourceLocation, TypeCheckErrorKind};
use toylang::type_checker::TypeCheckerVisitor;
use toylang::type_decl::TypeDecl;

fn parse(source: &str) -> Program {
    Parser::new(source).parse_program().unwrap()
}

fn check_one(source: &str) -> Result<TypeDecl, TypeCheckErrorKind> {
    let program = parse(source);
    let Program { statement, expression, location_pool, function, string_interner } = program;
    let mut tc = TypeCheckerVisitor::new(&statement, expression, &string_interner, &location_pool);
    for f in &function {
        tc.add_function(f.clone());
    }
    let last = function.last().unwrap().clone();
    tc.type_check(last).map_err(|e| e.kind)
}

fn numbers_left(pool: &ExprPool) -> usize {
    pool.0.iter().filter(|e| matches!(e, Expr::Number(_))).count()
}

#[test]
fn number_inference_from_annotation() {
    let mut program = parse("fn main() -> i64 { val a: i64 = 5; a + 7 }");
    let before = program.expression.len();
    assert_eq!(numbers_left(&program.expression), 2);
    assert!(check_typing(&mut program, None, None).is_ok());
    assert_eq!(program.expression.len(), before);
    assert_eq!(numbers_left(&program.expression), 0);
    let literals: Vec<i64> = program
        .expression
        .0
        .iter()
        .filter_map(|e| match e {
            Expr::Int64(v) => Some(*v),
            _ => None,
        })
        .collect();
    assert_eq!(literals, vec![5, 7]);
    let result = execute_program(&program, None, None).unwrap();
    assert!(matches!(result, Object::Int64(12)));
}

#[test]
fn number_inference_by_hand_built_pool() {
    let mut interner = Interner::new();
    let main = interner.get_or_intern("main").unwrap();
    let a = interner.get_or_intern("a").unwrap();
    let five = interner.get_or_intern("5").unwrap();
    let seven = interner.get_or_intern("7").unwrap();
    let mut exprs = ExprPool::new();
    let mut stmts = StmtPool::new();
    let e5 = exprs.add(Expr::Number(five));
    let s_val = stmts.add(Stmt::Val(a, Some(TypeDecl::Int64), e5));
    let ea = exprs.add(Expr::Identifier(a));
    let e7 = exprs.add(Expr::Number(seven));
    let sum = exprs.add(Expr::Binary(Operator::IAdd, ea, e7));
    let s_sum = stmts.add(Stmt::Expression(sum));
    let block = exprs.add(Expr::Block(vec![s_val, s_sum]));
    let code = stmts.add(Stmt::Expression(block));
    let function = Rc::new(Function {
        name: main,
        parameter: vec![],
        return_type: Some(TypeDecl::Int64),
        code,
    });
    let locations = LocationPool::new();
    let mut tc = TypeCheckerVisitor::new(&stmts, exprs, &interner, &locations);
    tc.add_function(function.clone());
    let result = tc.type_check(function.clone());
    assert!(matches!(result, Ok(TypeDecl::Int64)));
    // A function that is done keeps its recorded type.
    assert!(matches!(tc.type_check(function), Ok(TypeDecl::Int64)));
    let exprs = tc.into_expr_pool();
    assert!(matches!(exprs.get(e5.to_index()), Some(Expr::Int64(5))));
    assert!(matches!(exprs.get(e7.to_index()), Some(Expr::Int64(7))));
    assert!(matches!(exprs.get(ea.to_index()), Some(Expr::Identifier(_))));
    assert_eq!(exprs.len(), 5);
    assert_eq!(ExprRef(0), e5);
}

#[test]
fn two_unresolved_literals_default_to_u64() {
    let mut program = parse("fn main() -> u64 { 1 + 2 }");
    assert!(check_typing(&mut program, None, None).is_ok());
    assert_eq!(numbers_left(&program.expression), 0);
    assert!(matches!(program.expression.get(0), Some(Expr::UInt64(1))));
    assert!(matches!(program.expression.get(1), Some(Expr::UInt64(2))));
    assert!(matches!(execute_program(&program, None, None).unwrap(), Object::UInt64(3)));
}

#[test]
fn literal_takes_the_type_of_the_other_operand() {
    let mut program = parse("fn main() -> i64 { 40i64 + 2 }");
    assert!(check_typing(&mut program, None, None).is_ok());
    assert!(matches!(program.expression.get(1), Some(Expr::Int64(2))));
    assert!(matches!(execute_program(&program, None, None).unwrap(), Object::Int64(42)));
}

#[test]
fn rewrite_keeps_every_other_node() {
    let mut program = parse("fn main() -> u64 {\n val a: u64 = 3\n if a < 10u64 { a * 2 } else { 0u64 }\n}");
    let before: Vec<String> = program.expression.0.iter().map(|e| format!("{:?}", e)).collect();
    assert!(check_typing(&mut program, None, None).is_ok());
    let after: Vec<String> = program.expression.0.iter().map(|e| format!("{:?}", e)).collect();
    assert_eq!(before.len(), after.len());
    for (old, new) in before.iter().zip(after.iter()) {
        if old.starts_with("Number") {
            assert!(new.starts_with("UInt64"), "{} became {}", old, new);
        } else {
            assert_eq!(old, new);
        }
    }
    assert!(matches!(execute_program(&program, None, None).unwrap(), Object::UInt64(6)));
}

#[test]
fn array_index_literal_becomes_u64() {
    let mut program = parse("fn main() -> u64 {\n val a = [10u64, 20u64, 30u64]\n a[1]\n}");
    assert!(check_typing(&mut program, None, None).is_ok());
    assert_eq!(numbers_left(&program.expression), 0);
    assert!(matches!(execute_program(&program, None, None).unwrap(), Object::UInt64(20)));
}

#[test]
fn array_literal_elements_take_the_annotated_type() {
    let mut program = parse("fn main() -> i64 {\n val a: [i64; 3] = [1, 2, 3]\n a[2u64]\n}");
    assert!(check_typing(&mut program, None, None).is_ok());
    assert_eq!(numbers_left(&program.expression), 0);
    assert!(matches!(program.expression.get(0), Some(Expr::Int64(1))));
    assert!(matches!(execute_program(&program, None, None).unwrap(), Object::Int64(3)));
}

#[test]
fn recursive_function_checks() {
    let source = "fn fib(n: u64) -> u64 {\n if n <= 1u64 { n } else { fib(n - 1u64) + fib(n - 2u64) }\n}\nfn main() -> u64 { fib(10u64) }";
    let mut program = parse(source);
    assert!(check_typing(&mut program, None, None).is_ok());
    assert!(matches!(execute_program(&program, None, None).unwrap(), Object::UInt64(55)));
}

#[test]
fn string_len_is_u64() {
    assert!(matches!(check_one("fn main() -> u64 { \"hello\".len() }"), Ok(TypeDecl::UInt64)));
    let program = parse("fn main() -> u64 { \"hello\".len() }");
    assert!(matches!(execute_program(&program, None, None).unwrap(), Object::UInt64(5)));
}

#[test]
fn if_with_branches_of_different_types_is_unit() {
    assert!(matches!(
        check_one("fn main() { if true { 1u64 } else { true } }"),
        Ok(TypeDecl::Unit)
    ));
}

#[test]
fn error_type_mismatch_on_return_type() {
    match check_one("fn main() -> u64 { true }") {
        Err(TypeCheckErrorKind::TypeMismatch { expected, actual }) => {
            assert_eq!(expected, TypeDecl::UInt64);
            assert_eq!(actual, TypeDecl::Bool);
        }
        other => panic!("{:?}", other),
    }
}

#[test]
fn error_mixed_signed_unsigned() {
    match check_one("fn main() -> u64 { 1u64 + 2i64 }") {
        Err(TypeCheckErrorKind::TypeMismatchOperation { operation, left, right }) => {
            assert_eq!(operation, "mixed signed/unsigned");
            assert_eq!(left, TypeDecl::UInt64);
            assert_eq!(right, TypeDecl::Int64);
        }
        other => panic!("{:?}", other),
    }
}

#[test]
fn error_logical_operands_must_be_bool() {
    match check_one("fn main() -> bool { 1u64 && 2u64 }") {
        Err(TypeCheckErrorKind::TypeMismatchOperation { operation, .. }) => {
            assert_eq!(operation, "logical");
        }
        other => panic!("{:?}", other),
    }
}

#[test]
fn error_identifier_not_found() {
    match check_one("fn main() -> u64 { x }") {
        Err(TypeCheckErrorKind::NotFound { item_type, name }) => {
            assert_eq!(item_type, "Identifier");
            assert_eq!(name, "x");
        }
        other => panic!("{:?}", other),
    }
}

#[test]
fn error_function_not_found() {
    match check_one("fn main() -> u64 { f() }") {
        Err(TypeCheckErrorKind::NotFound { item_type, name }) => {
            assert_eq!(item_type, "Function");
            assert_eq!(name, "f");
        }
        other => panic!("{:?}", other),
    }
}

#[test]
fn error_unsupported_field_access() {
    match check_one("fn main() -> u64 {\n val a = 1u64\n a.x\n}") {
        Err(TypeCheckErrorKind::UnsupportedOperation { operation, operand_type }) => {
            assert_eq!(operation, "field access 'x'");
            assert_eq!(operand_type, TypeDecl::UInt64);
        }
        other => panic!("{:?}", other),
    }
}

#[test]
fn error_conversion_of_negative_to_u64() {
    match check_one("fn main() -> u64 {\n val a: u64 = -5\n a\n}") {
        Err(TypeCheckErrorKind::ConversionError { from, to }) => {
            assert_eq!(from, "-5");
            assert_eq!(to, "UInt64");
        }
        other => panic!("{:?}", other),
    }
}

#[test]
fn error_empty_array_literal() {
    match check_one("fn main() -> u64 {\n val a = []\n 1u64\n}") {
        Err(TypeCheckErrorKind::ArrayError { message }) => {
            assert_eq!(message, "Empty array literals are not supported");
        }
        other => panic!("{:?}", other),
    }
}

#[test]
fn error_array_elements_of_different_types() {
    match check_one("fn main() -> u64 {\n val a = [1u64, true]\n 1u64\n}") {
        Err(TypeCheckErrorKind::ArrayError { message }) => {
            assert_eq!(
                message,
                "Array elements must have the same type, but element 1 has type Bool while first element has type UInt64"
            );
        }
        other => panic!("{:?}", other),
    }
}

#[test]
fn error_unknown_string_method() {
    match check_one("fn main() -> u64 { \"abc\".size() }") {
        Err(TypeCheckErrorKind::MethodError { method, operand_type, reason }) => {
            assert_eq!(method, "size");
            assert_eq!(operand_type, TypeDecl::String);
            assert_eq!(reason, "method not found");
        }
        other => panic!("{:?}", other),
    }
}

#[test]
fn error_invalid_literal() {
    match check_one("fn main() -> u64 { 99999999999999999999999 }") {
        Err(TypeCheckErrorKind::InvalidLiteral { value, expected_type }) => {
            assert_eq!(value, "99999999999999999999999");
            assert_eq!(expected_type, "number");
        }
        other => panic!("{:?}", other),
    }
}

#[test]
fn error_empty_block() {
    match check_one("fn main() -> u64 {\n {}\n 1u64\n}") {
        Err(TypeCheckErrorKind::GenericError { message }) => {
            assert_eq!(message, "Empty block - no return value");
        }
        other => panic!("{:?}", other),
    }
}

#[test]
fn error_assignment_of_another_type() {
    let program = parse("fn main() -> u64 {\n var a = 1u64\n a = true\n 1u64\n}");
    let Program { statement, expression, location_pool, function, string_interner } = program;
    let mut tc = TypeCheckerVisitor::new(&statement, expression, &string_interner, &location_pool);
    tc.add_function(function[0].clone());
    let error = tc.type_check(function[0].clone()).unwrap_err();
    assert!(matches!(error.kind, TypeCheckErrorKind::TypeMismatch { .. }));
    assert_eq!(error.context.as_deref(), Some("assignment"));
    // A failed check leaves no mark: the next one fails in the same way.
    let again = tc.type_check(function[0].clone()).unwrap_err();
    assert!(matches!(again.kind, TypeCheckErrorKind::TypeMismatch { .. }));
    assert_eq!(again.context.as_deref(), Some("assignment"));
}

#[test]
fn error_carries_the_place_of_the_expression() {
    let program = parse("fn main() -> u64 {\n val a = nothing\n 1u64\n}");
    let Program { statement, expression, location_pool, function, string_interner } = program;
    let mut tc = TypeCheckerVisitor::new(&statement, expression, &string_interner, &location_pool);
    let error = tc.type_check(function[0].clone()).unwrap_err();
    assert_eq!(error.location, Some(SourceLocation { line: 2, column: 10, offset: 28 }));
    assert_eq!(error.message(), "2:10:28: Identifier 'nothing' not found");
}

#[test]
fn check_typing_reports_failed_functions() {
    let source = "fn good() -> u64 { 1u64 }\nfn bad() -> u64 {\n val a = nothing\n 1u64\n}\nfn worse() -> u64 { true }";
    let mut program = parse(source);
    let errors = check_typing(&mut program, None, None).unwrap_err();
    assert_eq!(
        errors,
        vec![
            "type_check failed in bad: 3:10:53: Identifier 'nothing' not found".to_string(),
            "type_check failed in worse: Type mismatch: expected UInt64, but got Bool".to_string(),
        ]
    );
    let mut program = parse(source);
    let errors = check_typing(&mut program, Some(source), Some("demo.t")).unwrap_err();
    assert_eq!(
        errors,
        vec![
            "demo.t:3:10: type error: Identifier 'nothing' not found".to_string(),
            "demo.t: type error: Type mismatch: expected UInt64, but got Bool".to_string(),
        ]
    );
}

#[test]
fn nodes_accept_a_visitor() {
    let mut interner = Interner::new();
    let x = interner.get_or_intern("x").unwrap();
    let mut exprs = ExprPool::new();
    let one = exprs.add(Expr::UInt64(1));
    let two = exprs.add(Expr::UInt64(2));
    let stmts = StmtPool::new();
    let locations = LocationPool::new();
    let mut tc = TypeCheckerVisitor::new(&stmts, exprs, &interner, &locations);
    tc.push_context();
    let sum = Expr::Binary(Operator::LT, one, two);
    assert!(matches!(sum.accept(&mut tc, 16), Ok(TypeDecl::Bool)));
    assert!(matches!(Stmt::Val(x, None, one).accept(&mut tc, 16), Ok(TypeDecl::Unit)));
    assert!(matches!(Expr::Identifier(x).accept(&mut tc, 16), Ok(TypeDecl::UInt64)));
    tc.pop_context();
    assert!(Expr::Identifier(x).accept(&mut tc, 16).is_err());
    assert!(matches!(Stmt::Break.accept(&mut tc, 0), Ok(TypeDecl::Unit)));
}

#[test]
fn nesting_deeper_than_the_budget_is_an_error() {
    let mut exprs = ExprPool::new();
    let one = exprs.add(Expr::UInt64(1));
    let two = exprs.add(Expr::UInt64(2));
    let sum = exprs.add(Expr::Binary(Operator::IAdd, one, two));
    let stmts = StmtPool::new();
    let interner = Interner::new();
    let locations = LocationPool::new();
    let mut tc = TypeCheckerVisitor::new(&stmts, exprs, &interner, &locations);
    assert!(matches!(tc.accept_expr(&sum, "invalid", 2), Ok(TypeDecl::UInt64)));
    let error = tc.accept_expr(&sum, "invalid", 1).unwrap_err();
    assert_eq!(error.message(), "Expression nesting is too deep");
    let error = tc.accept_expr(&ExprRef(9), "no such node", 5).unwrap_err();
    assert_eq!(error.message(), "no such node");
}

#[test]
fn an_array_literal_has_one_element_type() {
    match check_one("fn main() -> [u64; 2] { [1u64, 2u64] }") {
        Ok(ty) => assert_eq!(ty, TypeDecl::Array(vec![TypeDecl::UInt64], 2)),
        other => panic!("{:?}", other),
    }
    assert!(check_one("fn main() -> u64 {\n var a: [i64; 2] = [1i64, 2i64]\n 1u64\n}").is_ok());
    match check_one("fn main() -> u64 {\n val a: [i64; 2] = [1i64, 2u64]\n 1u64\n}") {
        Err(TypeCheckErrorKind::ArrayError { message }) => assert_eq!(
            message,
            "Cannot mix signed and unsigned integers in array. Element 1 has type UInt64 but expected Int64"
        ),
        other => panic!("{:?}", other),
    }
    match check_one("fn main() -> u64 {\n val a = [1u64]\n a[true]\n}") {
        Err(TypeCheckErrorKind::ArrayError { message }) => {
            assert_eq!(message, "Array index must be an integer type, but got Bool")
        }
        other => panic!("{:?}", other),
    }
    match check_one("fn main() -> u64 {\n val a = 1u64\n a[0u64]\n}") {
        Err(TypeCheckErrorKind::ArrayError { message }) => {
            assert_eq!(message, "Cannot index into non-array type UInt64")
        }
        other => panic!("{:?}", other),
    }
    match check_one("fn main() -> u64 { \"abc\".len(1u64, 2u64) }") {
        Err(TypeCheckErrorKind::MethodError { reason, .. }) => {
            assert_eq!(reason, "takes no arguments, but 2 provided")
        }
        other => panic!("{:?}", other),
    }
}
