use toylang::symbol::Symbol;
use toylang::type_checker::error::{SourceLocation, TypeCheckError, TypeCheckErrorKind};
use toylang::type_decl::TypeDecl;

#[test]
fn constructors_fill_the_kind_and_nothing_else() {
    let error = TypeCheckError::type_mismatch(TypeDecl::Int64, TypeDecl::Bool);
    assert!(error.context.is_none() && error.location.is_none());
    assert!(matches!(
        error.kind,
        TypeCheckErrorKind::TypeMismatch { expected: TypeDecl::Int64, actual: TypeDecl::Bool }
    ));
    let error = TypeCheckError::new("boom".to_string());
    assert!(matches!(&error.kind, TypeCheckErrorKind::GenericError { message } if message == "boom"));
}

#[test]
fn messages_read_as_documented() {
    assert_eq!(
        TypeCheckError::type_mismatch(TypeDecl::Int64, TypeDecl::Bool).message(),
        "Type mismatch: expected Int64, but got Bool"
    );
    assert_eq!(
        TypeCheckError::type_mismatch_operation("arithmetic", TypeDecl::String, TypeDecl::Unit)
            .message(),
        "Type mismatch in arithmetic operation: incompatible types String and Unit"
    );
    assert_eq!(TypeCheckError::not_found("Function", "f").message(), "Function 'f' not found");
    assert_eq!(
        TypeCheckError::unsupported_operation("transform", TypeDecl::Any).message(),
        "Unsupported operation 'transform' for type Any"
    );
    assert_eq!(
        TypeCheckError::conversion_error("-1", "UInt64").message(),
        "Cannot convert '-1' to UInt64"
    );
    assert_eq!(TypeCheckError::array_error("empty").message(), "Array error: empty");
    assert_eq!(
        TypeCheckError::method_error("len", TypeDecl::Number, "no").message(),
        "Method 'len' error for type Number: no"
    );
    assert_eq!(
        TypeCheckError::invalid_literal("1x", "number").message(),
        "Invalid number literal: '1x'"
    );
    assert_eq!(TypeCheckError::generic_error("plain").message(), "plain");
}

#[test]
fn context_and_location_frame_the_message() {
    let error = TypeCheckError::generic_error("plain")
        .with_context("return statement")
        .with_location(SourceLocation { line: 3, column: 14, offset: 159 });
    assert_eq!(error.message(), "3:14:159: plain (in return statement)");
    let kept = error.located(Some(SourceLocation { line: 1, column: 1, offset: 0 }));
    assert_eq!(kept.location, Some(SourceLocation { line: 3, column: 14, offset: 159 }));
    let filled = TypeCheckError::generic_error("x")
        .located(Some(SourceLocation { line: 1, column: 2, offset: 3 }));
    assert_eq!(filled.message(), "1:2:3: x");
}

#[test]
fn types_read_with_their_parts() {
    assert_eq!(TypeDecl::Unknown.text(), "Unknown");
    assert_eq!(
        TypeDecl::Array(vec![TypeDecl::Int64, TypeDecl::Int64], 2).text(),
        "Array([Int64, Int64], 2)"
    );
    assert_eq!(TypeDecl::Array(vec![], 0).text(), "Array([], 0)");
    assert_eq!(TypeDecl::Struct(Symbol(7)).text(), "Struct(7)");
    assert_eq!(
        TypeDecl::Array(vec![TypeDecl::Array(vec![TypeDecl::Identifier(Symbol(120))], 1)], 10).text(),
        "Array([Array([Identifier(120)], 1)], 10)"
    );
}

#[test]
fn types_compare_by_their_parts() {
    let a = TypeDecl::Array(vec![TypeDecl::Int64], 3);
    assert_eq!(a, a.clone());
    assert_ne!(a, TypeDecl::Array(vec![TypeDecl::Int64], 4));
    assert_ne!(a, TypeDecl::Array(vec![TypeDecl::UInt64], 3));
    assert_ne!(a, TypeDecl::Array(vec![TypeDecl::Int64, TypeDecl::Int64], 3));
    assert_ne!(TypeDecl::Struct(Symbol(1)), TypeDecl::Identifier(Symbol(1)));
    assert!(TypeDecl::Int64.is_integer() && TypeDecl::UInt64.is_integer());
    assert!(!TypeDecl::Number.is_integer());
}
