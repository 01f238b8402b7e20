//! Type errors and how they read.

use crate::text::{decimal_text, push_decimal};
use crate::type_decl::{type_text, Ty, TypeDecl};
use vstd::prelude::*;
use vstd::string::*;

verus! {

/// A place in the source text: the line and the column, counted from 1 in
/// characters, and the byte offset in the text as UTF-8, counted from 0.
#[derive(Debug, Clone, Copy, PartialEq, Eq, Structural)]
pub struct SourceLocation {
    pub line: u32,
    pub column: u32,
    pub offset: u32,
}

/// What went wrong in a type check.
#[derive(Debug)]
pub enum TypeCheckErrorKind {
    TypeMismatch { expected: TypeDecl, actual: TypeDecl },
    TypeMismatchOperation { operation: String, left: TypeDecl, right: TypeDecl },
    NotFound { item_type: String, name: String },
    UnsupportedOperation { operation: String, operand_type: TypeDecl },
    ConversionError { from: String, to: String },
    ArrayError { message: String },
    MethodError { method: String, operand_type: TypeDecl, reason: String },
    InvalidLiteral { value: String, expected_type: String },
    GenericError { message: String },
}

/// A type error, with the call site's context and the place where it
/// surfaced, once these are known.
#[derive(Debug)]
pub struct TypeCheckError {
    pub kind: TypeCheckErrorKind,
    pub context: Option<String>,
    pub location: Option<SourceLocation>,
}

/// The mathematical value of a `TypeCheckErrorKind`.
pub ghost enum ErrorKindView {
    TypeMismatch { expected: Ty, actual: Ty },
    TypeMismatchOperation { operation: Seq<char>, left: Ty, right: Ty },
    NotFound { item_type: Seq<char>, name: Seq<char> },
    UnsupportedOperation { operation: Seq<char>, operand_type: Ty },
    ConversionError { from: Seq<char>, to: Seq<char> },
    ArrayError { message: Seq<char> },
    MethodError { method: Seq<char>, operand_type: Ty, reason: Seq<char> },
    InvalidLiteral { value: Seq<char>, expected_type: Seq<char> },
    GenericError { message: Seq<char> },
}

/// The mathematical value of a `TypeCheckError`.
pub ghost struct ErrorView {
    pub kind: ErrorKindView,
    pub context: Option<Seq<char>>,
    pub location: Option<SourceLocation>,
}

impl ErrorView {
    /// An error of the given kind with no context and no location.
    pub open spec fn bare(kind: ErrorKindView) -> ErrorView {
        ErrorView { kind, context: None, location: None }
    }

    /// One type was expected and another was found.
    pub open spec fn type_mismatch(expected: Ty, actual: Ty) -> ErrorView {
        Self::bare(ErrorKindView::TypeMismatch { expected, actual })
    }

    /// The operands of an operation have types that do not go together.
    pub open spec fn type_mismatch_operation(operation: Seq<char>, left: Ty, right: Ty) -> ErrorView {
        Self::bare(ErrorKindView::TypeMismatchOperation { operation, left, right })
    }

    /// No item of the kind `item_type` has the name `name`.
    pub open spec fn not_found(item_type: Seq<char>, name: Seq<char>) -> ErrorView {
        Self::bare(ErrorKindView::NotFound { item_type, name })
    }

    /// The operation is not defined on the type.
    pub open spec fn unsupported_operation(operation: Seq<char>, operand_type: Ty) -> ErrorView {
        Self::bare(ErrorKindView::UnsupportedOperation { operation, operand_type })
    }

    /// The text `from` does not write a value of the type `to`.
    pub open spec fn conversion_error(from: Seq<char>, to: Seq<char>) -> ErrorView {
        Self::bare(ErrorKindView::ConversionError { from, to })
    }

    /// An array literal or an indexing is wrong.
    pub open spec fn array_error(message: Seq<char>) -> ErrorView {
        Self::bare(ErrorKindView::ArrayError { message })
    }

    /// The method cannot be called on the type.
    pub open spec fn method_error(method: Seq<char>, operand_type: Ty, reason: Seq<char>) -> ErrorView {
        Self::bare(ErrorKindView::MethodError { method, operand_type, reason })
    }

    /// The text `value` is no literal of the kind `expected_type`.
    pub open spec fn invalid_literal(value: Seq<char>, expected_type: Seq<char>) -> ErrorView {
        Self::bare(ErrorKindView::InvalidLiteral { value, expected_type })
    }

    /// Any other error, with its message.
    pub open spec fn generic_error(message: Seq<char>) -> ErrorView {
        Self::bare(ErrorKindView::GenericError { message })
    }

    /// The same error with its context replaced.
    pub open spec fn with_context(self, context: Seq<char>) -> ErrorView {
        ErrorView { context: Some(context), ..self }
    }

    /// The same error with its location replaced.
    pub open spec fn with_location(self, location: SourceLocation) -> ErrorView {
        ErrorView { location: Some(location), ..self }
    }

    /// The error with `location` filled in if it had none.
    pub open spec fn located(self, location: Option<SourceLocation>) -> ErrorView {
        if self.location is None {
            ErrorView { location, ..self }
        } else {
            self
        }
    }
}

impl View for TypeCheckErrorKind {
    type V = ErrorKindView;

    open spec fn view(&self) -> ErrorKindView {
        match self {
            TypeCheckErrorKind::TypeMismatch { expected, actual } => ErrorKindView::TypeMismatch {
                expected: expected@,
                actual: actual@,
            },
            TypeCheckErrorKind::TypeMismatchOperation {
                operation,
                left,
                right,
            } => ErrorKindView::TypeMismatchOperation {
                operation: operation@,
                left: left@,
                right: right@,
            },
            TypeCheckErrorKind::NotFound { item_type, name } => ErrorKindView::NotFound {
                item_type: item_type@,
                name: name@,
            },
            TypeCheckErrorKind::UnsupportedOperation {
                operation,
                operand_type,
            } => ErrorKindView::UnsupportedOperation {
                operation: operation@,
                operand_type: operand_type@,
            },
            TypeCheckErrorKind::ConversionError { from, to } => ErrorKindView::ConversionError {
                from: from@,
                to: to@,
            },
            TypeCheckErrorKind::ArrayError { message } => ErrorKindView::ArrayError {
                message: message@,
            },
            TypeCheckErrorKind::MethodError { method, operand_type, reason } => ErrorKindView::MethodError {
                method: method@,
                operand_type: operand_type@,
                reason: reason@,
            },
            TypeCheckErrorKind::InvalidLiteral {
                value,
                expected_type,
            } => ErrorKindView::InvalidLiteral { value: value@, expected_type: expected_type@ },
            TypeCheckErrorKind::GenericError { message } => ErrorKindView::GenericError {
                message: message@,
            },
        }
    }
}

/// The value of an optional string.
pub open spec fn text_view(text: Option<String>) -> Option<Seq<char>> {
    match text {
        Some(s) => Some(s@),
        None => None,
    }
}

impl View for TypeCheckError {
    type V = ErrorView;

    open spec fn view(&self) -> ErrorView {
        ErrorView { kind: self.kind@, context: text_view(self.context), location: self.location }
    }
}

impl TypeCheckError {
    /// One type was expected and another was found.
    pub fn type_mismatch(expected: TypeDecl, actual: TypeDecl) -> (error: Self)
        ensures
            error@ == ErrorView::type_mismatch(expected@, actual@),
    {
        Self {
            kind: TypeCheckErrorKind::TypeMismatch { expected, actual },
            context: None,
            location: None,
        }
    }

    /// The operands of an operation have types that do not go together.
    pub fn type_mismatch_operation(operation: &str, left: TypeDecl, right: TypeDecl) -> (error: Self)
        ensures
            error@ == ErrorView::type_mismatch_operation(operation@, left@, right@),
    {
        Self {
            kind: TypeCheckErrorKind::TypeMismatchOperation {
                operation: String::from_str(operation),
                left,
                right,
            },
            context: None,
            location: None,
        }
    }

    /// No item of the kind `item_type` has the name `name`.
    pub fn not_found(item_type: &str, name: &str) -> (error: Self)
        ensures
            error@ == ErrorView::not_found(item_type@, name@),
    {
        Self {
            kind: TypeCheckErrorKind::NotFound {
                item_type: String::from_str(item_type),
                name: String::from_str(name),
            },
            context: None,
            location: None,
        }
    }

    /// The operation is not defined on the type.
    pub fn unsupported_operation(operation: &str, operand_type: TypeDecl) -> (error: Self)
        ensures
            error@ == ErrorView::unsupported_operation(operation@, operand_type@),
    {
        Self {
            kind: TypeCheckErrorKind::UnsupportedOperation {
                operation: String::from_str(operation),
                operand_type,
            },
            context: None,
            location: None,
        }
    }

    /// The text `from` does not write a value of the type `to`.
    pub fn conversion_error(from: &str, to: &str) -> (error: Self)
        ensures
            error@ == ErrorView::conversion_error(from@, to@),
    {
        Self {
            kind: TypeCheckErrorKind::ConversionError {
                from: String::from_str(from),
                to: String::from_str(to),
            },
            context: None,
            location: None,
        }
    }

    /// An array literal or an indexing is wrong.
    pub fn array_error(message: &str) -> (error: Self)
        ensures
            error@ == ErrorView::array_error(message@),
    {
        Self {
            kind: TypeCheckErrorKind::ArrayError { message: String::from_str(message) },
            context: None,
            location: None,
        }
    }

    /// The method cannot be called on the type.
    pub fn method_error(method: &str, operand_type: TypeDecl, reason: &str) -> (error: Self)
        ensures
            error@ == ErrorView::method_error(method@, operand_type@, reason@),
    {
        Self {
            kind: TypeCheckErrorKind::MethodError {
                method: String::from_str(method),
                operand_type,
                reason: String::from_str(reason),
            },
            context: None,
            location: None,
        }
    }

    /// The text `value` is no literal of the kind `expected_type`.
    pub fn invalid_literal(value: &str, expected_type: &str) -> (error: Self)
        ensures
            error@ == ErrorView::invalid_literal(value@, expected_type@),
    {
        Self {
            kind: TypeCheckErrorKind::InvalidLiteral {
                value: String::from_str(value),
                expected_type: String::from_str(expected_type),
            },
            context: None,
            location: None,
        }
    }

    /// Any other error, with its message.
    pub fn generic_error(message: &str) -> (error: Self)
        ensures
            error@ == ErrorView::generic_error(message@),
    {
        Self {
            kind: TypeCheckErrorKind::GenericError { message: String::from_str(message) },
            context: None,
            location: None,
        }
    }

    /// The same error with its context replaced.
    pub fn with_context(self, context: &str) -> (error: Self)
        ensures
            error@ == self@.with_context(context@),
    {
        Self { kind: self.kind, context: Some(String::from_str(context)), location: self.location }
    }

    /// The same error with its location replaced.
    pub fn with_location(self, location: SourceLocation) -> (error: Self)
        ensures
            error@ == self@.with_location(location),
    {
        Self { kind: self.kind, context: self.context, location: Some(location) }
    }

    /// A generic error that carries `msg`.
    pub fn new(msg: String) -> (error: Self)
        ensures
            error@ == ErrorView::generic_error(msg@),
    {
        Self::generic_error(msg.as_str())
    }

    /// The same error, with `location` filled in where it had none.
    pub fn located(self, location: Option<SourceLocation>) -> (error: Self)
        ensures
            error@ == self@.located(location),
    {
        if self.location.is_none() {
            Self { kind: self.kind, context: self.context, location }
        } else {
            self
        }
    }
}

/// How the kind of an error reads.
pub open spec fn kind_text(kind: ErrorKindView) -> Seq<char> {
    match kind {
        ErrorKindView::TypeMismatch { expected, actual } => "Type mismatch: expected "@ + type_text(
            expected,
        ) + ", but got "@ + type_text(actual),
        ErrorKindView::TypeMismatchOperation { operation, left, right } => "Type mismatch in "@
            + operation + " operation: incompatible types "@ + type_text(left) + " and "@
            + type_text(right),
        ErrorKindView::NotFound { item_type, name } => item_type + " '"@ + name + "' not found"@,
        ErrorKindView::UnsupportedOperation { operation, operand_type } => "Unsupported operation '"@
            + operation + "' for type "@ + type_text(operand_type),
        ErrorKindView::ConversionError { from, to } => "Cannot convert '"@ + from + "' to "@ + to,
        ErrorKindView::ArrayError { message } => "Array error: "@ + message,
        ErrorKindView::MethodError { method, operand_type, reason } => "Method '"@ + method
            + "' error for type "@ + type_text(operand_type) + ": "@ + reason,
        ErrorKindView::InvalidLiteral { value, expected_type } => "Invalid "@ + expected_type
            + " literal: '"@ + value + "'"@,
        ErrorKindView::GenericError { message } => message,
    }
}

/// How a place reads: line, column and offset, with colons between.
pub open spec fn location_text(location: SourceLocation) -> Seq<char> {
    decimal_text(location.line as nat) + ":"@ + decimal_text(location.column as nat) + ":"@
        + decimal_text(location.offset as nat)
}

/// How an error reads: its place, if known, then what went wrong, then the
/// context, if there is one.
pub open spec fn error_text(error: ErrorView) -> Seq<char> {
    let located = match error.location {
        Some(location) => location_text(location) + ": "@ + kind_text(error.kind),
        None => kind_text(error.kind),
    };
    match error.context {
        Some(context) => located + " (in "@ + context + ")"@,
        None => located,
    }
}

impl TypeCheckErrorKind {
    /// Appends to `text` how the kind reads.
    pub fn push_text(&self, text: &mut String)
        ensures
            final(text)@ == old(text)@ + kind_text(self@),
    {
        match self {
            TypeCheckErrorKind::TypeMismatch { expected, actual } => {
                text.append("Type mismatch: expected ");
                expected.push_text(text);
                text.append(", but got ");
                actual.push_text(text);
            },
            TypeCheckErrorKind::TypeMismatchOperation { operation, left, right } => {
                text.append("Type mismatch in ");
                text.append(operation.as_str());
                text.append(" operation: incompatible types ");
                left.push_text(text);
                text.append(" and ");
                right.push_text(text);
            },
            TypeCheckErrorKind::NotFound { item_type, name } => {
                text.append(item_type.as_str());
                text.append(" '");
                text.append(name.as_str());
                text.append("' not found");
            },
            TypeCheckErrorKind::UnsupportedOperation { operation, operand_type } => {
                text.append("Unsupported operation '");
                text.append(operation.as_str());
                text.append("' for type ");
                operand_type.push_text(text);
            },
            TypeCheckErrorKind::ConversionError { from, to } => {
                text.append("Cannot convert '");
                text.append(from.as_str());
                text.append("' to ");
                text.append(to.as_str());
            },
            TypeCheckErrorKind::ArrayError { message } => {
                text.append("Array error: ");
                text.append(message.as_str());
            },
            TypeCheckErrorKind::MethodError { method, operand_type, reason } => {
                text.append("Method '");
                text.append(method.as_str());
                text.append("' error for type ");
                operand_type.push_text(text);
                text.append(": ");
                text.append(reason.as_str());
            },
            TypeCheckErrorKind::InvalidLiteral { value, expected_type } => {
                text.append("Invalid ");
                text.append(expected_type.as_str());
                text.append(" literal: '");
                text.append(value.as_str());
                text.append("'");
            },
            TypeCheckErrorKind::GenericError { message } => {
                text.append(message.as_str());
            },
        }
        assert(text@ =~= old(text)@ + kind_text(self@));
    }
}

impl TypeCheckError {
    /// The error as a line of text.
    pub fn message(&self) -> (text: String)
        ensures
            text@ == error_text(self@),
    {
        let mut text = String::new();
        match &self.location {
            Some(location) => {
                push_decimal(&mut text, location.line as u64);
                text.append(":");
                push_decimal(&mut text, location.column as u64);
                text.append(":");
                push_decimal(&mut text, location.offset as u64);
                text.append(": ");
            },
            None => {},
        }
        self.kind.push_text(&mut text);
        match &self.context {
            Some(context) => {
                text.append(" (in ");
                text.append(context.as_str());
                text.append(")");
            },
            None => {},
        }
        assert(text@ =~= error_text(self@));
        text
    }
}

} // verus!
