//! How errors are reported as text.

use crate::interner::Interner;
use crate::interpreter::error::RuntimeError;
use crate::symbol::Symbol;
use crate::text::{decimal_text, push_decimal};
use crate::type_checker::error::{error_text, kind_text, ErrorView, TypeCheckError};
use vstd::prelude::*;
use vstd::string::*;

verus! {

/// The string of `symbol`, or `fallback` where the strings hold none.
pub open spec fn name_text(strings: Seq<Seq<char>>, symbol: Symbol, fallback: Seq<char>) -> Seq<char> {
    if symbol.0 < strings.len() {
        strings[symbol.0 as int]
    } else {
        fallback
    }
}

/// What went wrong, in words.
pub open spec fn runtime_label(error: RuntimeError) -> Seq<char> {
    match error {
        RuntimeError::InvalidExpression(_) => "invalid expression reference"@,
        RuntimeError::InvalidStatement(_) => "invalid statement reference"@,
        RuntimeError::TooDeep => "the program nests too deep"@,
        RuntimeError::OutOfSteps => "the loops ran too long"@,
        RuntimeError::UndefinedVariable(_) => "undefined variable"@,
        RuntimeError::NullVariable(_) => "variable is null"@,
        RuntimeError::AlreadyDefined(_) => "name is already defined"@,
        RuntimeError::ImmutableAssignment(_) => "cannot assign to a val"@,
        RuntimeError::TypeMismatch { .. } => "type mismatch"@,
        RuntimeError::BadOperands { .. } => "bad operands for operator"@,
        RuntimeError::DivisionByZero => "division by zero"@,
        RuntimeError::UnresolvedNumber => "unresolved integer literal"@,
        RuntimeError::NotAssignable => "left side of assignment is no name"@,
        RuntimeError::UnexpectedControlFlow => "jump where a value is needed"@,
        RuntimeError::FunctionNotFound(_) => "function not found"@,
        RuntimeError::ArgumentCount { .. } => "wrong number of arguments"@,
        RuntimeError::NotAnArgumentList => "arguments are no expression list"@,
        RuntimeError::IndexOutOfBounds { .. } => "index out of bounds"@,
        RuntimeError::NotAnArray(_) => "indexed value is no array"@,
        RuntimeError::BadIndex(_) => "index is no integer"@,
        RuntimeError::FieldNotFound(_) => "field not found"@,
        RuntimeError::NotAStruct(_) => "value is no struct"@,
        RuntimeError::MethodNotFound(_) => "method not found"@,
        RuntimeError::StrayBreak => "break outside a loop"@,
        RuntimeError::StrayContinue => "continue outside a loop"@,
        RuntimeError::UnknownString(_) => "unknown string"@,
    }
}

/// The name that the error is about, if it is about one.
pub open spec fn runtime_subject(error: RuntimeError) -> Option<Symbol> {
    match error {
        RuntimeError::UndefinedVariable(name) => Some(name),
        RuntimeError::NullVariable(name) => Some(name),
        RuntimeError::AlreadyDefined(name) => Some(name),
        RuntimeError::ImmutableAssignment(name) => Some(name),
        RuntimeError::FunctionNotFound(name) => Some(name),
        RuntimeError::FieldNotFound(name) => Some(name),
        RuntimeError::MethodNotFound(name) => Some(name),
        _ => None,
    }
}

/// How a runtime error reads: what went wrong, and the name it is about.
pub open spec fn runtime_text(strings: Seq<Seq<char>>, error: RuntimeError) -> Seq<char> {
    match runtime_subject(error) {
        Some(name) => runtime_label(error) + " '"@ + name_text(strings, name, "?"@) + "'"@,
        None => runtime_label(error),
    }
}

/// The report of a runtime error: with the file's name in front where the
/// source and its name are given.
pub open spec fn runtime_report(
    strings: Seq<Seq<char>>,
    error: RuntimeError,
    source: Option<Seq<char>>,
    filename: Option<Seq<char>>,
) -> Seq<char> {
    if source is Some && filename is Some {
        filename->0 + ": runtime error: "@ + runtime_text(strings, error)
    } else {
        "Runtime Error: "@ + runtime_text(strings, error)
    }
}

/// What a type error says, without its place.
pub open spec fn body_text(error: ErrorView) -> Seq<char> {
    match error.context {
        Some(context) => kind_text(error.kind) + " (in "@ + context + ")"@,
        None => kind_text(error.kind),
    }
}

/// The report of a type error in the function `function`. Where the source
/// and its name are given: the file, the line and column of the error's
/// offset if its place is known, and what went wrong.
pub open spec fn type_report(
    strings: Seq<Seq<char>>,
    function: Symbol,
    error: ErrorView,
    source: Option<Seq<char>>,
    filename: Option<Seq<char>>,
) -> Seq<char> {
    if source is Some && filename is Some {
        match error.location {
            Some(location) => {
                let (line, column) = crate::text::line_col(source->0, location.offset as nat);
                filename->0 + ":"@ + decimal_text(line as nat) + ":"@ + decimal_text(column as nat)
                    + ": type error: "@ + body_text(error)
            },
            None => filename->0 + ": type error: "@ + body_text(error),
        }
    } else {
        "type_check failed in "@ + name_text(strings, function, "<NOT_FOUND>"@) + ": "@
            + error_text(error)
    }
}

/// What went wrong, in words.
pub fn label_of(error: RuntimeError) -> (label: &'static str)
    ensures
        label@ == runtime_label(error),
{
    match error {
        RuntimeError::InvalidExpression(_) => "invalid expression reference",
        RuntimeError::InvalidStatement(_) => "invalid statement reference",
        RuntimeError::TooDeep => "the program nests too deep",
        RuntimeError::OutOfSteps => "the loops ran too long",
        RuntimeError::UndefinedVariable(_) => "undefined variable",
        RuntimeError::NullVariable(_) => "variable is null",
        RuntimeError::AlreadyDefined(_) => "name is already defined",
        RuntimeError::ImmutableAssignment(_) => "cannot assign to a val",
        RuntimeError::TypeMismatch { .. } => "type mismatch",
        RuntimeError::BadOperands { .. } => "bad operands for operator",
        RuntimeError::DivisionByZero => "division by zero",
        RuntimeError::UnresolvedNumber => "unresolved integer literal",
        RuntimeError::NotAssignable => "left side of assignment is no name",
        RuntimeError::UnexpectedControlFlow => "jump where a value is needed",
        RuntimeError::FunctionNotFound(_) => "function not found",
        RuntimeError::ArgumentCount { .. } => "wrong number of arguments",
        RuntimeError::NotAnArgumentList => "arguments are no expression list",
        RuntimeError::IndexOutOfBounds { .. } => "index out of bounds",
        RuntimeError::NotAnArray(_) => "indexed value is no array",
        RuntimeError::BadIndex(_) => "index is no integer",
        RuntimeError::FieldNotFound(_) => "field not found",
        RuntimeError::NotAStruct(_) => "value is no struct",
        RuntimeError::MethodNotFound(_) => "method not found",
        RuntimeError::StrayBreak => "break outside a loop",
        RuntimeError::StrayContinue => "continue outside a loop",
        RuntimeError::UnknownString(_) => "unknown string",
    }
}

/// The name that the error is about, if it is about one.
pub fn subject_of(error: RuntimeError) -> (subject: Option<Symbol>)
    ensures
        subject == runtime_subject(error),
{
    match error {
        RuntimeError::UndefinedVariable(name) => Some(name),
        RuntimeError::NullVariable(name) => Some(name),
        RuntimeError::AlreadyDefined(name) => Some(name),
        RuntimeError::ImmutableAssignment(name) => Some(name),
        RuntimeError::FunctionNotFound(name) => Some(name),
        RuntimeError::FieldNotFound(name) => Some(name),
        RuntimeError::MethodNotFound(name) => Some(name),
        _ => None,
    }
}

/// The name that the interner holds for `symbol`, or `fallback`.
pub fn name_or<'a>(interner: &'a Interner, symbol: Symbol, fallback: &'a str) -> (name: &'a str)
    ensures
        name@ == name_text(interner.strings(), symbol, fallback@),
{
    match interner.resolve(symbol) {
        Some(name) => name,
        None => fallback,
    }
}

/// Writes the report of a runtime error.
pub fn write_runtime_report(
    interner: &Interner,
    error: RuntimeError,
    source_code: Option<&str>,
    filename: Option<&str>,
) -> (report: String)
    ensures
        report@ == runtime_report(
            interner.strings(),
            error,
            crate::interpreter::slice_view(source_code),
            crate::interpreter::slice_view(filename),
        ),
{
    let mut report = String::new();
    match (source_code, filename) {
        (Some(_), Some(file)) => {
            report.append(file);
            report.append(": runtime error: ");
        },
        _ => {
            report.append("Runtime Error: ");
        },
    }
    report.append(label_of(error));
    match subject_of(error) {
        Some(name) => {
            report.append(" '");
            report.append(name_or(interner, name, "?"));
            report.append("'");
        },
        None => {},
    }
    assert(report@ =~= runtime_report(
        interner.strings(),
        error,
        crate::interpreter::slice_view(source_code),
        crate::interpreter::slice_view(filename),
    ));
    report
}

/// Appends to `report` what a type error says, without its place.
pub fn push_body(report: &mut String, error: &TypeCheckError)
    ensures
        final(report)@ == old(report)@ + body_text(error@),
{
    error.kind.push_text(report);
    match &error.context {
        Some(context) => {
            report.append(" (in ");
            report.append(context.as_str());
            report.append(")");
        },
        None => {},
    }
    assert(report@ =~= old(report)@ + body_text(error@));
}

/// Writes the report of a type error in the function `function`.
pub fn write_type_report(
    interner: &Interner,
    function: Symbol,
    error: &TypeCheckError,
    source_code: Option<&str>,
    filename: Option<&str>,
) -> (report: String)
    ensures
        report@ == type_report(
            interner.strings(),
            function,
            error@,
            crate::interpreter::slice_view(source_code),
            crate::interpreter::slice_view(filename),
        ),
{
    let mut report = String::new();
    match (source_code, filename) {
        (Some(source), Some(file)) => {
            report.append(file);
            match &error.location {
                Some(location) => {
                    let (line, column) = crate::interpreter::calculate_line_col_from_offset(
                        source,
                        location.offset as usize,
                    );
                    report.append(":");
                    push_decimal(&mut report, line as u64);
                    report.append(":");
                    push_decimal(&mut report, column as u64);
                },
                None => {},
            }
            report.append(": type error: ");
            push_body(&mut report, error);
        },
        _ => {
            report.append("type_check failed in ");
            report.append(name_or(interner, function, "<NOT_FOUND>"));
            report.append(": ");
            let text = error.message();
            report.append(text.as_str());
        },
    }
    assert(report@ =~= type_report(
        interner.strings(),
        function,
        error@,
        crate::interpreter::slice_view(source_code),
        crate::interpreter::slice_view(filename),
    ));
    report
}

} // verus!
