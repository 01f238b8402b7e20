//! What can go wrong at run time.

use crate::ast::{ExprRef, Operator, StmtRef};
use crate::interpreter::object::ObjectKind;
use crate::symbol::Symbol;
use vstd::prelude::*;

verus! {

/// What went wrong while a program ran.
#[derive(Debug, Clone, Copy, PartialEq, Eq, Structural)]
#[allow(inconsistent_fields)]
pub enum RuntimeError {
    /// A ref that points outside the expression pool.
    InvalidExpression(ExprRef),
    /// A ref that points outside the statement pool.
    InvalidStatement(StmtRef),
    /// The program nests deeper than the evaluator descends.
    TooDeep,
    /// The `while` loops ran more rounds than the evaluator allows.
    OutOfSteps,
    UndefinedVariable(Symbol),
    /// A variable that holds `null` was read.
    NullVariable(Symbol),
    /// A name was declared twice in one scope.
    AlreadyDefined(Symbol),
    /// A `val` was assigned to.
    ImmutableAssignment(Symbol),
    TypeMismatch { expected: ObjectKind, actual: ObjectKind },
    /// An operator met operands it is not defined on.
    BadOperands { op: Operator, left: ObjectKind, right: ObjectKind },
    DivisionByZero,
    /// An integer literal that the type check left unresolved.
    UnresolvedNumber,
    /// The left side of an assignment is no name.
    NotAssignable,
    /// A `return`, `break` or `continue` where a value is needed.
    UnexpectedControlFlow,
    FunctionNotFound(Symbol),
    ArgumentCount { expected: usize, actual: usize },
    /// The arguments of a call are no expression list.
    NotAnArgumentList,
    IndexOutOfBounds { length: usize },
    NotAnArray(ObjectKind),
    BadIndex(ObjectKind),
    FieldNotFound(Symbol),
    NotAStruct(ObjectKind),
    MethodNotFound(Symbol),
    /// A `break` outside a loop.
    StrayBreak,
    /// A `continue` outside a loop.
    StrayContinue,
    /// A string that the interner does not hold.
    UnknownString(Symbol),
}

/// An error of the interpreter as a whole.
#[derive(Debug)]
pub enum InterpreterError {
    /// No function of this name takes no arguments.
    FunctionNotFound(String),
}

} // verus!
