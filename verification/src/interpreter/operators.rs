//! The binary operators on values, with the laws of their arithmetic.

use crate::ast::Operator;
use crate::interpreter::error::RuntimeError;
use crate::interpreter::object::{Object, Value};
use crate::type_checker::model::binary_result;
use crate::type_decl::Ty;
use vstd::prelude::*;

verus! {

/// The quotient of two integers, rounded towards zero.
pub open spec fn truncated_quotient(a: int, b: int) -> int
    recommends
        b != 0,
{
    if a >= 0 && b > 0 {
        a / b
    } else if a < 0 && b < 0 {
        (-a) / (-b)
    } else if a < 0 {
        -((-a) / b)
    } else {
        -(a / (-b))
    }
}

/// The quotient of two signed 64-bit integers as the machine gives it:
/// rounded towards zero, and `i64::MIN` for `i64::MIN / -1`.
pub open spec fn div_i64(a: i64, b: i64) -> i64
    recommends
        b != 0,
{
    if a == i64::MIN && b == -1 {
        i64::MIN
    } else {
        truncated_quotient(a as int, b as int) as i64
    }
}

/// The error for an operator on operands it is not defined on.
pub open spec fn bad_operands(op: Operator, left: Value, right: Value) -> RuntimeError {
    RuntimeError::BadOperands { op, left: left.kind(), right: right.kind() }
}

/// `a op b` on signed 64-bit integers: arithmetic wraps, division by zero
/// is an error, comparisons give a boolean.
pub open spec fn int64_binary(op: Operator, a: i64, b: i64) -> Result<Value, RuntimeError> {
    match op {
        Operator::IAdd => Ok(Value::Int64(a.wrapping_add(b))),
        Operator::ISub => Ok(Value::Int64(a.wrapping_sub(b))),
        Operator::IMul => Ok(Value::Int64(a.wrapping_mul(b))),
        Operator::IDiv => if b == 0 {
            Err(RuntimeError::DivisionByZero)
        } else {
            Ok(Value::Int64(div_i64(a, b)))
        },
        Operator::EQ => Ok(Value::Bool(a == b)),
        Operator::NE => Ok(Value::Bool(a != b)),
        Operator::LT => Ok(Value::Bool(a < b)),
        Operator::LE => Ok(Value::Bool(a <= b)),
        Operator::GT => Ok(Value::Bool(a > b)),
        Operator::GE => Ok(Value::Bool(a >= b)),
        _ => Err(bad_operands(op, Value::Int64(a), Value::Int64(b))),
    }
}

/// `a op b` on unsigned 64-bit integers.
pub open spec fn uint64_binary(op: Operator, a: u64, b: u64) -> Result<Value, RuntimeError> {
    match op {
        Operator::IAdd => Ok(Value::UInt64(a.wrapping_add(b))),
        Operator::ISub => Ok(Value::UInt64(a.wrapping_sub(b))),
        Operator::IMul => Ok(Value::UInt64(a.wrapping_mul(b))),
        Operator::IDiv => if b == 0 {
            Err(RuntimeError::DivisionByZero)
        } else {
            Ok(Value::UInt64((a / b) as u64))
        },
        Operator::EQ => Ok(Value::Bool(a == b)),
        Operator::NE => Ok(Value::Bool(a != b)),
        Operator::LT => Ok(Value::Bool(a < b)),
        Operator::LE => Ok(Value::Bool(a <= b)),
        Operator::GT => Ok(Value::Bool(a > b)),
        Operator::GE => Ok(Value::Bool(a >= b)),
        _ => Err(bad_operands(op, Value::UInt64(a), Value::UInt64(b))),
    }
}

/// `a op b` on booleans: the logical operators, and the comparisons, for
/// which `false` comes before `true`.
pub open spec fn bool_binary(op: Operator, a: bool, b: bool) -> Result<Value, RuntimeError> {
    match op {
        Operator::LogicalAnd => Ok(Value::Bool(a && b)),
        Operator::LogicalOr => Ok(Value::Bool(a || b)),
        Operator::EQ => Ok(Value::Bool(a == b)),
        Operator::NE => Ok(Value::Bool(a != b)),
        Operator::LT => Ok(Value::Bool(!a && b)),
        Operator::LE => Ok(Value::Bool(!a || b)),
        Operator::GT => Ok(Value::Bool(a && !b)),
        Operator::GE => Ok(Value::Bool(a || !b)),
        _ => Err(bad_operands(op, Value::Bool(a), Value::Bool(b))),
    }
}

/// The value of `left op right`. The operands must be of one kind.
pub open spec fn binary_value(op: Operator, left: Value, right: Value) -> Result<Value, RuntimeError> {
    match (left, right) {
        (Value::Int64(a), Value::Int64(b)) => int64_binary(op, a, b),
        (Value::UInt64(a), Value::UInt64(b)) => uint64_binary(op, a, b),
        (Value::Bool(a), Value::Bool(b)) => bool_binary(op, a, b),
        (Value::String(a), Value::String(b)) => match op {
            Operator::EQ => Ok(Value::Bool(a == b)),
            Operator::NE => Ok(Value::Bool(a != b)),
            _ => Err(bad_operands(op, left, right)),
        },
        _ => Err(bad_operands(op, left, right)),
    }
}

/// The value of a result.
pub open spec fn value_result(result: Result<Object, RuntimeError>) -> Result<Value, RuntimeError> {
    match result {
        Ok(object) => Ok(object@),
        Err(error) => Err(error),
    }
}

/// A quotient of natural numbers is at most the dividend, and at most its
/// half where the divisor is above one.
pub proof fn lemma_quotient_bounds(x: int, d: int)
    requires
        x >= 0,
        d > 0,
    ensures
        0 <= x / d <= x,
        d >= 2 ==> 2 * (x / d) <= x,
        d == 1 ==> x / d == x,
{
    assert(0 <= x / d <= x) by (nonlinear_arith)
        requires
            x >= 0,
            d > 0,
    ;
    assert(d >= 2 ==> 2 * (x / d) <= x) by (nonlinear_arith)
        requires
            x >= 0,
            d > 0,
    ;
    assert(d == 1 ==> x / d == x) by (nonlinear_arith)
        requires
            x >= 0,
            d > 0,
    ;
}

/// The quotient of two signed integers as the machine gives it.
pub fn divide_i64(a: i64, b: i64) -> (quotient: i64)
    requires
        b != 0,
    ensures
        quotient == div_i64(a, b),
{
    proof {
        let x = a as int;
        let d = b as int;
        if x >= 0 && d > 0 {
            lemma_quotient_bounds(x, d);
        } else if x < 0 && d < 0 {
            lemma_quotient_bounds(-x, -d);
            assert(x * -1 == -x && d * -1 == -d);
        } else if x < 0 {
            lemma_quotient_bounds(-x, d);
            assert(x * -1 == -x);
        } else {
            lemma_quotient_bounds(x, -d);
            assert(d * -1 == -d);
        }
    }
    match a.checked_div(b) {
        Some(quotient) => quotient,
        None => i64::MIN,
    }
}

/// Applies a binary operator to two values.
pub fn apply_binary(op: Operator, left: &Object, right: &Object) -> (result: Result<
    Object,
    RuntimeError,
>)
    ensures
        value_result(result) == binary_value(op, left@, right@),
{
    let bad = RuntimeError::BadOperands { op, left: left.kind(), right: right.kind() };
    match left {
        Object::Int64(a) => match right {
            Object::Int64(b) => {
                let (a, b) = (*a, *b);
                match op {
                    Operator::IAdd => Ok(Object::Int64(a.wrapping_add(b))),
                    Operator::ISub => Ok(Object::Int64(a.wrapping_sub(b))),
                    Operator::IMul => Ok(Object::Int64(a.wrapping_mul(b))),
                    Operator::IDiv => if b == 0 {
                        Err(RuntimeError::DivisionByZero)
                    } else {
                        Ok(Object::Int64(divide_i64(a, b)))
                    },
                    Operator::EQ => Ok(Object::Bool(a == b)),
                    Operator::NE => Ok(Object::Bool(a != b)),
                    Operator::LT => Ok(Object::Bool(a < b)),
                    Operator::LE => Ok(Object::Bool(a <= b)),
                    Operator::GT => Ok(Object::Bool(a > b)),
                    Operator::GE => Ok(Object::Bool(a >= b)),
                    _ => Err(bad),
                }
            },
            _ => Err(bad),
        },
        Object::UInt64(a) => match right {
            Object::UInt64(b) => {
                let (a, b) = (*a, *b);
                match op {
                    Operator::IAdd => Ok(Object::UInt64(a.wrapping_add(b))),
                    Operator::ISub => Ok(Object::UInt64(a.wrapping_sub(b))),
                    Operator::IMul => Ok(Object::UInt64(a.wrapping_mul(b))),
                    Operator::IDiv => if b == 0 {
                        Err(RuntimeError::DivisionByZero)
                    } else {
                        Ok(Object::UInt64(a / b))
                    },
                    Operator::EQ => Ok(Object::Bool(a == b)),
                    Operator::NE => Ok(Object::Bool(a != b)),
                    Operator::LT => Ok(Object::Bool(a < b)),
                    Operator::LE => Ok(Object::Bool(a <= b)),
                    Operator::GT => Ok(Object::Bool(a > b)),
                    Operator::GE => Ok(Object::Bool(a >= b)),
                    _ => Err(bad),
                }
            },
            _ => Err(bad),
        },
        Object::Bool(a) => match right {
            Object::Bool(b) => {
                let (a, b) = (*a, *b);
                match op {
                    Operator::LogicalAnd => Ok(Object::Bool(a && b)),
                    Operator::LogicalOr => Ok(Object::Bool(a || b)),
                    Operator::EQ => Ok(Object::Bool(a == b)),
                    Operator::NE => Ok(Object::Bool(a != b)),
                    Operator::LT => Ok(Object::Bool(!a && b)),
                    Operator::LE => Ok(Object::Bool(!a || b)),
                    Operator::GT => Ok(Object::Bool(a && !b)),
                    Operator::GE => Ok(Object::Bool(a || !b)),
                    _ => Err(bad),
                }
            },
            _ => Err(bad),
        },
        Object::String(a) => match right {
            Object::String(b) => match op {
                Operator::EQ => Ok(Object::Bool(a.0 == b.0)),
                Operator::NE => Ok(Object::Bool(a.0 != b.0)),
                _ => Err(bad),
            },
            _ => Err(bad),
        },
        _ => Err(bad),
    }
}

/// On signed integers, `+`, `-` and `*` are the machine's wrapping
/// operations and `/` is its wrapping division.
pub proof fn law_int64_arithmetic(a: i64, b: i64)
    ensures
        binary_value(Operator::IAdd, Value::Int64(a), Value::Int64(b)) == Ok::<Value, RuntimeError>(
            Value::Int64(a.wrapping_add(b)),
        ),
        binary_value(Operator::ISub, Value::Int64(a), Value::Int64(b)) == Ok::<Value, RuntimeError>(
            Value::Int64(a.wrapping_sub(b)),
        ),
        binary_value(Operator::IMul, Value::Int64(a), Value::Int64(b)) == Ok::<Value, RuntimeError>(
            Value::Int64(a.wrapping_mul(b)),
        ),
        b != 0 ==> binary_value(Operator::IDiv, Value::Int64(a), Value::Int64(b)) == Ok::<
            Value,
            RuntimeError,
        >(Value::Int64(div_i64(a, b))),
        i64::MIN <= a + b <= i64::MAX ==> a.wrapping_add(b) == a + b,
        i64::MIN <= a - b <= i64::MAX ==> a.wrapping_sub(b) == a - b,
        i64::MIN <= a * b <= i64::MAX ==> a.wrapping_mul(b) == a * b,
        b > 0 && a >= 0 ==> div_i64(a, b) == a / b,
{
    assert(b > 0 && a >= 0 ==> 0 <= (a as int) / (b as int) <= a) by (nonlinear_arith);
}

/// On unsigned integers, `+`, `-` and `*` are the machine's wrapping
/// operations and `/` is its division.
pub proof fn law_uint64_arithmetic(a: u64, b: u64)
    ensures
        binary_value(Operator::IAdd, Value::UInt64(a), Value::UInt64(b)) == Ok::<
            Value,
            RuntimeError,
        >(Value::UInt64(a.wrapping_add(b))),
        binary_value(Operator::ISub, Value::UInt64(a), Value::UInt64(b)) == Ok::<
            Value,
            RuntimeError,
        >(Value::UInt64(a.wrapping_sub(b))),
        binary_value(Operator::IMul, Value::UInt64(a), Value::UInt64(b)) == Ok::<
            Value,
            RuntimeError,
        >(Value::UInt64(a.wrapping_mul(b))),
        b != 0 ==> binary_value(Operator::IDiv, Value::UInt64(a), Value::UInt64(b)) == Ok::<
            Value,
            RuntimeError,
        >(Value::UInt64((a / b) as u64)),
        a + b <= u64::MAX ==> a.wrapping_add(b) == a + b,
        a >= b ==> a.wrapping_sub(b) == a - b,
        a * b <= u64::MAX ==> a.wrapping_mul(b) == a * b,
{
}

/// The comparisons of two signed integers give the booleans that the
/// comparisons of the machine give.
pub proof fn law_int64_comparison(a: i64, b: i64)
    ensures
        binary_value(Operator::LT, Value::Int64(a), Value::Int64(b)) == Ok::<Value, RuntimeError>(
            Value::Bool(a < b),
        ),
        binary_value(Operator::LE, Value::Int64(a), Value::Int64(b)) == Ok::<Value, RuntimeError>(
            Value::Bool(a <= b),
        ),
        binary_value(Operator::GT, Value::Int64(a), Value::Int64(b)) == Ok::<Value, RuntimeError>(
            Value::Bool(a > b),
        ),
        binary_value(Operator::GE, Value::Int64(a), Value::Int64(b)) == Ok::<Value, RuntimeError>(
            Value::Bool(a >= b),
        ),
        binary_value(Operator::EQ, Value::Int64(a), Value::Int64(b)) == Ok::<Value, RuntimeError>(
            Value::Bool(a == b),
        ),
        binary_value(Operator::NE, Value::Int64(a), Value::Int64(b)) == Ok::<Value, RuntimeError>(
            Value::Bool(a != b),
        ),
{
}

/// `&&` and `||` on booleans follow the truth tables.
pub proof fn law_logical_truth_table(a: bool, b: bool)
    ensures
        binary_value(Operator::LogicalAnd, Value::Bool(a), Value::Bool(b)) == Ok::<
            Value,
            RuntimeError,
        >(Value::Bool(a && b)),
        binary_value(Operator::LogicalOr, Value::Bool(a), Value::Bool(b)) == Ok::<
            Value,
            RuntimeError,
        >(Value::Bool(a || b)),
{
}

/// Whether `left < right` evaluates to `true`.
pub open spec fn less(left: Value, right: Value) -> bool {
    binary_value(Operator::LT, left, right) == Ok::<Value, RuntimeError>(Value::Bool(true))
}

/// `<` is transitive on the integers of either type.
pub proof fn law_comparison_transitive(a: Value, b: Value, c: Value)
    requires
        less(a, b),
        less(b, c),
    ensures
        less(a, c),
{
}

/// The type of an integer or a boolean.
pub open spec fn scalar_type(value: Value) -> Option<Ty> {
    match value {
        Value::Int64(_) => Some(Ty::Int64),
        Value::UInt64(_) => Some(Ty::UInt64),
        Value::Bool(_) => Some(Ty::Bool),
        _ => None,
    }
}

/// The typing of the operators and their evaluation go together on
/// integers and booleans: an operation that the typing rules give a type
/// evaluates to a value of that type, unless it divides by zero; and one
/// that they refuse does not evaluate.
pub proof fn law_typed_operations_are_defined(op: Operator, left: Value, right: Value)
    requires
        scalar_type(left) is Some,
        scalar_type(left) == scalar_type(right),
    ensures
        match binary_result(op, scalar_type(left)->0, scalar_type(right)->0) {
            Ok(ty) => match binary_value(op, left, right) {
                Ok(value) => scalar_type(value) == Some(ty),
                Err(error) => error == RuntimeError::DivisionByZero && op == Operator::IDiv,
            },
            Err(_) => binary_value(op, left, right) is Err,
        },
{
}

} // verus!
