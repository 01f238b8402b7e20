use std::collections::HashMap;
use toylang::ast::{Expr, ExprPool, StmtPool};
use toylang::interner::Interner;
use toylang::interpreter::evaluation::{EvaluationContext, EvaluationResult};
use toylang::interpreter::execute_program;
use toylang::interpreter::object::Object;
use toylang::parser::Parser;

#[test]
fn test_evaluate_integer() {
    let stmt_pool = StmtPool::new();
    let mut expr_pool = ExprPool::new();
    let expr_ref = expr_pool.add(Expr::Int64(42));
    let interner = Interner::new();

    let mut ctx = EvaluationContext::new(&stmt_pool, &expr_pool, &interner, HashMap::new());
    let result = match ctx.evaluate(&expr_ref) {
        Ok(EvaluationResult::Value(v)) => v,
        _ => panic!("evaluate should return int64 value"),
    };

    assert_eq!(result.unwrap_int64(), 42);
}

#[test]
fn test_i64_basic() {
    let res = test_program(r"
    fn main() -> i64 {
        val a: i64 = 42i64
        val b: i64 = -10i64
        a + b
    }
    ");
    assert_eq!(res.unwrap().unwrap_int64(), 32);
}

#[test]
fn test_simple_program() {
    let mut parser = Parser::new(r"
    fn main() -> u64 {
        val a = 1u64
        val b = 2u64
        val c = a + b
        c
    }
    ");
    let program = parser.parse_program();
    assert!(program.is_ok());

    let program = program.unwrap();

    let res = execute_program(&program, None, None);
    assert!(res.is_ok());
    assert_eq!(res.unwrap().unwrap_uint64(), 3);
}

fn test_program(program: &str) -> Result<Object, String> {
    let mut parser = Parser::new(program);
    let program = parser.parse_program();
    assert!(program.is_ok());
    let res = execute_program(&program.unwrap(), None, None);
    assert!(res.is_ok());
    Ok(res.unwrap())
}

#[test]
fn test_simple_if_then_else_1() {
    let res = test_program(r"
    fn main() -> u64 {
        if true {
            1u64
        } else {
            2u64
        }
    }
    ");
    assert_eq!(res.unwrap().unwrap_uint64(), 1u64);
}

#[test]
fn test_simple_if_then_else_2() {
    let res = test_program(r"
    fn main() -> u64 {
        if false {
            1u64
        } else {
            2u64
        }
    }
    ");
    assert_eq!(res.unwrap().unwrap_uint64(), 2u64);
}
#[test]
fn test_simple_for_loop() {
    let res = test_program(r"
    fn main() -> u64 {
        var a = 0u64
        for i in 0u64 to 4u64 {
            a = a + 1u64
        }
        return a
    }
    ");
    assert_eq!(res.unwrap().unwrap_uint64(), 4);
}

#[test]
fn test_simple_for_loop_continue() {
    let res = test_program(r"
    fn main() -> u64 {
        var a = 0u64
        for i in 0u64 to 4u64 {
            if i < 3u64 {
                continue
            }
            a = a + 1u64
        }
        return a
    }
    ");
    assert_eq!(res.unwrap().unwrap_uint64(), 1);
}

#[test]
fn test_simple_for_loop_break() {
    let res = test_program(r"
    fn main() -> u64 {
        var a = 0u64
        for i in 0u64 to 4u64 {
            a = a + 1u64
            if a > 2u64 {
                break
            }
        }
        return a
    }
    ");
    assert_eq!(res.unwrap().unwrap_uint64(), 3);
}

#[test]
fn test_simple_variable_scope() {
    let res = test_program(r"
    fn main() -> u64 {
        var x = 100u64
        {
            var x = 10u64
            x = x + 1000u64
        }
        x = x + 1u64
    }
    ");
    assert_eq!(res.unwrap().unwrap_uint64(), 101);
}

#[test]
fn test_simple_variable_scope_with_if() {
    let res = test_program(r"
    fn main() -> u64 {
        var x = 100u64
        if true {
            var x = 10u64
            x = x + 1000u64
        }
        x = x + 1u64
    }
    ");
    assert_eq!(res.unwrap().unwrap_uint64(), 101);
}

#[test]
fn test_simple_if_then() {
    let res = test_program(r"
    fn main() -> u64 {
        if true {
            10u64
        } else {
            1u64
        }
    }
    ");
    assert_eq!(res.unwrap().unwrap_uint64(), 10);
}

#[test]
fn test_simple_if_else() {
    let res = test_program(r"
    fn main() -> u64 {
        if false {
            1u64
        } else {
            1234u64
        }
    }
    ");
    assert_eq!(res.unwrap().unwrap_uint64(), 1234);
}

#[test]
fn test_simple_if_trivial_le() {
    let res = test_program(r"
    fn main() -> u64 {
        val n = 1u64
        if n <= 2u64 {
            1u64
        } else {
            1234u64
        }
    }
    ");
    assert_eq!(res.unwrap().unwrap_uint64(), 1);
}

#[test]
fn test_simple_function_scope() {
    let res = test_program(r"
    fn add(a: u64, b: u64) -> u64 {
        a + b
    }
    fn main() -> u64 {
        add(1u64, 2u64)
    }
    ");
    assert_eq!(res.unwrap().unwrap_uint64(), 3);
}

#[test]
fn test_simple_fib_scope() {
    let res = test_program(r"
    fn fib(n: u64) -> u64 {
        if n <= 1u64 {
            n
        } else {
            fib(n - 1u64) + fib(n - 2u64)
        }
    }
    fn main() -> u64 {
        fib(2u64)
    }
    ");
    assert_eq!(res.unwrap().unwrap_uint64(), 1);
}
