use toylang::ast::{Expr, Operator, Stmt};
use toylang::interpreter::object::Object;
use toylang::interpreter::{check_typing, execute_program};
use toylang::parser::Parser;

fn sum_source(start: i64, end: i64) -> String {
    format!(
        "fn main() -> i64 {{\n var sum: i64 = 0i64\n for i in {}i64 to {}i64 {{\n sum = sum + i\n }}\n sum\n}}",
        start, end
    )
}

fn run_sum(start: i64, end: i64) -> i64 {
    let mut program = Parser::new(&sum_source(start, end)).parse_program().unwrap();
    assert!(check_typing(&mut program, None, None).is_ok());
    match execute_program(&program, None, None) {
        Ok(Object::Int64(value)) => value,
        other => panic!("unexpected result: {:?}", other.is_ok()),
    }
}

#[test]
fn the_sum_program_gives_the_sum_of_the_range() {
    assert_eq!(run_sum(3, 7), 18);
    assert_eq!(run_sum(-1000, 1000), -1000);
    assert_eq!(run_sum(-5, 6), 0);
    assert_eq!(run_sum(0, 1), 0);
    assert_eq!(run_sum(-999, 999), (-999i64..999).sum::<i64>());
}

#[test]
fn the_sum_program_over_an_empty_range_gives_zero() {
    assert_eq!(run_sum(5, 5), 0);
    assert_eq!(run_sum(7, 3), 0);
}

#[test]
fn the_sum_program_has_the_shape_of_the_law() {
    let program = Parser::new(&sum_source(-2, 9)).parse_program().unwrap();
    let main = &program.function[0];
    assert!(main.parameter.is_empty());
    let block = match program.statement.get(main.code.to_index()) {
        Some(Stmt::Expression(block)) => *block,
        _ => panic!("the body is no expression statement"),
    };
    let stmts = match program.expression.get(block.to_index()) {
        Some(Expr::Block(stmts)) => stmts.clone(),
        _ => panic!("the body is no block"),
    };
    assert_eq!(stmts.len(), 3);
    let sum = match program.statement.get(stmts[0].to_index()) {
        Some(Stmt::Var(name, _, Some(zero))) => {
            assert!(matches!(program.expression.get(zero.to_index()), Some(Expr::Int64(0))));
            *name
        },
        _ => panic!("the first statement is no var"),
    };
    assert_eq!(program.string_interner.resolve(sum), Some("sum"));
    let (variable, body) = match program.statement.get(stmts[1].to_index()) {
        Some(Stmt::For(variable, first, bound, body)) => {
            assert!(matches!(program.expression.get(first.to_index()), Some(Expr::Int64(-2))));
            assert!(matches!(program.expression.get(bound.to_index()), Some(Expr::Int64(9))));
            (*variable, *body)
        },
        _ => panic!("the second statement is no for"),
    };
    assert_ne!(variable, sum);
    let round = match program.expression.get(body.to_index()) {
        Some(Expr::Block(round)) => round.clone(),
        _ => panic!("the loop's body is no block"),
    };
    assert_eq!(round.len(), 1);
    let assignment = match program.statement.get(round[0].to_index()) {
        Some(Stmt::Expression(e)) => *e,
        _ => panic!("the round is no expression statement"),
    };
    let (target, value) = match program.expression.get(assignment.to_index()) {
        Some(Expr::Assign(target, value)) => (*target, *value),
        _ => panic!("the round is no assignment"),
    };
    assert!(matches!(program.expression.get(target.to_index()), Some(Expr::Identifier(name)) if *name == sum));
    match program.expression.get(value.to_index()) {
        Some(Expr::Binary(Operator::IAdd, left, right)) => {
            assert!(matches!(program.expression.get(left.to_index()), Some(Expr::Identifier(name)) if *name == sum));
            assert!(matches!(program.expression.get(right.to_index()), Some(Expr::Identifier(name)) if *name == variable));
        },
        _ => panic!("the value is no addition"),
    }
    match program.statement.get(stmts[2].to_index()) {
        Some(Stmt::Expression(result)) => {
            assert!(matches!(program.expression.get(result.to_index()), Some(Expr::Identifier(name)) if *name == sum));
        },
        _ => panic!("the last statement is no expression"),
    }
}

#[test]
fn a_recursion_of_some_hundred_calls_runs() {
    let source = "fn count(n: u64) -> u64 {\n if n == 0u64 {\n 0u64\n } else {\n 1u64 + count(n - 1u64)\n }\n}\nfn main() -> u64 { count(150u64) }";
    let mut program = Parser::new(source).parse_program().unwrap();
    assert!(check_typing(&mut program, None, None).is_ok());
    assert!(matches!(execute_program(&program, None, None), Ok(Object::UInt64(150))));
}

#[test]
fn a_program_nested_past_the_budget_fails_its_check() {
    let mut source = String::from("fn main() -> u64 {\n");
    for _ in 0..600 {
        source.push_str("{\n");
    }
    source.push_str("1u64\n");
    for _ in 0..600 {
        source.push_str("}\n");
    }
    source.push_str("}");
    let mut program = Parser::new(&source).parse_program().unwrap();
    let reports = check_typing(&mut program, None, None).unwrap_err();
    assert_eq!(reports.len(), 1);
    assert!(reports[0].ends_with("Expression nesting is too deep"));
}

#[test]
fn a_program_nested_within_the_budget_passes_its_check() {
    let mut source = String::from("fn main() -> u64 {\n");
    for _ in 0..40 {
        source.push_str("{\n");
    }
    source.push_str("1u64\n");
    for _ in 0..40 {
        source.push_str("}\n");
    }
    source.push_str("}");
    let mut program = Parser::new(&source).parse_program().unwrap();
    assert!(check_typing(&mut program, None, None).is_ok());
    assert!(matches!(execute_program(&program, None, None), Ok(Object::UInt64(1))));
}
