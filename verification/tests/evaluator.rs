use std::collections::HashMap;
use std::rc::Rc;
use toylang::ast::{Expr, ExprPool, ExprRef, Function, Operator, Stmt, StmtPool, StmtRef};
use toylang::interner::Interner;
use toylang::interpreter::environment::Environment;
use toylang::interpreter::error::{InterpreterError, RuntimeError};
use toylang::interpreter::evaluation::{EvaluationContext, EvaluationResult};
use toylang::interpreter::object::{Object, ObjectKind};
use toylang::interpreter::operators::{apply_binary, divide_i64};
use toylang::interpreter::{
    build_function_map, build_method_registry, calculate_line_col_from_offset, execute_program,
    find_function, find_main_function, register_methods,
};
use toylang::parser::Parser;
use toylang::symbol::Symbol;

fn run(source: &str) -> Result<Object, String> {
    let program = Parser::new(source).parse_program().unwrap();
    execute_program(&program, None, None)
}

fn signed(op: Operator, a: i64, b: i64) -> Result<Object, RuntimeError> {
    apply_binary(op, &Object::Int64(a), &Object::Int64(b))
}

fn unsigned(op: Operator, a: u64, b: u64) -> Result<Object, RuntimeError> {
    apply_binary(op, &Object::UInt64(a), &Object::UInt64(b))
}

#[test]
fn signed_arithmetic_wraps() {
    let samples = [
        (0i64, 1i64),
        (42, -10),
        (-1000, 99),
        (i64::MAX, 1),
        (i64::MIN, -1),
        (i64::MIN, 1),
        (i64::MAX, i64::MAX),
        (-7, 2),
        (7, -2),
        (-7, -2),
    ];
    for (a, b) in samples {
        assert!(matches!(signed(Operator::IAdd, a, b), Ok(Object::Int64(v)) if v == a.wrapping_add(b)));
        assert!(matches!(signed(Operator::ISub, a, b), Ok(Object::Int64(v)) if v == a.wrapping_sub(b)));
        assert!(matches!(signed(Operator::IMul, a, b), Ok(Object::Int64(v)) if v == a.wrapping_mul(b)));
        assert!(matches!(signed(Operator::IDiv, a, b), Ok(Object::Int64(v)) if v == a.wrapping_div(b)));
        assert_eq!(divide_i64(a, b), a.wrapping_div(b));
    }
    assert!(matches!(signed(Operator::IAdd, 42, -10), Ok(Object::Int64(32))));
    assert!(matches!(signed(Operator::IDiv, -7, 2), Ok(Object::Int64(-3))));
    assert!(matches!(signed(Operator::IDiv, i64::MIN, -1), Ok(Object::Int64(i64::MIN))));
}

#[test]
fn unsigned_arithmetic_wraps() {
    for (a, b) in [(1u64, 2u64), (0, 1), (u64::MAX, 1), (u64::MAX, u64::MAX), (10, 3)] {
        assert!(matches!(unsigned(Operator::IAdd, a, b), Ok(Object::UInt64(v)) if v == a.wrapping_add(b)));
        assert!(matches!(unsigned(Operator::ISub, a, b), Ok(Object::UInt64(v)) if v == a.wrapping_sub(b)));
        assert!(matches!(unsigned(Operator::IMul, a, b), Ok(Object::UInt64(v)) if v == a.wrapping_mul(b)));
        assert!(matches!(unsigned(Operator::IDiv, a, b), Ok(Object::UInt64(v)) if v == a / b));
    }
    assert!(matches!(unsigned(Operator::ISub, 0, 1), Ok(Object::UInt64(u64::MAX))));
}

#[test]
fn division_by_zero_is_an_error() {
    assert_eq!(signed(Operator::IDiv, 1, 0).unwrap_err(), RuntimeError::DivisionByZero);
    assert_eq!(unsigned(Operator::IDiv, 1, 0).unwrap_err(), RuntimeError::DivisionByZero);
    assert_eq!(
        run("fn main() -> u64 { 1u64 / 0u64 }").unwrap_err(),
        "Runtime Error: division by zero"
    );
}

#[test]
fn comparisons_agree_with_the_machine() {
    for (a, b) in [(0i64, 0i64), (1, 2), (2, 1), (-5, 3), (i64::MIN, i64::MAX), (7, 7)] {
        assert!(matches!(signed(Operator::LT, a, b), Ok(Object::Bool(v)) if v == (a < b)));
        assert!(matches!(signed(Operator::LE, a, b), Ok(Object::Bool(v)) if v == (a <= b)));
        assert!(matches!(signed(Operator::GT, a, b), Ok(Object::Bool(v)) if v == (a > b)));
        assert!(matches!(signed(Operator::GE, a, b), Ok(Object::Bool(v)) if v == (a >= b)));
        assert!(matches!(signed(Operator::EQ, a, b), Ok(Object::Bool(v)) if v == (a == b)));
        assert!(matches!(signed(Operator::NE, a, b), Ok(Object::Bool(v)) if v == (a != b)));
    }
}

#[test]
fn comparison_is_transitive_on_samples() {
    let values = [0u64, 1, 2, 17, u64::MAX - 1, u64::MAX];
    for a in values {
        for b in values {
            for c in values {
                let ab = matches!(unsigned(Operator::LT, a, b), Ok(Object::Bool(true)));
                let bc = matches!(unsigned(Operator::LT, b, c), Ok(Object::Bool(true)));
                let ac = matches!(unsigned(Operator::LT, a, c), Ok(Object::Bool(true)));
                if ab && bc {
                    assert!(ac);
                }
            }
        }
    }
}

#[test]
fn logical_operators_follow_the_truth_tables() {
    for a in [false, true] {
        for b in [false, true] {
            let and = apply_binary(Operator::LogicalAnd, &Object::Bool(a), &Object::Bool(b));
            let or = apply_binary(Operator::LogicalOr, &Object::Bool(a), &Object::Bool(b));
            assert!(matches!(and, Ok(Object::Bool(v)) if v == (a && b)));
            assert!(matches!(or, Ok(Object::Bool(v)) if v == (a || b)));
            let source = format!("fn main() -> bool {{ {} && {} }}", a, b);
            assert!(matches!(run(&source), Ok(Object::Bool(v)) if v == (a && b)));
            let source = format!("fn main() -> bool {{ {} || {} }}", a, b);
            assert!(matches!(run(&source), Ok(Object::Bool(v)) if v == (a || b)));
        }
    }
}

#[test]
fn operands_of_different_kinds_are_an_error() {
    let error = apply_binary(Operator::IAdd, &Object::Int64(1), &Object::UInt64(1)).unwrap_err();
    assert_eq!(
        error,
        RuntimeError::BadOperands {
            op: Operator::IAdd,
            left: ObjectKind::Int64,
            right: ObjectKind::UInt64
        }
    );
    assert!(apply_binary(Operator::LogicalAnd, &Object::Int64(1), &Object::Int64(1)).is_err());
    assert!(apply_binary(Operator::IAdd, &Object::Bool(true), &Object::Bool(true)).is_err());
    assert!(matches!(
        apply_binary(Operator::EQ, &Object::String(Symbol(1)), &Object::String(Symbol(1))),
        Ok(Object::Bool(true))
    ));
}

#[test]
fn for_loop_sums_the_range() {
    for (start, end) in [(0i64, 0i64), (0, 1), (-3, 4), (-1000, 1000), (5, 2), (10, 20)] {
        let source = format!(
            "fn main() -> i64 {{\n var sum: i64 = 0i64\n for i in {}i64 to {}i64 {{\n sum = sum + i\n }}\n sum\n}}",
            start, end
        );
        let expected: i64 = (start..end).sum();
        assert!(matches!(run(&source), Ok(Object::Int64(v)) if v == expected), "{} {}", start, end);
    }
}

#[test]
fn shadowing_leaves_the_outer_variable() {
    let mut env = Environment::new();
    let x = Symbol(0);
    env.new_block();
    env.set_var(x, Object::UInt64(100)).unwrap();
    env.new_block();
    env.set_var(x, Object::UInt64(10)).unwrap();
    env.assign(x, Object::UInt64(1010)).unwrap();
    assert!(matches!(env.read(x), Ok(Object::UInt64(1010))));
    env.pop();
    assert!(matches!(env.read(x), Ok(Object::UInt64(100))));
    env.new_block();
    env.assign(x, Object::UInt64(101)).unwrap();
    env.pop();
    assert!(matches!(env.read(x), Ok(Object::UInt64(101))));
}

#[test]
fn environment_rules() {
    let mut env = Environment::new();
    let (a, b) = (Symbol(1), Symbol(2));
    assert_eq!(env.read(a).unwrap_err(), RuntimeError::UndefinedVariable(a));
    env.set_val(a, Object::Int64(1)).unwrap();
    assert_eq!(env.set_val(a, Object::Int64(2)).unwrap_err(), RuntimeError::AlreadyDefined(a));
    assert_eq!(env.set_var(a, Object::Int64(2)).unwrap_err(), RuntimeError::ImmutableAssignment(a));
    assert_eq!(env.assign(a, Object::Int64(2)).unwrap_err(), RuntimeError::ImmutableAssignment(a));
    assert_eq!(env.assign(b, Object::Int64(2)).unwrap_err(), RuntimeError::UndefinedVariable(b));
    env.set_var(b, Object::Null).unwrap();
    assert_eq!(env.read(b).unwrap_err(), RuntimeError::NullVariable(b));
    env.assign(b, Object::Bool(true)).unwrap();
    assert_eq!(
        env.assign(b, Object::Int64(1)).unwrap_err(),
        RuntimeError::TypeMismatch { expected: ObjectKind::Bool, actual: ObjectKind::Int64 }
    );
    env.set_var(b, Object::Bool(false)).unwrap();
    assert!(matches!(env.read(b), Ok(Object::Bool(false))));
    assert!(matches!(env.get(a), Some((false, Object::Int64(1)))));
    env.pop();
    env.pop();
    assert!(env.get(a).is_none());
}

#[test]
fn while_loops_run_and_stop() {
    let source = "fn main() -> u64 {\n var n = 0u64\n while n < 10u64 {\n n = n + 1u64\n if n == 7u64 { break }\n }\n n\n}";
    assert!(matches!(run(source), Ok(Object::UInt64(7))));
    let source = "fn main() -> u64 {\n var n = 0u64\n var odd = 0u64\n while n < 10u64 {\n n = n + 1u64\n if n / 2u64 * 2u64 == n { continue }\n odd = odd + 1u64\n }\n odd\n}";
    assert!(matches!(run(source), Ok(Object::UInt64(5))));
}

#[test]
fn a_loop_without_end_runs_out_of_steps() {
    let program = Parser::new("fn main() -> u64 {\n while true { }\n 1u64\n}").parse_program().unwrap();
    let functions = build_function_map(&program);
    let main = find_main_function(&program).unwrap();
    let mut eval = EvaluationContext::new(
        &program.statement,
        &program.expression,
        &program.string_interner,
        functions,
    );
    eval.set_steps(1000);
    assert_eq!(eval.evaluate_function(main, &vec![]).unwrap_err(), RuntimeError::OutOfSteps);
    assert_eq!(eval.steps, 0);
}

#[test]
fn runaway_recursion_is_an_error() {
    let source = "fn down(n: u64) -> u64 { down(n + 1u64) }\nfn main() -> u64 { down(0u64) }";
    assert_eq!(run(source).unwrap_err(), "Runtime Error: the program nests too deep");
}

#[test]
fn return_leaves_the_function_from_inside_loops() {
    let source = "fn find(limit: u64) -> u64 {\n for i in 0u64 to limit {\n if i * i > 50u64 { return i }\n }\n 0u64\n}\nfn main() -> u64 { find(100u64) }";
    assert!(matches!(run(source), Ok(Object::UInt64(8))));
}

#[test]
fn elif_branches_are_tried_in_order() {
    let source = "fn pick(n: u64) -> u64 {\n if n == 0u64 { 10u64 } elif n == 1u64 { 11u64 } elif n == 2u64 { 12u64 } else { 13u64 }\n}\nfn main() -> u64 { pick(0u64) * 1000000u64 + pick(1u64) * 10000u64 + pick(2u64) * 100u64 + pick(9u64) }";
    assert!(matches!(run(source), Ok(Object::UInt64(10111213))));
}

#[test]
fn arrays_are_indexed_within_bounds() {
    assert!(matches!(
        run("fn main() -> u64 {\n val a = [1u64, 2u64, 3u64]\n a[0u64] + a[2u64]\n}"),
        Ok(Object::UInt64(4))
    ));
    assert_eq!(
        run("fn main() -> u64 {\n val a = [1u64, 2u64, 3u64]\n a[3u64]\n}").unwrap_err(),
        "Runtime Error: index out of bounds"
    );
    assert_eq!(
        run("fn main() -> u64 {\n val a = [1u64]\n a[-1i64]\n}").unwrap_err(),
        "Runtime Error: index out of bounds"
    );
    assert_eq!(
        run("fn main() -> u64 {\n val a = 1u64\n a[0u64]\n}").unwrap_err(),
        "Runtime Error: indexed value is no array"
    );
}

#[test]
fn structs_have_fields_and_methods() {
    let source = "struct Point {\n x: u64,\n y: u64\n}\nimpl Point {\n fn sum(self) -> u64 { self.x + self.y }\n fn scaled(self, k: u64) -> u64 { self.sum() * k }\n}\nfn main() -> u64 {\n val p = Point { x: 3u64, y: 4u64 }\n p.scaled(10u64) + p.x\n}";
    assert!(matches!(run(source), Ok(Object::UInt64(73))));
    let source = "struct Point { x: u64 }\nfn main() -> u64 {\n val p = Point { x: 3u64 }\n p.z\n}";
    assert_eq!(run(source).unwrap_err(), "Runtime Error: field not found 'z'");
    let source = "struct Point { x: u64 }\nfn main() -> u64 {\n val p = Point { x: 3u64 }\n p.nothing()\n}";
    assert_eq!(run(source).unwrap_err(), "Runtime Error: method not found 'nothing'");
}

#[test]
fn runtime_errors_name_their_subject() {
    assert_eq!(run("fn main() -> u64 { x }").unwrap_err(), "Runtime Error: undefined variable 'x'");
    assert_eq!(
        run("fn main() -> u64 {\n val a = 1u64\n a = 2u64\n}").unwrap_err(),
        "Runtime Error: cannot assign to a val 'a'"
    );
    assert_eq!(
        run("fn main() -> u64 {\n val a = 1u64\n val a = 2u64\n a\n}").unwrap_err(),
        "Runtime Error: name is already defined 'a'"
    );
    assert_eq!(
        run("fn main() -> u64 {\n var a\n a\n}").unwrap_err(),
        "Runtime Error: variable is null 'a'"
    );
    assert_eq!(run("fn main() -> u64 { f() }").unwrap_err(), "Runtime Error: function not found 'f'");
    assert_eq!(
        run("fn f(a: u64) -> u64 { a }\nfn main() -> u64 { f() }").unwrap_err(),
        "Runtime Error: wrong number of arguments"
    );
    assert_eq!(run("fn main() -> u64 { break }").unwrap_err(), "Runtime Error: break outside a loop");
    assert_eq!(run("fn main() -> u64 { 5 }").unwrap_err(), "Runtime Error: unresolved integer literal");
    assert_eq!(
        run("fn main() -> u64 { if 1u64 { 2u64 } else { 3u64 } }").unwrap_err(),
        "Runtime Error: type mismatch"
    );
    assert_eq!(run("fn main() -> u64 { 1u64 = 2u64 }").unwrap_err(), "Runtime Error: left side of assignment is no name");
    let program = Parser::new("fn main() -> u64 { 1u64 / 0u64 }").parse_program().unwrap();
    assert_eq!(
        execute_program(&program, Some("source"), Some("demo.t")).unwrap_err(),
        "demo.t: runtime error: division by zero"
    );
}

#[test]
fn a_program_needs_a_main_without_parameters() {
    assert_eq!(
        run("fn other() -> u64 { 1u64 }").unwrap_err(),
        "Runtime Error: Function not found: main function symbol not found"
    );
    assert_eq!(
        run("fn main(a: u64) -> u64 { a }").unwrap_err(),
        "Runtime Error: Function not found: main"
    );
    let program = Parser::new("fn main(a: u64) -> u64 { a }\nfn main() -> u64 { 2u64 }")
        .parse_program()
        .unwrap();
    let main = find_main_function(&program).unwrap();
    assert!(Rc::ptr_eq(&main, &program.function[1]));
    assert!(matches!(
        find_main_function(&Parser::new("").parse_program().unwrap()),
        Err(InterpreterError::FunctionNotFound(message)) if message == "main function symbol not found"
    ));
    let name = program.string_interner.get("main").unwrap();
    assert!(find_function(&program.function, Symbol(name.0 + 100)).is_none());
    assert_eq!(build_function_map(&program).len(), 1);
    assert!(Rc::ptr_eq(&build_function_map(&program)[&name.0], &program.function[1]));
}

#[test]
fn methods_are_registered_by_struct_and_name() {
    let source = "impl A {\n fn f(self) -> u64 { 1u64 }\n fn g(self) -> u64 { 2u64 }\n}\nimpl B {\n fn f(self) -> u64 { 3u64 }\n}\nfn main() -> u64 { 0u64 }";
    let program = Parser::new(source).parse_program().unwrap();
    let mut interner = program.string_interner.clone();
    let before = interner.len();
    let registry = build_method_registry(&program, &mut interner).unwrap();
    assert_eq!(registry.len(), 3);
    assert_eq!(interner.len(), before + 2);
    let a = interner.get("A").unwrap();
    let b = interner.get("B").unwrap();
    let f = interner.get("f").unwrap();
    let g = interner.get("g").unwrap();
    let owners: Vec<(Symbol, Symbol)> = registry.iter().map(|e| (e.owner, e.name)).collect();
    assert_eq!(owners, vec![(a, f), (a, g), (b, f)]);
    let mut eval = EvaluationContext::new(
        &program.statement,
        &program.expression,
        &interner,
        HashMap::new(),
    );
    register_methods(&mut eval, registry);
    assert_eq!(eval.methods.len(), 3);
}

#[test]
fn offsets_turn_into_lines_and_columns() {
    let source = "ab\ncd\n\nxyz";
    assert_eq!(calculate_line_col_from_offset(source, 0), (1, 1));
    assert_eq!(calculate_line_col_from_offset(source, 1), (1, 2));
    assert_eq!(calculate_line_col_from_offset(source, 2), (1, 3));
    assert_eq!(calculate_line_col_from_offset(source, 3), (2, 1));
    assert_eq!(calculate_line_col_from_offset(source, 6), (3, 1));
    assert_eq!(calculate_line_col_from_offset(source, 7), (4, 1));
    assert_eq!(calculate_line_col_from_offset(source, 9), (4, 3));
    assert_eq!(calculate_line_col_from_offset(source, 10), (4, 4));
    assert_eq!(calculate_line_col_from_offset(source, 1000), (4, 4));
    assert_eq!(calculate_line_col_from_offset("", 5), (1, 1));
}

#[test]
fn objects_copy_with_their_parts() {
    let object = Object::Struct(
        Symbol(1),
        vec![(Symbol(2), Object::Array(vec![Object::Int64(1), Object::Bool(true)]))],
    );
    let copy = object.clone();
    assert_eq!(format!("{:?}", copy), format!("{:?}", object));
    assert_eq!(copy.kind(), ObjectKind::Struct);
    assert_eq!(Object::Unit.kind(), ObjectKind::Unit);
    assert!(Object::Bool(true).unwrap_bool());
    assert_eq!(Object::UInt64(9).unwrap_uint64(), 9);
}

#[test]
fn malformed_pools_are_errors() {
    let mut interner = Interner::new();
    let f = interner.get_or_intern("f").unwrap();
    let mut exprs = ExprPool::new();
    let mut stmts = StmtPool::new();
    let one = exprs.add(Expr::UInt64(1));
    let truth = exprs.add(Expr::True);
    let text = exprs.add(Expr::String(Symbol(77)));
    let items = exprs.add(Expr::ArrayLiteral(vec![one]));
    let bad_index = exprs.add(Expr::ArrayAccess(items, truth));
    let field = exprs.add(Expr::FieldAccess(one, f));
    let method = exprs.add(Expr::MethodCall(one, f, vec![]));
    let len_of_unknown = exprs.add(Expr::MethodCall(text, f, vec![]));
    let call = exprs.add(Expr::Call(f, one));
    let dangling = exprs.add(Expr::Binary(Operator::IAdd, one, ExprRef(999)));
    let go_on = stmts.add(Stmt::Continue);
    let jump_block = exprs.add(Expr::Block(vec![go_on]));
    let jump_operand = exprs.add(Expr::Binary(Operator::IAdd, one, jump_block));
    let body = stmts.add(Stmt::Expression(jump_block));
    let mut functions = HashMap::new();
    functions.insert(
        f.0,
        Rc::new(Function { name: f, parameter: vec![], return_type: None, code: body }),
    );
    let no_args = exprs.add(Expr::ExprList(vec![]));
    let stray = exprs.add(Expr::Call(f, no_args));
    let missing_stmt = exprs.add(Expr::Block(vec![StmtRef(50)]));
    let mut eval = EvaluationContext::new(&stmts, &exprs, &interner, functions);
    let mut fails = |e: ExprRef| eval.evaluate(&e).unwrap_err();
    assert_eq!(fails(bad_index), RuntimeError::BadIndex(ObjectKind::Bool));
    assert_eq!(fails(field), RuntimeError::NotAStruct(ObjectKind::UInt64));
    assert_eq!(fails(method), RuntimeError::NotAStruct(ObjectKind::UInt64));
    assert_eq!(fails(len_of_unknown), RuntimeError::MethodNotFound(f));
    assert_eq!(fails(call), RuntimeError::NotAnArgumentList);
    assert_eq!(fails(dangling), RuntimeError::InvalidExpression(ExprRef(999)));
    assert_eq!(fails(ExprRef(1000)), RuntimeError::InvalidExpression(ExprRef(1000)));
    assert_eq!(fails(jump_operand), RuntimeError::UnexpectedControlFlow);
    assert_eq!(fails(stray), RuntimeError::StrayContinue);
    assert_eq!(fails(missing_stmt), RuntimeError::InvalidStatement(StmtRef(50)));
    assert!(matches!(eval.evaluate(&jump_block), Ok(EvaluationResult::Continue)));
    assert!(matches!(eval.evaluate(&text), Ok(EvaluationResult::Value(Object::String(Symbol(77))))));
    assert_eq!(eval.environment.frames.len(), 0);
    // The method `len` of a string that the interner does not hold.
    let mut interner = Interner::new();
    let len = interner.get_or_intern("len").unwrap();
    let mut exprs = ExprPool::new();
    let text = exprs.add(Expr::String(Symbol(77)));
    let call = exprs.add(Expr::MethodCall(text, len, vec![]));
    let stmts = StmtPool::new();
    let mut eval = EvaluationContext::new(&stmts, &exprs, &interner, HashMap::new());
    assert_eq!(eval.evaluate(&call).unwrap_err(), RuntimeError::UnknownString(Symbol(77)));
}

#[test]
fn frames_are_released_on_every_way_out() {
    let source = "fn f(n: u64) -> u64 {\n for i in 0u64 to n {\n while true {\n if i == 3u64 { return i / 0u64 }\n break\n }\n }\n n\n}\nfn main() -> u64 { f(5u64) }";
    let program = Parser::new(source).parse_program().unwrap();
    let functions = build_function_map(&program);
    let main = find_main_function(&program).unwrap();
    let mut eval = EvaluationContext::new(
        &program.statement,
        &program.expression,
        &program.string_interner,
        functions,
    );
    assert_eq!(eval.evaluate_function(main, &vec![]).unwrap_err(), RuntimeError::DivisionByZero);
    assert_eq!(eval.environment.frames.len(), 0);
}

#[test]
fn booleans_compare_with_false_before_true() {
    for a in [false, true] {
        for b in [false, true] {
            let apply = |op| apply_binary(op, &Object::Bool(a), &Object::Bool(b));
            assert!(matches!(apply(Operator::LT), Ok(Object::Bool(v)) if v == (a < b)));
            assert!(matches!(apply(Operator::LE), Ok(Object::Bool(v)) if v == (a <= b)));
            assert!(matches!(apply(Operator::GT), Ok(Object::Bool(v)) if v == (a > b)));
            assert!(matches!(apply(Operator::GE), Ok(Object::Bool(v)) if v == (a >= b)));
            assert!(matches!(apply(Operator::EQ), Ok(Object::Bool(v)) if v == (a == b)));
            assert!(matches!(apply(Operator::NE), Ok(Object::Bool(v)) if v == (a != b)));
            assert!(apply(Operator::IMul).is_err());
        }
    }
}

#[test]
fn a_checked_program_runs_without_unresolved_literals() {
    let source = "fn twice(n: u64) -> u64 { n * 2 }\nfn main() -> u64 {\n val a = 20\n val b = twice(1u64)\n a + b + 20u64\n}";
    let mut program = Parser::new(source).parse_program().unwrap();
    assert!(toylang::interpreter::check_typing(&mut program, None, None).is_ok());
    assert!(!program.expression.0.iter().any(|e| matches!(e, Expr::Number(_))));
    assert!(matches!(execute_program(&program, None, None), Ok(Object::UInt64(42))));
}
