//! What evaluating a program means: a function from the program, the
//! variables and a node to the new variables and a value or a jump.

use crate::ast::{Expr, ExprRef, Function, MethodFunction, Operator, Stmt, StmtRef};
use crate::interpreter::environment::{
    assign, bind, define_val, define_var, leave, read, Binding, Scopes,
};
use crate::interpreter::error::RuntimeError;
use crate::interpreter::object::{ObjectKind, Value};
use crate::interpreter::operators::binary_value;
use crate::symbol::Symbol;
use crate::type_decl::TypeDecl;
use std::rc::Rc;
use vstd::prelude::*;

verus! {

/// The program that is run, as mathematical values.
pub ghost struct ProgramView {
    pub stmts: Seq<Stmt>,
    pub exprs: Seq<Expr>,
    /// The interned strings, by symbol.
    pub strings: Seq<Seq<char>>,
    pub functions: Map<u32, Rc<Function>>,
    /// The methods, by the key of struct and method name.
    pub methods: Map<u64, Rc<MethodFunction>>,
    /// The symbol of `self`, if the program names it.
    pub self_symbol: Option<Symbol>,
    /// The symbol of `len`, if the program names it.
    pub len_symbol: Option<Symbol>,
}

impl ProgramView {
    /// Whether no integer literal of the program is unresolved.
    pub open spec fn resolved(self) -> bool {
        forall|i: int| 0 <= i < self.exprs.len() ==> !(#[trigger] self.exprs[i] is Number)
    }
}

/// Whether a step failed on an unresolved integer literal.
pub open spec fn hit_unresolved<T>(result: Result<T, RuntimeError>) -> bool {
    result is Err && result->Err_0 == RuntimeError::UnresolvedNumber
}

/// What changes while a program runs: the variables, and the rounds that
/// the `while` loops may still take.
pub ghost struct EvalState {
    pub env: Scopes,
    pub steps: nat,
}

/// What the evaluation of a node gives: a value, or a jump.
pub ghost enum Flow {
    Value(Value),
    Return(Value),
    Break,
    Continue,
}

/// The outcome of an evaluation step.
pub type Step<T> = (EvalState, Result<T, RuntimeError>);

/// The most levels of nesting that an evaluation descends. Every level is
/// a call of the evaluator on the stack of the thread that runs it, so the
/// bound is what keeps a recursion without end, or a program nested
/// deeper than the stack can take, from ending the process: such a run
/// ends in an error instead. The number is chosen so that the levels
/// fit on a stack of two megabytes, with which a thread is spawned unless
/// its maker asks for more.
pub const MAX_EVAL_DEPTH: usize = 2048;

/// The rounds that the `while` loops of one run may take in all, unless
/// the caller sets another number: the largest number there is, which no
/// run reaches. It is a bound only so that every evaluation is known to
/// end.
pub const DEFAULT_STEPS: u64 = 0xffff_ffff_ffff_ffff;

/// The key under which the method `method` of the struct `owner` is kept.
pub open spec fn method_key(owner: Symbol, method: Symbol) -> u64 {
    (owner.0 as u64 * 0x1_0000_0000 + method.0 as u64) as u64
}

impl EvalState {
    /// The state with the variables `env`.
    pub open spec fn with_env(self, env: Scopes) -> EvalState {
        EvalState { env, ..self }
    }

    /// The state with one more frame.
    pub open spec fn enter(self) -> EvalState {
        self.with_env(self.env.push(Map::empty()))
    }

    /// The state without the innermost frame.
    pub open spec fn exit(self) -> EvalState {
        self.with_env(leave(self.env))
    }
}

/// A step that gives the value `value` and changes nothing.
pub open spec fn gives(s: EvalState, value: Value) -> Step<Flow> {
    (s, Ok(Flow::Value(value)))
}

/// A step that fails and changes nothing.
pub open spec fn fails<T>(s: EvalState, error: RuntimeError) -> Step<T> {
    (s, Err(error))
}

/// The step that a changed environment, or the error in changing it, makes.
pub open spec fn after_binding(s: EvalState, changed: Result<Scopes, RuntimeError>, value: Value) -> Step<
    Flow,
> {
    match changed {
        Ok(env) => (s.with_env(env), Ok(Flow::Value(value))),
        Err(error) => (s, Err(error)),
    }
}

/// The value of the first field named `name`.
pub open spec fn field_value(fields: Seq<(Symbol, Value)>, name: Symbol) -> Option<Value>
    decreases fields.len(),
{
    if fields.len() == 0 {
        None
    } else if fields[0].0 == name {
        Some(fields[0].1)
    } else {
        field_value(fields.drop_first(), name)
    }
}

/// The item of `array` at `index`: the index is an integer within the
/// array's bounds.
pub open spec fn index_value(array: Value, index: Value) -> Result<Value, RuntimeError> {
    match array {
        Value::Array(items) => match index {
            Value::UInt64(u) => if u < items.len() {
                Ok(items[u as int])
            } else {
                Err(RuntimeError::IndexOutOfBounds { length: items.len() as usize })
            },
            Value::Int64(i) => if 0 <= i < items.len() {
                Ok(items[i as int])
            } else {
                Err(RuntimeError::IndexOutOfBounds { length: items.len() as usize })
            },
            _ => Err(RuntimeError::BadIndex(index.kind())),
        },
        _ => Err(RuntimeError::NotAnArray(array.kind())),
    }
}

/// The field `name` of the struct `object`.
pub open spec fn member_value(object: Value, name: Symbol) -> Result<Value, RuntimeError> {
    match object {
        Value::Struct(_, fields) => match field_value(fields, name) {
            Some(value) => Ok(value),
            None => Err(RuntimeError::FieldNotFound(name)),
        },
        _ => Err(RuntimeError::NotAStruct(object.kind())),
    }
}

/// The value of a loop counter.
pub open spec fn counter(signed: bool, i: int) -> Value {
    if signed {
        Value::Int64(i as i64)
    } else {
        Value::UInt64(i as u64)
    }
}

/// The environment with the parameters from the `i`-th on bound to the
/// arguments, each as a `val`.
pub open spec fn bind_parameters(
    env: Scopes,
    parameters: Seq<(Symbol, TypeDecl)>,
    arguments: Seq<Value>,
    i: int,
) -> Result<Scopes, RuntimeError>
    decreases parameters.len() - i,
{
    if i < 0 || i >= parameters.len() || i >= arguments.len() {
        Ok(env)
    } else {
        match define_val(env, parameters[i].0, arguments[i]) {
            Err(error) => Err(error),
            Ok(bound) => bind_parameters(bound, parameters, arguments, i + 1),
        }
    }
}

/// What a call gives for what its body gave: the body's value, or the
/// value that it returned.
pub open spec fn finish_call(body: Result<Flow, RuntimeError>) -> Result<Flow, RuntimeError> {
    match body {
        Ok(Flow::Value(value)) => Ok(Flow::Value(value)),
        Ok(Flow::Return(value)) => Ok(Flow::Value(value)),
        Ok(Flow::Break) => Err(RuntimeError::StrayBreak),
        Ok(Flow::Continue) => Err(RuntimeError::StrayContinue),
        Err(error) => Err(error),
    }
}

/// The value that a step must give where a value is needed.
pub open spec fn as_value(flow: Result<Flow, RuntimeError>) -> Result<Value, RuntimeError> {
    match flow {
        Ok(Flow::Value(value)) => Ok(value),
        Ok(_) => Err(RuntimeError::UnexpectedControlFlow),
        Err(error) => Err(error),
    }
}

/// The boolean that a condition must give.
pub open spec fn as_condition(value: Result<Value, RuntimeError>) -> Result<bool, RuntimeError> {
    match value {
        Ok(Value::Bool(b)) => Ok(b),
        Ok(other) => Err(
            RuntimeError::TypeMismatch { expected: ObjectKind::Bool, actual: other.kind() },
        ),
        Err(error) => Err(error),
    }
}

/// The length of the string `symbol`, for the method `len`.
pub open spec fn string_length(p: ProgramView, symbol: Symbol) -> Result<Flow, RuntimeError> {
    if symbol.0 < p.strings.len() {
        Ok(Flow::Value(Value::UInt64(p.strings[symbol.0 as int].len() as u64)))
    } else {
        Err(RuntimeError::UnknownString(symbol))
    }
}

/// Evaluates the expression at `e`.
pub open spec fn eval_expr(p: ProgramView, s: EvalState, e: ExprRef, depth: nat) -> Step<Flow>
    decreases depth, 0nat, 0nat,
{
    if e.0 >= p.exprs.len() {
        fails(s, RuntimeError::InvalidExpression(e))
    } else if depth == 0 {
        fails(s, RuntimeError::TooDeep)
    } else {
        let d = (depth - 1) as nat;
        match p.exprs[e.0 as int] {
            Expr::Int64(value) => gives(s, Value::Int64(value)),
            Expr::UInt64(value) => gives(s, Value::UInt64(value)),
            Expr::True => gives(s, Value::Bool(true)),
            Expr::False => gives(s, Value::Bool(false)),
            Expr::Null => gives(s, Value::Null),
            Expr::String(symbol) => gives(s, Value::String(symbol)),
            Expr::Number(_) => fails(s, RuntimeError::UnresolvedNumber),
            Expr::ExprList(_) => gives(s, Value::Unit),
            Expr::Identifier(name) => match read(s.env, name) {
                Ok(value) => gives(s, value),
                Err(error) => fails(s, error),
            },
            Expr::Binary(op, lhs, rhs) => eval_binary(p, s, op, lhs, rhs, d),
            Expr::Assign(lhs, rhs) => eval_assign(p, s, lhs, rhs, d),
            Expr::Block(stmts) => eval_block(p, s, stmts@, d),
            Expr::IfElifElse(cond, then_block, elifs, else_block) => eval_if(
                p,
                s,
                cond,
                then_block,
                elifs@,
                else_block,
                d,
            ),
            Expr::Call(name, arguments) => eval_call(p, s, name, arguments, d),
            Expr::ArrayLiteral(elements) => {
                let (s1, r) = eval_values(p, s, elements@, 0, Seq::empty(), d);
                match r {
                    Err(error) => (s1, Err(error)),
                    Ok(values) => gives(s1, Value::Array(values)),
                }
            },
            Expr::ArrayAccess(array, index) => eval_array_access(p, s, array, index, d),
            Expr::FieldAccess(object, field) => {
                let (s1, r) = eval_value(p, s, object, d);
                match r {
                    Err(error) => (s1, Err(error)),
                    Ok(value) => match member_value(value, field) {
                        Ok(member) => gives(s1, member),
                        Err(error) => fails(s1, error),
                    },
                }
            },
            Expr::MethodCall(object, method, arguments) => eval_method_call(
                p,
                s,
                object,
                method,
                arguments@,
                d,
            ),
            Expr::StructLiteral(name, fields) => {
                let (s1, r) = eval_fields(p, s, fields@, 0, Seq::empty(), d);
                match r {
                    Err(error) => (s1, Err(error)),
                    Ok(values) => gives(s1, Value::Struct(name, values)),
                }
            },
        }
    }
}

/// Evaluates the expression at `e` where a value is needed.
pub open spec fn eval_value(p: ProgramView, s: EvalState, e: ExprRef, depth: nat) -> Step<Value>
    decreases depth, 1nat, 0nat,
{
    let (s1, r) = eval_expr(p, s, e, depth);
    (s1, as_value(r))
}

/// Evaluates the condition at `e`.
pub open spec fn eval_condition(p: ProgramView, s: EvalState, e: ExprRef, depth: nat) -> Step<bool>
    decreases depth, 2nat, 0nat,
{
    let (s1, r) = eval_value(p, s, e, depth);
    (s1, as_condition(r))
}

/// Evaluates `lhs op rhs`: the left operand first, then the right one.
pub open spec fn eval_binary(
    p: ProgramView,
    s: EvalState,
    op: Operator,
    lhs: ExprRef,
    rhs: ExprRef,
    depth: nat,
) -> Step<Flow>
    decreases depth, 5nat, 0nat,
{
    let (s1, left) = eval_value(p, s, lhs, depth);
    match left {
        Err(error) => (s1, Err(error)),
        Ok(a) => {
            let (s2, right) = eval_value(p, s1, rhs, depth);
            match right {
                Err(error) => (s2, Err(error)),
                Ok(b) => match binary_value(op, a, b) {
                    Ok(value) => gives(s2, value),
                    Err(error) => fails(s2, error),
                },
            }
        },
    }
}

/// Evaluates an assignment: the left side is a name, and the value of the
/// right side is stored in its variable and is the value of the whole.
pub open spec fn eval_assign(p: ProgramView, s: EvalState, lhs: ExprRef, rhs: ExprRef, depth: nat) -> Step<
    Flow,
>
    decreases depth, 5nat, 0nat,
{
    if lhs.0 >= p.exprs.len() {
        fails(s, RuntimeError::InvalidExpression(lhs))
    } else {
        match p.exprs[lhs.0 as int] {
            Expr::Identifier(name) => {
                let (s1, r) = eval_value(p, s, rhs, depth);
                match r {
                    Err(error) => (s1, Err(error)),
                    Ok(value) => after_binding(s1, assign(s1.env, name, value), value),
                }
            },
            _ => fails(s, RuntimeError::NotAssignable),
        }
    }
}

/// Evaluates the statements from the `i`-th on; `last` is what the
/// statement before gave. A jump ends the run.
pub open spec fn run_stmts(
    p: ProgramView,
    s: EvalState,
    stmts: Seq<StmtRef>,
    i: int,
    last: Flow,
    depth: nat,
) -> Step<Flow>
    decreases depth, 3nat, stmts.len() - i,
{
    if i < 0 || i >= stmts.len() {
        (s, Ok(last))
    } else {
        let (s1, r) = eval_stmt(p, s, stmts[i], depth);
        match r {
            Err(error) => (s1, Err(error)),
            Ok(flow) => if flow is Value {
                run_stmts(p, s1, stmts, i + 1, flow, depth)
            } else {
                (s1, Ok(flow))
            },
        }
    }
}

/// Evaluates a block in a frame of its own: it gives what its last
/// statement gave, or the jump that ended it.
pub open spec fn eval_block(p: ProgramView, s: EvalState, stmts: Seq<StmtRef>, depth: nat) -> Step<Flow>
    decreases depth, 5nat, 0nat,
{
    let (s1, r) = run_stmts(p, s.enter(), stmts, 0, Flow::Value(Value::Unit), depth);
    (s1.exit(), r)
}

/// Evaluates the `elif` branches from the `i`-th on, then the `else`
/// branch.
pub open spec fn elif_chain(
    p: ProgramView,
    s: EvalState,
    elifs: Seq<(ExprRef, ExprRef)>,
    i: int,
    else_block: ExprRef,
    depth: nat,
) -> Step<Flow>
    decreases depth, 3nat, elifs.len() - i,
{
    if i < 0 || i >= elifs.len() {
        eval_expr(p, s, else_block, depth)
    } else {
        let (s1, c) = eval_condition(p, s, elifs[i].0, depth);
        match c {
            Err(error) => (s1, Err(error)),
            Ok(true) => eval_expr(p, s1, elifs[i].1, depth),
            Ok(false) => elif_chain(p, s1, elifs, i + 1, else_block, depth),
        }
    }
}

/// Evaluates an `if`: the block of the first condition that holds, else
/// the `else` block.
pub open spec fn eval_if(
    p: ProgramView,
    s: EvalState,
    cond: ExprRef,
    then_block: ExprRef,
    elifs: Seq<(ExprRef, ExprRef)>,
    else_block: ExprRef,
    depth: nat,
) -> Step<Flow>
    decreases depth, 5nat, 0nat,
{
    let (s1, c) = eval_condition(p, s, cond, depth);
    match c {
        Err(error) => (s1, Err(error)),
        Ok(true) => eval_expr(p, s1, then_block, depth),
        Ok(false) => elif_chain(p, s1, elifs, 0, else_block, depth),
    }
}

/// Evaluates the expressions from the `i`-th on, left to right, and adds
/// their values to `values`.
pub open spec fn eval_values(
    p: ProgramView,
    s: EvalState,
    exprs: Seq<ExprRef>,
    i: int,
    values: Seq<Value>,
    depth: nat,
) -> Step<Seq<Value>>
    decreases depth, 3nat, exprs.len() - i,
{
    if i < 0 || i >= exprs.len() {
        (s, Ok(values))
    } else {
        let (s1, r) = eval_value(p, s, exprs[i], depth);
        match r {
            Err(error) => (s1, Err(error)),
            Ok(value) => eval_values(p, s1, exprs, i + 1, values.push(value), depth),
        }
    }
}

/// Evaluates the field values of a struct literal from the `i`-th on.
pub open spec fn eval_fields(
    p: ProgramView,
    s: EvalState,
    fields: Seq<(Symbol, ExprRef)>,
    i: int,
    values: Seq<(Symbol, Value)>,
    depth: nat,
) -> Step<Seq<(Symbol, Value)>>
    decreases depth, 3nat, fields.len() - i,
{
    if i < 0 || i >= fields.len() {
        (s, Ok(values))
    } else {
        let (s1, r) = eval_value(p, s, fields[i].1, depth);
        match r {
            Err(error) => (s1, Err(error)),
            Ok(value) => eval_fields(p, s1, fields, i + 1, values.push((fields[i].0, value)), depth),
        }
    }
}

/// Evaluates an indexing: the array first, then the index.
pub open spec fn eval_array_access(
    p: ProgramView,
    s: EvalState,
    array: ExprRef,
    index: ExprRef,
    depth: nat,
) -> Step<Flow>
    decreases depth, 5nat, 0nat,
{
    let (s1, a) = eval_value(p, s, array, depth);
    match a {
        Err(error) => (s1, Err(error)),
        Ok(items) => {
            let (s2, i) = eval_value(p, s1, index, depth);
            match i {
                Err(error) => (s2, Err(error)),
                Ok(at) => match index_value(items, at) {
                    Ok(value) => gives(s2, value),
                    Err(error) => fails(s2, error),
                },
            }
        },
    }
}

/// Runs the body at `code` in a frame that holds the parameters, and
/// `self` where `receiver` is given; the frame is closed on every way out.
pub open spec fn call_body(
    p: ProgramView,
    s: EvalState,
    parameters: Seq<(Symbol, TypeDecl)>,
    code: StmtRef,
    receiver: Option<(Symbol, Value)>,
    arguments: Seq<Value>,
    depth: nat,
) -> Step<Flow>
    decreases depth, 4nat, 0nat,
{
    if arguments.len() != parameters.len() {
        fails(
            s,
            RuntimeError::ArgumentCount {
                expected: parameters.len() as usize,
                actual: arguments.len() as usize,
            },
        )
    } else {
        let s1 = s.enter();
        let with_receiver = match receiver {
            Some((name, value)) => define_val(s1.env, name, value),
            None => Ok(s1.env),
        };
        match with_receiver {
            Err(error) => (s1.exit(), Err(error)),
            Ok(env1) => match bind_parameters(env1, parameters, arguments, 0) {
                Err(error) => (s1.exit(), Err(error)),
                Ok(env2) => {
                    let (s2, r) = eval_stmt(p, s1.with_env(env2), code, depth);
                    (s2.exit(), finish_call(r))
                },
            },
        }
    }
}

/// Evaluates a call: the arguments left to right, then the body.
pub open spec fn eval_call(p: ProgramView, s: EvalState, name: Symbol, arguments: ExprRef, depth: nat) -> Step<
    Flow,
>
    decreases depth, 5nat, 0nat,
{
    if !p.functions.contains_key(name.0) {
        fails(s, RuntimeError::FunctionNotFound(name))
    } else if arguments.0 >= p.exprs.len() {
        fails(s, RuntimeError::InvalidExpression(arguments))
    } else {
        match p.exprs[arguments.0 as int] {
            Expr::ExprList(items) => {
                let (s1, r) = eval_values(p, s, items@, 0, Seq::empty(), depth);
                match r {
                    Err(error) => (s1, Err(error)),
                    Ok(values) => {
                        let function = p.functions[name.0];
                        call_body(p, s1, function.parameter@, function.code, None, values, depth)
                    },
                }
            },
            _ => fails(s, RuntimeError::NotAnArgumentList),
        }
    }
}

/// The binding of `self` for a method that takes its receiver.
pub open spec fn receiver_binding(p: ProgramView, method: MethodFunction, receiver: Value) -> Option<
    (Symbol, Value),
> {
    if method.has_self_param && p.self_symbol is Some {
        Some((p.self_symbol->0, receiver))
    } else {
        None
    }
}

/// Evaluates a method call: the receiver, then the arguments, then the
/// method. A string has the method `len`; a struct has those of its `impl`
/// blocks.
pub open spec fn eval_method_call(
    p: ProgramView,
    s: EvalState,
    object: ExprRef,
    method: Symbol,
    arguments: Seq<ExprRef>,
    depth: nat,
) -> Step<Flow>
    decreases depth, 5nat, 0nat,
{
    let (s1, r) = eval_value(p, s, object, depth);
    match r {
        Err(error) => (s1, Err(error)),
        Ok(receiver) => {
            let (s2, r2) = eval_values(p, s1, arguments, 0, Seq::empty(), depth);
            match r2 {
                Err(error) => (s2, Err(error)),
                Ok(values) => match receiver {
                    Value::String(symbol) => if p.len_symbol == Some(method) && values.len() == 0 {
                        (s2, string_length(p, symbol))
                    } else {
                        fails(s2, RuntimeError::MethodNotFound(method))
                    },
                    Value::Struct(owner, _) => if p.methods.contains_key(method_key(owner, method)) {
                        let found = p.methods[method_key(owner, method)];
                        call_body(
                            p,
                            s2,
                            found.parameter@,
                            found.code,
                            receiver_binding(p, *found, receiver),
                            values,
                            depth,
                        )
                    } else {
                        fails(s2, RuntimeError::MethodNotFound(method))
                    },
                    _ => fails(s2, RuntimeError::NotAStruct(receiver.kind())),
                },
            }
        },
    }
}

/// Evaluates the statement at `st`.
pub open spec fn eval_stmt(p: ProgramView, s: EvalState, st: StmtRef, depth: nat) -> Step<Flow>
    decreases depth, 0nat, 0nat,
{
    if st.0 >= p.stmts.len() {
        fails(s, RuntimeError::InvalidStatement(st))
    } else if depth == 0 {
        fails(s, RuntimeError::TooDeep)
    } else {
        let d = (depth - 1) as nat;
        match p.stmts[st.0 as int] {
            Stmt::Expression(e) => eval_expr(p, s, e, d),
            Stmt::Val(name, _, e) => {
                let (s1, r) = eval_value(p, s, e, d);
                match r {
                    Err(error) => (s1, Err(error)),
                    Ok(value) => after_binding(s1, define_val(s1.env, name, value), Value::Unit),
                }
            },
            Stmt::Var(name, _, Some(e)) => {
                let (s1, r) = eval_value(p, s, e, d);
                match r {
                    Err(error) => (s1, Err(error)),
                    Ok(value) => after_binding(s1, define_var(s1.env, name, value), Value::Unit),
                }
            },
            Stmt::Var(name, _, None) => after_binding(
                s,
                define_var(s.env, name, Value::Null),
                Value::Unit,
            ),
            Stmt::Return(None) => (s, Ok(Flow::Return(Value::Unit))),
            Stmt::Return(Some(e)) => {
                let (s1, r) = eval_value(p, s, e, d);
                match r {
                    Err(error) => (s1, Err(error)),
                    Ok(value) => (s1, Ok(Flow::Return(value))),
                }
            },
            Stmt::Break => (s, Ok(Flow::Break)),
            Stmt::Continue => (s, Ok(Flow::Continue)),
            Stmt::For(variable, start, end, body) => eval_for(p, s, variable, start, end, body, d),
            Stmt::While(cond, body) => while_loop(p, s, cond, body, d),
            Stmt::StructDecl { .. } => gives(s, Value::Unit),
            Stmt::ImplBlock { .. } => gives(s, Value::Unit),
        }
    }
}

/// What a round of a loop, after which the frame was closed, means for
/// the loop: `None` where the next round follows.
pub open spec fn after_round(r: Result<Flow, RuntimeError>) -> Option<Result<Flow, RuntimeError>> {
    match r {
        Err(error) => Some(Err(error)),
        Ok(Flow::Break) => Some(Ok(Flow::Value(Value::Unit))),
        Ok(Flow::Return(value)) => Some(Ok(Flow::Return(value))),
        _ => None,
    }
}

/// Runs the rounds of a `for` from the counter `i` up to `end`: each round
/// has a frame of its own, in which the loop variable is a `val`.
pub open spec fn for_loop(
    p: ProgramView,
    s: EvalState,
    variable: Symbol,
    i: int,
    end: int,
    signed: bool,
    body: ExprRef,
    depth: nat,
) -> Step<Flow>
    decreases depth, 3nat, end - i,
{
    if i >= end {
        gives(s, Value::Unit)
    } else {
        let s1 = s.enter();
        let s2 = s1.with_env(
            bind(s1.env, variable, Binding { mutable: false, value: counter(signed, i) }),
        );
        let (s3, r) = eval_expr(p, s2, body, depth);
        match after_round(r) {
            Some(result) => (s3.exit(), result),
            None => for_loop(p, s3.exit(), variable, i + 1, end, signed, body, depth),
        }
    }
}

/// Evaluates a `for`: the first value and the bound are integers of one
/// type, and the counter runs from the first value up to the bound, which
/// it does not reach.
pub open spec fn eval_for(
    p: ProgramView,
    s: EvalState,
    variable: Symbol,
    start: ExprRef,
    end: ExprRef,
    body: ExprRef,
    depth: nat,
) -> Step<Flow>
    decreases depth, 5nat, 0nat,
{
    let (s1, first) = eval_value(p, s, start, depth);
    match first {
        Err(error) => (s1, Err(error)),
        Ok(a) => {
            let (s2, bound) = eval_value(p, s1, end, depth);
            match bound {
                Err(error) => (s2, Err(error)),
                Ok(b) => match (a, b) {
                    (Value::Int64(x), Value::Int64(y)) => for_loop(
                        p,
                        s2,
                        variable,
                        x as int,
                        y as int,
                        true,
                        body,
                        depth,
                    ),
                    (Value::UInt64(x), Value::UInt64(y)) => for_loop(
                        p,
                        s2,
                        variable,
                        x as int,
                        y as int,
                        false,
                        body,
                        depth,
                    ),
                    _ => fails(
                        s2,
                        RuntimeError::TypeMismatch { expected: a.kind(), actual: b.kind() },
                    ),
                },
            }
        },
    }
}

/// Runs the rounds of a `while`: each round takes one of the steps that
/// are left, evaluates the condition, and runs the body in a frame of its
/// own.
pub open spec fn while_loop(p: ProgramView, s: EvalState, cond: ExprRef, body: ExprRef, depth: nat) -> Step<
    Flow,
>
    decreases depth, 3nat, s.steps,
{
    if s.steps == 0 {
        fails(s, RuntimeError::OutOfSteps)
    } else {
        let s0 = EvalState { steps: (s.steps - 1) as nat, ..s };
        let (s1, c) = eval_condition(p, s0, cond, depth);
        match c {
            Err(error) => (s1, Err(error)),
            Ok(false) => gives(s1, Value::Unit),
            Ok(true) => {
                let (s2, r) = eval_expr(p, s1.enter(), body, depth);
                match after_round(r) {
                    Some(result) => (s2.exit(), result),
                    None => if s2.steps < s.steps {
                        while_loop(p, s2.exit(), cond, body, depth)
                    } else {
                        fails(s2.exit(), RuntimeError::OutOfSteps)
                    },
                }
            },
        }
    }
}

} // verus!
