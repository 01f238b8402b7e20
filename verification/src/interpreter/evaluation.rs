//! The evaluator: it walks the pools and computes what the semantics gives.

use crate::ast::{Expr, ExprPool, ExprRef, Function, MethodFunction, Operator, Stmt, StmtPool, StmtRef};
use crate::interner::{symbol_of, Interner};
use crate::interpreter::environment::{Binding, Environment, Scopes};
use crate::interpreter::error::RuntimeError;
use crate::interpreter::object::{
    fields_view, lemma_array_view, lemma_struct_view, objects_view, Object, ObjectKind, Value,
};
use crate::interpreter::operators::apply_binary;
use crate::interpreter::semantics;
use crate::interpreter::semantics::{EvalState, Flow, ProgramView};
use crate::shared::share;
use crate::symbol::Symbol;
use crate::type_decl::TypeDecl;
use std::collections::HashMap;
use std::rc::Rc;
use vstd::prelude::*;
use vstd::string::*;

verus! {

/// What the evaluation of a node gave: a value, or a jump.
#[derive(Debug)]
pub enum EvaluationResult {
    Value(Object),
    Return(Object),
    Break,
    Continue,
}

impl View for EvaluationResult {
    type V = Flow;

    open spec fn view(&self) -> Flow {
        match self {
            EvaluationResult::Value(object) => Flow::Value(object@),
            EvaluationResult::Return(object) => Flow::Return(object@),
            EvaluationResult::Break => Flow::Break,
            EvaluationResult::Continue => Flow::Continue,
        }
    }
}

/// The value of an evaluation's result.
pub open spec fn flow_result(result: Result<EvaluationResult, RuntimeError>) -> Result<
    Flow,
    RuntimeError,
> {
    match result {
        Ok(flow) => Ok(flow@),
        Err(error) => Err(error),
    }
}

/// The value of a result that is a value.
pub open spec fn object_result(result: Result<Object, RuntimeError>) -> Result<Value, RuntimeError> {
    match result {
        Ok(object) => Ok(object@),
        Err(error) => Err(error),
    }
}

/// The values of a result that is a list of values.
pub open spec fn objects_result(result: Result<Vec<Object>, RuntimeError>) -> Result<
    Seq<Value>,
    RuntimeError,
> {
    match result {
        Ok(objects) => Ok(objects_view(objects@)),
        Err(error) => Err(error),
    }
}

/// The key under which the method `method` of the struct `owner` is kept.
pub fn method_key(owner: Symbol, method: Symbol) -> (key: u64)
    ensures
        key == semantics::method_key(owner, method),
{
    owner.0 as u64 * 0x1_0000_0000 + method.0 as u64
}

/// The value of the first field named `name`.
pub fn field_value(fields: &Vec<(Symbol, Object)>, name: Symbol) -> (found: Option<Object>)
    ensures
        match found {
            Some(value) => semantics::field_value(fields_view(fields@), name) == Some(value@),
            None => semantics::field_value(fields_view(fields@), name) is None,
        },
{
    let mut i: usize = 0;
    let ghost all = fields_view(fields@);
    assert(all.subrange(0, all.len() as int) =~= all);
    while i < fields.len()
        invariant
            i <= fields.len(),
            all == fields_view(fields@),
            semantics::field_value(all, name) == semantics::field_value(
                all.subrange(i as int, all.len() as int),
                name,
            ),
        decreases fields.len() - i,
    {
        let ghost rest = all.subrange(i as int, all.len() as int);
        assert(rest.drop_first() =~= all.subrange(i + 1, all.len() as int));
        assert(rest[0] == all[i as int]);
        if fields[i].0.0 == name.0 {
            return Some(fields[i].1.clone());
        }
        i += 1;
    }
    None
}

/// The item of `array` at `index`.
pub fn index_value(array: &Object, index: &Object) -> (result: Result<Object, RuntimeError>)
    ensures
        object_result(result) == semantics::index_value(array@, index@),
{
    match array {
        Object::Array(items) => {
            proof {
                lemma_array_view(*items);
            }
            match index {
                Object::UInt64(u) => {
                    if *u < items.len() as u64 {
                        Ok(items[*u as usize].clone())
                    } else {
                        Err(RuntimeError::IndexOutOfBounds { length: items.len() })
                    }
                },
                Object::Int64(i) => {
                    if *i >= 0 && (*i as u64) < items.len() as u64 {
                        Ok(items[*i as usize].clone())
                    } else {
                        Err(RuntimeError::IndexOutOfBounds { length: items.len() })
                    }
                },
                _ => Err(RuntimeError::BadIndex(index.kind())),
            }
        },
        _ => Err(RuntimeError::NotAnArray(array.kind())),
    }
}

/// The field `name` of the struct `object`.
pub fn member_value(object: &Object, name: Symbol) -> (result: Result<Object, RuntimeError>)
    ensures
        object_result(result) == semantics::member_value(object@, name),
{
    match object {
        Object::Struct(owner, fields) => {
            proof {
                lemma_struct_view(*owner, *fields);
            }
            match field_value(fields, name) {
                Some(value) => Ok(value),
                None => Err(RuntimeError::FieldNotFound(name)),
            }
        },
        _ => Err(RuntimeError::NotAStruct(object.kind())),
    }
}

/// The evaluator: it walks the program's pools and keeps the variables.
pub struct EvaluationContext<'a> {
    pub stmt_pool: &'a StmtPool,
    pub expr_pool: &'a ExprPool,
    pub string_interner: &'a Interner,
    pub function: HashMap<u32, Rc<Function>>,
    pub methods: HashMap<u64, Rc<MethodFunction>>,
    pub environment: Environment,
    /// The rounds that the `while` loops may still take.
    pub steps: u64,
    pub self_symbol: Option<Symbol>,
    pub len_symbol: Option<Symbol>,
}

impl<'a> EvaluationContext<'a> {
    /// The program that is run.
    pub open spec fn program(&self) -> ProgramView {
        ProgramView {
            stmts: self.stmt_pool@,
            exprs: self.expr_pool@,
            strings: self.string_interner.strings(),
            functions: self.function@,
            methods: self.methods@,
            self_symbol: self.self_symbol,
            len_symbol: self.len_symbol,
        }
    }

    /// The variables and the steps that are left.
    pub open spec fn state(&self) -> EvalState {
        EvalState { env: self.environment@, steps: self.steps as nat }
    }

    /// An evaluator for the given program, with no variable and no method.
    pub fn new(
        stmt_pool: &'a StmtPool,
        expr_pool: &'a ExprPool,
        string_interner: &'a Interner,
        function: HashMap<u32, Rc<Function>>,
    ) -> (context: Self)
        ensures
            context.program().stmts == stmt_pool@,
            context.program().exprs == expr_pool@,
            context.program().strings == string_interner.strings(),
            context.program().functions == function@,
            context.program().methods == Map::<u64, Rc<MethodFunction>>::empty(),
            context.self_symbol == symbol_of(string_interner.strings(), "self"@),
            context.len_symbol == symbol_of(string_interner.strings(), "len"@),
            context.state() == (EvalState {
                env: Seq::empty(),
                steps: semantics::DEFAULT_STEPS as nat,
            }),
    {
        EvaluationContext {
            stmt_pool,
            expr_pool,
            string_interner,
            function,
            methods: HashMap::new(),
            environment: Environment::new(),
            steps: semantics::DEFAULT_STEPS,
            self_symbol: string_interner.get("self"),
            len_symbol: string_interner.get("len"),
        }
    }

    /// Registers a method of a struct.
    pub fn register_method(&mut self, struct_symbol: Symbol, method_symbol: Symbol, method: Rc<MethodFunction>)
        ensures
            final(self).program() == (ProgramView {
                methods: old(self).program().methods.insert(
                    semantics::method_key(struct_symbol, method_symbol),
                    method,
                ),
                ..old(self).program()
            }),
            final(self).state() == old(self).state(),
    {
        self.methods.insert(method_key(struct_symbol, method_symbol), method);
    }

    /// Sets the rounds that the `while` loops may take from now on.
    pub fn set_steps(&mut self, steps: u64)
        ensures
            final(self).program() == old(self).program(),
            final(self).state() == (EvalState { steps: steps as nat, ..old(self).state() }),
    {
        self.steps = steps;
    }

    /// Evaluates the expression at `e`.
    pub fn eval_expr(&mut self, e: &ExprRef, depth: usize) -> (result: Result<
        EvaluationResult,
        RuntimeError,
    >)
        ensures
            final(self).program() == old(self).program(),
            (final(self).state(), flow_result(result)) == semantics::eval_expr(
                old(self).program(),
                old(self).state(),
                *e,
                depth as nat,
            ),
            final(self).steps <= old(self).steps,
            old(self).environment@.len() > 0 ==> final(self).environment@.len() == old(self).environment@.len(),
            old(self).program().resolved() ==> !semantics::hit_unresolved(result),
        decreases depth, 0nat, 0nat,
    {
        let pool: &'a ExprPool = self.expr_pool;
        let node = match pool.get(e.to_index()) {
            Some(node) => node,
            None => {
                return Err(RuntimeError::InvalidExpression(*e));
            },
        };
        if depth == 0 {
            return Err(RuntimeError::TooDeep);
        }
        let d = depth - 1;
        match node {
            Expr::Int64(value) => Ok(EvaluationResult::Value(Object::Int64(*value))),
            Expr::UInt64(value) => Ok(EvaluationResult::Value(Object::UInt64(*value))),
            Expr::True => Ok(EvaluationResult::Value(Object::Bool(true))),
            Expr::False => Ok(EvaluationResult::Value(Object::Bool(false))),
            Expr::Null => Ok(EvaluationResult::Value(Object::Null)),
            Expr::String(symbol) => Ok(EvaluationResult::Value(Object::String(*symbol))),
            Expr::Number(_) => Err(RuntimeError::UnresolvedNumber),
            Expr::ExprList(_) => Ok(EvaluationResult::Value(Object::Unit)),
            Expr::Identifier(name) => match self.environment.read(*name) {
                Ok(value) => Ok(EvaluationResult::Value(value)),
                Err(error) => Err(error),
            },
            Expr::Binary(op, lhs, rhs) => self.eval_binary(*op, lhs, rhs, d),
            Expr::Assign(lhs, rhs) => self.eval_assign(lhs, rhs, d),
            Expr::Block(stmts) => self.eval_block(stmts, d),
            Expr::IfElifElse(cond, then_block, elifs, else_block) => self.eval_if(
                cond,
                then_block,
                elifs,
                else_block,
                d,
            ),
            Expr::Call(name, arguments) => self.eval_call(*name, arguments, d),
            Expr::ArrayLiteral(elements) => match self.eval_values(elements, d) {
                Ok(values) => {
                    proof {
                        lemma_array_view(values);
                    }
                    Ok(EvaluationResult::Value(Object::Array(values)))
                },
                Err(error) => Err(error),
            },
            Expr::ArrayAccess(array, index) => self.eval_array_access(array, index, d),
            Expr::FieldAccess(object, field) => match self.eval_value(object, d) {
                Ok(value) => match member_value(&value, *field) {
                    Ok(member) => Ok(EvaluationResult::Value(member)),
                    Err(error) => Err(error),
                },
                Err(error) => Err(error),
            },
            Expr::MethodCall(object, method, arguments) => self.eval_method_call(
                object,
                *method,
                arguments,
                d,
            ),
            Expr::StructLiteral(name, fields) => match self.eval_fields(fields, d) {
                Ok(values) => {
                    proof {
                        lemma_struct_view(*name, values);
                    }
                    Ok(EvaluationResult::Value(Object::Struct(*name, values)))
                },
                Err(error) => Err(error),
            },
        }
    }

    /// Evaluates the expression at `e` where a value is needed.
    pub fn eval_value(&mut self, e: &ExprRef, depth: usize) -> (result: Result<Object, RuntimeError>)
        ensures
            final(self).program() == old(self).program(),
            (final(self).state(), object_result(result)) == semantics::eval_value(
                old(self).program(),
                old(self).state(),
                *e,
                depth as nat,
            ),
            final(self).steps <= old(self).steps,
            old(self).environment@.len() > 0 ==> final(self).environment@.len() == old(self).environment@.len(),
            old(self).program().resolved() ==> !semantics::hit_unresolved(result),
        decreases depth, 1nat, 0nat,
    {
        match self.eval_expr(e, depth) {
            Ok(EvaluationResult::Value(value)) => Ok(value),
            Ok(_) => Err(RuntimeError::UnexpectedControlFlow),
            Err(error) => Err(error),
        }
    }

    /// Evaluates the condition at `e`.
    pub fn eval_condition(&mut self, e: &ExprRef, depth: usize) -> (result: Result<bool, RuntimeError>)
        ensures
            final(self).program() == old(self).program(),
            (final(self).state(), result) == semantics::eval_condition(
                old(self).program(),
                old(self).state(),
                *e,
                depth as nat,
            ),
            final(self).steps <= old(self).steps,
            old(self).environment@.len() > 0 ==> final(self).environment@.len() == old(self).environment@.len(),
            old(self).program().resolved() ==> !semantics::hit_unresolved(result),
        decreases depth, 2nat, 0nat,
    {
        match self.eval_value(e, depth) {
            Ok(Object::Bool(b)) => Ok(b),
            Ok(other) => Err(
                RuntimeError::TypeMismatch { expected: ObjectKind::Bool, actual: other.kind() },
            ),
            Err(error) => Err(error),
        }
    }

    /// Evaluates `lhs op rhs`.
    pub fn eval_binary(&mut self, op: Operator, lhs: &ExprRef, rhs: &ExprRef, depth: usize) -> (result:
        Result<EvaluationResult, RuntimeError>)
        ensures
            final(self).program() == old(self).program(),
            (final(self).state(), flow_result(result)) == semantics::eval_binary(
                old(self).program(),
                old(self).state(),
                op,
                *lhs,
                *rhs,
                depth as nat,
            ),
            final(self).steps <= old(self).steps,
            old(self).environment@.len() > 0 ==> final(self).environment@.len() == old(self).environment@.len(),
            old(self).program().resolved() ==> !semantics::hit_unresolved(result),
        decreases depth, 5nat, 0nat,
    {
        let left = match self.eval_value(lhs, depth) {
            Ok(value) => value,
            Err(error) => {
                return Err(error);
            },
        };
        let right = match self.eval_value(rhs, depth) {
            Ok(value) => value,
            Err(error) => {
                return Err(error);
            },
        };
        match apply_binary(op, &left, &right) {
            Ok(value) => Ok(EvaluationResult::Value(value)),
            Err(error) => Err(error),
        }
    }

    /// Evaluates an assignment.
    pub fn eval_assign(&mut self, lhs: &ExprRef, rhs: &ExprRef, depth: usize) -> (result: Result<
        EvaluationResult,
        RuntimeError,
    >)
        ensures
            final(self).program() == old(self).program(),
            (final(self).state(), flow_result(result)) == semantics::eval_assign(
                old(self).program(),
                old(self).state(),
                *lhs,
                *rhs,
                depth as nat,
            ),
            final(self).steps <= old(self).steps,
            old(self).environment@.len() > 0 ==> final(self).environment@.len() == old(self).environment@.len(),
            old(self).program().resolved() ==> !semantics::hit_unresolved(result),
        decreases depth, 5nat, 0nat,
    {
        let pool: &'a ExprPool = self.expr_pool;
        let name = match pool.get(lhs.to_index()) {
            None => {
                return Err(RuntimeError::InvalidExpression(*lhs));
            },
            Some(Expr::Identifier(name)) => *name,
            Some(_) => {
                return Err(RuntimeError::NotAssignable);
            },
        };
        let value = match self.eval_value(rhs, depth) {
            Ok(value) => value,
            Err(error) => {
                return Err(error);
            },
        };
        match self.environment.assign(name, value.clone()) {
            Ok(_) => Ok(EvaluationResult::Value(value)),
            Err(error) => Err(error),
        }
    }

    /// Evaluates the statements of a block in order.
    pub fn run_stmts(&mut self, stmts: &Vec<StmtRef>, depth: usize) -> (result: Result<
        EvaluationResult,
        RuntimeError,
    >)
        ensures
            final(self).program() == old(self).program(),
            (final(self).state(), flow_result(result)) == semantics::run_stmts(
                old(self).program(),
                old(self).state(),
                stmts@,
                0,
                Flow::Value(Value::Unit),
                depth as nat,
            ),
            final(self).steps <= old(self).steps,
            old(self).environment@.len() > 0 ==> final(self).environment@.len() == old(self).environment@.len(),
            old(self).program().resolved() ==> !semantics::hit_unresolved(result),
        decreases depth, 3nat, 0nat,
    {
        let mut last = EvaluationResult::Value(Object::Unit);
        let mut i: usize = 0;
        while i < stmts.len()
            invariant
                i <= stmts.len(),
                self.program() == old(self).program(),
                self.steps <= old(self).steps,
                old(self).environment@.len() > 0 ==> self.environment@.len() == old(self).environment@.len(),
                semantics::run_stmts(
                    old(self).program(),
                    old(self).state(),
                    stmts@,
                    0,
                    Flow::Value(Value::Unit),
                    depth as nat,
                ) == semantics::run_stmts(
                    self.program(),
                    self.state(),
                    stmts@,
                    i as int,
                    last@,
                    depth as nat,
                ),
            decreases stmts.len() - i,
        {
            match self.eval_stmt(&stmts[i], depth) {
                Err(error) => {
                    return Err(error);
                },
                Ok(EvaluationResult::Value(value)) => {
                    last = EvaluationResult::Value(value);
                },
                Ok(flow) => {
                    return Ok(flow);
                },
            }
            i += 1;
        }
        Ok(last)
    }

    /// Evaluates a block in a frame of its own.
    pub fn eval_block(&mut self, stmts: &Vec<StmtRef>, depth: usize) -> (result: Result<
        EvaluationResult,
        RuntimeError,
    >)
        ensures
            final(self).program() == old(self).program(),
            (final(self).state(), flow_result(result)) == semantics::eval_block(
                old(self).program(),
                old(self).state(),
                stmts@,
                depth as nat,
            ),
            final(self).steps <= old(self).steps,
            old(self).environment@.len() > 0 ==> final(self).environment@.len() == old(self).environment@.len(),
            old(self).program().resolved() ==> !semantics::hit_unresolved(result),
        decreases depth, 5nat, 0nat,
    {
        self.environment.new_block();
        let result = self.run_stmts(stmts, depth);
        self.environment.pop();
        result
    }

    /// Evaluates an `if`.
    pub fn eval_if(
        &mut self,
        cond: &ExprRef,
        then_block: &ExprRef,
        elifs: &Vec<(ExprRef, ExprRef)>,
        else_block: &ExprRef,
        depth: usize,
    ) -> (result: Result<EvaluationResult, RuntimeError>)
        ensures
            final(self).program() == old(self).program(),
            (final(self).state(), flow_result(result)) == semantics::eval_if(
                old(self).program(),
                old(self).state(),
                *cond,
                *then_block,
                elifs@,
                *else_block,
                depth as nat,
            ),
            final(self).steps <= old(self).steps,
            old(self).environment@.len() > 0 ==> final(self).environment@.len() == old(self).environment@.len(),
            old(self).program().resolved() ==> !semantics::hit_unresolved(result),
        decreases depth, 5nat, 0nat,
    {
        match self.eval_condition(cond, depth) {
            Err(error) => {
                return Err(error);
            },
            Ok(true) => {
                return self.eval_expr(then_block, depth);
            },
            Ok(false) => {},
        }
        let ghost start = self.state();
        let mut i: usize = 0;
        while i < elifs.len()
            invariant
                i <= elifs.len(),
                self.program() == old(self).program(),
                self.steps <= old(self).steps,
                old(self).environment@.len() > 0 ==> self.environment@.len() == old(self).environment@.len(),
                semantics::eval_if(
                    old(self).program(),
                    old(self).state(),
                    *cond,
                    *then_block,
                    elifs@,
                    *else_block,
                    depth as nat,
                ) == semantics::elif_chain(
                    self.program(),
                    self.state(),
                    elifs@,
                    i as int,
                    *else_block,
                    depth as nat,
                ),
            decreases elifs.len() - i,
        {
            match self.eval_condition(&elifs[i].0, depth) {
                Err(error) => {
                    return Err(error);
                },
                Ok(true) => {
                    return self.eval_expr(&elifs[i].1, depth);
                },
                Ok(false) => {},
            }
            i += 1;
        }
        self.eval_expr(else_block, depth)
    }

    /// Evaluates the expressions left to right.
    pub fn eval_values(&mut self, exprs: &Vec<ExprRef>, depth: usize) -> (result: Result<
        Vec<Object>,
        RuntimeError,
    >)
        ensures
            final(self).program() == old(self).program(),
            (final(self).state(), objects_result(result)) == semantics::eval_values(
                old(self).program(),
                old(self).state(),
                exprs@,
                0,
                Seq::empty(),
                depth as nat,
            ),
            final(self).steps <= old(self).steps,
            old(self).environment@.len() > 0 ==> final(self).environment@.len() == old(self).environment@.len(),
            old(self).program().resolved() ==> !semantics::hit_unresolved(result),
        decreases depth, 3nat, 0nat,
    {
        let mut values: Vec<Object> = Vec::new();
        assert(objects_view(values@) =~= Seq::<Value>::empty());
        let mut i: usize = 0;
        while i < exprs.len()
            invariant
                i <= exprs.len(),
                self.program() == old(self).program(),
                self.steps <= old(self).steps,
                old(self).environment@.len() > 0 ==> self.environment@.len() == old(self).environment@.len(),
                semantics::eval_values(
                    old(self).program(),
                    old(self).state(),
                    exprs@,
                    0,
                    Seq::empty(),
                    depth as nat,
                ) == semantics::eval_values(
                    self.program(),
                    self.state(),
                    exprs@,
                    i as int,
                    objects_view(values@),
                    depth as nat,
                ),
            decreases exprs.len() - i,
        {
            match self.eval_value(&exprs[i], depth) {
                Err(error) => {
                    return Err(error);
                },
                Ok(value) => {
                    let ghost before = objects_view(values@);
                    values.push(value);
                    assert(objects_view(values@) =~= before.push(value@));
                },
            }
            i += 1;
        }
        Ok(values)
    }

    /// Evaluates the field values of a struct literal.
    pub fn eval_fields(&mut self, fields: &Vec<(Symbol, ExprRef)>, depth: usize) -> (result: Result<
        Vec<(Symbol, Object)>,
        RuntimeError,
    >)
        ensures
            final(self).program() == old(self).program(),
            semantics::eval_fields(
                old(self).program(),
                old(self).state(),
                fields@,
                0,
                Seq::empty(),
                depth as nat,
            ) == (
                final(self).state(),
                match result {
                    Ok(values) => Ok::<Seq<(Symbol, Value)>, RuntimeError>(fields_view(values@)),
                    Err(error) => Err::<Seq<(Symbol, Value)>, RuntimeError>(error),
                },
            ),
            final(self).steps <= old(self).steps,
            old(self).environment@.len() > 0 ==> final(self).environment@.len() == old(self).environment@.len(),
            old(self).program().resolved() ==> !semantics::hit_unresolved(result),
        decreases depth, 3nat, 0nat,
    {
        let mut values: Vec<(Symbol, Object)> = Vec::new();
        assert(fields_view(values@) =~= Seq::<(Symbol, Value)>::empty());
        let mut i: usize = 0;
        while i < fields.len()
            invariant
                i <= fields.len(),
                self.program() == old(self).program(),
                self.steps <= old(self).steps,
                old(self).environment@.len() > 0 ==> self.environment@.len() == old(self).environment@.len(),
                semantics::eval_fields(
                    old(self).program(),
                    old(self).state(),
                    fields@,
                    0,
                    Seq::empty(),
                    depth as nat,
                ) == semantics::eval_fields(
                    self.program(),
                    self.state(),
                    fields@,
                    i as int,
                    fields_view(values@),
                    depth as nat,
                ),
            decreases fields.len() - i,
        {
            match self.eval_value(&fields[i].1, depth) {
                Err(error) => {
                    return Err(error);
                },
                Ok(value) => {
                    let ghost before = fields_view(values@);
                    values.push((fields[i].0, value));
                    assert(fields_view(values@) =~= before.push((fields@[i as int].0, value@)));
                },
            }
            i += 1;
        }
        Ok(values)
    }

    /// Evaluates an indexing.
    pub fn eval_array_access(&mut self, array: &ExprRef, index: &ExprRef, depth: usize) -> (result: Result<
        EvaluationResult,
        RuntimeError,
    >)
        ensures
            final(self).program() == old(self).program(),
            (final(self).state(), flow_result(result)) == semantics::eval_array_access(
                old(self).program(),
                old(self).state(),
                *array,
                *index,
                depth as nat,
            ),
            final(self).steps <= old(self).steps,
            old(self).environment@.len() > 0 ==> final(self).environment@.len() == old(self).environment@.len(),
            old(self).program().resolved() ==> !semantics::hit_unresolved(result),
        decreases depth, 5nat, 0nat,
    {
        let items = match self.eval_value(array, depth) {
            Ok(value) => value,
            Err(error) => {
                return Err(error);
            },
        };
        let at = match self.eval_value(index, depth) {
            Ok(value) => value,
            Err(error) => {
                return Err(error);
            },
        };
        match index_value(&items, &at) {
            Ok(value) => Ok(EvaluationResult::Value(value)),
            Err(error) => Err(error),
        }
    }

    /// Binds the parameters to the arguments, each as a `val`.
    pub fn bind_parameters(&mut self, parameters: &Vec<(Symbol, TypeDecl)>, arguments: &Vec<Object>) -> (result:
        Result<(), RuntimeError>)
        requires
            parameters@.len() == arguments@.len(),
            old(self).environment@.len() > 0,
        ensures
            final(self).program() == old(self).program(),
            final(self).steps == old(self).steps,
            final(self).environment@.len() == old(self).environment@.len(),
            final(self).environment@.drop_last() == old(self).environment@.drop_last(),
            !semantics::hit_unresolved(result),
            match result {
                Ok(_) => semantics::bind_parameters(
                    old(self).environment@,
                    parameters@,
                    objects_view(arguments@),
                    0,
                ) == Ok::<Scopes, RuntimeError>(final(self).environment@),
                Err(error) => semantics::bind_parameters(
                    old(self).environment@,
                    parameters@,
                    objects_view(arguments@),
                    0,
                ) == Err::<Scopes, RuntimeError>(error),
            },
    {
        let mut i: usize = 0;
        while i < parameters.len()
            invariant
                i <= parameters.len(),
                parameters@.len() == arguments@.len(),
                self.program() == old(self).program(),
                self.steps == old(self).steps,
                self.environment@.len() == old(self).environment@.len(),
                old(self).environment@.len() > 0,
                self.environment@.drop_last() =~= old(self).environment@.drop_last(),
                semantics::bind_parameters(
                    old(self).environment@,
                    parameters@,
                    objects_view(arguments@),
                    0,
                ) == semantics::bind_parameters(
                    self.environment@,
                    parameters@,
                    objects_view(arguments@),
                    i as int,
                ),
            decreases parameters.len() - i,
        {
            match self.environment.set_val(parameters[i].0, arguments[i].clone()) {
                Ok(_) => {},
                Err(error) => {
                    return Err(error);
                },
            }
            i += 1;
        }
        Ok(())
    }

    /// Runs a body in a frame that holds the parameters, and `self` where
    /// a receiver is given.
    pub fn call_body(
        &mut self,
        parameters: &Vec<(Symbol, TypeDecl)>,
        code: &StmtRef,
        receiver: Option<(Symbol, Object)>,
        arguments: &Vec<Object>,
        depth: usize,
    ) -> (result: Result<EvaluationResult, RuntimeError>)
        ensures
            final(self).program() == old(self).program(),
            (final(self).state(), flow_result(result)) == semantics::call_body(
                old(self).program(),
                old(self).state(),
                parameters@,
                *code,
                match receiver {
                    Some((name, value)) => Some((name, value@)),
                    None => None,
                },
                objects_view(arguments@),
                depth as nat,
            ),
            final(self).steps <= old(self).steps,
            final(self).environment@.len() == old(self).environment@.len(),
            old(self).program().resolved() ==> !semantics::hit_unresolved(result),
        decreases depth, 4nat, 0nat,
    {
        if arguments.len() != parameters.len() {
            return Err(
                RuntimeError::ArgumentCount { expected: parameters.len(), actual: arguments.len() },
            );
        }
        self.environment.new_block();
        assert(self.environment@.drop_last() =~= old(self).environment@);
        match receiver {
            Some((name, value)) => {
                match self.environment.set_val(name, value) {
                    Ok(_) => {},
                    Err(error) => {
                        self.environment.pop();
                        return Err(error);
                    },
                }
            },
            None => {},
        }
        match self.bind_parameters(parameters, arguments) {
            Ok(_) => {},
            Err(error) => {
                self.environment.pop();
                assert(self.environment@ =~= old(self).environment@);
                return Err(error);
            },
        }
        let body = self.eval_stmt(code, depth);
        self.environment.pop();
        match body {
            Ok(EvaluationResult::Value(value)) => Ok(EvaluationResult::Value(value)),
            Ok(EvaluationResult::Return(value)) => Ok(EvaluationResult::Value(value)),
            Ok(EvaluationResult::Break) => Err(RuntimeError::StrayBreak),
            Ok(EvaluationResult::Continue) => Err(RuntimeError::StrayContinue),
            Err(error) => Err(error),
        }
    }

    /// Evaluates a call.
    pub fn eval_call(&mut self, name: Symbol, arguments: &ExprRef, depth: usize) -> (result: Result<
        EvaluationResult,
        RuntimeError,
    >)
        ensures
            final(self).program() == old(self).program(),
            (final(self).state(), flow_result(result)) == semantics::eval_call(
                old(self).program(),
                old(self).state(),
                name,
                *arguments,
                depth as nat,
            ),
            final(self).steps <= old(self).steps,
            old(self).environment@.len() > 0 ==> final(self).environment@.len() == old(self).environment@.len(),
            old(self).program().resolved() ==> !semantics::hit_unresolved(result),
        decreases depth, 5nat, 0nat,
    {
        let function = match self.function.get(&name.0) {
            Some(function) => share(function),
            None => {
                return Err(RuntimeError::FunctionNotFound(name));
            },
        };
        let pool: &'a ExprPool = self.expr_pool;
        let items = match pool.get(arguments.to_index()) {
            None => {
                return Err(RuntimeError::InvalidExpression(*arguments));
            },
            Some(Expr::ExprList(items)) => items,
            Some(_) => {
                return Err(RuntimeError::NotAnArgumentList);
            },
        };
        let values = match self.eval_values(items, depth) {
            Ok(values) => values,
            Err(error) => {
                return Err(error);
            },
        };
        self.call_body(&function.parameter, &function.code, None, &values, depth)
    }

    /// The length of the string `symbol`.
    pub fn string_length(&self, symbol: Symbol) -> (result: Result<EvaluationResult, RuntimeError>)
        ensures
            flow_result(result) == semantics::string_length(self.program(), symbol),
    {
        match self.string_interner.resolve(symbol) {
            Some(text) => Ok(EvaluationResult::Value(Object::UInt64(text.unicode_len() as u64))),
            None => Err(RuntimeError::UnknownString(symbol)),
        }
    }

    /// Evaluates a method call.
    pub fn eval_method_call(
        &mut self,
        object: &ExprRef,
        method: Symbol,
        arguments: &Vec<ExprRef>,
        depth: usize,
    ) -> (result: Result<EvaluationResult, RuntimeError>)
        ensures
            final(self).program() == old(self).program(),
            (final(self).state(), flow_result(result)) == semantics::eval_method_call(
                old(self).program(),
                old(self).state(),
                *object,
                method,
                arguments@,
                depth as nat,
            ),
            final(self).steps <= old(self).steps,
            old(self).environment@.len() > 0 ==> final(self).environment@.len() == old(self).environment@.len(),
            old(self).program().resolved() ==> !semantics::hit_unresolved(result),
        decreases depth, 5nat, 0nat,
    {
        let receiver = match self.eval_value(object, depth) {
            Ok(value) => value,
            Err(error) => {
                return Err(error);
            },
        };
        let values = match self.eval_values(arguments, depth) {
            Ok(values) => values,
            Err(error) => {
                return Err(error);
            },
        };
        match &receiver {
            Object::String(symbol) => {
                let is_len = match self.len_symbol {
                    Some(len) => len.0 == method.0,
                    None => false,
                };
                if is_len && values.len() == 0 {
                    self.string_length(*symbol)
                } else {
                    Err(RuntimeError::MethodNotFound(method))
                }
            },
            Object::Struct(owner, fields) => {
                let found = match self.methods.get(&method_key(*owner, method)) {
                    Some(found) => share(found),
                    None => {
                        return Err(RuntimeError::MethodNotFound(method));
                    },
                };
                let binding = match self.self_symbol {
                    Some(name) => if found.has_self_param {
                        Some((name, receiver.clone()))
                    } else {
                        None
                    },
                    None => None,
                };
                self.call_body(&found.parameter, &found.code, binding, &values, depth)
            },
            _ => Err(RuntimeError::NotAStruct(receiver.kind())),
        }
    }

    /// Evaluates the statement at `st`.
    pub fn eval_stmt(&mut self, st: &StmtRef, depth: usize) -> (result: Result<
        EvaluationResult,
        RuntimeError,
    >)
        ensures
            final(self).program() == old(self).program(),
            (final(self).state(), flow_result(result)) == semantics::eval_stmt(
                old(self).program(),
                old(self).state(),
                *st,
                depth as nat,
            ),
            final(self).steps <= old(self).steps,
            old(self).environment@.len() > 0 ==> final(self).environment@.len() == old(self).environment@.len(),
            old(self).program().resolved() ==> !semantics::hit_unresolved(result),
        decreases depth, 0nat, 0nat,
    {
        let pool: &'a StmtPool = self.stmt_pool;
        let node = match pool.get(st.to_index()) {
            Some(node) => node,
            None => {
                return Err(RuntimeError::InvalidStatement(*st));
            },
        };
        if depth == 0 {
            return Err(RuntimeError::TooDeep);
        }
        let d = depth - 1;
        match node {
            Stmt::Expression(e) => self.eval_expr(e, d),
            Stmt::Val(name, _, e) => {
                let value = match self.eval_value(e, d) {
                    Ok(value) => value,
                    Err(error) => {
                        return Err(error);
                    },
                };
                match self.environment.set_val(*name, value) {
                    Ok(_) => Ok(EvaluationResult::Value(Object::Unit)),
                    Err(error) => Err(error),
                }
            },
            Stmt::Var(name, _, Some(e)) => {
                let value = match self.eval_value(e, d) {
                    Ok(value) => value,
                    Err(error) => {
                        return Err(error);
                    },
                };
                match self.environment.set_var(*name, value) {
                    Ok(_) => Ok(EvaluationResult::Value(Object::Unit)),
                    Err(error) => Err(error),
                }
            },
            Stmt::Var(name, _, None) => match self.environment.set_var(*name, Object::Null) {
                Ok(_) => Ok(EvaluationResult::Value(Object::Unit)),
                Err(error) => Err(error),
            },
            Stmt::Return(None) => Ok(EvaluationResult::Return(Object::Unit)),
            Stmt::Return(Some(e)) => match self.eval_value(e, d) {
                Ok(value) => Ok(EvaluationResult::Return(value)),
                Err(error) => Err(error),
            },
            Stmt::Break => Ok(EvaluationResult::Break),
            Stmt::Continue => Ok(EvaluationResult::Continue),
            Stmt::For(variable, start, end, body) => self.eval_for(*variable, start, end, body, d),
            Stmt::While(cond, body) => self.eval_while(cond, body, d),
            Stmt::StructDecl { .. } => Ok(EvaluationResult::Value(Object::Unit)),
            Stmt::ImplBlock { .. } => Ok(EvaluationResult::Value(Object::Unit)),
        }
    }

    /// Runs the rounds of a `for` from `first` up to `end`.
    pub fn for_loop(
        &mut self,
        variable: Symbol,
        first: i128,
        end: i128,
        signed: bool,
        body: &ExprRef,
        depth: usize,
    ) -> (result: Result<EvaluationResult, RuntimeError>)
        requires
            signed ==> i64::MIN <= first && end <= i64::MAX,
            !signed ==> 0 <= first && end <= u64::MAX,
        ensures
            final(self).program() == old(self).program(),
            (final(self).state(), flow_result(result)) == semantics::for_loop(
                old(self).program(),
                old(self).state(),
                variable,
                first as int,
                end as int,
                signed,
                *body,
                depth as nat,
            ),
            final(self).steps <= old(self).steps,
            old(self).environment@.len() > 0 ==> final(self).environment@.len() == old(self).environment@.len(),
            old(self).program().resolved() ==> !semantics::hit_unresolved(result),
        decreases depth, 3nat, 0nat,
    {
        let mut i: i128 = first;
        while i < end
            invariant
                first <= i,
                signed ==> i64::MIN <= first && end <= i64::MAX,
                !signed ==> 0 <= first && end <= u64::MAX,
                self.program() == old(self).program(),
                self.steps <= old(self).steps,
                old(self).environment@.len() > 0 ==> self.environment@.len() == old(self).environment@.len(),
                semantics::for_loop(
                    old(self).program(),
                    old(self).state(),
                    variable,
                    first as int,
                    end as int,
                    signed,
                    *body,
                    depth as nat,
                ) == semantics::for_loop(
                    self.program(),
                    self.state(),
                    variable,
                    i as int,
                    end as int,
                    signed,
                    *body,
                    depth as nat,
                ),
            decreases end - i,
        {
            let value = if signed {
                Object::Int64(i as i64)
            } else {
                Object::UInt64(i as u64)
            };
            self.environment.new_block();
            self.environment.bind(variable, false, value);
            let round = self.eval_expr(body, depth);
            self.environment.pop();
            match round {
                Err(error) => {
                    return Err(error);
                },
                Ok(EvaluationResult::Break) => {
                    return Ok(EvaluationResult::Value(Object::Unit));
                },
                Ok(EvaluationResult::Return(value)) => {
                    return Ok(EvaluationResult::Return(value));
                },
                Ok(_) => {},
            }
            i += 1;
        }
        Ok(EvaluationResult::Value(Object::Unit))
    }

    /// Evaluates a `for`.
    pub fn eval_for(
        &mut self,
        variable: Symbol,
        start: &ExprRef,
        end: &ExprRef,
        body: &ExprRef,
        depth: usize,
    ) -> (result: Result<EvaluationResult, RuntimeError>)
        ensures
            final(self).program() == old(self).program(),
            (final(self).state(), flow_result(result)) == semantics::eval_for(
                old(self).program(),
                old(self).state(),
                variable,
                *start,
                *end,
                *body,
                depth as nat,
            ),
            final(self).steps <= old(self).steps,
            old(self).environment@.len() > 0 ==> final(self).environment@.len() == old(self).environment@.len(),
            old(self).program().resolved() ==> !semantics::hit_unresolved(result),
        decreases depth, 5nat, 0nat,
    {
        let first = match self.eval_value(start, depth) {
            Ok(value) => value,
            Err(error) => {
                return Err(error);
            },
        };
        let bound = match self.eval_value(end, depth) {
            Ok(value) => value,
            Err(error) => {
                return Err(error);
            },
        };
        match (&first, &bound) {
            (Object::Int64(x), Object::Int64(y)) => self.for_loop(
                variable,
                *x as i128,
                *y as i128,
                true,
                body,
                depth,
            ),
            (Object::UInt64(x), Object::UInt64(y)) => self.for_loop(
                variable,
                *x as i128,
                *y as i128,
                false,
                body,
                depth,
            ),
            _ => Err(RuntimeError::TypeMismatch { expected: first.kind(), actual: bound.kind() }),
        }
    }

    /// Evaluates a `while`.
    pub fn eval_while(&mut self, cond: &ExprRef, body: &ExprRef, depth: usize) -> (result: Result<
        EvaluationResult,
        RuntimeError,
    >)
        ensures
            final(self).program() == old(self).program(),
            (final(self).state(), flow_result(result)) == semantics::while_loop(
                old(self).program(),
                old(self).state(),
                *cond,
                *body,
                depth as nat,
            ),
            final(self).steps <= old(self).steps,
            old(self).environment@.len() > 0 ==> final(self).environment@.len() == old(self).environment@.len(),
            old(self).program().resolved() ==> !semantics::hit_unresolved(result),
        decreases depth, 3nat, 0nat,
    {
        loop
            invariant
                self.program() == old(self).program(),
                self.steps <= old(self).steps,
                old(self).environment@.len() > 0 ==> self.environment@.len() == old(self).environment@.len(),
                semantics::while_loop(
                    old(self).program(),
                    old(self).state(),
                    *cond,
                    *body,
                    depth as nat,
                ) == semantics::while_loop(
                    self.program(),
                    self.state(),
                    *cond,
                    *body,
                    depth as nat,
                ),
            decreases self.steps,
        {
            if self.steps == 0 {
                return Err(RuntimeError::OutOfSteps);
            }
            self.steps -= 1;
            match self.eval_condition(cond, depth) {
                Err(error) => {
                    return Err(error);
                },
                Ok(false) => {
                    return Ok(EvaluationResult::Value(Object::Unit));
                },
                Ok(true) => {},
            }
            self.environment.new_block();
            let round = self.eval_expr(body, depth);
            self.environment.pop();
            match round {
                Err(error) => {
                    return Err(error);
                },
                Ok(EvaluationResult::Break) => {
                    return Ok(EvaluationResult::Value(Object::Unit));
                },
                Ok(EvaluationResult::Return(value)) => {
                    return Ok(EvaluationResult::Return(value));
                },
                Ok(_) => {},
            }
        }
    }

    /// Evaluates the expression at `e`.
    pub fn evaluate(&mut self, e: &ExprRef) -> (result: Result<EvaluationResult, RuntimeError>)
        ensures
            final(self).program() == old(self).program(),
            (final(self).state(), flow_result(result)) == semantics::eval_expr(
                old(self).program(),
                old(self).state(),
                *e,
                semantics::MAX_EVAL_DEPTH as nat,
            ),
            old(self).program().resolved() ==> !semantics::hit_unresolved(result),
            old(self).environment@.len() > 0 ==> final(self).environment@.len() == old(self).environment@.len(),
    {
        self.eval_expr(e, semantics::MAX_EVAL_DEPTH)
    }

    /// Calls a function with the given arguments and gives its value.
    pub fn evaluate_function(&mut self, function: Rc<Function>, args: &Vec<Object>) -> (result: Result<
        Object,
        RuntimeError,
    >)
        ensures
            final(self).program() == old(self).program(),
            (final(self).state(), object_result(result)) == ({
                let (s, r) = semantics::call_body(
                    old(self).program(),
                    old(self).state(),
                    function.parameter@,
                    function.code,
                    None,
                    objects_view(args@),
                    semantics::MAX_EVAL_DEPTH as nat,
                );
                (s, semantics::as_value(r))
            }),
            old(self).program().resolved() ==> !semantics::hit_unresolved(result),
            final(self).environment@.len() == old(self).environment@.len(),
    {
        match self.call_body(
            &function.parameter,
            &function.code,
            None,
            args,
            semantics::MAX_EVAL_DEPTH,
        ) {
            Ok(EvaluationResult::Value(value)) => Ok(value),
            Ok(_) => Err(RuntimeError::UnexpectedControlFlow),
            Err(error) => Err(error),
        }
    }
}

} // verus!
