//! The visits: for each kind of node, the function that computes what the
//! typing rules give.

use crate::ast::{Expr, ExprRef, Function, Operator, Stmt, StmtPool, StmtRef};
use crate::symbol::Symbol;
use crate::text::push_decimal;
use crate::type_checker::error::{ErrorView, TypeCheckError};
use crate::type_checker::function::status_view;
use crate::type_checker::model;
use crate::type_checker::model::CheckerState;
use crate::type_checker::rules;
use crate::type_checker::rules::evolves;
use crate::type_checker::{outcome, unit_outcome, TypeCheckerVisitor};
use crate::type_decl::{clone_option, option_view, types_view, Ty, TypeDecl};
use std::rc::Rc;
use vstd::prelude::*;
use vstd::string::*;

verus! {

/// A copy of a vector of plain values.
pub fn copy_vec<T: Copy>(items: &Vec<T>) -> (copy: Vec<T>)
    ensures
        copy@ == items@,
{
    let mut copy: Vec<T> = Vec::new();
    let mut i: usize = 0;
    while i < items.len()
        invariant
            i <= items.len(),
            copy@ == items@.subrange(0, i as int),
        decreases items.len() - i,
    {
        copy.push(items[i]);
        assert(copy@ =~= items@.subrange(0, i + 1));
        i += 1;
    }
    assert(items@.subrange(0, items@.len() as int) =~= items@);
    copy
}

/// The values of the fields of a struct literal.
pub fn field_values(fields: &Vec<(Symbol, ExprRef)>) -> (values: Vec<ExprRef>)
    ensures
        values@ == rules::field_values(fields@),
{
    let mut values: Vec<ExprRef> = Vec::new();
    let mut i: usize = 0;
    while i < fields.len()
        invariant
            i <= fields.len(),
            values@ == rules::field_values(fields@).subrange(0, i as int),
        decreases fields.len() - i,
    {
        values.push(fields[i].1);
        assert(values@ =~= rules::field_values(fields@).subrange(0, i + 1));
        i += 1;
    }
    assert(rules::field_values(fields@).subrange(0, fields@.len() as int) =~= rules::field_values(
        fields@,
    ));
    values
}

/// The type of `lhs op rhs` for operands of the resolved types.
pub fn binary_result(op: &Operator, lhs: &TypeDecl, rhs: &TypeDecl) -> (result: Result<
    TypeDecl,
    TypeCheckError,
>)
    ensures
        outcome(result) == model::binary_result(*op, lhs@, rhs@),
{
    match op {
        Operator::IAdd | Operator::ISub | Operator::IMul | Operator::IDiv => {
            if matches!(op, Operator::IAdd) && matches!(lhs, TypeDecl::String) && matches!(
                rhs,
                TypeDecl::String
            ) {
                Ok(TypeDecl::String)
            } else if matches!(lhs, TypeDecl::UInt64) && matches!(rhs, TypeDecl::UInt64) {
                Ok(TypeDecl::UInt64)
            } else if matches!(lhs, TypeDecl::Int64) && matches!(rhs, TypeDecl::Int64) {
                Ok(TypeDecl::Int64)
            } else {
                Err(TypeCheckError::type_mismatch_operation("arithmetic", lhs.clone(), rhs.clone()))
            }
        },
        Operator::LogicalAnd | Operator::LogicalOr => {
            if matches!(lhs, TypeDecl::Bool) && matches!(rhs, TypeDecl::Bool) {
                Ok(TypeDecl::Bool)
            } else {
                Err(TypeCheckError::type_mismatch_operation("logical", lhs.clone(), rhs.clone()))
            }
        },
        _ => {
            if (lhs.is_integer() && rhs.is_integer()) || (matches!(lhs, TypeDecl::Bool) && matches!(
                rhs,
                TypeDecl::Bool
            )) {
                Ok(TypeDecl::Bool)
            } else {
                Err(TypeCheckError::type_mismatch_operation("comparison", lhs.clone(), rhs.clone()))
            }
        },
    }
}

/// The common type of the branches of an `if`.
pub fn common_type(types: &Vec<TypeDecl>) -> (ty: TypeDecl)
    ensures
        ty@ == rules::common_type(types_view(types@)),
{
    if types.len() == 0 {
        return TypeDecl::Unit;
    }
    let mut i: usize = 1;
    while i < types.len()
        invariant
            1 <= i <= types.len(),
            forall|j: int| 0 <= j < i ==> (#[trigger] types_view(types@)[j]) == types_view(types@)[0],
        decreases types.len() - i,
    {
        if !types[i].same(&types[0]) {
            assert(types_view(types@)[i as int] != types_view(types@)[0]);
            return TypeDecl::Unit;
        }
        i += 1;
    }
    types[0].clone()
}

/// The index of the first type that is not the first type.
pub fn first_different(types: &Vec<TypeDecl>) -> (found: Option<usize>)
    ensures
        match found {
            Some(i) => rules::first_different(types_view(types@), 0) == Some(i as int) && i
                < types@.len(),
            None => rules::first_different(types_view(types@), 0) is None,
        },
{
    let mut i: usize = 0;
    while i < types.len()
        invariant
            i <= types.len(),
            rules::first_different(types_view(types@), 0) == rules::first_different(
                types_view(types@),
                i as int,
            ),
        decreases types.len() - i,
    {
        if !types[i].same(&types[0]) {
            return Some(i);
        }
        i += 1;
    }
    None
}

/// A message about the element `index` of an array literal.
pub fn element_message(start: &str, index: usize, found: &TypeDecl, joint: &str, other: &TypeDecl) -> (message:
    String)
    ensures
        message@ == rules::element_message(start@, index as nat, found@, joint@, other@),
{
    let mut message = String::from_str(start);
    push_decimal(&mut message, index as u64);
    message.append(" has type ");
    found.push_text(&mut message);
    message.append(joint);
    other.push_text(&mut message);
    message
}

/// The type of a method call on a receiver of type `receiver`.
pub fn method_result(name: &str, receiver: TypeDecl, arguments: usize) -> (result: Result<
    TypeDecl,
    TypeCheckError,
>)
    ensures
        outcome(result) == rules::method_result(name@, receiver@, arguments as nat),
{
    match receiver {
        TypeDecl::String => {
            if String::from_str(name) == String::from_str("len") {
                if arguments != 0 {
                    let mut reason = String::from_str("takes no arguments, but ");
                    push_decimal(&mut reason, arguments as u64);
                    reason.append(" provided");
                    Err(TypeCheckError::method_error("len", TypeDecl::String, reason.as_str()))
                } else {
                    Ok(TypeDecl::UInt64)
                }
            } else {
                Err(TypeCheckError::method_error(name, TypeDecl::String, "method not found"))
            }
        },
        TypeDecl::Identifier(_) | TypeDecl::Struct(_) => Ok(TypeDecl::Unknown),
        _ => Err(TypeCheckError::method_error(name, receiver, "method call on non-struct type")),
    }
}

/// The type of an indexing into a value of type `array`.
pub fn element_type(array: &TypeDecl) -> (result: Result<TypeDecl, TypeCheckError>)
    ensures
        outcome(result) == rules::element_type(array@),
{
    match array {
        TypeDecl::Array(element_types, _) => {
            assert(array@->Array_0.len() == element_types@.len());
            if element_types.len() == 0 {
                Err(TypeCheckError::array_error("Cannot access elements of empty array"))
            } else {
                assert(array@->Array_0[0] == element_types@[0]@);
                Ok(element_types[0].clone())
            }
        },
        _ => {
            let mut message = String::from_str("Cannot index into non-array type ");
            array.push_text(&mut message);
            Err(TypeCheckError::array_error(message.as_str()))
        },
    }
}

/// The hint for the elements of an array literal.
pub fn element_hint_of(hint: &Option<TypeDecl>) -> (element: Option<TypeDecl>)
    ensures
        option_view(element) == rules::element_hint_of(option_view(*hint)),
{
    match hint {
        Some(TypeDecl::Array(element_types, _)) => {
            assert(hint->0@->Array_0.len() == element_types@.len());
            if element_types.len() > 0 {
                assert(hint->0@->Array_0[0] == element_types@[0]@);
                Some(element_types[0].clone())
            } else {
                None
            }
        },
        _ => None,
    }
}

impl<'a> TypeCheckerVisitor<'a> {
    /// The annotated integer type of the first `val` or `var` among `stmts`
    /// that has one.
    pub fn block_hint(&self, stmts: &Vec<StmtRef>) -> (hint: Option<TypeDecl>)
        ensures
            option_view(hint) == model::first_numeric_annotation(self@.stmts, stmts@),
    {
        let pool: &'a StmtPool = self.core.stmt_pool;
        let mut i: usize = 0;
        assert(stmts@.subrange(0, stmts@.len() as int) =~= stmts@);
        while i < stmts.len()
            invariant
                i <= stmts.len(),
                pool@ == self@.stmts,
                model::first_numeric_annotation(self@.stmts, stmts@)
                    == model::first_numeric_annotation(
                    self@.stmts,
                    stmts@.subrange(i as int, stmts@.len() as int),
                ),
            decreases stmts.len() - i,
        {
            let ghost rest = stmts@.subrange(i as int, stmts@.len() as int);
            assert(rest.drop_first() =~= stmts@.subrange(i + 1, stmts@.len() as int));
            match pool.get(stmts[i].to_index()) {
                Some(Stmt::Val(_, Some(ty), _)) => {
                    if ty.is_integer() {
                        return Some(ty.clone());
                    }
                },
                Some(Stmt::Var(_, Some(ty), _)) => {
                    if ty.is_integer() {
                        return Some(ty.clone());
                    }
                },
                _ => {},
            }
            i += 1;
        }
        None
    }

    /// Sets the hint that the statements' first integer annotation gives.
    pub fn apply_block_hint(&mut self, stmts: &Vec<StmtRef>)
        ensures
            final(self)@ == model::with_block_hint(old(self)@, stmts@),
            evolves(old(self)@, final(self)@),
            rules::scopes_kept(old(self)@, final(self)@),
            rules::pending_kept(old(self)@, final(self)@),
    {
        proof {
            rules::lemma_evolves_bookkeeping(old(self)@, old(self)@);
        }
        match self.block_hint(stmts) {
            Some(ty) => {
                self.set_hint(Some(ty));
            },
            None => {},
        }
    }

    /// Visits the node at `e`; `invalid` is the message for a ref outside
    /// the pool.
    pub fn accept_expr(&mut self, e: &ExprRef, invalid: &str, depth: usize) -> (result: Result<
        TypeDecl,
        TypeCheckError,
    >)
        ensures
            (final(self)@, outcome(result)) == rules::accept_expr(
                old(self)@,
                *e,
                invalid@,
                depth as nat,
            ),
            evolves(old(self)@, final(self)@),
            rules::scopes_kept(old(self)@, final(self)@),
            rules::pending_kept(old(self)@, final(self)@),
        decreases depth, 0nat, 0nat,
    {
        let index = e.to_index();
        if index >= self.core.expr_pool.len() {
            return Err(TypeCheckError::generic_error(invalid));
        }
        if depth == 0 {
            return Err(TypeCheckError::generic_error("Expression nesting is too deep"));
        }
        let d = depth - 1;
        match &self.core.expr_pool.0[index] {
            Expr::Binary(op, lhs, rhs) => {
                let (op, lhs, rhs) = (*op, *lhs, *rhs);
                self.visit_binary(&op, &lhs, &rhs, d)
            },
            Expr::Block(statements) => {
                let statements = copy_vec(statements);
                self.visit_block(&statements, d)
            },
            Expr::IfElifElse(cond, then_block, elif_pairs, else_block) => {
                let (cond, then_block, else_block) = (*cond, *then_block, *else_block);
                let elif_pairs = copy_vec(elif_pairs);
                self.visit_if_elif_else(&cond, &then_block, &elif_pairs, &else_block, d)
            },
            Expr::Assign(lhs, rhs) => {
                let (lhs, rhs) = (*lhs, *rhs);
                self.visit_assign(&lhs, &rhs, d)
            },
            Expr::Identifier(name) => {
                let name = *name;
                self.visit_identifier(name)
            },
            Expr::Call(fn_name, args) => {
                let (fn_name, args) = (*fn_name, *args);
                self.visit_call(fn_name, &args, d)
            },
            Expr::Int64(_) => Ok(TypeDecl::Int64),
            Expr::UInt64(_) => Ok(TypeDecl::UInt64),
            Expr::Number(value) => {
                let value = *value;
                self.visit_number_literal(value)
            },
            Expr::String(_) => Ok(TypeDecl::String),
            Expr::True => Ok(TypeDecl::Bool),
            Expr::False => Ok(TypeDecl::Bool),
            Expr::Null => Ok(TypeDecl::Any),
            Expr::ExprList(_) => Ok(TypeDecl::Unit),
            Expr::ArrayLiteral(elements) => {
                let elements = copy_vec(elements);
                self.visit_array_literal(&elements, d)
            },
            Expr::ArrayAccess(array, index) => {
                let (array, index) = (*array, *index);
                self.visit_array_access(&array, &index, d)
            },
            Expr::FieldAccess(obj, field) => {
                let (obj, field) = (*obj, *field);
                self.visit_field_access(&obj, &field, d)
            },
            Expr::MethodCall(obj, method, args) => {
                let (obj, method) = (*obj, *method);
                let args = copy_vec(args);
                self.visit_method_call(&obj, &method, &args, d)
            },
            Expr::StructLiteral(struct_name, fields) => {
                let struct_name = *struct_name;
                let fields = copy_vec(fields);
                self.visit_struct_literal(&struct_name, &fields, d)
            },
        }
    }

    /// Visits the expression at `expr` through the type cache.
    pub fn visit_expr(&mut self, expr: &ExprRef, depth: usize) -> (result: Result<
        TypeDecl,
        TypeCheckError,
    >)
        ensures
            (final(self)@, outcome(result)) == rules::visit_expr(old(self)@, *expr, depth as nat),
            evolves(old(self)@, final(self)@),
            rules::scopes_kept(old(self)@, final(self)@),
            rules::pending_kept(old(self)@, final(self)@),
        decreases depth, 1nat, 0nat,
    {
        match self.get_cached_type(expr) {
            Some(cached_type) => {
                return Ok(cached_type);
            },
            None => {},
        }
        let had_hint = self.type_inference.type_hint.is_some();
        match self.accept_expr(expr, "Invalid expression reference", depth) {
            Err(error) => {
                let location = self.get_expr_location(expr);
                Err(error.located(location))
            },
            Ok(result_type) => {
                self.cache_type(*expr, result_type.clone());
                if !had_hint && result_type.is_integer() && self.type_inference.type_hint.is_none() {
                    self.set_hint(Some(result_type.clone()));
                }
                Ok(result_type)
            },
        }
    }

    /// Visits the statement at `st`; `invalid` is the message for a ref
    /// outside the pool.
    pub fn accept_stmt(&mut self, st: &StmtRef, invalid: &str, depth: usize) -> (result: Result<
        TypeDecl,
        TypeCheckError,
    >)
        ensures
            (final(self)@, outcome(result)) == rules::accept_stmt(
                old(self)@,
                *st,
                invalid@,
                depth as nat,
            ),
            evolves(old(self)@, final(self)@),
            rules::scopes_kept(old(self)@, final(self)@),
            rules::pending_kept(old(self)@, final(self)@),
        decreases depth, 0nat, 0nat,
    {
        let pool: &'a StmtPool = self.core.stmt_pool;
        let stmt = match pool.get(st.to_index()) {
            Some(stmt) => stmt,
            None => {
                return Err(TypeCheckError::generic_error(invalid));
            },
        };
        if depth == 0 {
            return Err(TypeCheckError::generic_error("Expression nesting is too deep"));
        }
        let d = depth - 1;
        match stmt {
            Stmt::Expression(expr) => self.visit_expression_stmt(expr, d),
            Stmt::Var(name, type_decl, expr) => self.visit_var(*name, type_decl, expr, d),
            Stmt::Val(name, type_decl, expr) => self.visit_val(*name, type_decl, expr, d),
            Stmt::Return(expr) => self.visit_return(expr, d),
            Stmt::For(init, cond, range, body) => self.visit_for(*init, cond, range, body, d),
            Stmt::While(cond, body) => self.visit_while(cond, body, d),
            Stmt::Break => self.visit_break(),
            Stmt::Continue => self.visit_continue(),
            Stmt::StructDecl { name, fields } => self.visit_struct_decl(name, fields),
            Stmt::ImplBlock { target_type, methods } => self.visit_impl_block(target_type, methods),
        }
    }

    /// Visits the statement at `stmt` and gives an error its place; a ref
    /// outside the pool is an error.
    pub fn visit_stmt(&mut self, stmt: &StmtRef, depth: usize) -> (result: Result<
        TypeDecl,
        TypeCheckError,
    >)
        ensures
            (final(self)@, outcome(result)) == rules::visit_stmt(old(self)@, *stmt, depth as nat),
            evolves(old(self)@, final(self)@),
            rules::scopes_kept(old(self)@, final(self)@),
            rules::pending_kept(old(self)@, final(self)@),
    {
        match self.accept_stmt(stmt, "Invalid statement reference", depth) {
            Err(error) => {
                let location = self.get_stmt_location(stmt);
                Err(error.located(location))
            },
            Ok(ty) => Ok(ty),
        }
    }

    /// Checks an expression statement: its type is that of the expression.
    pub fn visit_expression_stmt(&mut self, expr: &ExprRef, depth: usize) -> (result: Result<
        TypeDecl,
        TypeCheckError,
    >)
        ensures
            (final(self)@, outcome(result)) == rules::accept_expr(
                old(self)@,
                *expr,
                "Invalid expression reference in statement"@,
                depth as nat,
            ),
            evolves(old(self)@, final(self)@),
            rules::scopes_kept(old(self)@, final(self)@),
            rules::pending_kept(old(self)@, final(self)@),
        decreases depth, 6nat, 0nat,
    {
        self.accept_expr(expr, "Invalid expression reference in statement", depth)
    }

    /// Checks a `while`: its type is that of its body.
    pub fn visit_while(&mut self, _cond: &ExprRef, body: &ExprRef, depth: usize) -> (result: Result<
        TypeDecl,
        TypeCheckError,
    >)
        ensures
            (final(self)@, outcome(result)) == rules::accept_expr(
                old(self)@,
                *body,
                "Invalid body expression reference in while"@,
                depth as nat,
            ),
            evolves(old(self)@, final(self)@),
            rules::scopes_kept(old(self)@, final(self)@),
            rules::pending_kept(old(self)@, final(self)@),
        decreases depth, 6nat, 0nat,
    {
        self.accept_expr(body, "Invalid body expression reference in while", depth)
    }

    /// `break` has the type `Unit`.
    pub fn visit_break(&mut self) -> (result: Result<TypeDecl, TypeCheckError>)
        ensures
            final(self)@ == old(self)@,
            outcome(result) == Ok::<Ty, ErrorView>(Ty::Unit),
    {
        Ok(TypeDecl::Unit)
    }

    /// `continue` has the type `Unit`.
    pub fn visit_continue(&mut self) -> (result: Result<TypeDecl, TypeCheckError>)
        ensures
            final(self)@ == old(self)@,
            outcome(result) == Ok::<Ty, ErrorView>(Ty::Unit),
    {
        Ok(TypeDecl::Unit)
    }

    /// Checks the value of a declared variable against the declared type
    /// and binds the variable.
    pub fn process_val_type(
        &mut self,
        name: Symbol,
        type_decl: &Option<TypeDecl>,
        expr: &Option<ExprRef>,
        depth: usize,
    ) -> (result: Result<TypeDecl, TypeCheckError>)
        ensures
            (final(self)@, outcome(result)) == rules::process_val_type(
                old(self)@,
                name,
                option_view(*type_decl),
                *expr,
                depth as nat,
            ),
            evolves(old(self)@, final(self)@),
            rules::scopes_kept(old(self)@, final(self)@),
            rules::pending_kept(old(self)@, final(self)@),
        decreases depth, 3nat, 0nat,
    {
        match expr {
            Some(e) => {
                let ty = match self.visit_expr(e, depth) {
                    Ok(ty) => ty,
                    Err(error) => {
                        return Err(error);
                    },
                };
                if matches!(ty, TypeDecl::Unit) {
                    return Err(TypeCheckError::type_mismatch(TypeDecl::Unknown, ty));
                }
                match type_decl {
                    Some(TypeDecl::Unknown) => {},
                    Some(decl) => {
                        if !decl.same(&ty) {
                            return Err(TypeCheckError::type_mismatch(decl.clone(), ty));
                        }
                    },
                    None => {},
                }
                self.set_var(name, ty);
                Ok(TypeDecl::Unit)
            },
            None => Ok(TypeDecl::Unit),
        }
    }

    /// Checks a `var`: its value, if it has one, gives the variable its type.
    pub fn visit_var(
        &mut self,
        name: Symbol,
        type_decl: &Option<TypeDecl>,
        expr: &Option<ExprRef>,
        depth: usize,
    ) -> (result: Result<TypeDecl, TypeCheckError>)
        ensures
            (final(self)@, outcome(result)) == rules::process_val_type(
                old(self)@,
                name,
                option_view(*type_decl),
                *expr,
                depth as nat,
            ),
            evolves(old(self)@, final(self)@),
            rules::scopes_kept(old(self)@, final(self)@),
            rules::pending_kept(old(self)@, final(self)@),
        decreases depth, 6nat, 0nat,
    {
        match self.process_val_type(name, type_decl, expr, depth) {
            Ok(_) => Ok(TypeDecl::Unit),
            Err(error) => Err(error),
        }
    }

    /// Checks a `val`: its value is visited under the declared type as hint,
    /// a literal is rewritten where the type is decided, and the variable is
    /// bound.
    pub fn visit_val(
        &mut self,
        name: Symbol,
        type_decl: &Option<TypeDecl>,
        expr: &ExprRef,
        depth: usize,
    ) -> (result: Result<TypeDecl, TypeCheckError>)
        ensures
            (final(self)@, outcome(result)) == rules::visit_val(
                old(self)@,
                name,
                option_view(*type_decl),
                *expr,
                depth as nat,
            ),
            evolves(old(self)@, final(self)@),
            rules::scopes_kept(old(self)@, final(self)@),
            rules::pending_kept(old(self)@, final(self)@),
            final(self)@.hint == old(self)@.hint,
        decreases depth, 6nat, 0nat,
    {
        let old_hint = self.setup_type_hint_for_val(type_decl);
        let expr_ty = match self.visit_expr(expr, depth) {
            Ok(ty) => ty,
            Err(error) => {
                self.set_hint(old_hint);
                return Err(error);
            },
        };
        self.update_variable_expr_mapping(name, expr, &expr_ty);
        match self.apply_type_transformations(type_decl, &expr_ty, expr) {
            Ok(_) => {},
            Err(error) => {
                self.set_hint(old_hint);
                return Err(error);
            },
        }
        let final_type = self.determine_final_type(type_decl, &expr_ty);
        self.set_var(name, final_type);
        self.set_hint(old_hint);
        Ok(TypeDecl::Unit)
    }

    /// Checks a `return` on its own: its expression is visited.
    pub fn visit_return(&mut self, expr: &Option<ExprRef>, depth: usize) -> (result: Result<
        TypeDecl,
        TypeCheckError,
    >)
        ensures
            (final(self)@, outcome(result)) == rules::visit_return(old(self)@, *expr, depth as nat),
            evolves(old(self)@, final(self)@),
            rules::scopes_kept(old(self)@, final(self)@),
            rules::pending_kept(old(self)@, final(self)@),
        decreases depth, 6nat, 0nat,
    {
        match expr {
            None => Ok(TypeDecl::Unit),
            Some(e) => match self.accept_expr(e, "Invalid expression reference in return", depth) {
                Ok(_) => Ok(TypeDecl::Unit),
                Err(error) => Err(error),
            },
        }
    }

    /// The steps of a `for` within its scope.
    pub fn for_steps(&mut self, init: Symbol, range: &ExprRef, body: &ExprRef, depth: usize) -> (result:
        Result<TypeDecl, TypeCheckError>)
        ensures
            (final(self)@, outcome(result)) == rules::for_steps(
                old(self)@,
                init,
                *range,
                *body,
                depth as nat,
            ),
            evolves(old(self)@, final(self)@),
            rules::scopes_kept(old(self)@, final(self)@),
            rules::pending_kept(old(self)@, final(self)@),
        decreases depth, 4nat, 0nat,
    {
        let range_ty = match self.accept_expr(range, "Invalid range expression reference", depth) {
            Ok(ty) => ty,
            Err(error) => {
                return Err(error);
            },
        };
        let ty = Some(range_ty);
        match self.process_val_type(init, &ty, &Some(*range), depth) {
            Ok(_) => {},
            Err(error) => {
                return Err(error);
            },
        }
        self.accept_expr(body, "Invalid body expression reference", depth)
    }

    /// Checks a `for`: in a scope of its own, which is closed on every way
    /// out, the loop variable takes the type of the bound, and the body is
    /// visited.
    pub fn visit_for(
        &mut self,
        init: Symbol,
        _cond: &ExprRef,
        range: &ExprRef,
        body: &ExprRef,
        depth: usize,
    ) -> (result: Result<TypeDecl, TypeCheckError>)
        ensures
            (final(self)@, outcome(result)) == rules::visit_for(
                old(self)@,
                init,
                *range,
                *body,
                depth as nat,
            ),
            evolves(old(self)@, final(self)@),
            rules::scopes_kept(old(self)@, final(self)@),
            rules::pending_kept(old(self)@, final(self)@),
            final(self)@.vars.len() == old(self)@.vars.len(),
        decreases depth, 6nat, 0nat,
    {
        self.push_context();
        let ghost opened = self@;
        let res = self.for_steps(init, range, body, depth);
        let ghost inside = self@;
        self.pop_context();
        proof {
            rules::lemma_evolves_bookkeeping(old(self)@, opened);
            rules::lemma_evolves_trans(old(self)@, opened, inside);
            rules::lemma_evolves_bookkeeping(inside, self@);
            rules::lemma_evolves_trans(old(self)@, inside, self@);
        }
        res
    }

    /// Checks a binary operation: the operands are visited, a `Number` side
    /// takes the other side's integer type, and the operator decides the type.
    pub fn visit_binary(&mut self, op: &Operator, lhs: &ExprRef, rhs: &ExprRef, depth: usize) -> (result:
        Result<TypeDecl, TypeCheckError>)
        ensures
            (final(self)@, outcome(result)) == rules::visit_binary(
                old(self)@,
                *op,
                *lhs,
                *rhs,
                depth as nat,
            ),
            evolves(old(self)@, final(self)@),
            rules::scopes_kept(old(self)@, final(self)@),
            rules::pending_kept(old(self)@, final(self)@),
        decreases depth, 6nat, 0nat,
    {
        let lhs_ty = match self.accept_expr(lhs, "Invalid left-hand expression reference", depth) {
            Ok(ty) => ty,
            Err(error) => {
                return Err(error);
            },
        };
        let rhs_ty = match self.accept_expr(rhs, "Invalid right-hand expression reference", depth) {
            Ok(ty) => ty,
            Err(error) => {
                return Err(error);
            },
        };
        self.resolve_binary(op, lhs, rhs, &lhs_ty, &rhs_ty)
    }

    /// Hands the hint to the operands that are `Number`.
    pub fn propagate_hint(&mut self, lhs: &ExprRef, rhs: &ExprRef, lhs_ty: &TypeDecl, rhs_ty: &TypeDecl)
        ensures
            final(self)@ == rules::propagate_hint(old(self)@, *lhs, *rhs, lhs_ty@, rhs_ty@),
            evolves(old(self)@, final(self)@),
            rules::scopes_kept(old(self)@, final(self)@),
            rules::pending_kept(old(self)@, final(self)@),
    {
        proof {
            rules::lemma_evolves_bookkeeping(old(self)@, old(self)@);
        }
        match self.hint() {
            Some(hint) => {
                if hint.is_integer() {
                    if matches!(lhs_ty, TypeDecl::Number) {
                        let _ = self.propagate_type_to_number_expr(lhs, &hint);
                    }
                    let ghost middle = self@;
                    if matches!(rhs_ty, TypeDecl::Number) {
                        let _ = self.propagate_type_to_number_expr(rhs, &hint);
                    }
                    proof {
                        rules::lemma_evolves_trans(old(self)@, middle, self@);
                    }
                }
            },
            None => {},
        }
    }

    /// Notes what the resolved types of the operands decide.
    pub fn note_operands(
        &mut self,
        lhs: &ExprRef,
        rhs: &ExprRef,
        lhs_ty: &TypeDecl,
        rhs_ty: &TypeDecl,
        left: &TypeDecl,
        right: &TypeDecl,
    )
        ensures
            final(self)@ == rules::note_operands(
                old(self)@,
                *lhs,
                *rhs,
                lhs_ty@,
                rhs_ty@,
                left@,
                right@,
            ),
            evolves(old(self)@, final(self)@),
            rules::scopes_kept(old(self)@, final(self)@),
            rules::pending_kept(old(self)@, final(self)@),
    {
        self.propagate_hint(lhs, rhs, lhs_ty, rhs_ty);
        let ghost s1 = self@;
        let _ = self.record_number_usage_context(lhs, lhs_ty, left);
        let ghost s2 = self@;
        let _ = self.record_number_usage_context(rhs, rhs_ty, right);
        let ghost s3 = self@;
        if !matches!(left, TypeDecl::Number) && matches!(rhs_ty, TypeDecl::Number) {
            let _ = self.propagate_to_number_variable(rhs, left);
        }
        let ghost s4 = self@;
        proof {
            rules::lemma_evolves_bookkeeping(s3, s3);
            rules::lemma_evolves_bookkeeping(s4, s4);
        }
        if !matches!(right, TypeDecl::Number) && matches!(lhs_ty, TypeDecl::Number) {
            let _ = self.propagate_to_number_variable(lhs, right);
        }
        proof {
            rules::lemma_evolves_trans(old(self)@, s1, s2);
            rules::lemma_evolves_trans(old(self)@, s2, s3);
            rules::lemma_evolves_trans(old(self)@, s3, s4);
            rules::lemma_evolves_trans(old(self)@, s4, self@);
        }
    }

    /// Rewrites the operands that were `Number` and are resolved.
    pub fn rewrite_operands(
        &mut self,
        lhs: &ExprRef,
        rhs: &ExprRef,
        lhs_ty: &TypeDecl,
        rhs_ty: &TypeDecl,
        left: &TypeDecl,
        right: &TypeDecl,
    ) -> (result: Result<(), TypeCheckError>)
        ensures
            (final(self)@, unit_outcome(result)) == rules::rewrite_operands(
                old(self)@,
                *lhs,
                *rhs,
                lhs_ty@,
                rhs_ty@,
                left@,
                right@,
            ),
            evolves(old(self)@, final(self)@),
            rules::scopes_kept(old(self)@, final(self)@),
            rules::pending_kept(old(self)@, final(self)@),
    {
        proof {
            rules::lemma_evolves_bookkeeping(old(self)@, old(self)@);
        }
        if matches!(lhs_ty, TypeDecl::Number) && !matches!(left, TypeDecl::Number) {
            match self.transform_numeric_expr(lhs, left) {
                Ok(_) => {},
                Err(error) => {
                    return Err(error);
                },
            }
        }
        let ghost s1 = self@;
        if matches!(rhs_ty, TypeDecl::Number) && !matches!(right, TypeDecl::Number) {
            match self.transform_numeric_expr(rhs, right) {
                Ok(_) => {},
                Err(error) => {
                    proof {
                        rules::lemma_evolves_trans(old(self)@, s1, self@);
                    }
                    return Err(error);
                },
            }
        }
        let ghost s2 = self@;
        proof {
            rules::lemma_evolves_bookkeeping(s1, s1);
        }
        let _ = self.update_identifier_types(lhs, lhs_ty, left);
        let ghost s3 = self@;
        let _ = self.update_identifier_types(rhs, rhs_ty, right);
        proof {
            rules::lemma_evolves_trans(old(self)@, s1, s2);
            rules::lemma_evolves_trans(old(self)@, s2, s3);
            rules::lemma_evolves_trans(old(self)@, s3, self@);
        }
        Ok(())
    }

    /// What follows the visits of the operands of a binary operation.
    pub fn resolve_binary(
        &mut self,
        op: &Operator,
        lhs: &ExprRef,
        rhs: &ExprRef,
        lhs_ty: &TypeDecl,
        rhs_ty: &TypeDecl,
    ) -> (result: Result<TypeDecl, TypeCheckError>)
        ensures
            (final(self)@, outcome(result)) == rules::resolve_binary(
                old(self)@,
                *op,
                *lhs,
                *rhs,
                lhs_ty@,
                rhs_ty@,
            ),
            evolves(old(self)@, final(self)@),
            rules::scopes_kept(old(self)@, final(self)@),
            rules::pending_kept(old(self)@, final(self)@),
    {
        proof {
            rules::lemma_evolves_bookkeeping(old(self)@, old(self)@);
        }
        let (resolved_lhs_ty, resolved_rhs_ty) = match self.resolve_numeric_types(lhs_ty, rhs_ty) {
            Ok(pair) => pair,
            Err(error) => {
                return Err(error);
            },
        };
        self.note_operands(lhs, rhs, lhs_ty, rhs_ty, &resolved_lhs_ty, &resolved_rhs_ty);
        let ghost noted = self@;
        let rewritten = self.rewrite_operands(
            lhs,
            rhs,
            lhs_ty,
            rhs_ty,
            &resolved_lhs_ty,
            &resolved_rhs_ty,
        );
        proof {
            rules::lemma_evolves_trans(old(self)@, noted, self@);
        }
        match rewritten {
            Ok(_) => binary_result(op, &resolved_lhs_ty, &resolved_rhs_ty),
            Err(error) => Err(error),
        }
    }

    /// Checks an assignment: both sides are visited and must have one type.
    pub fn visit_assign(&mut self, lhs: &ExprRef, rhs: &ExprRef, depth: usize) -> (result: Result<
        TypeDecl,
        TypeCheckError,
    >)
        ensures
            (final(self)@, outcome(result)) == rules::visit_assign(
                old(self)@,
                *lhs,
                *rhs,
                depth as nat,
            ),
            evolves(old(self)@, final(self)@),
            rules::scopes_kept(old(self)@, final(self)@),
            rules::pending_kept(old(self)@, final(self)@),
        decreases depth, 6nat, 0nat,
    {
        let lhs_ty = match self.accept_expr(lhs, "Invalid left-hand expression reference", depth) {
            Ok(ty) => ty,
            Err(error) => {
                return Err(error);
            },
        };
        let rhs_ty = match self.accept_expr(rhs, "Invalid right-hand expression reference", depth) {
            Ok(ty) => ty,
            Err(error) => {
                return Err(error);
            },
        };
        if !lhs_ty.same(&rhs_ty) {
            return Err(TypeCheckError::type_mismatch(lhs_ty, rhs_ty).with_context("assignment"));
        }
        Ok(lhs_ty)
    }

    /// Checks a call: a function that is not done is checked first; the call
    /// has the declared return type.
    pub fn visit_call(&mut self, fn_name: Symbol, _args: &ExprRef, depth: usize) -> (result: Result<
        TypeDecl,
        TypeCheckError,
    >)
        ensures
            (final(self)@, outcome(result)) == rules::visit_call(old(self)@, fn_name, depth as nat),
            evolves(old(self)@, final(self)@),
            rules::scopes_kept(old(self)@, final(self)@),
            rules::pending_kept(old(self)@, final(self)@),
            final(self)@.vars.len() == old(self)@.vars.len(),
            final(self)@.call_depth == old(self)@.call_depth,
            final(self)@.hint == old(self)@.hint,
        decreases depth, 6nat, 0nat,
    {
        self.push_context();
        match self.context.get_fn(fn_name) {
            Some(fun) => {
                let done = match self.check_status(fn_name) {
                    Some(Some(_)) => true,
                    _ => false,
                };
                let ghost opened = self@;
                proof {
                    rules::lemma_evolves_bookkeeping(old(self)@, opened);
                    rules::lemma_evolves_bookkeeping(opened, opened);
                }
                if !done {
                    let checked = self.check_function(&fun, depth);
                    proof {
                        rules::lemma_evolves_trans(old(self)@, opened, self@);
                    }
                    match checked {
                        Ok(_) => {},
                        Err(error) => {
                            let ghost inside = self@;
                            self.pop_context();
                            proof {
                                rules::lemma_evolves_bookkeeping(inside, self@);
                                rules::lemma_evolves_trans(old(self)@, inside, self@);
                            }
                            return Err(error);
                        },
                    }
                }
                let ghost inside = self@;
                self.pop_context();
                proof {
                    rules::lemma_evolves_bookkeeping(inside, self@);
                    rules::lemma_evolves_trans(old(self)@, inside, self@);
                }
                match &fun.return_type {
                    Some(ty) => Ok(ty.clone()),
                    None => Ok(TypeDecl::Unknown),
                }
            },
            None => {
                self.pop_context();
                let fn_name_str = self.name_of(fn_name, "<NOT_FOUND>");
                Err(TypeCheckError::not_found("Function", fn_name_str))
            },
        }
    }

    /// The statements of a function's body.
    pub fn function_body(&self, code: &StmtRef) -> (body: Result<Vec<StmtRef>, TypeCheckError>)
        ensures
            match body {
                Ok(stmts) => rules::function_body(self@, *code) == Ok::<Seq<StmtRef>, ErrorView>(
                    stmts@,
                ),
                Err(error) => rules::function_body(self@, *code) == Err::<Seq<StmtRef>, ErrorView>(
                    error@,
                ),
            },
    {
        let pool: &'a StmtPool = self.core.stmt_pool;
        match pool.get(code.to_index()) {
            None => Err(TypeCheckError::generic_error("Invalid statement reference")),
            Some(Stmt::Expression(e)) => match self.core.expr_pool.get(e.to_index()) {
                None => Err(TypeCheckError::generic_error("Invalid expression reference")),
                Some(Expr::Block(statements)) => Ok(copy_vec(statements)),
                Some(_) => Err(
                    TypeCheckError::generic_error("type_check: expected block expression"),
                ),
            },
            Some(_) => Err(TypeCheckError::generic_error("type_check: expected block statement")),
        }
    }

    /// Binds the parameters of a function in the innermost scope.
    pub fn bind_parameters(&mut self, parameters: &Vec<(Symbol, TypeDecl)>)
        ensures
            final(self)@ == rules::bind_parameters(old(self)@, parameters@),
            evolves(old(self)@, final(self)@),
            rules::scopes_kept(old(self)@, final(self)@),
            rules::pending_kept(old(self)@, final(self)@),
    {
        proof {
            rules::lemma_bind_parameters_frame(old(self)@, parameters@);
            rules::lemma_evolves_bookkeeping(
                old(self)@,
                rules::bind_parameters(old(self)@, parameters@),
            );
        }
        let mut i: usize = 0;
        assert(parameters@.subrange(0, 0) =~= Seq::<(Symbol, TypeDecl)>::empty());
        while i < parameters.len()
            invariant
                i <= parameters.len(),
                self@ == rules::bind_parameters(old(self)@, parameters@.subrange(0, i as int)),
                rules::scopes_kept(old(self)@, self@),
            decreases parameters.len() - i,
        {
            assert(parameters@.subrange(0, i + 1).drop_last() =~= parameters@.subrange(0, i as int));
            self.set_var(parameters[i].0, parameters[i].1.clone());
            i += 1;
        }
        assert(parameters@.subrange(0, parameters@.len() as int) =~= parameters@);
    }

    /// Visits the statements of a function's body in order; the type is
    /// that of the last one.
    pub fn check_body(&mut self, statements: &Vec<StmtRef>, depth: usize) -> (result: Result<
        TypeDecl,
        TypeCheckError,
    >)
        ensures
            (final(self)@, outcome(result)) == rules::body_loop(
                old(self)@,
                statements@,
                0,
                Ty::Unit,
                depth as nat,
            ),
            evolves(old(self)@, final(self)@),
            rules::scopes_kept(old(self)@, final(self)@),
            rules::pending_kept(old(self)@, final(self)@),
        decreases depth, 4nat, 0nat,
    {
        let mut last = TypeDecl::Unit;
        let mut i: usize = 0;
        proof {
            rules::lemma_evolves_bookkeeping(old(self)@, old(self)@);
        }
        while i < statements.len()
            invariant
                i <= statements.len(),
                rules::body_loop(old(self)@, statements@, 0, Ty::Unit, depth as nat)
                    == rules::body_loop(self@, statements@, i as int, last@, depth as nat),
                evolves(old(self)@, self@),
                rules::scopes_kept(old(self)@, self@),
                rules::pending_kept(old(self)@, self@),
            decreases statements.len() - i,
        {
            let ghost before = self@;
            let step = self.accept_stmt(&statements[i], "Invalid statement reference", depth);
            proof {
                rules::lemma_evolves_trans(old(self)@, before, self@);
            }
            match step {
                Ok(ty) => {
                    last = ty;
                },
                Err(error) => {
                    return Err(error);
                },
            }
            i += 1;
        }
        Ok(last)
    }

    /// Marks a function as being checked and enters it.
    pub fn enter_function(&mut self, name: Symbol)
        requires
            !old(self)@.checked.contains_key(name.0),
        ensures
            final(self)@ == (CheckerState {
                checked: old(self)@.checked.insert(name.0, None),
                cache: Map::empty(),
                call_depth: rules::entered(old(self)@.call_depth),
                ..old(self)@
            }),
            evolves(old(self)@, final(self)@),
            rules::scopes_kept(old(self)@, final(self)@),
            rules::pending(final(self)@, name.0),
            rules::pending_but(old(self)@, final(self)@, name),
    {
        self.set_check_status(name, None);
        self.clear_cache();
        if self.function_checking.call_depth < usize::MAX {
            self.function_checking.call_depth += 1;
        }
        proof {
            if rules::settled(old(self)@) && rules::any_done(self@) {
                let f = choose|f: u32|
                    self@.checked.contains_key(f) && (#[trigger] self@.checked[f]) is Some;
                assert(old(self)@.checked.contains_key(f) && old(self)@.checked[f] is Some);
            }
        }
    }

    /// Gives up the check of a function: the function is marked neither as
    /// done nor as in progress, and the call depth and the hint are set to
    /// those of the check's start.
    pub fn abandon(&mut self, name: Symbol, call_depth: usize, hint: Option<TypeDecl>)
        ensures
            final(self)@ == rules::abandoned(
                old(self)@,
                call_depth as nat,
                option_view(hint),
                name,
            ),
            evolves(old(self)@, final(self)@),
            !rules::pending(final(self)@, name.0),
            rules::pending_but(old(self)@, final(self)@, name),
            final(self)@.vars == old(self)@.vars,
            final(self)@.exprs == old(self)@.exprs,
    {
        self.function_checking.is_checked_fn.remove(&name.0);
        self.function_checking.call_depth = call_depth;
        self.type_inference.type_hint = hint;
        proof {
            assert(status_view(self.function_checking.is_checked_fn@) =~= status_view(
                old(self).function_checking.is_checked_fn@,
            ).remove(name.0));
            rules::lemma_abandoned(old(self)@, call_depth as nat, option_view(hint), name);
        }
    }

    /// Opens the scope of a function's body: the parameters are bound, and
    /// the body's first integer annotation is the hint.
    pub fn open_function(&mut self, func: &Rc<Function>, statements: &Vec<StmtRef>)
        ensures
            final(self)@ == rules::opened(old(self)@, **func, statements@),
            evolves(old(self)@, final(self)@),
            rules::pending_kept(old(self)@, final(self)@),
            final(self)@.vars.len() == old(self)@.vars.len() + 1,
    {
        self.push_context();
        let ghost pushed = self@;
        self.bind_parameters(&func.parameter);
        let ghost bound = self@;
        self.apply_block_hint(statements);
        proof {
            rules::lemma_evolves_bookkeeping(old(self)@, pushed);
            rules::lemma_evolves_trans(old(self)@, pushed, bound);
            rules::lemma_evolves_trans(old(self)@, bound, self@);
        }
    }

    /// Ends the check of a function whose scope is closed: the type of the
    /// body is held against the declared return type, and recorded where
    /// they agree.
    pub fn conclude(
        &mut self,
        func: &Rc<Function>,
        last: TypeDecl,
        call_depth: usize,
        hint: Option<TypeDecl>,
    ) -> (result: Result<TypeDecl, TypeCheckError>)
        ensures
            (final(self)@, outcome(result)) == rules::conclude(
                old(self)@,
                call_depth as nat,
                option_view(hint),
                **func,
                last@,
            ),
            old(self)@.number_free() ==> evolves(old(self)@, final(self)@),
            !rules::pending(final(self)@, func.name.0),
            rules::pending_but(old(self)@, final(self)@, func.name),
            final(self)@.exprs == old(self)@.exprs,
            final(self)@.vars == old(self)@.vars,
    {
        match &func.return_type {
            Some(expected_return_type) => {
                if !expected_return_type.same(&last) {
                    self.abandon(func.name, call_depth, hint);
                    return Err(TypeCheckError::type_mismatch(expected_return_type.clone(), last));
                }
            },
            None => {},
        }
        self.set_check_status(func.name, Some(last.clone()));
        self.function_checking.call_depth = call_depth;
        self.set_hint(hint);
        Ok(last)
    }

    /// Checks a function at the given nesting budget. On every way out the
    /// scope of the function is closed, and the call depth and the hint are
    /// as before.
    #[verifier::rlimit(100)]
    pub fn check_function(&mut self, func: &Rc<Function>, depth: usize) -> (result: Result<
        TypeDecl,
        TypeCheckError,
    >)
        ensures
            (final(self)@, outcome(result)) == rules::type_check(old(self)@, **func, depth as nat),
            evolves(old(self)@, final(self)@),
            rules::pending_kept(old(self)@, final(self)@),
            final(self)@.vars.len() == old(self)@.vars.len(),
            final(self)@.call_depth == old(self)@.call_depth,
            final(self)@.hint == old(self)@.hint,
            !old(self)@.checked.contains_key(func.name.0) ==> match result {
                Ok(ty) => {
                    &&& final(self)@.checked.contains_key(func.name.0)
                    &&& final(self)@.checked[func.name.0] == Some(ty@)
                    &&& func.return_type is Some ==> func.return_type->0@ == ty@
                },
                Err(_) => !final(self)@.checked.contains_key(func.name.0),
            },
            result is Ok && rules::settled(old(self)@) && !(old(self)@.checked.contains_key(
                func.name.0,
            ) && old(self)@.checked[func.name.0] is None) ==> final(self)@.number_free(),
        decreases depth, 5nat, 0nat,
    {
        proof {
            rules::lemma_evolves_bookkeeping(old(self)@, old(self)@);
        }
        match self.check_status(func.name) {
            Some(Some(result_ty)) => {
                return Ok(result_ty);
            },
            Some(None) => {
                return Ok(TypeDecl::Unknown);
            },
            None => {},
        }
        let outer_hint = self.hint();
        let outer_depth = self.function_checking.call_depth;
        self.enter_function(func.name);
        let ghost s1 = self@;
        let statements = match self.function_body(&func.code) {
            Ok(statements) => statements,
            Err(error) => {
                self.abandon(func.name, outer_depth, outer_hint);
                proof {
                    rules::lemma_evolves_trans(old(self)@, s1, self@);
                }
                return Err(error);
            },
        };
        self.open_function(func, &statements);
        let ghost s3 = self@;
        proof {
            rules::lemma_evolves_trans(old(self)@, s1, s3);
        }
        let body = self.check_body(&statements, depth);
        let ghost s4 = self@;
        proof {
            rules::lemma_evolves_trans(old(self)@, s3, s4);
        }
        let last = match body {
            Ok(last) => last,
            Err(error) => {
                self.pop_context();
                let ghost closed = self@;
                self.abandon(func.name, outer_depth, outer_hint);
                proof {
                    rules::lemma_evolves_bookkeeping(s4, closed);
                    rules::lemma_evolves_trans(old(self)@, s4, closed);
                    rules::lemma_evolves_trans(old(self)@, closed, self@);
                }
                return Err(error);
            },
        };
        assert(rules::pending_but(old(self)@, s4, func.name));
        let finalized = self.finalize_number_types();
        let ghost s5 = self@;
        proof {
            rules::lemma_evolves_trans(old(self)@, s4, s5);
        }
        self.pop_context();
        let ghost s6 = self@;
        proof {
            rules::lemma_evolves_bookkeeping(s5, s6);
            rules::lemma_evolves_trans(old(self)@, s5, s6);
            assert(s6.checked == s5.checked);
            assert(rules::pending_kept(s4, s6));
            assert(rules::pending_but(old(self)@, s6, func.name));
        }
        match finalized {
            Ok(_) => {},
            Err(error) => {
                self.abandon(func.name, outer_depth, outer_hint);
                proof {
                    rules::lemma_evolves_trans(old(self)@, s6, self@);
                }
                return Err(error);
            },
        }
        let concluded = self.conclude(func, last, outer_depth, outer_hint);
        proof {
            rules::lemma_evolves_trans(old(self)@, s6, self@);
        }
        concluded
    }

    /// Visits the statements of a block in order.
    pub fn check_block_statements(&mut self, statements: &Vec<StmtRef>, depth: usize) -> (result:
        Result<Option<TypeDecl>, TypeCheckError>)
        ensures
            rules::block_loop(old(self)@, statements@, 0, None, true, depth as nat) == (
                final(self)@,
                match result {
                    Ok(last) => Ok::<Option<Ty>, ErrorView>(option_view(last)),
                    Err(error) => Err::<Option<Ty>, ErrorView>(error@),
                },
            ),
            evolves(old(self)@, final(self)@),
            rules::scopes_kept(old(self)@, final(self)@),
            rules::pending_kept(old(self)@, final(self)@),
        decreases depth, 4nat, 0nat,
    {
        let mut last_empty = true;
        let mut last: Option<TypeDecl> = None;
        let pool: &'a StmtPool = self.core.stmt_pool;
        let mut i: usize = 0;
        proof {
            rules::lemma_evolves_bookkeeping(old(self)@, old(self)@);
        }
        while i < statements.len()
            invariant
                i <= statements.len(),
                pool@ == self@.stmts,
                rules::block_loop(old(self)@, statements@, 0, None, true, depth as nat)
                    == rules::block_loop(
                    self@,
                    statements@,
                    i as int,
                    option_view(last),
                    last_empty,
                    depth as nat,
                ),
                evolves(old(self)@, self@),
                rules::scopes_kept(old(self)@, self@),
                rules::pending_kept(old(self)@, self@),
            decreases statements.len() - i,
        {
            let ghost before = self@;
            let stmt = match pool.get(statements[i].to_index()) {
                Some(stmt) => stmt,
                None => {
                    return Err(TypeCheckError::generic_error("Invalid statement reference in block"));
                },
            };
            let stmt_type = match stmt {
                Stmt::Return(None) => TypeDecl::Unit,
                Stmt::Return(Some(e)) => {
                    let step = self.accept_expr(e, "Invalid expression reference in return", depth);
                    proof {
                        rules::lemma_evolves_trans(old(self)@, before, self@);
                    }
                    let ty = match step {
                        Ok(ty) => ty,
                        Err(error) => {
                            return Err(error);
                        },
                    };
                    if !last_empty {
                        match last {
                            Some(last_ty) => {
                                if !last_ty.same(&ty) {
                                    return Err(
                                        TypeCheckError::type_mismatch(last_ty, ty).with_context(
                                            "return statement",
                                        ),
                                    );
                                }
                            },
                            None => {},
                        }
                    }
                    last_empty = false;
                    ty
                },
                _ => {
                    let step = self.accept_stmt(&statements[i], "Invalid statement reference", depth);
                    proof {
                        rules::lemma_evolves_trans(old(self)@, before, self@);
                    }
                    match step {
                        Ok(ty) => ty,
                        Err(error) => {
                            return Err(error);
                        },
                    }
                },
            };
            last = Some(stmt_type);
            i += 1;
        }
        Ok(last)
    }

    /// Checks a block: its type is that of its last statement.
    pub fn visit_block(&mut self, statements: &Vec<StmtRef>, depth: usize) -> (result: Result<
        TypeDecl,
        TypeCheckError,
    >)
        ensures
            (final(self)@, outcome(result)) == rules::visit_block(
                old(self)@,
                statements@,
                depth as nat,
            ),
            evolves(old(self)@, final(self)@),
            rules::scopes_kept(old(self)@, final(self)@),
            rules::pending_kept(old(self)@, final(self)@),
        decreases depth, 6nat, 0nat,
    {
        self.clear_cache();
        let outer_hint = self.hint();
        self.apply_block_hint(statements);
        let ghost start = self@;
        let checked = self.check_block_statements(statements, depth);
        let ghost visited = self@;
        proof {
            rules::lemma_evolves_bookkeeping(old(self)@, start);
            rules::lemma_evolves_trans(old(self)@, start, visited);
        }
        self.set_hint(outer_hint);
        proof {
            rules::lemma_evolves_bookkeeping(visited, self@);
            rules::lemma_evolves_trans(old(self)@, visited, self@);
        }
        match checked {
            Ok(Some(last_type)) => Ok(last_type),
            Ok(None) => Err(TypeCheckError::generic_error("Empty block - no return value")),
            Err(error) => Err(error),
        }
    }

    /// Whether `e` is a block without statements.
    pub fn is_empty_block(&self, e: &ExprRef) -> (yes: bool)
        ensures
            yes == self@.is_empty_block(*e),
    {
        match self.core.expr_pool.get(e.to_index()) {
            Some(Expr::Block(statements)) => statements.len() == 0,
            _ => false,
        }
    }

    /// Visits one branch of an `if` and adds its type to `types`.
    pub fn visit_branch(&mut self, block: &ExprRef, invalid: &str, types: &mut Vec<TypeDecl>, depth: usize) -> (result:
        Result<(), TypeCheckError>)
        ensures
            rules::visit_branch(old(self)@, *block, invalid@, types_view(old(types)@), depth as nat)
                == (
                final(self)@,
                match result {
                    Ok(_) => Ok::<Seq<Ty>, ErrorView>(types_view(final(types)@)),
                    Err(error) => Err::<Seq<Ty>, ErrorView>(error@),
                },
            ),
            evolves(old(self)@, final(self)@),
            rules::scopes_kept(old(self)@, final(self)@),
            rules::pending_kept(old(self)@, final(self)@),
        decreases depth, 2nat, 0nat,
    {
        if self.is_empty_block(block) {
            return Ok(());
        }
        match self.accept_expr(block, invalid, depth) {
            Ok(ty) => {
                types.push(ty);
                assert(types_view(types@) =~= types_view(old(types)@).push(ty@));
                Ok(())
            },
            Err(error) => Err(error),
        }
    }

    /// Visits the `elif` branches in order.
    pub fn visit_elif_branches(
        &mut self,
        elif_pairs: &Vec<(ExprRef, ExprRef)>,
        types: &mut Vec<TypeDecl>,
        depth: usize,
    ) -> (result: Result<(), TypeCheckError>)
        ensures
            rules::elif_loop(old(self)@, elif_pairs@, 0, types_view(old(types)@), depth as nat) == (
                final(self)@,
                match result {
                    Ok(_) => Ok::<Seq<Ty>, ErrorView>(types_view(final(types)@)),
                    Err(error) => Err::<Seq<Ty>, ErrorView>(error@),
                },
            ),
            evolves(old(self)@, final(self)@),
            rules::scopes_kept(old(self)@, final(self)@),
            rules::pending_kept(old(self)@, final(self)@),
        decreases depth, 4nat, 0nat,
    {
        let mut i: usize = 0;
        proof {
            rules::lemma_evolves_bookkeeping(old(self)@, old(self)@);
        }
        while i < elif_pairs.len()
            invariant
                i <= elif_pairs.len(),
                rules::elif_loop(old(self)@, elif_pairs@, 0, types_view(old(types)@), depth as nat)
                    == rules::elif_loop(
                    self@,
                    elif_pairs@,
                    i as int,
                    types_view(types@),
                    depth as nat,
                ),
                evolves(old(self)@, self@),
                rules::scopes_kept(old(self)@, self@),
                rules::pending_kept(old(self)@, self@),
            decreases elif_pairs.len() - i,
        {
            let ghost before = self@;
            let elif_block = elif_pairs[i].1;
            let step = self.visit_branch(
                &elif_block,
                "Invalid elif block expression reference",
                types,
                depth,
            );
            proof {
                rules::lemma_evolves_trans(old(self)@, before, self@);
            }
            match step {
                Ok(_) => {},
                Err(error) => {
                    return Err(error);
                },
            }
            i += 1;
        }
        Ok(())
    }

    /// Checks an `if`: the type is the common type of the branches with
    /// statements, or `Unit`.
    pub fn visit_if_elif_else(
        &mut self,
        _cond: &ExprRef,
        then_block: &ExprRef,
        elif_pairs: &Vec<(ExprRef, ExprRef)>,
        else_block: &ExprRef,
        depth: usize,
    ) -> (result: Result<TypeDecl, TypeCheckError>)
        ensures
            (final(self)@, outcome(result)) == rules::visit_if_elif_else(
                old(self)@,
                *then_block,
                elif_pairs@,
                *else_block,
                depth as nat,
            ),
            evolves(old(self)@, final(self)@),
            rules::scopes_kept(old(self)@, final(self)@),
            rules::pending_kept(old(self)@, final(self)@),
        decreases depth, 6nat, 0nat,
    {
        let mut block_types: Vec<TypeDecl> = Vec::new();
        assert(types_view(block_types@) =~= Seq::<Ty>::empty());
        let first = self.visit_branch(
            then_block,
            "Invalid if block expression reference",
            &mut block_types,
            depth,
        );
        let ghost s1 = self@;
        match first {
            Ok(_) => {},
            Err(error) => {
                return Err(error);
            },
        }
        let second = self.visit_elif_branches(elif_pairs, &mut block_types, depth);
        let ghost s2 = self@;
        proof {
            rules::lemma_evolves_trans(old(self)@, s1, s2);
        }
        match second {
            Ok(_) => {},
            Err(error) => {
                return Err(error);
            },
        }
        let third = self.visit_branch(
            else_block,
            "Invalid else block expression reference",
            &mut block_types,
            depth,
        );
        proof {
            rules::lemma_evolves_trans(old(self)@, s2, self@);
        }
        match third {
            Ok(_) => {},
            Err(error) => {
                return Err(error);
            },
        }
        Ok(common_type(&block_types))
    }

    /// Visits each of the expressions through the type cache.
    pub fn visit_all(&mut self, exprs: &Vec<ExprRef>, depth: usize) -> (result: Result<(), TypeCheckError>)
        ensures
            (final(self)@, unit_outcome(result)) == rules::visit_all(
                old(self)@,
                exprs@,
                0,
                depth as nat,
            ),
            evolves(old(self)@, final(self)@),
            rules::scopes_kept(old(self)@, final(self)@),
            rules::pending_kept(old(self)@, final(self)@),
        decreases depth, 4nat, 0nat,
    {
        let mut i: usize = 0;
        while i < exprs.len()
            invariant
                i <= exprs.len(),
                rules::visit_all(old(self)@, exprs@, 0, depth as nat) == rules::visit_all(
                    self@,
                    exprs@,
                    i as int,
                    depth as nat,
                ),
                evolves(old(self)@, self@),
                rules::scopes_kept(old(self)@, self@),
                rules::pending_kept(old(self)@, self@),
            decreases exprs.len() - i,
        {
            let ghost before = self@;
            let step = self.visit_expr(&exprs[i], depth);
            proof {
                rules::lemma_evolves_trans(old(self)@, before, self@);
            }
            match step {
                Ok(_) => {},
                Err(error) => {
                    return Err(error);
                },
            }
            i += 1;
        }
        Ok(())
    }

    /// Brings the element types of an array literal to the expected one.
    pub fn conform_elements(&mut self, elements: &Vec<ExprRef>, types: &mut Vec<TypeDecl>, expected: &TypeDecl) -> (result:
        Result<(), TypeCheckError>)
        requires
            old(types)@.len() == elements@.len(),
        ensures
            rules::conform_elements(old(self)@, elements@, types_view(old(types)@), 0, expected@) == (
                final(self)@,
                match result {
                    Ok(_) => Ok::<Seq<Ty>, ErrorView>(types_view(final(types)@)),
                    Err(error) => Err::<Seq<Ty>, ErrorView>(error@),
                },
            ),
            evolves(old(self)@, final(self)@),
            rules::scopes_kept(old(self)@, final(self)@),
            rules::pending_kept(old(self)@, final(self)@),
            result is Ok ==> final(types)@.len() == elements@.len(),
    {
        let mut i: usize = 0;
        while i < elements.len()
            invariant
                i <= elements.len(),
                types@.len() == elements@.len(),
                rules::conform_elements(
                    old(self)@,
                    elements@,
                    types_view(old(types)@),
                    0,
                    expected@,
                ) == rules::conform_elements(
                    self@,
                    elements@,
                    types_view(types@),
                    i as int,
                    expected@,
                ),
                evolves(old(self)@, self@),
                rules::scopes_kept(old(self)@, self@),
                rules::pending_kept(old(self)@, self@),
            decreases elements.len() - i,
        {
            let ghost before = types_view(types@);
            assert(before[i as int] == types@[i as int]@);
            if matches!(types[i], TypeDecl::Number) {
                match self.transform_numeric_expr(&elements[i], expected) {
                    Ok(_) => {},
                    Err(error) => {
                        return Err(error);
                    },
                }
                types.set(i, expected.clone());
                assert(types_view(types@) =~= before.update(i as int, expected@));
            } else if types[i].same(expected) {
                match self.transform_numeric_expr(&elements[i], expected) {
                    Ok(_) => {},
                    Err(error) => {
                        return Err(error);
                    },
                }
            } else if matches!(types[i], TypeDecl::Unknown) {
                types.set(i, expected.clone());
                assert(types_view(types@) =~= before.update(i as int, expected@));
            } else if types[i].is_integer() && expected.is_integer() {
                let message = element_message(
                    "Cannot mix signed and unsigned integers in array. Element ",
                    i,
                    &types[i],
                    " but expected ",
                    expected,
                );
                return Err(TypeCheckError::array_error(message.as_str()));
            } else {
                let message = element_message(
                    "Array element ",
                    i,
                    &types[i],
                    " but expected ",
                    expected,
                );
                return Err(TypeCheckError::array_error(message.as_str()));
            }
            i += 1;
        }
        Ok(())
    }

    /// Visits the elements of an array literal, each under the element
    /// hint, and collects their types.
    pub fn visit_elements(&mut self, elements: &Vec<ExprRef>, depth: usize) -> (result: Result<
        Vec<TypeDecl>,
        TypeCheckError,
    >)
        ensures
            rules::elements_loop(
                old(self)@,
                elements@,
                0,
                Seq::empty(),
                old(self)@.hint,
                depth as nat,
            ) == (
                final(self)@,
                match result {
                    Ok(types) => Ok::<Seq<Ty>, ErrorView>(types_view(types@)),
                    Err(error) => Err::<Seq<Ty>, ErrorView>(error@),
                },
            ),
            evolves(old(self)@, final(self)@),
            rules::scopes_kept(old(self)@, final(self)@),
            rules::pending_kept(old(self)@, final(self)@),
            result is Ok ==> result->Ok_0@.len() == elements@.len(),
        decreases depth, 4nat, 0nat,
    {
        let outer_hint = self.hint();
        let element_type_hint = element_hint_of(&outer_hint);
        let mut element_types: Vec<TypeDecl> = Vec::new();
        assert(types_view(element_types@) =~= Seq::<Ty>::empty());
        let mut i: usize = 0;
        proof {
            rules::lemma_evolves_bookkeeping(old(self)@, old(self)@);
        }
        while i < elements.len()
            invariant
                i <= elements.len(),
                element_types@.len() == i,
                option_view(outer_hint) == old(self)@.hint,
                option_view(element_type_hint) == rules::element_hint_of(old(self)@.hint),
                rules::elements_loop(
                    old(self)@,
                    elements@,
                    0,
                    Seq::empty(),
                    old(self)@.hint,
                    depth as nat,
                ) == rules::elements_loop(
                    self@,
                    elements@,
                    i as int,
                    types_view(element_types@),
                    old(self)@.hint,
                    depth as nat,
                ),
                evolves(old(self)@, self@),
                rules::scopes_kept(old(self)@, self@),
                rules::pending_kept(old(self)@, self@),
            decreases elements.len() - i,
        {
            let ghost s0 = self@;
            if element_type_hint.is_some() {
                self.set_hint(clone_option(&element_type_hint));
            }
            let ghost s1 = self@;
            let step = self.visit_expr(&elements[i], depth);
            let ghost s2 = self@;
            proof {
                rules::lemma_evolves_bookkeeping(s0, s1);
                rules::lemma_evolves_trans(old(self)@, s0, s1);
                rules::lemma_evolves_trans(old(self)@, s1, s2);
            }
            let element_type = match step {
                Ok(ty) => ty,
                Err(error) => {
                    self.set_hint(clone_option(&outer_hint));
                    proof {
                        rules::lemma_evolves_bookkeeping(s2, self@);
                        rules::lemma_evolves_trans(old(self)@, s2, self@);
                    }
                    return Err(error);
                },
            };
            let ghost before = types_view(element_types@);
            element_types.push(element_type);
            assert(types_view(element_types@) =~= before.push(element_type@));
            self.set_hint(clone_option(&outer_hint));
            proof {
                rules::lemma_evolves_bookkeeping(s2, self@);
                rules::lemma_evolves_trans(old(self)@, s2, self@);
            }
            i += 1;
        }
        Ok(element_types)
    }

    /// Checks an array literal: its elements are brought to one type.
    pub fn visit_array_literal(&mut self, elements: &Vec<ExprRef>, depth: usize) -> (result: Result<
        TypeDecl,
        TypeCheckError,
    >)
        ensures
            (final(self)@, outcome(result)) == rules::visit_array_literal(
                old(self)@,
                elements@,
                depth as nat,
            ),
            evolves(old(self)@, final(self)@),
            rules::scopes_kept(old(self)@, final(self)@),
            rules::pending_kept(old(self)@, final(self)@),
        decreases depth, 6nat, 0nat,
    {
        proof {
            rules::lemma_evolves_bookkeeping(old(self)@, old(self)@);
        }
        if elements.len() == 0 {
            return Err(TypeCheckError::array_error("Empty array literals are not supported"));
        }
        let outer_hint = self.hint();
        let element_type_hint = element_hint_of(&outer_hint);
        let visited = self.visit_elements(elements, depth);
        let ghost s1 = self@;
        let mut element_types = match visited {
            Ok(types) => types,
            Err(error) => {
                return Err(error);
            },
        };
        match &element_type_hint {
            Some(expected) => {
                let conformed = self.conform_elements(elements, &mut element_types, expected);
                proof {
                    rules::lemma_evolves_trans(old(self)@, s1, self@);
                }
                match conformed {
                    Ok(_) => {},
                    Err(error) => {
                        let ghost failed = self@;
                        self.set_hint(outer_hint);
                        proof {
                            rules::lemma_evolves_bookkeeping(failed, self@);
                            rules::lemma_evolves_trans(old(self)@, failed, self@);
                        }
                        return Err(error);
                    },
                }
            },
            None => {},
        }
        let ghost s2 = self@;
        self.set_hint(outer_hint);
        proof {
            rules::lemma_evolves_bookkeeping(s2, self@);
            rules::lemma_evolves_trans(old(self)@, s2, self@);
        }
        match first_different(&element_types) {
            Some(i) => {
                let message = element_message(
                    "Array elements must have the same type, but element ",
                    i,
                    &element_types[i],
                    " while first element has type ",
                    &element_types[0],
                );
                return Err(TypeCheckError::array_error(message.as_str()));
            },
            None => {},
        }
        let size = elements.len();
        let mut element_type: Vec<TypeDecl> = Vec::new();
        element_type.push(element_types[0].clone());
        let array = TypeDecl::Array(element_type, size);
        assert(array@->Array_0 =~= seq![types_view(element_types@)[0]]);
        Ok(array)
    }

    /// Checks an indexing: the type is the array's element type. After a
    /// successful check the index is no unresolved literal: a literal index
    /// is rewritten to `UInt64` here.
    pub fn visit_array_access(&mut self, array: &ExprRef, index: &ExprRef, depth: usize) -> (result: Result<
        TypeDecl,
        TypeCheckError,
    >)
        ensures
            (final(self)@, outcome(result)) == rules::visit_array_access(
                old(self)@,
                *array,
                *index,
                depth as nat,
            ),
            result is Ok ==> !final(self)@.is_number(*index),
            evolves(old(self)@, final(self)@),
            rules::scopes_kept(old(self)@, final(self)@),
            rules::pending_kept(old(self)@, final(self)@),
        decreases depth, 6nat, 0nat,
    {
        let array_type = match self.visit_expr(array, depth) {
            Ok(ty) => ty,
            Err(error) => {
                return Err(error);
            },
        };
        let ghost s1 = self@;
        let outer_hint = self.hint();
        self.set_hint(Some(TypeDecl::UInt64));
        let ghost hinted = self@;
        let visited = self.visit_expr(index, depth);
        let ghost s2 = self@;
        self.set_hint(outer_hint);
        let ghost s3 = self@;
        proof {
            rules::lemma_evolves_bookkeeping(s1, hinted);
            rules::lemma_evolves_trans(old(self)@, s1, hinted);
            rules::lemma_evolves_trans(old(self)@, hinted, s2);
            rules::lemma_evolves_bookkeeping(s2, s3);
            rules::lemma_evolves_trans(old(self)@, s2, s3);
            assert(rules::node_rewritten(
                old(self)@.strings,
                old(self)@.exprs[index.0 as int],
                s3.exprs[index.0 as int],
            ) || !old(self)@.has_expr(*index));
        }
        let index_type = match visited {
            Ok(ty) => ty,
            Err(error) => {
                return Err(error);
            },
        };
        if self.has_number_in_expr(index) || matches!(index_type, TypeDecl::Number) {
            let rewritten = self.transform_numeric_expr(index, &TypeDecl::UInt64);
            proof {
                rules::lemma_evolves_trans(old(self)@, s3, self@);
            }
            match rewritten {
                Ok(_) => {},
                Err(error) => {
                    return Err(error);
                },
            }
        } else {
            match index_type {
                TypeDecl::Unknown | TypeDecl::UInt64 | TypeDecl::Int64 => {},
                _ => {
                    let mut message = String::from_str(
                        "Array index must be an integer type, but got ",
                    );
                    index_type.push_text(&mut message);
                    return Err(TypeCheckError::array_error(message.as_str()));
                },
            }
        }
        element_type(&array_type)
    }

    /// Checks a field access: a field of a struct has the type `Unknown`.
    pub fn visit_field_access(&mut self, obj: &ExprRef, field: &Symbol, depth: usize) -> (result: Result<
        TypeDecl,
        TypeCheckError,
    >)
        ensures
            (final(self)@, outcome(result)) == rules::visit_field_access(
                old(self)@,
                *obj,
                *field,
                depth as nat,
            ),
            evolves(old(self)@, final(self)@),
            rules::scopes_kept(old(self)@, final(self)@),
            rules::pending_kept(old(self)@, final(self)@),
        decreases depth, 6nat, 0nat,
    {
        let obj_type = match self.visit_expr(obj, depth) {
            Ok(ty) => ty,
            Err(error) => {
                return Err(error);
            },
        };
        match obj_type {
            TypeDecl::Identifier(_) | TypeDecl::Struct(_) => Ok(TypeDecl::Unknown),
            _ => {
                let field_name = self.name_of(*field, "<unknown>");
                let mut label = String::from_str("field access '");
                label.append(field_name);
                label.append("'");
                Err(TypeCheckError::unsupported_operation(label.as_str(), obj_type))
            },
        }
    }

    /// Checks a method call: the receiver and the arguments are visited.
    pub fn visit_method_call(
        &mut self,
        obj: &ExprRef,
        method: &Symbol,
        args: &Vec<ExprRef>,
        depth: usize,
    ) -> (result: Result<TypeDecl, TypeCheckError>)
        ensures
            (final(self)@, outcome(result)) == rules::visit_method_call(
                old(self)@,
                *obj,
                *method,
                args@,
                depth as nat,
            ),
            evolves(old(self)@, final(self)@),
            rules::scopes_kept(old(self)@, final(self)@),
            rules::pending_kept(old(self)@, final(self)@),
        decreases depth, 6nat, 0nat,
    {
        let obj_type = match self.visit_expr(obj, depth) {
            Ok(ty) => ty,
            Err(error) => {
                return Err(error);
            },
        };
        match self.visit_all(args, depth) {
            Ok(_) => {},
            Err(error) => {
                return Err(error);
            },
        }
        let method_name = self.name_of(*method, "<unknown>");
        method_result(method_name, obj_type, args.len())
    }

    /// Checks a struct literal: the values of its fields are visited.
    pub fn visit_struct_literal(
        &mut self,
        struct_name: &Symbol,
        fields: &Vec<(Symbol, ExprRef)>,
        depth: usize,
    ) -> (result: Result<TypeDecl, TypeCheckError>)
        ensures
            (final(self)@, outcome(result)) == rules::visit_struct_literal(
                old(self)@,
                *struct_name,
                fields@,
                depth as nat,
            ),
            evolves(old(self)@, final(self)@),
            rules::scopes_kept(old(self)@, final(self)@),
            rules::pending_kept(old(self)@, final(self)@),
        decreases depth, 6nat, 0nat,
    {
        let values = field_values(fields);
        match self.visit_all(&values, depth) {
            Ok(_) => Ok(TypeDecl::Struct(*struct_name)),
            Err(error) => Err(error),
        }
    }
}

} // verus!
