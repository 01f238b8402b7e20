//! Nodes that accept a visitor.

use crate::ast::{Expr, Stmt};
use crate::type_checker::error::TypeCheckError;
use crate::type_checker::model::{CheckerState, Outcome};
use crate::type_checker::rules;
use crate::type_checker::{outcome, TypeCheckerVisitor};
use crate::type_decl::TypeDecl;
use vstd::prelude::*;

verus! {

/// A node that a type checker can visit.
pub trait Acceptable {
    /// What the visit of this node gives at the nesting budget `depth`.
    spec fn accepted(&self, s: CheckerState, depth: nat) -> (CheckerState, Outcome);

    /// Has `visitor` visit this node.
    fn accept<'a>(&self, visitor: &mut TypeCheckerVisitor<'a>, depth: usize) -> (result: Result<
        TypeDecl,
        TypeCheckError,
    >)
        ensures
            (final(visitor)@, outcome(result)) == self.accepted(old(visitor)@, depth as nat),
            rules::evolves(old(visitor)@, final(visitor)@),
            rules::pending_kept(old(visitor)@, final(visitor)@),
            rules::scopes_kept(old(visitor)@, final(visitor)@),
    ;
}

impl Acceptable for Expr {
    open spec fn accepted(&self, s: CheckerState, depth: nat) -> (CheckerState, Outcome) {
        rules::dispatch_expr(s, *self, depth)
    }

    fn accept<'a>(&self, visitor: &mut TypeCheckerVisitor<'a>, depth: usize) -> (result: Result<
        TypeDecl,
        TypeCheckError,
    >) {
        proof {
            rules::lemma_evolves_bookkeeping(old(visitor)@, old(visitor)@);
        }
        match self {
            Expr::Binary(op, lhs, rhs) => visitor.visit_binary(op, lhs, rhs, depth),
            Expr::Block(statements) => visitor.visit_block(statements, depth),
            Expr::IfElifElse(cond, then_block, elif_pairs, else_block) => visitor.visit_if_elif_else(
                cond,
                then_block,
                elif_pairs,
                else_block,
                depth,
            ),
            Expr::Assign(lhs, rhs) => visitor.visit_assign(lhs, rhs, depth),
            Expr::Identifier(name) => visitor.visit_identifier(*name),
            Expr::Call(fn_name, args) => visitor.visit_call(*fn_name, args, depth),
            Expr::Int64(value) => visitor.visit_int64_literal(value),
            Expr::UInt64(value) => visitor.visit_uint64_literal(value),
            Expr::Number(value) => visitor.visit_number_literal(*value),
            Expr::String(value) => visitor.visit_string_literal(*value),
            Expr::True => visitor.visit_boolean_literal(self),
            Expr::False => visitor.visit_boolean_literal(self),
            Expr::Null => visitor.visit_null_literal(),
            Expr::ExprList(items) => visitor.visit_expr_list(items),
            Expr::ArrayLiteral(elements) => visitor.visit_array_literal(elements, depth),
            Expr::ArrayAccess(array, index) => visitor.visit_array_access(array, index, depth),
            Expr::FieldAccess(obj, field) => visitor.visit_field_access(obj, field, depth),
            Expr::MethodCall(obj, method, args) => visitor.visit_method_call(
                obj,
                method,
                args,
                depth,
            ),
            Expr::StructLiteral(struct_name, fields) => visitor.visit_struct_literal(
                struct_name,
                fields,
                depth,
            ),
        }
    }
}

impl Acceptable for Stmt {
    open spec fn accepted(&self, s: CheckerState, depth: nat) -> (CheckerState, Outcome) {
        rules::dispatch_stmt(s, *self, depth)
    }

    fn accept<'a>(&self, visitor: &mut TypeCheckerVisitor<'a>, depth: usize) -> (result: Result<
        TypeDecl,
        TypeCheckError,
    >) {
        proof {
            rules::lemma_evolves_bookkeeping(old(visitor)@, old(visitor)@);
        }
        match self {
            Stmt::Expression(expr) => visitor.visit_expression_stmt(expr, depth),
            Stmt::Var(name, type_decl, expr) => visitor.visit_var(*name, type_decl, expr, depth),
            Stmt::Val(name, type_decl, expr) => visitor.visit_val(*name, type_decl, expr, depth),
            Stmt::Return(expr) => visitor.visit_return(expr, depth),
            Stmt::For(init, cond, range, body) => visitor.visit_for(*init, cond, range, body, depth),
            Stmt::While(cond, body) => visitor.visit_while(cond, body, depth),
            Stmt::Break => visitor.visit_break(),
            Stmt::Continue => visitor.visit_continue(),
            Stmt::StructDecl { name, fields } => visitor.visit_struct_decl(name, fields),
            Stmt::ImplBlock { target_type, methods } => visitor.visit_impl_block(target_type, methods),
        }
    }
}

} // verus!
