//! Literals, names, and the resolution of integer literals.

use crate::ast::{Expr, ExprRef};
use crate::interner::Interner;
use crate::number::{parse_i64, parse_u64};
use crate::symbol::Symbol;
use crate::type_checker::error::TypeCheckError;
use crate::type_checker::inference::usage_view;
use crate::type_checker::model;
use crate::type_checker::rules;
use crate::type_checker::{outcome, unit_outcome, TypeCheckerVisitor};
use crate::type_decl::{option_view, Ty, TypeDecl};
use vstd::prelude::*;

verus! {

impl<'a> TypeCheckerVisitor<'a> {
    /// Brings the types of two operands together: an operand that is still
    /// `Number` takes the other's integer type.
    pub fn resolve_numeric_types(&self, lhs_ty: &TypeDecl, rhs_ty: &TypeDecl) -> (resolved: Result<
        (TypeDecl, TypeDecl),
        TypeCheckError,
    >)
        ensures
            match resolved {
                Ok((l, r)) => model::resolve_numeric_types(self@.hint, lhs_ty@, rhs_ty@) == Ok::<
                    (Ty, Ty),
                    crate::type_checker::error::ErrorView,
                >((l@, r@)),
                Err(error) => model::resolve_numeric_types(self@.hint, lhs_ty@, rhs_ty@) == Err::<
                    (Ty, Ty),
                    crate::type_checker::error::ErrorView,
                >(error@),
            },
    {
        let lhs_number = matches!(lhs_ty, TypeDecl::Number);
        let rhs_number = matches!(rhs_ty, TypeDecl::Number);
        if lhs_number && rhs_number {
            match &self.type_inference.type_hint {
                Some(TypeDecl::Int64) => Ok((TypeDecl::Int64, TypeDecl::Int64)),
                _ => Ok((TypeDecl::UInt64, TypeDecl::UInt64)),
            }
        } else if lhs_number && rhs_ty.is_integer() {
            Ok((rhs_ty.clone(), rhs_ty.clone()))
        } else if rhs_number && lhs_ty.is_integer() {
            Ok((lhs_ty.clone(), lhs_ty.clone()))
        } else if lhs_ty.is_integer() && rhs_ty.is_integer() && !lhs_ty.same(rhs_ty) {
            Err(
                TypeCheckError::type_mismatch_operation(
                    "mixed signed/unsigned",
                    lhs_ty.clone(),
                    rhs_ty.clone(),
                ),
            )
        } else if lhs_ty.same(rhs_ty) {
            Ok((lhs_ty.clone(), rhs_ty.clone()))
        } else {
            Err(TypeCheckError::type_mismatch(lhs_ty.clone(), rhs_ty.clone()))
        }
    }

    /// The type that a variable gets from its declaration and its value.
    pub fn determine_final_type(&self, type_decl: &Option<TypeDecl>, expr_ty: &TypeDecl) -> (ty: TypeDecl)
        ensures
            ty@ == model::determine_final_type(option_view(*type_decl), expr_ty@),
    {
        match type_decl {
            Some(TypeDecl::Unknown) => expr_ty.clone(),
            Some(TypeDecl::Number) => expr_ty.clone(),
            Some(decl) => decl.clone(),
            None => expr_ty.clone(),
        }
    }

    /// Sets the hint for the value of a declaration and returns the hint
    /// that was active before.
    pub fn setup_type_hint_for_val(&mut self, type_decl: &Option<TypeDecl>) -> (old_hint: Option<TypeDecl>)
        ensures
            option_view(old_hint) == old(self)@.hint,
            final(self)@ == old(self)@.with_hint(
                model::hint_for_val(old(self)@.hint, option_view(*type_decl)),
            ),
    {
        let old_hint = self.hint();
        match type_decl {
            Some(decl) => {
                match decl {
                    TypeDecl::Array(element_types, _) => {
                        assert(decl@->Array_0.len() == element_types@.len());
                        if element_types.len() > 0 {
                            self.set_hint(Some(decl.clone()));
                        }
                    },
                    TypeDecl::Unknown => {},
                    TypeDecl::Number => {},
                    _ => {
                        self.set_hint(Some(decl.clone()));
                    },
                }
            },
            None => {},
        }
        old_hint
    }

    /// The type of the integer literal without a suffix whose digits are
    /// interned as `value`.
    pub fn visit_number_literal(&self, value: Symbol) -> (result: Result<TypeDecl, TypeCheckError>)
        ensures
            outcome(result) == model::number_literal_type(self@, value),
    {
        let interner: &'a Interner = self.core.string_interner;
        let num_str = match interner.resolve(value) {
            Some(s) => s,
            None => {
                return Err(TypeCheckError::generic_error("Failed to resolve number literal"));
            },
        };
        match &self.type_inference.type_hint {
            Some(TypeDecl::Int64) => {
                return if parse_i64(num_str).is_some() {
                    Ok(TypeDecl::Int64)
                } else {
                    Err(TypeCheckError::conversion_error(num_str, "Int64"))
                };
            },
            Some(TypeDecl::UInt64) => {
                return if parse_u64(num_str).is_some() {
                    Ok(TypeDecl::UInt64)
                } else {
                    Err(TypeCheckError::conversion_error(num_str, "UInt64"))
                };
            },
            _ => {},
        }
        match parse_i64(num_str) {
            Some(val) => {
                if val >= 0 {
                    Ok(TypeDecl::Number)
                } else {
                    Ok(TypeDecl::Int64)
                }
            },
            None => {
                if parse_u64(num_str).is_some() {
                    Ok(TypeDecl::UInt64)
                } else {
                    Err(TypeCheckError::invalid_literal(num_str, "number"))
                }
            },
        }
    }

    /// A literal with the suffix `i64` has the type `Int64`.
    pub fn visit_int64_literal(&mut self, _value: &i64) -> (result: Result<TypeDecl, TypeCheckError>)
        ensures
            final(self)@ == old(self)@,
            outcome(result) == Ok::<Ty, crate::type_checker::error::ErrorView>(Ty::Int64),
    {
        Ok(TypeDecl::Int64)
    }

    /// A literal with the suffix `u64` has the type `UInt64`.
    pub fn visit_uint64_literal(&mut self, _value: &u64) -> (result: Result<TypeDecl, TypeCheckError>)
        ensures
            final(self)@ == old(self)@,
            outcome(result) == Ok::<Ty, crate::type_checker::error::ErrorView>(Ty::UInt64),
    {
        Ok(TypeDecl::UInt64)
    }

    /// A string literal has the type `String`.
    pub fn visit_string_literal(&mut self, _value: Symbol) -> (result: Result<TypeDecl, TypeCheckError>)
        ensures
            final(self)@ == old(self)@,
            outcome(result) == Ok::<Ty, crate::type_checker::error::ErrorView>(Ty::String),
    {
        Ok(TypeDecl::String)
    }

    /// `true` and `false` have the type `Bool`.
    pub fn visit_boolean_literal(&mut self, _value: &Expr) -> (result: Result<TypeDecl, TypeCheckError>)
        ensures
            final(self)@ == old(self)@,
            outcome(result) == Ok::<Ty, crate::type_checker::error::ErrorView>(Ty::Bool),
    {
        Ok(TypeDecl::Bool)
    }

    /// `null` has the type `Any`.
    pub fn visit_null_literal(&mut self) -> (result: Result<TypeDecl, TypeCheckError>)
        ensures
            final(self)@ == old(self)@,
            outcome(result) == Ok::<Ty, crate::type_checker::error::ErrorView>(Ty::Any),
    {
        Ok(TypeDecl::Any)
    }

    /// The list of a call's arguments has no type of its own.
    pub fn visit_expr_list(&mut self, _items: &Vec<ExprRef>) -> (result: Result<TypeDecl, TypeCheckError>)
        ensures
            final(self)@ == old(self)@,
            outcome(result) == Ok::<Ty, crate::type_checker::error::ErrorView>(Ty::Unit),
    {
        Ok(TypeDecl::Unit)
    }

    /// Whether a noted rewrite is one of a literal that is still unresolved,
    /// and so is forgotten when the variable `_var_name` is declared anew.
    pub fn is_old_number_for_variable(&self, _var_name: Symbol, number_expr_ref: &ExprRef) -> (yes: bool)
        ensures
            yes == self@.is_number(*number_expr_ref),
    {
        self.has_number_in_expr(number_expr_ref)
    }

    /// The type of a name.
    pub fn visit_identifier(&self, name: Symbol) -> (result: Result<TypeDecl, TypeCheckError>)
        ensures
            outcome(result) == model::visit_identifier(self@, name),
    {
        match self.get_var(name) {
            Some(val_type) => Ok(val_type),
            None => match self.context.get_fn(name) {
                Some(fun) => match &fun.return_type {
                    Some(ty) => Ok(ty.clone()),
                    None => Ok(TypeDecl::Unknown),
                },
                None => {
                    let name_str = self.name_of(name, "<NOT_FOUND>");
                    Err(TypeCheckError::not_found("Identifier", name_str))
                },
            },
        }
    }

    /// Rewrites the literal at `expr_ref`, if it is still unresolved, to the
    /// integer type `target_type`. The node keeps its index, and the pool
    /// its length.
    pub fn transform_numeric_expr(&mut self, expr_ref: &ExprRef, target_type: &TypeDecl) -> (result:
        Result<(), TypeCheckError>)
        ensures
            (final(self)@, unit_outcome(result)) == model::transform_numeric_expr(
                old(self)@,
                *expr_ref,
                target_type@,
            ),
            rules::evolves(old(self)@, final(self)@),
            rules::scopes_kept(old(self)@, final(self)@),
            rules::pending_kept(old(self)@, final(self)@),
    {
        proof {
            rules::lemma_evolves_bookkeeping(old(self)@, old(self)@);
        }
        let index = expr_ref.to_index();
        let value = match self.core.expr_pool.get(index) {
            Some(Expr::Number(value)) => *value,
            _ => {
                return Ok(());
            },
        };
        let interner: &'a Interner = self.core.string_interner;
        let num_str = match interner.resolve(value) {
            Some(s) => s,
            None => {
                return Err(TypeCheckError::generic_error("Failed to resolve number literal"));
            },
        };
        match target_type {
            TypeDecl::UInt64 => match parse_u64(num_str) {
                Some(val) => {
                    self.core.expr_pool.replace(index, Expr::UInt64(val));
                    proof {
                        rules::lemma_rewrite_evolves(old(self)@, *expr_ref, Expr::UInt64(val));
                    }
                    Ok(())
                },
                None => Err(TypeCheckError::conversion_error(num_str, "UInt64")),
            },
            TypeDecl::Int64 => match parse_i64(num_str) {
                Some(val) => {
                    self.core.expr_pool.replace(index, Expr::Int64(val));
                    proof {
                        rules::lemma_rewrite_evolves(old(self)@, *expr_ref, Expr::Int64(val));
                    }
                    Ok(())
                },
                None => Err(TypeCheckError::conversion_error(num_str, "Int64")),
            },
            _ => Err(TypeCheckError::unsupported_operation("transform", target_type.clone())),
        }
    }

    /// Gives the variable at `expr_ref` the resolved type, where it was
    /// `Number` before.
    pub fn update_identifier_types(
        &mut self,
        expr_ref: &ExprRef,
        found_ty: &TypeDecl,
        resolved_ty: &TypeDecl,
    ) -> (result: Result<(), TypeCheckError>)
        ensures
            result is Ok,
            rules::evolves(old(self)@, final(self)@),
            rules::scopes_kept(old(self)@, final(self)@),
            rules::pending_kept(old(self)@, final(self)@),
            final(self)@ == model::update_identifier_types(
                old(self)@,
                *expr_ref,
                found_ty@,
                resolved_ty@,
            ),
    {
        if matches!(found_ty, TypeDecl::Number) && !matches!(resolved_ty, TypeDecl::Number) {
            match self.identifier_at(expr_ref) {
                Some(name) => {
                    self.update_var_type(name, resolved_ty.clone());
                },
                None => {},
            }
        }
        proof {
            rules::lemma_evolves_bookkeeping(old(self)@, self@);
        }
        Ok(())
    }

    /// The literal that gave `var_name` its value, where it is still
    /// unresolved.
    pub fn number_source(&self, var_name: Symbol) -> (source: Option<ExprRef>)
        ensures
            source == model::number_source(self@, var_name),
    {
        match self.type_inference.source_of(var_name) {
            Some(source) => {
                if self.has_number_in_expr(&source) {
                    Some(source)
                } else {
                    None
                }
            },
            None => None,
        }
    }

    /// Whether `number_expr_ref` is recorded as the source of `var_name`.
    pub fn is_number_for_variable(&self, var_name: Symbol, number_expr_ref: &ExprRef) -> (yes: bool)
        ensures
            yes == (model::assoc_get(self@.var_exprs, var_name) == Some(*number_expr_ref)),
    {
        match self.type_inference.source_of(var_name) {
            Some(source) => source.0 == number_expr_ref.0,
            None => false,
        }
    }

    /// Notes the rewrite of a literal, or of the literal behind a variable,
    /// that was `Number` and is resolved now.
    pub fn record_number_usage_context(
        &mut self,
        expr_ref: &ExprRef,
        found_ty: &TypeDecl,
        resolved_ty: &TypeDecl,
    ) -> (result: Result<(), TypeCheckError>)
        ensures
            result is Ok,
            rules::evolves(old(self)@, final(self)@),
            rules::scopes_kept(old(self)@, final(self)@),
            rules::pending_kept(old(self)@, final(self)@),
            final(self)@ == model::record_number_usage_context(
                old(self)@,
                *expr_ref,
                found_ty@,
                resolved_ty@,
            ),
    {
        if matches!(found_ty, TypeDecl::Number) && !matches!(resolved_ty, TypeDecl::Number) {
            match self.identifier_at(expr_ref) {
                Some(name) => {
                    match self.number_source(name) {
                        Some(source) => {
                            self.note_usage(source, resolved_ty.clone());
                        },
                        None => {},
                    }
                },
                None => {
                    if self.has_number_in_expr(expr_ref) {
                        self.note_usage(*expr_ref, resolved_ty.clone());
                    }
                },
            }
        }
        proof {
            rules::lemma_evolves_bookkeeping(old(self)@, self@);
        }
        Ok(())
    }

    /// Gives a variable of type `Number` the type `target_type` and notes
    /// the rewrite of its literal, where that is still unresolved.
    pub fn propagate_to_number_variable(&mut self, expr_ref: &ExprRef, target_type: &TypeDecl) -> (result:
        Result<(), TypeCheckError>)
        ensures
            result is Ok,
            rules::evolves(old(self)@, final(self)@),
            rules::scopes_kept(old(self)@, final(self)@),
            rules::pending_kept(old(self)@, final(self)@),
            final(self)@ == model::propagate_to_number_variable(old(self)@, *expr_ref, target_type@),
    {
        match self.identifier_at(expr_ref) {
            Some(name) => {
                match self.get_var(name) {
                    Some(TypeDecl::Number) => {
                        match self.number_source(name) {
                            Some(source) => {
                                self.note_usage(source, target_type.clone());
                                self.update_var_type(name, target_type.clone());
                            },
                            None => {},
                        }
                    },
                    _ => {},
                }
            },
            None => {},
        }
        proof {
            rules::lemma_evolves_bookkeeping(old(self)@, self@);
        }
        Ok(())
    }

    /// Hands the type `target_type` to the literal at `expr_ref`, or to the
    /// variable of type `Number` there and the expression behind it.
    pub fn propagate_type_to_number_expr(&mut self, expr_ref: &ExprRef, target_type: &TypeDecl) -> (result:
        Result<(), TypeCheckError>)
        ensures
            result is Ok,
            rules::evolves(old(self)@, final(self)@),
            rules::scopes_kept(old(self)@, final(self)@),
            rules::pending_kept(old(self)@, final(self)@),
            final(self)@ == model::propagate_type_to_number_expr(old(self)@, *expr_ref, target_type@),
    {
        match self.identifier_at(expr_ref) {
            Some(name) => {
                match self.get_var(name) {
                    Some(TypeDecl::Number) => {
                        self.update_var_type(name, target_type.clone());
                        match self.type_inference.source_of(name) {
                            Some(source) => {
                                self.note_usage(source, target_type.clone());
                            },
                            None => {},
                        }
                    },
                    _ => {},
                }
            },
            None => {
                if self.has_number_in_expr(expr_ref) {
                    self.note_usage(*expr_ref, target_type.clone());
                }
            },
        }
        proof {
            rules::lemma_evolves_bookkeeping(old(self)@, self@);
        }
        Ok(())
    }
}

} // verus!
