//! The type checker: a visitor over the pools that infers the types of the
//! expressions and resolves the integer literals without a suffix.

pub mod accept;
pub mod context;
pub mod error;
pub mod finalize;
pub mod function;
pub mod inference;
pub mod model;
pub mod numbers;
pub mod optimization;
pub mod references;
pub mod rules;
pub mod visit;

use crate::ast::{Expr, ExprPool, ExprRef, Function, LocationPool, StmtPool, StmtRef};
use crate::interner::Interner;
use crate::symbol::Symbol;
use crate::type_checker::context::{table_view, TypeCheckContext};
use crate::type_checker::error::{ErrorView, SourceLocation, TypeCheckError};
use crate::type_checker::function::{status_view, FunctionCheckingState};
use crate::type_checker::inference::{usage_view, TypeInferenceState};
use crate::type_checker::model::{CheckerState, Outcome};
use crate::type_checker::optimization::PerformanceOptimization;
use crate::type_checker::references::CoreReferences;
use crate::type_decl::{clone_option, option_view, Ty, TypeDecl};
use std::rc::Rc;
use vstd::prelude::*;

verus! {

/// The type checker: it visits the functions of a program, resolves the
/// integer literals that have no suffix, and rewrites them in the pool.
pub struct TypeCheckerVisitor<'a> {
    pub core: CoreReferences<'a>,
    pub context: TypeCheckContext,
    pub type_inference: TypeInferenceState,
    pub function_checking: FunctionCheckingState,
    pub optimization: PerformanceOptimization,
}

impl<'a> View for TypeCheckerVisitor<'a> {
    type V = CheckerState;

    open spec fn view(&self) -> CheckerState {
        CheckerState {
            stmts: self.core.stmt_pool@,
            exprs: self.core.expr_pool@,
            strings: self.core.string_interner.strings(),
            expr_locations: self.core.location_pool.expr_locations@,
            stmt_locations: self.core.location_pool.stmt_locations@,
            vars: self.context.frames(),
            functions: self.context.functions@,
            hint: option_view(self.type_inference.type_hint),
            var_exprs: self.type_inference.variable_expr_mapping@,
            usage: usage_view(self.type_inference.number_usage_context@),
            checked: status_view(self.function_checking.is_checked_fn@),
            call_depth: self.function_checking.call_depth as nat,
            cache: table_view(self.optimization.type_cache@),
        }
    }
}

/// The value of a visit's result.
pub open spec fn outcome(result: Result<TypeDecl, TypeCheckError>) -> Outcome {
    match result {
        Ok(ty) => Ok(ty@),
        Err(error) => Err(error@),
    }
}

/// The value of the result of a step that yields no type.
pub open spec fn unit_outcome(result: Result<(), TypeCheckError>) -> Result<(), ErrorView> {
    match result {
        Ok(_) => Ok(()),
        Err(error) => Err(error@),
    }
}

impl<'a> TypeCheckerVisitor<'a> {
    /// A checker for the given program, with no scope, no function and
    /// nothing remembered.
    pub fn new(
        stmt_pool: &'a StmtPool,
        expr_pool: ExprPool,
        string_interner: &'a Interner,
        location_pool: &'a LocationPool,
    ) -> (visitor: Self)
        ensures
            visitor@ == (CheckerState {
                stmts: stmt_pool@,
                exprs: expr_pool@,
                strings: string_interner.strings(),
                expr_locations: location_pool.expr_locations@,
                stmt_locations: location_pool.stmt_locations@,
                vars: Seq::empty(),
                functions: Map::empty(),
                hint: None,
                var_exprs: Seq::empty(),
                usage: Seq::empty(),
                checked: Map::empty(),
                call_depth: 0,
                cache: Map::empty(),
            }),
    {
        Self {
            core: CoreReferences { stmt_pool, expr_pool, string_interner, location_pool },
            context: TypeCheckContext::new(),
            type_inference: TypeInferenceState::new(),
            function_checking: FunctionCheckingState::new(),
            optimization: PerformanceOptimization::new(),
        }
    }

    /// Gives the expression pool back, with the rewrites made in it.
    pub fn into_expr_pool(self) -> (pool: ExprPool)
        ensures
            pool@ == self@.exprs,
    {
        self.core.expr_pool
    }

    /// The place recorded for an expression.
    pub fn get_expr_location(&self, expr_ref: &ExprRef) -> (location: Option<SourceLocation>)
        ensures
            location == self@.expr_location(*expr_ref),
    {
        self.core.location_pool.get_expr_location(expr_ref)
    }

    /// The place recorded for a statement.
    pub fn get_stmt_location(&self, stmt_ref: &StmtRef) -> (location: Option<SourceLocation>)
        ensures
            location == self@.stmt_location(*stmt_ref),
    {
        self.core.location_pool.get_stmt_location(stmt_ref)
    }

    /// Opens a scope.
    pub fn push_context(&mut self)
        ensures
            final(self)@ == old(self)@.push_frame(),
    {
        self.context.push_frame();
    }

    /// Closes the innermost scope, if there is one.
    pub fn pop_context(&mut self)
        ensures
            final(self)@ == old(self)@.pop_frame(),
    {
        self.context.pop_frame();
    }

    /// Registers a function under its name.
    pub fn add_function(&mut self, f: Rc<Function>)
        ensures
            final(self)@ == (CheckerState {
                functions: old(self)@.functions.insert(f.name.0, f),
                ..old(self)@
            }),
    {
        self.context.set_fn(f.name, f);
    }

    /// Checks a function and returns the type of its body. A function that
    /// is done has its recorded type, one whose check is in progress
    /// `Unknown`. The pool keeps its length, and each of its nodes is as
    /// before or an unresolved literal rewritten in place to the integer
    /// that its digits write. On success, unless the function's check was
    /// in progress, no unresolved literal is left in the pool.
    ///
    /// On every way out as many scopes are open as before, and the call
    /// depth and the hint are as before. A function that passes is
    /// recorded with its type, which is the declared one where one is
    /// declared. A function that fails is recorded neither as done nor
    /// as in progress: a later check of it starts anew.
    pub fn type_check(&mut self, func: Rc<Function>) -> (result: Result<TypeDecl, TypeCheckError>)
        ensures
            (final(self)@, outcome(result)) == rules::type_check(
                old(self)@,
                *func,
                model::MAX_DEPTH as nat,
            ),
            rules::evolves(old(self)@, final(self)@),
            rules::pending_kept(old(self)@, final(self)@),
            final(self)@.vars.len() == old(self)@.vars.len(),
            final(self)@.call_depth == old(self)@.call_depth,
            final(self)@.hint == old(self)@.hint,
            !old(self)@.checked.contains_key(func.name.0) ==> match result {
                Ok(ty) => {
                    &&& final(self)@.checked.contains_key(func.name.0)
                    &&& final(self)@.checked[func.name.0] == Some(ty@)
                    &&& func.return_type is Some ==> func.return_type->0@ == ty@
                },
                Err(_) => !final(self)@.checked.contains_key(func.name.0),
            },
            result is Ok && rules::settled(old(self)@) && !(old(self)@.checked.contains_key(
                func.name.0,
            ) && old(self)@.checked[func.name.0] is None) ==> final(self)@.number_free(),
    {
        self.check_function(&func, model::MAX_DEPTH)
    }

    /// The active hint.
    pub fn hint(&self) -> (hint: Option<TypeDecl>)
        ensures
            option_view(hint) == self@.hint,
    {
        clone_option(&self.type_inference.type_hint)
    }

    /// Replaces the active hint.
    pub fn set_hint(&mut self, hint: Option<TypeDecl>)
        ensures
            final(self)@ == old(self)@.with_hint(option_view(hint)),
    {
        self.type_inference.type_hint = hint;
    }

    /// Binds a variable in the innermost scope.
    pub fn set_var(&mut self, name: Symbol, ty: TypeDecl)
        ensures
            final(self)@ == old(self)@.set_var(name, ty@),
    {
        self.context.set_var(name, ty);
    }

    /// The type of a variable.
    pub fn get_var(&self, name: Symbol) -> (found: Option<TypeDecl>)
        ensures
            option_view(found) == self@.get_var(name),
    {
        self.context.get_var(name)
    }

    /// Gives the innermost binding of a variable another type.
    pub fn update_var_type(&mut self, name: Symbol, ty: TypeDecl)
        ensures
            final(self)@ == old(self)@.update_var_type(name, ty@),
            final(self)@.vars.len() == old(self)@.vars.len(),
    {
        proof {
            crate::type_checker::context::lemma_retype_len(self@.vars, name, ty@);
        }
        self.context.update_var_type(name, ty);
    }

    /// Notes that the literal at `e` is to be rewritten to `ty`.
    pub fn note_usage(&mut self, e: ExprRef, ty: TypeDecl)
        ensures
            final(self)@ == old(self)@.push_usage(e, ty@),
    {
        self.type_inference.number_usage_context.push((e, ty));
        assert(usage_view(self.type_inference.number_usage_context@) =~= usage_view(
            old(self).type_inference.number_usage_context@,
        ).push((e, ty@)));
    }

    /// The cached type of an expression.
    pub fn get_cached_type(&self, expr_ref: &ExprRef) -> (cached: Option<TypeDecl>)
        ensures
            option_view(cached) == if self@.cache.contains_key(expr_ref.0) {
                Some(self@.cache[expr_ref.0])
            } else {
                None
            },
    {
        match self.optimization.type_cache.get(&expr_ref.0) {
            Some(ty) => Some(ty.clone()),
            None => None,
        }
    }

    /// Caches the type of an expression.
    pub fn cache_type(&mut self, expr_ref: ExprRef, type_decl: TypeDecl)
        ensures
            final(self)@ == old(self)@.with_cache(old(self)@.cache.insert(expr_ref.0, type_decl@)),
    {
        self.optimization.type_cache.insert(expr_ref.0, type_decl);
        assert(table_view(self.optimization.type_cache@) =~= table_view(
            old(self).optimization.type_cache@,
        ).insert(expr_ref.0, type_decl@));
    }

    /// Empties the cache.
    pub fn clear_cache(&mut self)
        ensures
            final(self)@ == old(self)@.with_cache(Map::empty()),
    {
        self.optimization.type_cache.clear();
        assert(table_view(self.optimization.type_cache@) =~= Map::<u32, Ty>::empty());
    }

    /// The recorded state of a function: `None` where it is absent.
    pub fn check_status(&self, name: Symbol) -> (status: Option<Option<TypeDecl>>)
        ensures
            match status {
                Some(state) => self@.checked.contains_key(name.0) && self@.checked[name.0]
                    == option_view(state),
                None => !self@.checked.contains_key(name.0),
            },
    {
        match self.function_checking.is_checked_fn.get(&name.0) {
            Some(state) => Some(clone_option(state)),
            None => None,
        }
    }

    /// Records the state of a function.
    pub fn set_check_status(&mut self, name: Symbol, status: Option<TypeDecl>)
        ensures
            final(self)@ == old(self)@.with_checked(name, option_view(status)),
    {
        self.function_checking.is_checked_fn.insert(name.0, status);
        assert(status_view(self.function_checking.is_checked_fn@) =~= status_view(
            old(self).function_checking.is_checked_fn@,
        ).insert(name.0, option_view(status)));
    }

    /// The name that the interner holds for `symbol`, or `fallback`.
    pub fn name_of(&self, symbol: Symbol, fallback: &'a str) -> (name: &'a str)
        ensures
            name@ == self@.name_of(symbol, fallback@),
    {
        let interner: &'a Interner = self.core.string_interner;
        match interner.resolve(symbol) {
            Some(name) => name,
            None => fallback,
        }
    }

    /// The name at `e`, where `e` is an identifier.
    pub fn identifier_at(&self, e: &ExprRef) -> (name: Option<Symbol>)
        ensures
            name == if self@.is_identifier(*e) {
                Some(self@.exprs[e.0 as int]->Identifier_0)
            } else {
                None
            },
    {
        match self.core.expr_pool.get(e.to_index()) {
            Some(Expr::Identifier(name)) => Some(*name),
            _ => None,
        }
    }

    /// Whether `e` is a literal that is still unresolved.
    pub fn has_number_in_expr(&self, expr_ref: &ExprRef) -> (yes: bool)
        ensures
            yes == self@.is_number(*expr_ref),
    {
        self.core.expr_pool.is_number(expr_ref.to_index())
    }
}

} // verus!
