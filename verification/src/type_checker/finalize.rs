//! The finalization pass and the checks of declarations.

use crate::ast::{ExprRef, MethodFunction, StructField};
use crate::symbol::Symbol;
use crate::type_checker::error::TypeCheckError;
use crate::type_checker::inference::usage_view;
use crate::type_checker::model;
use crate::type_checker::model::CheckerState;
use crate::type_checker::rules;
use crate::type_checker::{outcome, unit_outcome, TypeCheckerVisitor};
use crate::type_decl::{option_view, Ty, TypeDecl};
use std::rc::Rc;
use vstd::prelude::*;
use vstd::string::*;

verus! {

/// Whether a struct can hold a field of this type.
pub fn is_field_type(ty: &TypeDecl) -> (yes: bool)
    ensures
        yes == model::is_field_type(ty@),
{
    match ty {
        TypeDecl::Int64 | TypeDecl::UInt64 | TypeDecl::Bool | TypeDecl::String => true,
        _ => false,
    }
}

/// The first parameter type that a method cannot take.
pub fn bad_parameter(parameters: &Vec<(Symbol, TypeDecl)>) -> (bad: Option<TypeDecl>)
    ensures
        option_view(bad) == model::bad_parameter(parameters@),
{
    let mut i: usize = 0;
    assert(parameters@.subrange(0, parameters@.len() as int) =~= parameters@);
    while i < parameters.len()
        invariant
            i <= parameters.len(),
            model::bad_parameter(parameters@) == model::bad_parameter(
                parameters@.subrange(i as int, parameters@.len() as int),
            ),
        decreases parameters.len() - i,
    {
        let ghost rest = parameters@.subrange(i as int, parameters@.len() as int);
        assert(rest.drop_first() =~= parameters@.subrange(i + 1, parameters@.len() as int));
        if !is_field_type(&parameters[i].1) {
            return Some(parameters[i].1.clone());
        }
        i += 1;
    }
    None
}

/// The label of a method's part in the error for an `impl` block.
fn method_label(part: &str, method: &str, target: &str) -> (label: String)
    ensures
        label@ == model::method_label(part@, method@, target@),
{
    let mut label = String::from_str(part);
    label.append(" in method '");
    label.append(method);
    label.append("' for impl block '");
    label.append(target);
    label.append("'");
    label
}

impl<'a> TypeCheckerVisitor<'a> {
    /// Remembers or forgets the source of a declared variable.
    pub fn update_variable_expr_mapping(&mut self, name: Symbol, expr_ref: &ExprRef, expr_ty: &TypeDecl)
        ensures
            final(self)@ == model::update_variable_expr_mapping(old(self)@, name, *expr_ref, expr_ty@),
            rules::evolves(old(self)@, final(self)@),
            rules::scopes_kept(old(self)@, final(self)@),
            rules::pending_kept(old(self)@, final(self)@),
    {
        if matches!(expr_ty, TypeDecl::Number) || self.has_number_in_expr(expr_ref) {
            self.type_inference.record_source(name, *expr_ref);
        } else {
            self.type_inference.forget_source(name);
            let mut kept: Vec<(ExprRef, TypeDecl)> = Vec::new();
            let mut i: usize = 0;
            let ghost usage = usage_view(self.type_inference.number_usage_context@);
            assert(usage.subrange(0, 0) =~= Seq::<(ExprRef, Ty)>::empty());
            assert(usage_view(kept@) =~= Seq::<(ExprRef, Ty)>::empty());
            while i < self.type_inference.number_usage_context.len()
                invariant
                    i <= self.type_inference.number_usage_context.len(),
                    usage == usage_view(self.type_inference.number_usage_context@),
                    self@ == (CheckerState {
                        var_exprs: model::assoc_remove(old(self)@.var_exprs, name),
                        ..old(self)@
                    }),
                    usage_view(kept@) == model::resolved_usage(old(self)@, usage.subrange(0, i as int)),
                decreases self.type_inference.number_usage_context.len() - i,
            {
                let ghost before = usage_view(kept@);
                assert(usage.subrange(0, i + 1).drop_last() =~= usage.subrange(0, i as int));
                let e = self.type_inference.number_usage_context[i].0;
                if !self.is_old_number_for_variable(name, &e) {
                    kept.push((e, self.type_inference.number_usage_context[i].1.clone()));
                    assert(usage_view(kept@) =~= before.push(usage[i as int]));
                }
                i += 1;
            }
            assert(usage.subrange(0, usage.len() as int) =~= usage);
            self.type_inference.number_usage_context = kept;
        }
        proof {
            rules::lemma_evolves_bookkeeping(old(self)@, self@);
        }
    }

    /// Rewrites the literal that is the value of a declaration, where the
    /// declaration or the hint decides its type.
    pub fn apply_type_transformations(
        &mut self,
        type_decl: &Option<TypeDecl>,
        expr_ty: &TypeDecl,
        expr_ref: &ExprRef,
    ) -> (result: Result<(), TypeCheckError>)
        ensures
            (final(self)@, unit_outcome(result)) == model::apply_type_transformations(
                old(self)@,
                option_view(*type_decl),
                expr_ty@,
                *expr_ref,
            ),
            rules::evolves(old(self)@, final(self)@),
            rules::scopes_kept(old(self)@, final(self)@),
            rules::pending_kept(old(self)@, final(self)@),
    {
        proof {
            rules::lemma_evolves_bookkeeping(old(self)@, old(self)@);
        }
        let by_hint = match type_decl {
            None => matches!(expr_ty, TypeDecl::Number),
            Some(TypeDecl::Unknown) => matches!(expr_ty, TypeDecl::Int64),
            Some(_) => false,
        };
        if by_hint {
            match self.hint() {
                Some(hint) => {
                    if hint.is_integer() {
                        return self.transform_numeric_expr(expr_ref, &hint);
                    }
                },
                None => {},
            }
        } else {
            match type_decl {
                Some(TypeDecl::Unknown) => {},
                Some(TypeDecl::Number) => {},
                Some(decl) => {
                    if expr_ty.same(decl) && self.has_number_in_expr(expr_ref) {
                        return self.transform_numeric_expr(expr_ref, decl);
                    }
                },
                None => {},
            }
        }
        Ok(())
    }

    /// Gives every variable whose source is `e` the type `ty`.
    pub fn retype_sources(&mut self, e: ExprRef, ty: &TypeDecl)
        ensures
            final(self)@ == model::retype_sources(old(self)@, old(self)@.var_exprs, e, ty@),
            rules::evolves(old(self)@, final(self)@),
            rules::scopes_kept(old(self)@, final(self)@),
            rules::pending_kept(old(self)@, final(self)@),
    {
        proof {
            model::lemma_retype_sources_frame(old(self)@, old(self)@.var_exprs, e, ty@);
            rules::lemma_evolves_bookkeeping(
                old(self)@,
                model::retype_sources(old(self)@, old(self)@.var_exprs, e, ty@),
            );
        }
        let mut j: usize = 0;
        let ghost sources = self@.var_exprs;
        assert(sources.subrange(0, 0) =~= Seq::<(Symbol, ExprRef)>::empty());
        while j < self.type_inference.variable_expr_mapping.len()
            invariant
                j <= self.type_inference.variable_expr_mapping.len(),
                sources == old(self)@.var_exprs,
                self@.var_exprs == sources,
                self@ == model::retype_sources(old(self)@, sources.subrange(0, j as int), e, ty@),
                rules::scopes_kept(old(self)@, self@),
            decreases self.type_inference.variable_expr_mapping.len() - j,
        {
            assert(sources.subrange(0, j + 1).drop_last() =~= sources.subrange(0, j as int));
            let entry = self.type_inference.variable_expr_mapping[j];
            if entry.1.0 == e.0 {
                self.update_var_type(entry.0, ty.clone());
            }
            j += 1;
        }
        assert(sources.subrange(0, sources.len() as int) =~= sources);
    }

    /// The type for an unresolved literal for which nothing was noted.
    pub fn default_target(&self, e: ExprRef) -> (target: TypeDecl)
        ensures
            target@ == model::default_target(self@, e),
    {
        let default = match self.hint() {
            Some(hint) => hint,
            None => TypeDecl::UInt64,
        };
        let mut j: usize = 0;
        let ghost sources = self@.var_exprs;
        assert(sources.subrange(0, sources.len() as int) =~= sources);
        while j < self.type_inference.variable_expr_mapping.len()
            invariant
                j <= self.type_inference.variable_expr_mapping.len(),
                sources == self@.var_exprs,
                model::default_target(self@, e) == model::source_type(
                    self@,
                    sources.subrange(j as int, sources.len() as int),
                    e,
                    default@,
                ),
            decreases self.type_inference.variable_expr_mapping.len() - j,
        {
            let ghost rest = sources.subrange(j as int, sources.len() as int);
            assert(rest.drop_first() =~= sources.subrange(j + 1, sources.len() as int));
            let entry = self.type_inference.variable_expr_mapping[j];
            if entry.1.0 == e.0 {
                match self.get_var(entry.0) {
                    Some(TypeDecl::Number) => {},
                    Some(var_type) => {
                        return var_type;
                    },
                    None => {},
                }
            }
            j += 1;
        }
        default
    }

    /// The finalization pass: makes the noted rewrites, then rewrites every
    /// literal that is still unresolved. On success no unresolved literal
    /// is left in the pool.
    pub fn finalize_number_types(&mut self) -> (result: Result<(), TypeCheckError>)
        ensures
            (final(self)@, unit_outcome(result)) == model::finalize_number_types(old(self)@),
            rules::evolves(old(self)@, final(self)@),
            rules::scopes_kept(old(self)@, final(self)@),
            rules::pending_kept(old(self)@, final(self)@),
            result is Ok ==> final(self)@.number_free(),
    {
        let mut i: usize = 0;
        let ghost noted = self@.usage;
        proof {
            rules::lemma_evolves_bookkeeping(old(self)@, old(self)@);
        }
        while i < self.type_inference.number_usage_context.len()
            invariant
                i <= self.type_inference.number_usage_context.len(),
                rules::evolves(old(self)@, self@),
                rules::scopes_kept(old(self)@, self@),
                rules::pending_kept(old(self)@, self@),
                self@.usage == noted,
                noted == old(self)@.usage,
                model::finalize_noted(old(self)@, noted, 0) == model::finalize_noted(
                    self@,
                    noted,
                    i as int,
                ),
            decreases self.type_inference.number_usage_context.len() - i,
        {
            let e = self.type_inference.number_usage_context[i].0;
            let ghost middle = self@;
            if self.has_number_in_expr(&e) {
                let target = self.type_inference.number_usage_context[i].1.clone();
                match self.transform_numeric_expr(&e, &target) {
                    Err(error) => {
                        return Err(error);
                    },
                    Ok(_) => {},
                }
                proof {
                    model::lemma_retype_sources_frame(self@, self@.var_exprs, e, target@);
                }
                let ghost rewritten = self@;
                self.retype_sources(e, &target);
                proof {
                    rules::lemma_evolves_trans(old(self)@, middle, rewritten);
                    rules::lemma_evolves_trans(old(self)@, rewritten, self@);
                }
                assert(usage_view(self.type_inference.number_usage_context@).len()
                    == self.type_inference.number_usage_context@.len());
            }
            i += 1;
        }
        assert(noted.len() == self.type_inference.number_usage_context@.len());
        assert(model::finalize_noted(self@, noted, i as int) == (
            self@,
            Ok::<(), crate::type_checker::error::ErrorView>(()),
        ));
        let end = self.core.expr_pool.len();
        let mut k: usize = 0;
        while k < end
            invariant
                k <= end,
                end == self@.exprs.len(),
                rules::evolves(old(self)@, self@),
                rules::scopes_kept(old(self)@, self@),
                rules::pending_kept(old(self)@, self@),
                forall|j: int| 0 <= j < k ==> !(#[trigger] self@.exprs[j] is Number),
                model::finalize_number_types(old(self)@) == model::finalize_rest(
                    self@,
                    k as int,
                    end as int,
                ),
            decreases end - k,
        {
            if self.core.expr_pool.is_number(k) {
                if k > 0xffff_ffff {
                    return Err(TypeCheckError::generic_error("Expression pool is too large"));
                }
                let e = ExprRef(k as u32);
                let target = self.default_target(e);
                let ghost middle = self@;
                match self.transform_numeric_expr(&e, &target) {
                    Err(error) => {
                        return Err(error);
                    },
                    Ok(_) => {},
                }
                let ghost rewritten = self@;
                proof {
                    model::lemma_retype_sources_frame(self@, self@.var_exprs, e, target@);
                }
                self.retype_sources(e, &target);
                proof {
                    rules::lemma_evolves_trans(old(self)@, middle, rewritten);
                    rules::lemma_evolves_trans(old(self)@, rewritten, self@);
                    assert forall|j: int| 0 <= j < k + 1 implies !(#[trigger] self@.exprs[j]
                        is Number) by {
                        assert(self@.exprs[j] == rewritten.exprs[j]);
                        if j < k {
                            assert(!(middle.exprs[j] is Number));
                            assert(rules::node_rewritten(
                                middle.strings,
                                middle.exprs[j],
                                rewritten.exprs[j],
                            ));
                        }
                    }
                }
            }
            k += 1;
        }
        Ok(())
    }

    /// Checks the field types of a struct declaration.
    pub fn visit_struct_decl(&self, name: &String, fields: &Vec<StructField>) -> (result: Result<
        TypeDecl,
        TypeCheckError,
    >)
        ensures
            outcome(result) == model::visit_struct_decl(name@, fields@),
    {
        let mut i: usize = 0;
        assert(fields@.subrange(0, fields@.len() as int) =~= fields@);
        while i < fields.len()
            invariant
                i <= fields.len(),
                model::visit_struct_decl(name@, fields@) == model::visit_struct_decl(
                    name@,
                    fields@.subrange(i as int, fields@.len() as int),
                ),
            decreases fields.len() - i,
        {
            let ghost rest = fields@.subrange(i as int, fields@.len() as int);
            assert(rest.drop_first() =~= fields@.subrange(i + 1, fields@.len() as int));
            if !is_field_type(&fields[i].type_decl) {
                let mut label = String::from_str("field type in struct '");
                label.append(name.as_str());
                label.append("'");
                return Err(
                    TypeCheckError::unsupported_operation(
                        label.as_str(),
                        fields[i].type_decl.clone(),
                    ),
                );
            }
            i += 1;
        }
        Ok(TypeDecl::Unit)
    }

    /// The error, if any, in the signature of one method.
    pub fn method_signature_error(&self, target_type: &String, method: &MethodFunction) -> (error: Option<
        TypeCheckError,
    >)
        ensures
            match error {
                Some(e) => model::method_signature_error(self@, target_type@, *method) == Some(e@),
                None => model::method_signature_error(self@, target_type@, *method) is None,
            },
    {
        match bad_parameter(&method.parameter) {
            Some(ty) => {
                let label = method_label(
                    "parameter type",
                    self.name_of(method.name, "<unknown>"),
                    target_type.as_str(),
                );
                Some(TypeCheckError::unsupported_operation(label.as_str(), ty))
            },
            None => match &method.return_type {
                Some(ty) => {
                    if is_field_type(ty) || matches!(ty, TypeDecl::Unit) {
                        None
                    } else {
                        let label = method_label(
                            "return type",
                            self.name_of(method.name, "<unknown>"),
                            target_type.as_str(),
                        );
                        Some(TypeCheckError::unsupported_operation(label.as_str(), ty.clone()))
                    }
                },
                None => None,
            },
        }
    }

    /// Checks the signatures of the methods of an `impl` block.
    pub fn visit_impl_block(&self, target_type: &String, methods: &Vec<Rc<MethodFunction>>) -> (result:
        Result<TypeDecl, TypeCheckError>)
        ensures
            outcome(result) == model::visit_impl_block(self@, target_type@, methods@),
    {
        let mut i: usize = 0;
        assert(methods@.subrange(0, methods@.len() as int) =~= methods@);
        while i < methods.len()
            invariant
                i <= methods.len(),
                model::visit_impl_block(self@, target_type@, methods@) == model::visit_impl_block(
                    self@,
                    target_type@,
                    methods@.subrange(i as int, methods@.len() as int),
                ),
            decreases methods.len() - i,
        {
            let ghost rest = methods@.subrange(i as int, methods@.len() as int);
            assert(rest.drop_first() =~= methods@.subrange(i + 1, methods@.len() as int));
            match self.method_signature_error(target_type, &methods[i]) {
                Some(error) => {
                    return Err(error);
                },
                None => {},
            }
            i += 1;
        }
        Ok(TypeDecl::Unit)
    }
}

} // verus!
