//! What the inference of integer literals remembers.

use crate::ast::ExprRef;
use crate::symbol::Symbol;
use crate::type_checker::model::{assoc_get, assoc_insert, assoc_remove};
use crate::type_decl::{Ty, TypeDecl};
use vstd::prelude::*;

verus! {

/// The values of the noted rewrites.
pub open spec fn usage_view(usage: Seq<(ExprRef, TypeDecl)>) -> Seq<(ExprRef, Ty)> {
    Seq::new(usage.len(), |i: int| (usage[i].0, usage[i].1@))
}

/// What the inference of integer literals remembers. The sources of the
/// variables are kept in the order in which they were first recorded.
pub struct TypeInferenceState {
    pub type_hint: Option<TypeDecl>,
    /// For each variable the expression that gave it its value, one entry
    /// for a variable. It is a list and no hash map: the finalization
    /// walks it, and what it does must not hang on the order in which a
    /// hash map hands out its entries.
    pub variable_expr_mapping: Vec<(Symbol, ExprRef)>,
    pub number_usage_context: Vec<(ExprRef, TypeDecl)>,
}

impl TypeInferenceState {
    /// No hint, no source, no noted rewrite.
    pub fn new() -> (state: Self)
        ensures
            state.type_hint is None,
            state.variable_expr_mapping@ == Seq::<(Symbol, ExprRef)>::empty(),
            usage_view(state.number_usage_context@) == Seq::<(ExprRef, Ty)>::empty(),
    {
        let state = TypeInferenceState {
            type_hint: None,
            variable_expr_mapping: Vec::new(),
            number_usage_context: Vec::new(),
        };
        assert(usage_view(state.number_usage_context@) =~= Seq::<(ExprRef, Ty)>::empty());
        state
    }

    /// The source recorded for `name`.
    pub fn source_of(&self, name: Symbol) -> (source: Option<ExprRef>)
        ensures
            source == assoc_get(self.variable_expr_mapping@, name),
    {
        let mut i: usize = 0;
        assert(self.variable_expr_mapping@.subrange(0, self.variable_expr_mapping@.len() as int)
            =~= self.variable_expr_mapping@);
        while i < self.variable_expr_mapping.len()
            invariant
                i <= self.variable_expr_mapping.len(),
                assoc_get(self.variable_expr_mapping@, name) == assoc_get(
                    self.variable_expr_mapping@.subrange(i as int, self.variable_expr_mapping@.len() as int),
                    name,
                ),
            decreases self.variable_expr_mapping.len() - i,
        {
            let ghost rest = self.variable_expr_mapping@.subrange(
                i as int,
                self.variable_expr_mapping@.len() as int,
            );
            assert(rest.drop_first() =~= self.variable_expr_mapping@.subrange(
                i + 1,
                self.variable_expr_mapping@.len() as int,
            ));
            let entry = self.variable_expr_mapping[i];
            if entry.0.0 == name.0 {
                return Some(entry.1);
            }
            i += 1;
        }
        None
    }

    /// Records `source` for `name`, in place of an earlier source.
    pub fn record_source(&mut self, name: Symbol, source: ExprRef)
        ensures
            final(self).variable_expr_mapping@ == assoc_insert(
                old(self).variable_expr_mapping@,
                name,
                source,
            ),
            final(self).type_hint == old(self).type_hint,
            final(self).number_usage_context == old(self).number_usage_context,
    {
        let mut i: usize = 0;
        let ghost all = self.variable_expr_mapping@;
        assert(all.subrange(0, all.len() as int) =~= all);
        assert(all.subrange(0, 0) =~= Seq::<(Symbol, ExprRef)>::empty());
        while i < self.variable_expr_mapping.len()
            invariant
                i <= self.variable_expr_mapping.len(),
                self.variable_expr_mapping@ == all,
                all == old(self).variable_expr_mapping@,
                self.type_hint == old(self).type_hint,
                self.number_usage_context == old(self).number_usage_context,
                assoc_insert(all, name, source) =~= all.subrange(0, i as int) + assoc_insert(
                    all.subrange(i as int, all.len() as int),
                    name,
                    source,
                ),
            decreases self.variable_expr_mapping.len() - i,
        {
            let ghost rest = all.subrange(i as int, all.len() as int);
            assert(rest.drop_first() =~= all.subrange(i + 1, all.len() as int));
            assert(all.subrange(0, i + 1) =~= all.subrange(0, i as int) + seq![rest[0]]);
            if self.variable_expr_mapping[i].0.0 == name.0 {
                self.variable_expr_mapping.set(i, (name, source));
                assert(assoc_insert(rest, name, source) =~= seq![(name, source)] + rest.drop_first());
                assert(self.variable_expr_mapping@ =~= all.subrange(0, i as int) + (seq![
                    (name, source),
                ] + rest.drop_first()));
                return ;
            }
            i += 1;
        }
        self.variable_expr_mapping.push((name, source));
        assert(self.variable_expr_mapping@ =~= assoc_insert(all, name, source));
    }

    /// Forgets the source of `name`.
    pub fn forget_source(&mut self, name: Symbol)
        ensures
            final(self).variable_expr_mapping@ == assoc_remove(old(self).variable_expr_mapping@, name),
            final(self).type_hint == old(self).type_hint,
            final(self).number_usage_context == old(self).number_usage_context,
    {
        let mut i: usize = 0;
        let ghost all = self.variable_expr_mapping@;
        assert(all.subrange(0, all.len() as int) =~= all);
        assert(all.subrange(0, 0) =~= Seq::<(Symbol, ExprRef)>::empty());
        while i < self.variable_expr_mapping.len()
            invariant
                i <= self.variable_expr_mapping.len(),
                self.variable_expr_mapping@ == all,
                all == old(self).variable_expr_mapping@,
                self.type_hint == old(self).type_hint,
                self.number_usage_context == old(self).number_usage_context,
                assoc_remove(all, name) =~= all.subrange(0, i as int) + assoc_remove(
                    all.subrange(i as int, all.len() as int),
                    name,
                ),
            decreases self.variable_expr_mapping.len() - i,
        {
            let ghost rest = all.subrange(i as int, all.len() as int);
            assert(rest.drop_first() =~= all.subrange(i + 1, all.len() as int));
            assert(all.subrange(0, i + 1) =~= all.subrange(0, i as int) + seq![rest[0]]);
            if self.variable_expr_mapping[i].0.0 == name.0 {
                self.variable_expr_mapping.remove(i);
                assert(assoc_remove(rest, name) =~= rest.drop_first());
                assert(self.variable_expr_mapping@ =~= all.subrange(0, i as int) + rest.drop_first());
                return ;
            }
            i += 1;
        }
        assert(self.variable_expr_mapping@ =~= assoc_remove(all, name));
    }
}

} // verus!
