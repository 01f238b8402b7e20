//! The scopes of the variables and the table of the functions.

use crate::ast::Function;
use crate::shared::share;
use crate::symbol::Symbol;
use crate::type_decl::{Ty, TypeDecl};
use std::collections::HashMap;
use std::rc::Rc;
use vstd::prelude::*;

verus! {

/// The values of the types that a table holds, key by key.
pub open spec fn table_view(table: Map<u32, TypeDecl>) -> Map<u32, Ty> {
    Map::new(|k: u32| table.contains_key(k), |k: u32| table[k]@)
}

/// The values of a stack of scope frames, outermost first.
pub open spec fn frames_view(frames: Seq<HashMap<u32, TypeDecl>>) -> Seq<Map<u32, Ty>> {
    Seq::new(frames.len(), |i: int| table_view(frames[i]@))
}

/// The type that the innermost frame with `name` gives it.
pub open spec fn lookup_var(vars: Seq<Map<u32, Ty>>, name: Symbol) -> Option<Ty>
    decreases vars.len(),
{
    if vars.len() == 0 {
        None
    } else if vars.last().contains_key(name.0) {
        Some(vars.last()[name.0])
    } else {
        lookup_var(vars.drop_last(), name)
    }
}

/// The frames after `name` is bound to `ty` in the innermost one; a frame
/// is opened first where there is none.
pub open spec fn bind_var(vars: Seq<Map<u32, Ty>>, name: Symbol, ty: Ty) -> Seq<Map<u32, Ty>> {
    if vars.len() == 0 {
        seq![Map::<u32, Ty>::empty().insert(name.0, ty)]
    } else {
        vars.drop_last().push(vars.last().insert(name.0, ty))
    }
}

/// The frames after the innermost binding of `name` is given the type `ty`;
/// unchanged where no frame binds `name`.
pub open spec fn retype_var(vars: Seq<Map<u32, Ty>>, name: Symbol, ty: Ty) -> Seq<Map<u32, Ty>>
    decreases vars.len(),
{
    if vars.len() == 0 {
        vars
    } else if vars.last().contains_key(name.0) {
        vars.drop_last().push(vars.last().insert(name.0, ty))
    } else {
        retype_var(vars.drop_last(), name, ty).push(vars.last())
    }
}

/// Giving a variable another type keeps the number of frames.
pub proof fn lemma_retype_len(vars: Seq<Map<u32, Ty>>, name: Symbol, ty: Ty)
    ensures
        retype_var(vars, name, ty).len() == vars.len(),
    decreases vars.len(),
{
    if vars.len() > 0 && !vars.last().contains_key(name.0) {
        lemma_retype_len(vars.drop_last(), name, ty);
    }
}

/// The scopes of the variables and the table of the functions.
pub struct TypeCheckContext {
    pub vars: Vec<HashMap<u32, TypeDecl>>,
    pub functions: HashMap<u32, Rc<Function>>,
}

impl TypeCheckContext {
    /// The scope frames, outermost first.
    pub open spec fn frames(&self) -> Seq<Map<u32, Ty>> {
        frames_view(self.vars@)
    }

    /// A context with no frame and no function.
    pub fn new() -> (context: Self)
        ensures
            context.frames() == Seq::<Map<u32, Ty>>::empty(),
            context.functions@ == Map::<u32, Rc<Function>>::empty(),
    {
        let context = TypeCheckContext { vars: Vec::new(), functions: HashMap::new() };
        assert(context.frames() =~= Seq::<Map<u32, Ty>>::empty());
        context
    }

    /// Opens a scope.
    pub fn push_frame(&mut self)
        ensures
            final(self).frames() == old(self).frames().push(Map::<u32, Ty>::empty()),
            final(self).functions == old(self).functions,
    {
        self.vars.push(HashMap::new());
        assert(self.frames() =~= old(self).frames().push(Map::<u32, Ty>::empty())) by {
            assert(table_view(Map::<u32, TypeDecl>::empty()) =~= Map::<u32, Ty>::empty());
        }
    }

    /// Closes the innermost scope, if there is one.
    pub fn pop_frame(&mut self)
        ensures
            final(self).frames() == if old(self).frames().len() > 0 {
                old(self).frames().drop_last()
            } else {
                old(self).frames()
            },
            final(self).functions == old(self).functions,
    {
        self.vars.pop();
        assert(self.frames() =~= if old(self).frames().len() > 0 {
            old(self).frames().drop_last()
        } else {
            old(self).frames()
        });
    }

    /// Binds `name` in the innermost scope.
    pub fn set_var(&mut self, name: Symbol, ty: TypeDecl)
        ensures
            final(self).frames() == bind_var(old(self).frames(), name, ty@),
            final(self).functions == old(self).functions,
    {
        let mut frame = match self.vars.pop() {
            Some(frame) => frame,
            None => HashMap::new(),
        };
        let ghost before = frame@;
        frame.insert(name.0, ty);
        assert(table_view(frame@) =~= table_view(before).insert(name.0, ty@));
        self.vars.push(frame);
        assert(table_view(Map::<u32, TypeDecl>::empty()) =~= Map::<u32, Ty>::empty());
        assert(self.frames() =~= bind_var(old(self).frames(), name, ty@));
    }

    /// The type of `name` in the innermost scope that binds it.
    pub fn get_var(&self, name: Symbol) -> (found: Option<TypeDecl>)
        ensures
            crate::type_decl::option_view(found) == lookup_var(self.frames(), name),
    {
        let mut i = self.vars.len();
        assert(self.frames().subrange(0, i as int) =~= self.frames());
        assert(self.frames().subrange(i as int, i as int) =~= Seq::<Map<u32, Ty>>::empty());
        while i > 0
            invariant
                i <= self.vars.len(),
                lookup_var(self.frames(), name) == lookup_var(self.frames().subrange(0, i as int), name),
            decreases i,
        {
            i -= 1;
            let ghost prefix = self.frames().subrange(0, i + 1);
            assert(prefix.drop_last() =~= self.frames().subrange(0, i as int));
            assert(prefix.last() == table_view(self.vars@[i as int]@));
            match self.vars[i].get(&name.0) {
                Some(ty) => {
                    return Some(ty.clone());
                },
                None => {},
            }
        }
        None
    }

    /// Gives the innermost binding of `name` the type `ty`; says whether
    /// there was one.
    pub fn update_var_type(&mut self, name: Symbol, ty: TypeDecl) -> (updated: bool)
        ensures
            final(self).frames() == retype_var(old(self).frames(), name, ty@),
            updated == lookup_var(old(self).frames(), name).is_some(),
            final(self).functions == old(self).functions,
    {
        let mut i = self.vars.len();
        assert(self.frames().subrange(0, i as int) =~= self.frames());
        assert(self.frames().subrange(i as int, i as int) =~= Seq::<Map<u32, Ty>>::empty());
        while i > 0
            invariant
                i <= self.vars.len(),
                *self == *old(self),
                lookup_var(self.frames(), name).is_some() == lookup_var(
                    self.frames().subrange(0, i as int),
                    name,
                ).is_some(),
                retype_var(self.frames(), name, ty@) =~= retype_var(
                    self.frames().subrange(0, i as int),
                    name,
                    ty@,
                ) + self.frames().subrange(i as int, self.frames().len() as int),
            decreases i,
        {
            i -= 1;
            let ghost prefix = self.frames().subrange(0, i + 1);
            assert(prefix.drop_last() =~= self.frames().subrange(0, i as int));
            assert(prefix.last() == table_view(self.vars@[i as int]@));
            if self.vars[i].contains_key(&name.0) {
                let ghost before = self.vars@[i as int]@;
                self.vars[i].insert(name.0, ty);
                assert(table_view(self.vars@[i as int]@) =~= table_view(before).insert(name.0, ty@));
                assert(self.frames() =~= retype_var(old(self).frames(), name, ty@));
                return true;
            }
        }
        assert(self.frames().subrange(0, self.frames().len() as int) =~= self.frames());
        false
    }

    /// Registers a function under its name.
    pub fn set_fn(&mut self, name: Symbol, function: Rc<Function>)
        ensures
            final(self).functions@ == old(self).functions@.insert(name.0, function),
            final(self).vars == old(self).vars,
    {
        self.functions.insert(name.0, function);
    }

    /// The function registered under `name`.
    pub fn get_fn(&self, name: Symbol) -> (found: Option<Rc<Function>>)
        ensures
            found == if self.functions@.contains_key(name.0) {
                Some(self.functions@[name.0])
            } else {
                None
            },
    {
        match self.functions.get(&name.0) {
            Some(function) => Some(share(function)),
            None => None,
        }
    }
}

} // verus!
