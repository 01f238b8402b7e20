//! The variables of a running program: a stack of frames.

use crate::interpreter::error::RuntimeError;
use crate::interpreter::object::{Object, ObjectKind, Value};
use crate::symbol::Symbol;
use std::collections::HashMap;
use vstd::prelude::*;

verus! {

/// A variable at run time: whether it may be assigned to, and its value.
#[derive(Debug)]
pub struct VariableValue {
    pub mutable: bool,
    pub value: Object,
}

/// The mathematical value of a variable.
pub ghost struct Binding {
    pub mutable: bool,
    pub value: Value,
}

impl View for VariableValue {
    type V = Binding;

    open spec fn view(&self) -> Binding {
        Binding { mutable: self.mutable, value: self.value@ }
    }
}

/// The values of the variables of one frame.
pub open spec fn frame_view(frame: Map<u32, VariableValue>) -> Map<u32, Binding> {
    Map::new(|k: u32| frame.contains_key(k), |k: u32| frame[k]@)
}

/// The scopes as mathematical values, outermost first.
pub type Scopes = Seq<Map<u32, Binding>>;

/// The binding of `name` in the innermost frame that has one.
pub open spec fn find(scopes: Scopes, name: Symbol) -> Option<Binding>
    decreases scopes.len(),
{
    if scopes.len() == 0 {
        None
    } else if scopes.last().contains_key(name.0) {
        Some(scopes.last()[name.0])
    } else {
        find(scopes.drop_last(), name)
    }
}

/// The scopes with `binding` for `name` in the innermost frame; a frame is
/// opened first where there is none.
pub open spec fn bind(scopes: Scopes, name: Symbol, binding: Binding) -> Scopes {
    if scopes.len() == 0 {
        seq![Map::<u32, Binding>::empty().insert(name.0, binding)]
    } else {
        scopes.drop_last().push(scopes.last().insert(name.0, binding))
    }
}

/// Whether the innermost frame binds `name`.
pub open spec fn bound_here(scopes: Scopes, name: Symbol) -> bool {
    scopes.len() > 0 && scopes.last().contains_key(name.0)
}

/// Whether a variable that holds `current` may take `value`: the kinds are
/// the same, or the variable holds `null`.
pub open spec fn may_hold(current: Value, value: Value) -> bool {
    current is Null || current.kind() == value.kind()
}

/// Declares a `val`: a name that the innermost frame has already is an
/// error.
pub open spec fn define_val(scopes: Scopes, name: Symbol, value: Value) -> Result<Scopes, RuntimeError> {
    if bound_here(scopes, name) {
        Err(RuntimeError::AlreadyDefined(name))
    } else {
        Ok(bind(scopes, name, Binding { mutable: false, value }))
    }
}

/// Declares a `var` in the innermost frame. Where that frame has the name
/// already, it must be a `var`, which takes the new value if it may hold it.
pub open spec fn define_var(scopes: Scopes, name: Symbol, value: Value) -> Result<Scopes, RuntimeError> {
    if bound_here(scopes, name) {
        let current = scopes.last()[name.0];
        if !current.mutable {
            Err(RuntimeError::ImmutableAssignment(name))
        } else if !may_hold(current.value, value) {
            Err(
                RuntimeError::TypeMismatch {
                    expected: current.value.kind(),
                    actual: value.kind(),
                },
            )
        } else {
            Ok(bind(scopes, name, Binding { mutable: true, value }))
        }
    } else {
        Ok(bind(scopes, name, Binding { mutable: true, value }))
    }
}

/// The scopes with the innermost binding of `name` holding `value`.
pub open spec fn store(scopes: Scopes, name: Symbol, value: Value) -> Scopes
    decreases scopes.len(),
{
    if scopes.len() == 0 {
        scopes
    } else if scopes.last().contains_key(name.0) {
        scopes.drop_last().push(
            scopes.last().insert(name.0, Binding { mutable: scopes.last()[name.0].mutable, value }),
        )
    } else {
        store(scopes.drop_last(), name, value).push(scopes.last())
    }
}

/// Storing a value keeps the number of frames.
pub proof fn lemma_store_len(scopes: Scopes, name: Symbol, value: Value)
    ensures
        store(scopes, name, value).len() == scopes.len(),
    decreases scopes.len(),
{
    if scopes.len() > 0 && !scopes.last().contains_key(name.0) {
        lemma_store_len(scopes.drop_last(), name, value);
    }
}

/// Assigns to the innermost binding of `name`, which must be a `var` that
/// may hold the value.
pub open spec fn assign(scopes: Scopes, name: Symbol, value: Value) -> Result<Scopes, RuntimeError> {
    match find(scopes, name) {
        None => Err(RuntimeError::UndefinedVariable(name)),
        Some(current) => if !current.mutable {
            Err(RuntimeError::ImmutableAssignment(name))
        } else if !may_hold(current.value, value) {
            Err(
                RuntimeError::TypeMismatch {
                    expected: current.value.kind(),
                    actual: value.kind(),
                },
            )
        } else {
            Ok(store(scopes, name, value))
        },
    }
}

/// The scopes without the innermost frame.
pub open spec fn leave(scopes: Scopes) -> Scopes {
    if scopes.len() > 0 {
        scopes.drop_last()
    } else {
        scopes
    }
}

/// The value of a variable that is read: it must be bound, and not hold
/// `null`.
pub open spec fn read(scopes: Scopes, name: Symbol) -> Result<Value, RuntimeError> {
    match find(scopes, name) {
        None => Err(RuntimeError::UndefinedVariable(name)),
        Some(binding) => if binding.value is Null {
            Err(RuntimeError::NullVariable(name))
        } else {
            Ok(binding.value)
        },
    }
}

/// The variables of a running program: a stack of frames, outermost first.
pub struct Environment {
    pub frames: Vec<HashMap<u32, VariableValue>>,
}

impl View for Environment {
    type V = Scopes;

    open spec fn view(&self) -> Scopes {
        Seq::new(self.frames@.len(), |i: int| frame_view(self.frames@[i]@))
    }
}

impl Environment {
    /// An environment without a frame.
    pub fn new() -> (environment: Self)
        ensures
            environment@ == Seq::<Map<u32, Binding>>::empty(),
    {
        let environment = Environment { frames: Vec::new() };
        assert(environment@ =~= Seq::<Map<u32, Binding>>::empty());
        environment
    }

    /// Opens a frame.
    pub fn new_block(&mut self)
        ensures
            final(self)@ == old(self)@.push(Map::<u32, Binding>::empty()),
    {
        self.frames.push(HashMap::new());
        assert(frame_view(Map::<u32, VariableValue>::empty()) =~= Map::<u32, Binding>::empty());
        assert(self@ =~= old(self)@.push(Map::<u32, Binding>::empty()));
    }

    /// Closes the innermost frame, if there is one.
    pub fn pop(&mut self)
        ensures
            final(self)@ == leave(old(self)@),
    {
        self.frames.pop();
        assert(self@ =~= leave(old(self)@));
    }

    /// The binding of `name` in the innermost frame that has one.
    pub fn get(&self, name: Symbol) -> (found: Option<(bool, Object)>)
        ensures
            match found {
                Some((mutable, value)) => find(self@, name) == Some(
                    Binding { mutable, value: value@ },
                ),
                None => find(self@, name) is None,
            },
    {
        let mut i = self.frames.len();
        assert(self@.subrange(0, i as int) =~= self@);
        while i > 0
            invariant
                i <= self.frames.len(),
                find(self@, name) == find(self@.subrange(0, i as int), name),
            decreases i,
        {
            i -= 1;
            let ghost prefix = self@.subrange(0, i + 1);
            assert(prefix.drop_last() =~= self@.subrange(0, i as int));
            assert(prefix.last() == frame_view(self.frames@[i as int]@));
            match self.frames[i].get(&name.0) {
                Some(variable) => {
                    return Some((variable.mutable, variable.value.clone()));
                },
                None => {},
            }
        }
        None
    }

    /// Whether the innermost frame binds `name`, and how.
    fn get_here(&self, name: Symbol) -> (found: Option<(bool, ObjectKind)>)
        ensures
            match found {
                Some((mutable, kind)) => bound_here(self@, name) && self@.last()[name.0].mutable
                    == mutable && self@.last()[name.0].value.kind() == kind,
                None => !bound_here(self@, name),
            },
    {
        if self.frames.len() == 0 {
            return None;
        }
        let last = self.frames.len() - 1;
        assert(self@.last() == frame_view(self.frames@[last as int]@));
        match self.frames[last].get(&name.0) {
            Some(variable) => Some((variable.mutable, variable.value.kind())),
            None => None,
        }
    }

    /// Puts a binding in the innermost frame.
    pub fn bind(&mut self, name: Symbol, mutable: bool, value: Object)
        ensures
            final(self)@ == bind(old(self)@, name, Binding { mutable, value: value@ }),
    {
        let mut frame = match self.frames.pop() {
            Some(frame) => frame,
            None => HashMap::new(),
        };
        let ghost before = frame@;
        frame.insert(name.0, VariableValue { mutable, value });
        assert(frame_view(frame@) =~= frame_view(before).insert(
            name.0,
            Binding { mutable, value: value@ },
        ));
        self.frames.push(frame);
        assert(frame_view(Map::<u32, VariableValue>::empty()) =~= Map::<u32, Binding>::empty());
        assert(self@ =~= bind(old(self)@, name, Binding { mutable, value: value@ }));
    }

    /// Declares a `val` in the innermost frame.
    pub fn set_val(&mut self, name: Symbol, value: Object) -> (result: Result<(), RuntimeError>)
        ensures
            match result {
                Ok(_) => define_val(old(self)@, name, value@) == Ok::<Scopes, RuntimeError>(
                    final(self)@,
                ),
                Err(error) => define_val(old(self)@, name, value@) == Err::<Scopes, RuntimeError>(
                    error,
                ) && final(self)@ == old(self)@,
            },
            old(self)@.len() > 0 ==> final(self)@.len() == old(self)@.len(),
    {
        if self.get_here(name).is_some() {
            return Err(RuntimeError::AlreadyDefined(name));
        }
        self.bind(name, false, value);
        Ok(())
    }

    /// Declares a `var` in the innermost frame.
    pub fn set_var(&mut self, name: Symbol, value: Object) -> (result: Result<(), RuntimeError>)
        ensures
            match result {
                Ok(_) => define_var(old(self)@, name, value@) == Ok::<Scopes, RuntimeError>(
                    final(self)@,
                ),
                Err(error) => define_var(old(self)@, name, value@) == Err::<Scopes, RuntimeError>(
                    error,
                ) && final(self)@ == old(self)@,
            },
            old(self)@.len() > 0 ==> final(self)@.len() == old(self)@.len(),
    {
        match self.get_here(name) {
            Some((mutable, kind)) => {
                if !mutable {
                    return Err(RuntimeError::ImmutableAssignment(name));
                }
                if !matches!(kind, ObjectKind::Null) && kind != value.kind() {
                    return Err(RuntimeError::TypeMismatch { expected: kind, actual: value.kind() });
                }
            },
            None => {},
        }
        self.bind(name, true, value);
        Ok(())
    }

    /// Stores `value` in the innermost binding of `name`.
    fn store(&mut self, name: Symbol, value: Object)
        ensures
            final(self)@ == store(old(self)@, name, value@),
    {
        let mut i = self.frames.len();
        assert(self@.subrange(0, i as int) =~= self@);
        assert(self@.subrange(i as int, i as int) =~= Seq::<Map<u32, Binding>>::empty());
        while i > 0
            invariant
                i <= self.frames.len(),
                *self == *old(self),
                store(self@, name, value@) =~= store(self@.subrange(0, i as int), name, value@)
                    + self@.subrange(i as int, self@.len() as int),
            decreases i,
        {
            i -= 1;
            let ghost prefix = self@.subrange(0, i + 1);
            assert(prefix.drop_last() =~= self@.subrange(0, i as int));
            assert(prefix.last() == frame_view(self.frames@[i as int]@));
            let mutable = match self.frames[i].get(&name.0) {
                Some(variable) => Some(variable.mutable),
                None => None,
            };
            match mutable {
                Some(mutable) => {
                    let ghost before = self.frames@[i as int]@;
                    self.frames[i].insert(name.0, VariableValue { mutable, value });
                    assert(frame_view(self.frames@[i as int]@) =~= frame_view(before).insert(
                        name.0,
                        Binding { mutable, value: value@ },
                    ));
                    assert(self@ =~= store(old(self)@, name, value@));
                    return ;
                },
                None => {},
            }
        }
    }

    /// Assigns to a variable.
    pub fn assign(&mut self, name: Symbol, value: Object) -> (result: Result<(), RuntimeError>)
        ensures
            match result {
                Ok(_) => assign(old(self)@, name, value@) == Ok::<Scopes, RuntimeError>(
                    final(self)@,
                ),
                Err(error) => assign(old(self)@, name, value@) == Err::<Scopes, RuntimeError>(error)
                    && final(self)@ == old(self)@,
            },
            old(self)@.len() > 0 ==> final(self)@.len() == old(self)@.len(),
    {
        match self.get(name) {
            None => Err(RuntimeError::UndefinedVariable(name)),
            Some((mutable, current)) => {
                if !mutable {
                    return Err(RuntimeError::ImmutableAssignment(name));
                }
                let kind = current.kind();
                if !matches!(kind, ObjectKind::Null) && kind != value.kind() {
                    return Err(RuntimeError::TypeMismatch { expected: kind, actual: value.kind() });
                }
                proof {
                    lemma_store_len(self@, name, value@);
                }
                self.store(name, value);
                Ok(())
            },
        }
    }

    /// Reads a variable.
    pub fn read(&self, name: Symbol) -> (result: Result<Object, RuntimeError>)
        ensures
            match result {
                Ok(value) => read(self@, name) == Ok::<Value, RuntimeError>(value@),
                Err(error) => read(self@, name) == Err::<Value, RuntimeError>(error),
            },
    {
        match self.get(name) {
            None => Err(RuntimeError::UndefinedVariable(name)),
            Some((_, value)) => {
                if matches!(value, Object::Null) {
                    Err(RuntimeError::NullVariable(name))
                } else {
                    Ok(value)
                }
            },
        }
    }
}

} // verus!
