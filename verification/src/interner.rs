//! The string interner. The strings are kept by the `string_interner` crate;
//! the contracts of the calls into it are taken on trust, and say what its
//! source shows.

use crate::symbol::Symbol;
use string_interner::DefaultStringInterner;
use string_interner::DefaultSymbol;
use string_interner::Symbol as InternerSymbol;
use vstd::prelude::*;

verus! {

/// The interner that maps identifiers and literals to symbols. It holds a
/// `string_interner::DefaultStringInterner`, which Verus does not look into.
#[verifier::external_body]
pub struct Interner {
    inner: DefaultStringInterner,
}

/// The strings an interner holds, in the order in which they were first
/// interned: the string at position `i` is the one that symbol `i` names.
pub uninterp spec fn interned(interner: Interner) -> Seq<Seq<char>>;

/// Whether `index` is the first position at which `strings` holds `text`.
pub open spec fn first_at(strings: Seq<Seq<char>>, text: Seq<char>, index: int) -> bool {
    &&& 0 <= index < strings.len()
    &&& strings[index] == text
    &&& forall|j: int| 0 <= j < index ==> strings[j] != text
}

/// The most strings an interner takes: a symbol is a 32-bit id.
pub const MAX_SYMBOLS: usize = 0xffff_ffff;

/// `StringInterner::new`: an interner that holds no string.
#[verifier::external_body]
fn interner_new() -> (interner: Interner)
    ensures
        interned(interner) == Seq::<Seq<char>>::empty(),
{
    Interner { inner: DefaultStringInterner::new() }
}

/// `StringInterner::len`: the number of strings held.
#[verifier::external_body]
fn interner_len(interner: &Interner) -> (n: usize)
    ensures
        n == interned(*interner).len(),
{
    interner.inner.len()
}

/// `StringInterner::get`: the symbol of a string that is held, and `None` for
/// one that is not; nothing is interned. The interner holds no string
/// twice, so the symbol is the first position of the string, and the only
/// one.
#[verifier::external_body]
fn interner_get(interner: &Interner, string: &str) -> (found: Option<Symbol>)
    ensures
        match found {
            Some(symbol) => first_at(interned(*interner), string@, symbol.0 as int),
            None => !interned(*interner).contains(string@),
        },
{
    match interner.inner.get(string) {
        Some(symbol) => Some(Symbol(symbol.to_usize() as u32)),
        None => None,
    }
}

/// `StringInterner::get_or_intern`: a string that is held keeps its symbol
/// and nothing changes; a new one is appended and gets the next symbol. The
/// call panics when the symbols have run out, which `requires` leaves out.
#[verifier::external_body]
fn interner_get_or_intern(interner: &mut Interner, string: &str) -> (symbol: Symbol)
    requires
        interned(*old(interner)).len() < MAX_SYMBOLS,
    ensures
        first_at(interned(*final(interner)), string@, symbol.0 as int),
        interned(*old(interner)).contains(string@) ==> interned(*final(interner)) == interned(
            *old(interner),
        ),
        !interned(*old(interner)).contains(string@) ==> interned(*final(interner)) == interned(
            *old(interner),
        ).push(string@) && symbol.0 == interned(*old(interner)).len(),
{
    Symbol(interner.inner.get_or_intern(string).to_usize() as u32)
}

/// `StringInterner::resolve`: the string that a symbol names, and `None` for
/// a symbol that the interner never gave out.
#[verifier::external_body]
fn interner_resolve(interner: &Interner, symbol: Symbol) -> (string: Option<&str>)
    ensures
        match string {
            Some(s) => symbol.0 < interned(*interner).len() && s@ == interned(
                *interner,
            )[symbol.0 as int],
            None => symbol.0 >= interned(*interner).len(),
        },
{
    match DefaultSymbol::try_from_usize(symbol.0 as usize) {
        Some(inner_symbol) => interner.inner.resolve(inner_symbol),
        None => None,
    }
}

/// `StringInterner::clone`: an interner that holds the same strings under
/// the same symbols.
#[verifier::external_body]
fn interner_clone(interner: &Interner) -> (copy: Interner)
    ensures
        interned(copy) == interned(*interner),
{
    Interner { inner: interner.inner.clone() }
}

/// The strings after `text` is interned: it is appended unless it is held.
pub open spec fn with_string(strings: Seq<Seq<char>>, text: Seq<char>) -> Seq<Seq<char>> {
    if strings.contains(text) {
        strings
    } else {
        strings.push(text)
    }
}

/// Whether an interner that holds `strings` cannot take `text`: it does not
/// hold it, and has no symbol left for it.
pub open spec fn no_room(strings: Seq<Seq<char>>, text: Seq<char>) -> bool {
    !strings.contains(text) && strings.len() >= MAX_SYMBOLS
}

/// The first position from `from` on at which `strings` holds `text`.
pub open spec fn first_index(strings: Seq<Seq<char>>, text: Seq<char>, from: int) -> Option<int>
    decreases strings.len() - from,
{
    if from < 0 || from >= strings.len() {
        None
    } else if strings[from] == text {
        Some(from)
    } else {
        first_index(strings, text, from + 1)
    }
}

/// The symbol that names `text`: its first position among the strings.
pub open spec fn symbol_of(strings: Seq<Seq<char>>, text: Seq<char>) -> Option<Symbol> {
    match first_index(strings, text, 0) {
        Some(index) => if index <= u32::MAX {
            Some(Symbol(index as u32))
        } else {
            None
        },
        None => None,
    }
}

/// The first position from `from` on is the position that `first_at`
/// describes, and there is none where the text does not occur.
pub proof fn lemma_first_index(strings: Seq<Seq<char>>, text: Seq<char>, from: int)
    requires
        0 <= from,
    ensures
        match first_index(strings, text, from) {
            Some(index) => from <= index < strings.len() && strings[index] == text && forall|j: int|
                from <= j < index ==> strings[j] != text,
            None => forall|j: int| from <= j < strings.len() ==> strings[j] != text,
        },
    decreases strings.len() - from,
{
    if from < strings.len() && strings[from] != text {
        lemma_first_index(strings, text, from + 1);
    }
}

impl Interner {
    /// The symbol of `string` if it is held; nothing is interned.
    pub fn get(&self, string: &str) -> (found: Option<Symbol>)
        ensures
            found == symbol_of(self.strings(), string@),
            found is Some <==> self.strings().contains(string@),
    {
        proof {
            lemma_first_index(self.strings(), string@, 0);
        }
        let found = interner_get(self, string);
        proof {
            match found {
                Some(symbol) => {
                    let index = first_index(self.strings(), string@, 0);
                    assert(index is Some);
                    assert(index->0 == symbol.0) by {
                        if index->0 < symbol.0 {
                            assert(self.strings()[index->0] != string@);
                        }
                    }
                },
                None => {
                    if first_index(self.strings(), string@, 0) is Some {
                        assert(self.strings().contains(string@));
                    }
                },
            }
        }
        found
    }

    /// The strings held, by symbol.
    pub open spec fn strings(&self) -> Seq<Seq<char>> {
        interned(*self)
    }

    /// An interner that holds no string.
    pub fn new() -> (interner: Interner)
        ensures
            interner.strings() == Seq::<Seq<char>>::empty(),
    {
        interner_new()
    }

    /// The number of strings held.
    pub fn len(&self) -> (n: usize)
        ensures
            n == self.strings().len(),
    {
        interner_len(self)
    }

    /// The symbol of `string`, which is interned if it was not held. A
    /// string that is held has its symbol also when the interner is full;
    /// `None`, with nothing changed, only for a new string when no symbol
    /// is left.
    pub fn get_or_intern(&mut self, string: &str) -> (found: Option<Symbol>)
        ensures
            found is None <==> no_room(old(self).strings(), string@),
            found is Some ==> final(self).strings() == with_string(old(self).strings(), string@)
                && found == symbol_of(final(self).strings(), string@),
            found is None ==> final(self).strings() == old(self).strings(),
    {
        proof {
            lemma_first_index(self.strings(), string@, 0);
        }
        match self.get(string) {
            Some(symbol) => {
                return Some(symbol);
            },
            None => {},
        }
        if interner_len(self) < MAX_SYMBOLS {
            let symbol = interner_get_or_intern(self, string);
            proof {
                lemma_first_index(self.strings(), string@, 0);
                let index = first_index(self.strings(), string@, 0);
                assert(index is Some);
                assert(index->0 == symbol.0) by {
                    if index->0 < symbol.0 {
                        assert(self.strings()[index->0] != string@);
                    }
                }
            }
            Some(symbol)
        } else {
            None
        }
    }

    /// The string that `symbol` names, if the interner gave that symbol out.
    pub fn resolve(&self, symbol: Symbol) -> (string: Option<&str>)
        ensures
            match string {
                Some(s) => symbol.0 < self.strings().len() && s@ == self.strings()[symbol.0 as int],
                None => symbol.0 >= self.strings().len(),
            },
    {
        interner_resolve(self, symbol)
    }
}

impl Clone for Interner {
    /// An interner with the same strings under the same symbols.
    fn clone(&self) -> (copy: Interner)
        ensures
            copy.strings() == self.strings(),
    {
        interner_clone(self)
    }
}

} // verus!
