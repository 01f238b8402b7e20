use toylang::interner::Interner;
use toylang::symbol::Symbol;

#[test]
fn a_new_interner_is_empty() {
    let interner = Interner::new();
    assert_eq!(interner.len(), 0);
    assert_eq!(interner.get("main"), None);
    assert_eq!(interner.resolve(Symbol(0)), None);
}

#[test]
fn strings_get_symbols_in_order() {
    let mut interner = Interner::new();
    assert_eq!(interner.get_or_intern("main"), Some(Symbol(0)));
    assert_eq!(interner.get_or_intern("a"), Some(Symbol(1)));
    assert_eq!(interner.get_or_intern("main"), Some(Symbol(0)));
    assert_eq!(interner.get_or_intern(""), Some(Symbol(2)));
    assert_eq!(interner.len(), 3);
    assert_eq!(interner.get("a"), Some(Symbol(1)));
    assert_eq!(interner.get("b"), None);
    assert_eq!(interner.len(), 3);
    assert_eq!(interner.resolve(Symbol(0)), Some("main"));
    assert_eq!(interner.resolve(Symbol(1)), Some("a"));
    assert_eq!(interner.resolve(Symbol(2)), Some(""));
    assert_eq!(interner.resolve(Symbol(3)), None);
    assert_eq!(interner.resolve(Symbol(u32::MAX)), None);
}

#[test]
fn a_duplicate_holds_the_same_strings_and_grows_alone() {
    let mut interner = Interner::new();
    interner.get_or_intern("x");
    let mut copy = interner.clone();
    assert_eq!(copy.len(), 1);
    assert_eq!(copy.resolve(Symbol(0)), Some("x"));
    assert_eq!(copy.get_or_intern("y"), Some(Symbol(1)));
    assert_eq!(interner.len(), 1);
    assert_eq!(interner.get("y"), None);
}
