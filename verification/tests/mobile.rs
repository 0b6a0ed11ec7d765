//! The mobile shim's in-scope surface. The proof round trips of the
//! mobile crate run through an external proving library and its key
//! material, which are collaborators outside this crate; what remains in
//! scope is the shim's greeting export.

#[test]
fn test_multiplier2() {
    assert_eq!(mithras::mopro_hello_world(), "Hello, World!");
}
