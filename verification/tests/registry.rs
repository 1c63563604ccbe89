use boss::api;

#[test]
fn every_construction_yields_the_same_registry() {
    let a = api();
    let b = api();
    assert_eq!(a, b);
}

#[test]
fn sign_in_always_acknowledges() {
    let registry = api();
    assert!(registry.auth.sign_in());
    assert!(registry.auth.sign_in());
}
