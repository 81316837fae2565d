use sentinel::registry::Registry;

#[test]
fn a_new_registry_is_empty() {
    let registry = Registry::new();
    assert_eq!(registry.count(), 0);
    assert!(!registry.is_active());
}

#[test]
fn register_then_unregister_restores_zero() {
    let mut registry = Registry::new();
    assert!(registry.register());
    assert_eq!(registry.count(), 1);
    assert!(registry.is_active());
    registry.unregister();
    assert_eq!(registry.count(), 0);
    assert!(!registry.is_active());
}

#[test]
fn only_the_first_registration_wakes() {
    let mut registry = Registry::new();
    assert!(registry.register());
    assert!(!registry.register());
    assert_eq!(registry.count(), 2);
    registry.unregister();
    assert_eq!(registry.count(), 1);
    assert!(registry.is_active());
    registry.unregister();
    assert_eq!(registry.count(), 0);
    assert!(registry.register());
}

#[test]
fn unregister_never_goes_below_zero() {
    let mut registry = Registry::new();
    registry.unregister();
    assert_eq!(registry.count(), 0);
    registry.register();
    registry.unregister();
    registry.unregister();
    assert_eq!(registry.count(), 0);
}
