use mesos::registry::{Registry, RegistryError, Token};

#[test]
fn fresh_registry_resolves_nothing() {
    let registry: Registry<u32> = Registry::new();
    let token = Token { index: 0, generation: 0 };
    assert_eq!(registry.resolve(token), Err(RegistryError::Inactive));
    let far = Token { index: 17, generation: 3 };
    assert_eq!(registry.resolve(far), Err(RegistryError::Inactive));
}

#[test]
fn activate_then_resolve_returns_the_entry() {
    let mut registry: Registry<u32> = Registry::new();
    let token = registry.activate(7);
    assert_eq!(registry.resolve(token), Ok(&7));
}

#[test]
fn deactivated_token_stays_dead() {
    let mut registry: Registry<u32> = Registry::new();
    let token = registry.activate(7);
    assert_eq!(registry.deactivate(token), Ok(()));
    assert_eq!(registry.resolve(token), Err(RegistryError::Inactive));
    // Deactivating again fails rather than pretending anything was cleared.
    assert_eq!(registry.deactivate(token), Err(RegistryError::Inactive));
}

#[test]
fn stale_token_never_resolves_to_a_later_entry() {
    let mut registry: Registry<u32> = Registry::new();
    let first = registry.activate(7);
    registry.deactivate(first).unwrap();
    // The slot is reused, but under a new generation.
    let second = registry.activate(8);
    assert_eq!(registry.resolve(second), Ok(&8));
    assert_eq!(registry.resolve(first), Err(RegistryError::Inactive));
}

#[test]
fn several_entries_are_active_at_once() {
    let mut registry: Registry<u32> = Registry::new();
    let a = registry.activate(1);
    let b = registry.activate(2);
    let c = registry.activate(3);
    assert_eq!(registry.resolve(a), Ok(&1));
    assert_eq!(registry.resolve(b), Ok(&2));
    assert_eq!(registry.resolve(c), Ok(&3));
    registry.deactivate(b).unwrap();
    assert_eq!(registry.resolve(a), Ok(&1));
    assert_eq!(registry.resolve(b), Err(RegistryError::Inactive));
    assert_eq!(registry.resolve(c), Ok(&3));
}
