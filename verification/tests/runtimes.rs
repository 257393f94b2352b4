use deno_rider::runtimes::Registry;

#[test]
fn an_empty_registry_knows_no_instance() {
    let registry = Registry::new();
    assert_eq!(registry.get(0), None);
    assert_eq!(registry.get(1), None);
    assert_eq!(registry.get(usize::MAX), None);
}

#[test]
fn an_instance_is_found_under_its_id() {
    let mut registry = Registry::new();
    let id = registry.insert(700);
    assert_eq!(registry.get(id), Some(700));
}

#[test]
fn the_first_ids_are_small() {
    let mut registry = Registry::new();
    assert_eq!(registry.insert(10), 0);
    assert_eq!(registry.insert(11), 1);
    assert_eq!(registry.insert(12), 2);
}

#[test]
fn live_instances_have_different_ids() {
    let mut registry = Registry::new();
    let first = registry.insert(1);
    let second = registry.insert(2);
    let third = registry.insert(1);
    assert_ne!(first, second);
    assert_ne!(first, third);
    assert_ne!(second, third);
    assert_eq!(registry.get(first), Some(1));
    assert_eq!(registry.get(second), Some(2));
    assert_eq!(registry.get(third), Some(1));
}

#[test]
fn removing_returns_the_owner_and_forgets_the_instance() {
    let mut registry = Registry::new();
    let first = registry.insert(5);
    let second = registry.insert(6);
    assert_eq!(registry.remove(first), Some(5));
    assert_eq!(registry.get(first), None);
    assert_eq!(registry.get(second), Some(6));
}

#[test]
fn removing_twice_is_harmless() {
    let mut registry = Registry::new();
    let id = registry.insert(5);
    assert_eq!(registry.remove(id), Some(5));
    assert_eq!(registry.remove(id), None);
    assert_eq!(registry.remove(99), None);
}

#[test]
fn an_id_is_given_out_again_after_its_instance_has_left() {
    let mut registry = Registry::new();
    let first = registry.insert(5);
    let second = registry.insert(6);
    registry.remove(first);
    let third = registry.insert(7);
    assert_eq!(third, first);
    assert_eq!(registry.get(third), Some(7));
    assert_eq!(registry.get(second), Some(6));
}
