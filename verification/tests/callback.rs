use deno_rider::callback::{op_apply, CallbackRequest};
use deno_rider::runtimes::Registry;

fn request() -> CallbackRequest {
    CallbackRequest {
        application_id: String::from("17"),
        module: String::from("Elixir.Kernel"),
        function_name: String::from("max"),
        args: String::from("[1,2]"),
    }
}

fn call(registry: &Registry, runtime_id: &str) -> Option<(u64, CallbackRequest)> {
    op_apply(
        registry,
        runtime_id,
        String::from("17"),
        String::from("Elixir.Kernel"),
        String::from("max"),
        String::from("[1,2]"),
    )
}

#[test]
fn a_call_goes_to_the_owner_of_its_instance() {
    let mut registry = Registry::new();
    let first = registry.insert(100);
    let second = registry.insert(200);
    assert_eq!(call(&registry, &first.to_string()), Some((100, request())));
    assert_eq!(call(&registry, &second.to_string()), Some((200, request())));
}

#[test]
fn a_call_from_an_instance_that_has_left_goes_nowhere() {
    let mut registry = Registry::new();
    let id = registry.insert(100);
    registry.remove(id);
    assert_eq!(call(&registry, &id.to_string()), None);
}

#[test]
fn a_call_from_an_unknown_instance_goes_nowhere() {
    let mut registry = Registry::new();
    registry.insert(100);
    assert_eq!(call(&registry, "5"), None);
}

#[test]
fn a_call_without_a_proper_id_goes_nowhere() {
    let mut registry = Registry::new();
    registry.insert(100);
    assert_eq!(call(&registry, ""), None);
    assert_eq!(call(&registry, "zero"), None);
    assert_eq!(call(&registry, "-0"), None);
    assert_eq!(call(&registry, "99999999999999999999999999"), None);
}

#[test]
fn the_id_is_read_as_a_number() {
    let mut registry = Registry::new();
    registry.insert(100);
    assert_eq!(call(&registry, "0"), Some((100, request())));
    assert_eq!(call(&registry, "00"), Some((100, request())));
    assert_eq!(call(&registry, "+0"), Some((100, request())));
}
