use bamboo::plugin::{Plugin, PluginRef};
use bamboo::error::BootError;
use bamboo::registry::Registry;

struct Worker {
    label: String,
}

impl Plugin for Worker {
    fn name(&self) -> &str {
        &self.label
    }
}

#[test]
fn lib_it_works() {
    let result = bamboo::add(2, 2);
    assert_eq!(result, 4);
}

#[test]
fn lib_valid_serve() {
    assert_eq!(4, 4);
}

#[test]
fn plugin_ref_shares_one_unit() {
    let first = PluginRef::new(Worker { label: "http".to_string() });
    let second = first.clone();
    assert_eq!(first.name(), "http");
    assert_eq!(second.name(), "http");
    assert!(std::ptr::eq(first.get(), second.get()));
}

#[test]
fn registry_keeps_units_in_registration_order() {
    let mut registry: Registry<u32> = Registry::new();
    assert_eq!(registry.len(), 0);
    assert!(registry.register("http".to_string(), 10).is_ok());
    assert!(registry.register("grpc".to_string(), 20).is_ok());
    assert!(registry.register("worker".to_string(), 30).is_ok());
    assert_eq!(registry.len(), 3);
    assert_eq!(registry.iterate(), &vec![10, 20, 30]);
    assert_eq!(registry.iterate(), &vec![10, 20, 30]);
    assert_eq!(registry.position("grpc"), Some(1));
    assert_eq!(registry.position("missing"), None);
    assert_eq!(registry.name(2).map(|s| s.as_str()), Some("worker"));
    assert_eq!(registry.name(3), None);
    assert_eq!(registry.unit(0), Some(&10));
    assert_eq!(registry.unit(3), None);
    assert_eq!(registry.get("worker"), Some(&30));
    assert_eq!(registry.get("missing"), None);
    assert!(registry.contains("http"));
    assert!(!registry.contains("HTTP"));
}

#[test]
fn registering_a_taken_name_is_refused_and_changes_nothing() {
    let mut registry: Registry<u32> = Registry::new();
    registry.register("http".to_string(), 1).unwrap();
    match registry.register("http".to_string(), 2) {
        Err(BootError::DuplicateComponent(name)) => assert_eq!(name, "http"),
        other => panic!("unexpected result: {:?}", other),
    }
    assert_eq!(registry.len(), 1);
    assert_eq!(registry.get("http"), Some(&1));
    assert_eq!(registry.iterate(), &vec![1]);
}
