use ofx_registry::registry::{Registry, RegistryState};
use ofx_registry::types::{ApiVersion, Error, Int, PluginVersion, RawMessage};
use std::cell::RefCell;
use std::sync::Arc;

type TestRegistry = Registry<&'static str, u8, u16>;

fn add(registry: &mut TestRegistry, module: &'static str, instance: &'static str) -> usize {
    registry.add(
        module,
        "net.ofx-rs.test",
        ApiVersion(1),
        PluginVersion(1, 0),
        instance,
        5,
        6,
    )
}

#[test]
fn new_registry_is_empty() {
    let registry = TestRegistry::new();
    assert_eq!(registry.count(), 0);
    assert!(registry.plugin_for_module("test_module").is_none());
    assert_eq!(TestRegistry::default().count(), 0);
}

#[test]
fn plugins_keep_their_order_and_their_values() {
    let mut registry = TestRegistry::new();
    assert_eq!(add(&mut registry, "first", "a"), 0);
    assert_eq!(add(&mut registry, "second", "b"), 1);
    assert_eq!(registry.count(), 2);

    let plugin = registry.get_plugin(1);
    assert_eq!(plugin.plugin_index, 1);
    assert_eq!(plugin.module_name, "second");
    assert_eq!(plugin.name, "net.ofx-rs.test");
    assert_eq!(plugin.api_version, ApiVersion(1));
    assert_eq!(plugin.plugin_version, PluginVersion(1, 0));
    assert_eq!(*plugin.instance, "b");
    assert_eq!(plugin.set_host, 5);
    assert_eq!(plugin.main_entry, 6);
    assert_eq!(registry.ofx_plugin_ptr(0).module_name, "first");
}

#[test]
fn lookup_is_by_module() {
    let mut registry = TestRegistry::new();
    add(&mut registry, "first", "a");
    add(&mut registry, "second", "b");
    assert_eq!(*registry.plugin_for_module("first").unwrap(), "a");
    assert_eq!(*registry.plugin_for_module("second").unwrap(), "b");
    assert!(registry.plugin_for_module("third").is_none());
    assert!(registry.plugin_for_module("").is_none());
}

#[test]
fn last_registration_of_a_module_counts() {
    let mut registry = TestRegistry::new();
    add(&mut registry, "module", "a");
    add(&mut registry, "other", "b");
    assert_eq!(add(&mut registry, "module", "c"), 2);
    assert_eq!(registry.count(), 3);
    assert_eq!(*registry.plugin_for_module("module").unwrap(), "c");
    assert_eq!(*registry.plugin_for_module("other").unwrap(), "b");
    assert_eq!(*registry.get_plugin(0).instance, "a");
}

#[test]
fn lookup_hands_out_the_registered_instance() {
    let mut registry = TestRegistry::new();
    add(&mut registry, "module", "a");
    let found = registry.plugin_for_module("module").unwrap();
    assert!(Arc::ptr_eq(&found, &registry.get_plugin(0).instance));
    assert_eq!(Arc::strong_count(&found), 2);
}

#[test]
fn plugin_can_be_changed_in_place() {
    let mut registry = TestRegistry::new();
    add(&mut registry, "module", "a");
    add(&mut registry, "other", "b");
    registry.get_plugin_mut(1).set_host = 9;
    assert_eq!(registry.get_plugin(0).set_host, 5);
    assert_eq!(registry.get_plugin(1).set_host, 9);
    assert_eq!(registry.count(), 2);
}

#[test]
fn dispatch_reaches_the_plugin_of_the_module() {
    let mut registry = TestRegistry::new();
    add(&mut registry, "first", "a");
    add(&mut registry, "second", "b");
    let steps: RefCell<Vec<&'static str>> = RefCell::new(Vec::new());
    let result: Result<Int, Error<u8>> = registry.dispatch(
        "second",
        RawMessage::SetHost { host: 11u64 },
        |plugin| {
            assert_eq!(*plugin, "b");
            steps.borrow_mut().push("enter");
            77u8
        },
        |plugin, guard, message| {
            assert_eq!(*plugin, "b");
            assert_eq!(*guard, 77);
            assert_eq!(message, RawMessage::SetHost { host: 11 });
            steps.borrow_mut().push("run");
            Ok(12)
        },
        |plugin, guard| {
            assert_eq!(*plugin, "b");
            assert_eq!(guard, 77);
            steps.borrow_mut().push("leave");
        },
    );
    assert_eq!(result, Ok(12));
    assert_eq!(*steps.borrow(), vec!["enter", "run", "leave"]);
}

#[test]
fn dispatch_reports_the_failure_of_the_plugin() {
    let mut registry = TestRegistry::new();
    add(&mut registry, "first", "a");
    let mut left = false;
    let result: Result<Int, Error<u8>> = registry.dispatch(
        "first",
        RawMessage::SetHost { host: 11u64 },
        |_| (),
        |_, _, _| Err(4),
        |_, _| left = true,
    );
    assert_eq!(result, Err(Error::Plugin(4)));
    assert!(left);
}

#[test]
fn dispatch_to_an_unknown_module_calls_nobody() {
    let mut registry = TestRegistry::new();
    add(&mut registry, "first", "a");
    let result: Result<Int, Error<u8>> = registry.dispatch(
        "second",
        RawMessage::SetHost { host: 11u64 },
        |_| panic!("there is no plugin"),
        |_, _: &(), _| panic!("there is no plugin"),
        |_, _| panic!("there is no plugin"),
    );
    assert_eq!(result, Err(Error::PluginNotFound));
}

#[test]
fn registry_is_initialized_once() {
    let mut state: RegistryState<&'static str, u8, u16> = RegistryState::new();
    assert!(!state.is_initialized());
    state.init(|registry| {
        add(registry, "first", "a");
    });
    assert!(state.is_initialized());
    state.init(|_| panic!("the registry is there"));
    assert_eq!(state.with_registry(|registry| registry.count()), 1);
}

#[test]
fn init_function_is_called_once_on_an_empty_registry() {
    let mut state: RegistryState<&'static str, u8, u16> = RegistryState::new();
    let mut calls = 0;
    state.init(|registry| {
        calls += 1;
        assert_eq!(registry.count(), 0);
        add(registry, "first", "a");
        add(registry, "second", "b");
    });
    state.init(|_| calls += 1);
    assert_eq!(calls, 1);
    state.with_registry(|registry| {
        assert_eq!(registry.count(), 2);
        assert_eq!(registry.get_plugin(0).module_name, "first");
        assert_eq!(*registry.plugin_for_module("second").unwrap(), "b");
    });
}

#[test]
fn registry_can_be_changed_through_its_state() {
    let mut state: RegistryState<&'static str, u8, u16> = RegistryState::new();
    state.init(|_| {});
    assert_eq!(state.with_registry(|registry| registry.count()), 0);
    assert_eq!(
        state.with_registry_mut(|registry| add(registry, "first", "a")),
        0
    );
    assert_eq!(state.with_registry(|registry| registry.count()), 1);
}
