use catalog_bridge::bridge::{BindError, Bridge, CatalogHandle};
use catalog_bridge::config::{adapt, HostScalar, HostValue};

#[test]
fn construct_success_allocates_live_handle() {
    let mut bridge = Bridge::new();
    let handle = bridge.complete_construct(Ok(())).expect("construction succeeded");
    assert_eq!(handle.id, 0);
    assert!(bridge.live(handle));
    assert_eq!(bridge.slot_count(), 1);
}

#[test]
fn construct_failure_allocates_nothing() {
    let mut bridge = Bridge::new();
    let r = bridge.complete_construct(Err("backend unreachable".to_string()));
    assert_eq!(
        r,
        Err(BindError::ConstructionFailed("backend unreachable".to_string()))
    );
    assert_eq!(bridge.slot_count(), 0);
}

#[test]
fn namespace_echo_on_success() {
    let mut bridge = Bridge::new();
    let handle = bridge.complete_construct(Ok(())).expect("construction succeeded");
    let request = bridge
        .begin_create_namespace(handle, "ns1".to_string())
        .expect("handle is live");
    assert_eq!(request.name, "ns1");
    assert_eq!(request.parent, None);
    let echoed = Bridge::complete_create_namespace(request, Ok(()));
    assert_eq!(echoed, Ok("ns1".to_string()));
}

#[test]
fn invoke_on_never_constructed_handle_fails() {
    let bridge = Bridge::new();
    let stale = CatalogHandle { id: 0 };
    let r = bridge.begin_create_namespace(stale, "ns1".to_string());
    assert_eq!(r, Err(BindError::InvalidHandle));
}

#[test]
fn invoke_after_release_fails() {
    let mut bridge = Bridge::new();
    let handle = bridge.complete_construct(Ok(())).expect("construction succeeded");
    let request = bridge
        .begin_create_namespace(handle, "ns1".to_string())
        .expect("handle is live");
    let echoed = Bridge::complete_create_namespace(request, Ok(()));
    assert_eq!(echoed, Ok("ns1".to_string()));
    bridge.release(handle);
    let r = bridge.begin_create_namespace(handle, "ns2".to_string());
    assert_eq!(r, Err(BindError::InvalidHandle));
}

#[test]
fn released_handle_stays_dead_under_later_operations() {
    let mut bridge = Bridge::new();
    let first = bridge.complete_construct(Ok(())).expect("construction succeeded");
    bridge.release(first);
    let second = bridge.complete_construct(Ok(())).expect("construction succeeded");
    assert_ne!(second.id, first.id);
    assert!(bridge.live(second));
    assert!(!bridge.live(first));
    let r = bridge.begin_create_namespace(first, "ns1".to_string());
    assert_eq!(r, Err(BindError::InvalidHandle));
}

#[test]
fn release_is_idempotent_and_local() {
    let mut bridge = Bridge::new();
    let first = bridge.complete_construct(Ok(())).expect("construction succeeded");
    let second = bridge.complete_construct(Ok(())).expect("construction succeeded");
    bridge.release(first);
    bridge.release(first);
    assert!(!bridge.live(first));
    assert!(bridge.live(second));
    assert_eq!(bridge.slot_count(), 2);
}

#[test]
fn release_of_unknown_handle_changes_nothing() {
    let mut bridge = Bridge::new();
    bridge.release(CatalogHandle { id: 7 });
    assert_eq!(bridge.slot_count(), 0);
}

#[test]
fn failed_operation_leaves_wrapper_constructed() {
    let mut bridge = Bridge::new();
    let handle = bridge.complete_construct(Ok(())).expect("construction succeeded");
    let request = bridge
        .begin_create_namespace(handle, "ns1".to_string())
        .expect("handle is live");
    let r = Bridge::complete_create_namespace(request, Err("catalog down".to_string()));
    assert_eq!(
        r,
        Err(BindError::CatalogOperationFailed("catalog down".to_string()))
    );
    assert!(bridge.live(handle));
    let again = bridge
        .begin_create_namespace(handle, "ns1".to_string())
        .expect("the wrapper is still eligible for calls");
    assert_eq!(again.name, "ns1");
    let echoed = Bridge::complete_create_namespace(again, Ok(()));
    assert_eq!(echoed, Ok("ns1".to_string()));
}

#[test]
fn warehouse_config_and_analytics_namespace() {
    let raw = HostValue::Mapping(vec![
        ("warehouse".to_string(), HostScalar::Text("/tmp/wh".to_string())),
        ("type".to_string(), HostScalar::Text("local".to_string())),
    ]);
    let config = adapt(&raw).expect("config values are strings");
    assert_eq!(
        config.entries,
        vec![
            ("warehouse".to_string(), "/tmp/wh".to_string()),
            ("type".to_string(), "local".to_string()),
        ]
    );

    let mut bridge = Bridge::new();
    let handle = bridge.complete_construct(Ok(())).expect("construction succeeded");

    // The bridge hands out exactly one collaborator call for the invocation.
    let request = bridge
        .begin_create_namespace(handle, "analytics".to_string())
        .expect("handle is live");
    assert_eq!(request.name, "analytics");
    assert_eq!(request.parent, None);

    let echoed = Bridge::complete_create_namespace(request, Ok(()));
    assert_eq!(echoed, Ok("analytics".to_string()));
}
