use genja_core::inventory::connections::{
    ConnectionCounterTable, ConnectionCounters, ConnectionEvent, ConnectionKey, ConnectionRegistry,
    OpenAction, OpenEvent, ReplaceAction, ReplaceEvent,
};
use genja_core::json::JsonValue;
use genja_core::task::RetryConfig;
use genja_core::types::{CustomTreeMap, NatString, PairMap};

#[test]
fn custom_tree_map_keeps_insertion_order_and_replaces_values() {
    let mut map: CustomTreeMap<u16> = CustomTreeMap::new();
    assert!(map.is_empty());
    map.insert("zeta", 1);
    map.insert("alpha", 2);
    map.insert("zeta", 3);
    assert_eq!(map.len(), 2);
    assert_eq!(map.get("zeta"), Some(&3));
    assert_eq!(map.get("alpha"), Some(&2));
    assert_eq!(map.get("beta"), None);
    assert!(map.contains_key("alpha"));
    let keys: Vec<String> = map.keys().iter().map(|k| k.to_string()).collect();
    assert_eq!(keys, vec!["zeta".to_string(), "alpha".to_string()]);
    assert_eq!(map.index_of("alpha"), Some(1));
}

#[test]
fn pair_map_is_keyed_by_both_names() {
    let mut map: PairMap<u16> = PairMap::new();
    map.insert("h1", "ssh", 22);
    map.insert("h1", "netconf", 830);
    map.insert("h1", "ssh", 2222);
    assert_eq!(map.len(), 2);
    assert_eq!(map.get("h1", "ssh"), Some(&2222));
    assert_eq!(map.get("h1", "netconf"), Some(&830));
    assert_eq!(map.get("h2", "ssh"), None);
}

#[test]
fn nat_string_round_trips_its_text() {
    let name = NatString::from("router1");
    assert_eq!(name.as_str(), "router1");
    assert_eq!(name.to_string(), "router1".to_string());
    assert!(name == NatString::new("router1".to_string()));
    assert!(name != NatString::from("router2"));
}

#[test]
fn json_objects_keep_the_last_value_of_a_repeated_key() {
    let value = JsonValue::object(vec![
        ("a".to_string(), JsonValue::from_u64(1)),
        ("a".to_string(), JsonValue::from_i64(-2)),
        ("b".to_string(), JsonValue::string("x")),
    ]);
    assert_eq!(value.get("a").and_then(|v| v.as_i64()), Some(-2));
    assert_eq!(value.get("a").and_then(|v| v.as_u64()), None);
    assert_eq!(value.get("b").and_then(|v| v.as_str()), Some("x"));
    assert_eq!(value.as_object().map(|f| f.len()), Some(2));
    assert!(value.is_object());
    assert!(!JsonValue::string("x").is_object());
    assert_eq!(JsonValue::from_u64(u64::MAX).as_i64(), None);
    assert_eq!(JsonValue::Bool(true).as_bool(), Some(true));
    assert_eq!(JsonValue::Null.as_bool(), None);
}

#[test]
fn connection_counters_count_each_event_per_type() {
    let mut table = ConnectionCounterTable::new();
    assert_eq!(table.counters_for("ssh"), None);
    table.record("ssh", ConnectionEvent::Create);
    table.record("ssh", ConnectionEvent::Open);
    table.record("ssh", ConnectionEvent::Open);
    table.record("netconf", ConnectionEvent::Close);
    assert_eq!(
        table.counters_for("ssh"),
        Some(ConnectionCounters { create_calls: 1, open_calls: 2, close_calls: 0 })
    );
    assert_eq!(
        table.counters_for("netconf"),
        Some(ConnectionCounters { create_calls: 0, open_calls: 0, close_calls: 1 })
    );
    let snapshot = table.snapshot();
    assert_eq!(snapshot.len(), 2);
    assert_eq!(snapshot[0].0, "ssh");
    assert_eq!(snapshot[1].0, "netconf");
    assert_eq!(ConnectionCounters::default_counters(), ConnectionCounters::default());
}

#[test]
fn connection_keys_hold_host_and_plugin() {
    let key = ConnectionKey::new("router1", "ssh");
    assert_eq!(key.hostname, "router1");
    assert_eq!(key.plugin_name, "ssh");
    assert_eq!(key.clone(), key);
}

#[test]
fn retry_config_builder_sets_each_field() {
    let retry = RetryConfig::builder().allow(true).max_attempts(4).delay_ms(50).build();
    assert_eq!(retry.allow(), Some(true));
    assert_eq!(retry.max_attempts(), Some(4));
    assert_eq!(retry.delay_ms(), Some(50));
    let empty = RetryConfig::new(None, None, None);
    assert_eq!(empty.allow(), None);
    assert_eq!(empty.max_attempts(), None);
    assert_eq!(empty.delay_ms(), None);
}

#[test]
fn registry_get_or_create_errors_without_factory() {
    let mut registry: ConnectionRegistry<u32> = ConnectionRegistry::new();
    let key = ConnectionKey::new("h1", "ssh");
    let err = registry.get_or_create(&key, None::<fn(&ConnectionKey) -> Option<u32>>).unwrap_err();
    assert_eq!(err, "connection factory not set");
}

#[test]
fn registry_get_or_create_gives_nothing_when_the_factory_gives_nothing() {
    let mut registry: ConnectionRegistry<u32> = ConnectionRegistry::new();
    let key = ConnectionKey::new("h1", "ssh");
    let made = registry.get_or_create(&key, Some(|_key: &ConnectionKey| None)).unwrap();
    assert!(!made);
    assert!(registry.get(&key).is_none());
    assert!(registry.counters_for("ssh").is_none());
}

#[test]
fn registry_creates_once_and_reuses_the_connection() {
    let mut registry: ConnectionRegistry<u32> = ConnectionRegistry::new();
    let key = ConnectionKey::new("h1", "ssh");
    assert!(registry.get_or_create(&key, Some(|_key: &ConnectionKey| Some(7))).unwrap());
    assert!(registry.get_or_create(&key, Some(|_key: &ConnectionKey| Some(8))).unwrap());
    assert_eq!(registry.get(&key), Some(&7));
    assert_eq!(registry.len(), 1);
    assert_eq!(
        registry.counters_for("ssh"),
        Some(ConnectionCounters { create_calls: 1, open_calls: 0, close_calls: 0 })
    );
    let err = registry.get_or_create(&key, None::<fn(&ConnectionKey) -> Option<u32>>).unwrap_err();
    assert_eq!(err, "connection factory not set");
}

#[test]
fn registry_take_and_take_all_remove_connections() {
    let mut registry: ConnectionRegistry<u32> = ConnectionRegistry::new();
    let a = ConnectionKey::new("h1", "ssh");
    let b = ConnectionKey::new("h2", "netconf");
    registry.insert(a.clone(), 1);
    registry.insert(b.clone(), 2);
    registry.insert(a.clone(), 3);
    assert_eq!(registry.len(), 2);
    assert_eq!(registry.take(&a), Some(3));
    assert_eq!(registry.take(&a), None);
    registry.record("ssh", ConnectionEvent::Close);
    assert_eq!(registry.counters_for("ssh").map(|c| c.close_calls), Some(1));
    let rest = registry.take_all();
    assert_eq!(rest.len(), 1);
    assert_eq!(rest[0].0, b);
    assert_eq!(rest[0].1, 2);
    assert_eq!(registry.len(), 0);
    assert_eq!(registry.snapshot().len(), 1);
}

#[test]
fn open_step_opens_only_dead_connections_and_counts_success() {
    let key = ConnectionKey::new("router1", "ssh");
    let mut registry: ConnectionRegistry<u32> = ConnectionRegistry::new();
    registry.insert(key.clone(), 7);
    assert!(matches!(
        registry.open_step(&key, OpenEvent::Checked(true)),
        OpenAction::Finish(Ok(()))
    ));
    assert!(matches!(registry.open_step(&key, OpenEvent::Checked(false)), OpenAction::Open));
    assert_eq!(registry.counters_for("ssh"), None);
    assert!(matches!(registry.open_step(&key, OpenEvent::Opened), OpenAction::Finish(Ok(()))));
    assert_eq!(registry.counters_for("ssh").unwrap().open_calls, 1);
    match registry.open_step(&key, OpenEvent::OpenFailed("refused".to_string())) {
        OpenAction::Finish(Err(message)) => assert_eq!(message, "refused"),
        other => panic!("unexpected action {other:?}"),
    }
    assert_eq!(registry.counters_for("ssh").unwrap().open_calls, 1);
    assert_eq!(registry.get(&key), Some(&7));
}

#[test]
fn replace_step_closes_creates_opens_and_stores() {
    let key = ConnectionKey::new("router1", "ssh");
    let mut registry: ConnectionRegistry<u32> = ConnectionRegistry::new();
    registry.insert(key.clone(), 1);
    assert!(matches!(registry.replace_step(&key, ReplaceEvent::Start), ReplaceAction::Close(1)));
    assert_eq!(registry.get(&key), None);
    assert!(matches!(registry.replace_step(&key, ReplaceEvent::Closed), ReplaceAction::Create));
    assert!(matches!(
        registry.replace_step(&key, ReplaceEvent::Created(Some(2))),
        ReplaceAction::Open(2)
    ));
    assert_eq!(registry.get(&key), None);
    assert!(matches!(
        registry.replace_step(&key, ReplaceEvent::Opened(2)),
        ReplaceAction::Finish(Ok(true))
    ));
    assert_eq!(registry.get(&key), Some(&2));
    let counters = registry.counters_for("ssh").unwrap();
    assert_eq!(
        counters,
        ConnectionCounters { create_calls: 1, open_calls: 1, close_calls: 1 }
    );
}

#[test]
fn replace_step_stores_nothing_when_creation_or_opening_fails() {
    let key = ConnectionKey::new("router1", "ssh");
    let mut registry: ConnectionRegistry<u32> = ConnectionRegistry::new();
    assert!(matches!(registry.replace_step(&key, ReplaceEvent::Start), ReplaceAction::Create));
    assert!(matches!(
        registry.replace_step(&key, ReplaceEvent::Created(None)),
        ReplaceAction::Finish(Ok(false))
    ));
    match registry.replace_step(&key, ReplaceEvent::FactoryMissing("connection factory not set".to_string())) {
        ReplaceAction::Finish(Err(message)) => assert_eq!(message, "connection factory not set"),
        other => panic!("unexpected action {other:?}"),
    }
    match registry.replace_step(&key, ReplaceEvent::OpenFailed("refused".to_string())) {
        ReplaceAction::Finish(Err(message)) => assert_eq!(message, "refused"),
        other => panic!("unexpected action {other:?}"),
    }
    assert_eq!(registry.len(), 0);
    assert_eq!(registry.counters_for("ssh"), None);
}
