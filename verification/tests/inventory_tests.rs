use genja_core::inventory::merge::{
    merge_connection_options, merge_connection_options_fields, merge_data,
};
use genja_core::inventory::models::{
    BaseBuilderHost, ConnectionOptions, Data, Defaults, Extras, Group, Groups, Host, Hosts,
    ParentGroups,
};
use genja_core::inventory::runtime::Inventory;
use genja_core::inventory::transform::{Transform, TransformFunction, TransformFunctionOptions};
use genja_core::json::JsonValue;
use genja_core::types::CustomTreeMap;
use std::sync::atomic::{AtomicUsize, Ordering};
use std::sync::Arc;

fn json_object(entries: Vec<(&str, JsonValue)>) -> JsonValue {
    JsonValue::object(entries.into_iter().map(|(k, v)| (k.to_string(), v)).collect())
}

fn create_dummy_hosts() -> Result<Hosts, std::io::Error> {
    let mut hosts = Hosts(CustomTreeMap::new());
    for i in 1..=10 {
        let name = format!("host{i}.example.com");
        let mut groups = ParentGroups::new();
        groups.push("cisco".to_string());
        let host = Host::builder()
            .hostname(&name)
            .port(2200 + i as u16)
            .username(&format!("user{i}"))
            .password(&format!("password{i}"))
            .platform(if i % 2 == 0 { "linux" } else { "windows" })
            .data(Data(JsonValue::array(vec![JsonValue::string(&format!(
                "data for host {}",
                i
            ))])))
            .groups(groups)
            .connection_options("Cisco", ConnectionOptions::builder().build())
            .build();
        hosts.0.insert(&name, host);
    }

    Ok(hosts)
}

fn check_host_new() {
    let host = Host::new();
    assert_eq!(host.hostname, None);
    assert_eq!(host.port, None);
    assert_eq!(host.username, None);
    assert_eq!(host.password, None);
    assert_eq!(host.platform, None);
    assert!(host.groups.is_none());
    assert!(host.data.is_none());
    assert!(host.connection_options.is_none());
}

#[test]
fn tests_test_host_new() {
    check_host_new();
}

#[test]
fn inventory_test_host_new() {
    check_host_new();
}

fn check_hosts_new() {
    let mut hosts = Hosts::new();

    for i in 1..=10 {
        let name = format!("host{i}.example.com");
        let host = Host::builder()
            .hostname(&name)
            .port(2200 + i as u16)
            .username(&format!("user{i}"))
            .password(&format!("password{i}"))
            .platform(if i % 2 == 0 { "linux" } else { "windows" })
            .data(Data(JsonValue::array(vec![JsonValue::string(&format!(
                "data for host {}",
                i
            ))])))
            .connection_options("Juniper", ConnectionOptions::builder().build())
            .build();

        hosts.add_host(&name, host);
    }
    assert_eq!(hosts.len(), 10);
}

#[test]
fn tests_test_hosts_new() {
    check_hosts_new();
}

#[test]
fn inventory_test_hosts_new() {
    check_hosts_new();
}

#[test]
fn tests_test_build_hosts() {
    let hosts = create_dummy_hosts();
    assert_eq!(hosts.unwrap().len(), 10);
}

#[test]
fn inventory_test_build_hosts() {
    let hosts = create_dummy_hosts();
    assert_eq!(hosts.unwrap().len(), 10);
}

fn check_connection_options_builder() {
    let extras = Extras::new(json_object(vec![
        ("env", JsonValue::string("lab")),
        ("tier", JsonValue::string("core")),
    ]));

    let options = ConnectionOptions::builder()
        .hostname("192.0.2.55")
        .port(830)
        .username("netconf")
        .password("secret")
        .platform("iosxr")
        .extras(extras.clone())
        .build();

    assert_eq!(options.hostname(), Some("192.0.2.55"));
    assert_eq!(options.port(), Some(830));
    assert_eq!(options.username(), Some("netconf"));
    assert_eq!(options.password(), Some("secret"));
    assert_eq!(options.platform(), Some("iosxr"));
    let stored = options.extras().expect("extras are set");
    assert_eq!(stored.get("env").and_then(|v| v.as_str()), Some("lab"));
    assert_eq!(stored.get("tier").and_then(|v| v.as_str()), Some("core"));
}

#[test]
fn tests_test_connection_options_builder() {
    check_connection_options_builder();
}

#[test]
fn inventory_test_connection_options_builder() {
    check_connection_options_builder();
}

fn check_parent_groups() {
    let groups = vec!["cisco".to_string(), "Juniper".to_string(), "arista".to_string()];
    let read = ParentGroups::from_names(groups.clone());
    let mut names = read.names().clone();
    let mut expected = groups;
    names.sort();
    expected.sort();
    assert_eq!(names, expected);
}

#[test]
fn tests_test_parent_groups() {
    check_parent_groups();
}

#[test]
fn inventory_test_parent_groups() {
    check_parent_groups();
}

fn check_parent_groups_deduplication() {
    let groups_with_duplicates = vec![
        "cisco".to_string(),
        "juniper".to_string(),
        "cisco".to_string(),
        "arista".to_string(),
        "juniper".to_string(),
        "cisco".to_string(),
    ];

    let deserialized = ParentGroups::from_names(groups_with_duplicates);

    assert_eq!(deserialized.len(), 3);
    assert_eq!(deserialized.get(0), "cisco");
    assert_eq!(deserialized.get(1), "juniper");
    assert_eq!(deserialized.get(2), "arista");
}

#[test]
fn tests_test_parent_groups_deduplication() {
    check_parent_groups_deduplication();
}

#[test]
fn inventory_test_parent_groups_deduplication() {
    check_parent_groups_deduplication();
}

fn check_parent_groups_preserves_order() {
    let groups = vec![
        "zebra".to_string(),
        "apple".to_string(),
        "zebra".to_string(),
        "banana".to_string(),
    ];

    let deserialized = ParentGroups::from_names(groups);

    assert_eq!(deserialized.len(), 3);
    assert_eq!(deserialized.get(0), "zebra");
    assert_eq!(deserialized.get(1), "apple");
    assert_eq!(deserialized.get(2), "banana");
}

#[test]
fn tests_test_parent_groups_preserves_order() {
    check_parent_groups_preserves_order();
}

#[test]
fn inventory_test_parent_groups_preserves_order() {
    check_parent_groups_preserves_order();
}

fn check_inventory_builder_defaults() {
    let mut inventory = Inventory::builder().build();
    assert_eq!(inventory.hosts().len(), 0);
    assert!(inventory.groups().is_none());
    assert!(inventory.defaults().is_none());
    assert!(inventory.transform_function_options().is_none());
}

#[test]
fn tests_test_inventory_builder_defaults() {
    check_inventory_builder_defaults();
}

#[test]
fn inventory_test_inventory_builder_defaults() {
    check_inventory_builder_defaults();
}

fn check_resolve_connection_params_uses_cache() {
    let defaults = Defaults::builder()
        .connection_options(
            "netconf",
            ConnectionOptions::builder().hostname("default-netconf").port(2001).build(),
        )
        .build();

    let mut hosts = Hosts::new();
    hosts.add_host("router1.lab", Host::builder().hostname("host-host").build());

    let mut inventory = Inventory::builder().hosts(hosts).defaults(defaults).build();

    assert_eq!(inventory.resolved_host_cache_len(), 0);
    assert_eq!(inventory.resolved_params_cache_len(), 0);
    let _ = inventory
        .resolve_connection_params("router1.lab", "netconf")
        .expect("resolved params should exist");
    assert_eq!(inventory.resolved_host_cache_len(), 1);
    assert_eq!(inventory.resolved_params_cache_len(), 1);
    let _ = inventory
        .resolve_connection_params("router1.lab", "netconf")
        .expect("resolved params should exist");
    assert_eq!(inventory.resolved_host_cache_len(), 1);
    assert_eq!(inventory.resolved_params_cache_len(), 1);
}

#[test]
fn tests_resolve_connection_params_uses_cache() {
    check_resolve_connection_params_uses_cache();
}

#[test]
fn inventory_resolve_connection_params_uses_cache() {
    check_resolve_connection_params_uses_cache();
}

fn check_resolve_group_internal_merges_and_detects_cycle() {
    let mut groups = Groups::new();

    let mut a_parents = ParentGroups::new();
    a_parents.push("b".to_string());
    let group_a = Group::builder().username("a-user").groups(a_parents).build();

    let mut b_parents = ParentGroups::new();
    b_parents.push("c".to_string());
    let group_b = Group::builder().hostname("b-host").port(2002).groups(b_parents).build();

    let group_c = Group::builder().port(2001).platform("linux").build();

    groups.add_group("a", group_a);
    groups.add_group("b", group_b);
    groups.add_group("c", group_c);

    let inventory = Inventory::builder().groups(groups).build();

    let mut stack: Vec<String> = Vec::new();
    let mut memo: CustomTreeMap<Group> = CustomTreeMap::new();
    let resolved = inventory
        .resolve_group_internal("a", &mut stack, &mut memo)
        .expect("group should resolve");

    assert_eq!(resolved.hostname(), Some("b-host"));
    assert_eq!(resolved.port(), Some(2002));
    assert_eq!(resolved.platform(), Some("linux"));
    assert_eq!(resolved.username(), Some("a-user"));

    let mut cycle_groups = Groups::new();
    let mut c1 = ParentGroups::new();
    c1.push("cycle-b".to_string());
    let mut c2 = ParentGroups::new();
    c2.push("cycle-a".to_string());
    cycle_groups.add_group("cycle-a", Group::builder().groups(c1).build());
    cycle_groups.add_group("cycle-b", Group::builder().groups(c2).build());

    let cycle_inventory = Inventory::builder().groups(cycle_groups).build();
    let mut cycle_stack: Vec<String> = Vec::new();
    let mut cycle_memo: CustomTreeMap<Group> = CustomTreeMap::new();
    let cycle_resolved = cycle_inventory
        .resolve_group_internal("cycle-a", &mut cycle_stack, &mut cycle_memo)
        .expect("cycle should not infinite loop");
    assert!(cycle_resolved.groups().is_some());
}

#[test]
fn tests_resolve_group_internal_merges_and_detects_cycle() {
    check_resolve_group_internal_merges_and_detects_cycle();
}

#[test]
fn inventory_resolve_group_internal_merges_and_detects_cycle() {
    check_resolve_group_internal_merges_and_detects_cycle();
}

fn check_transform_and_cache_hosts_view() {
    let calls = Arc::new(AtomicUsize::new(0));
    let calls_clone = Arc::clone(&calls);
    let transform = TransformFunction::new(move |host: &Host, _: Option<&TransformFunctionOptions>| {
        calls_clone.fetch_add(1, Ordering::SeqCst);
        host.to_builder().port(host.port().unwrap_or(0) + 1).build()
    });

    let mut hosts = Hosts::new();
    hosts.add_host("h1", Host::builder().port(10).build());
    hosts.add_host("h2", Host::builder().port(20).build());

    let mut inventory = Inventory::builder().hosts(hosts).transform_function(transform).build();

    let mut view = inventory.hosts();
    let first = view.get("h1").expect("host exists");
    let second = view.get("h1").expect("host exists");
    assert_eq!(first.port(), Some(11));
    assert_eq!(second.port(), Some(11));
    assert_eq!(calls.load(Ordering::SeqCst), 1);

    let _ = view.iter();
    assert_eq!(calls.load(Ordering::SeqCst), 2);
}

#[test]
fn tests_transform_and_cache_hosts_view() {
    check_transform_and_cache_hosts_view();
}

#[test]
fn inventory_transform_and_cache_hosts_view() {
    check_transform_and_cache_hosts_view();
}

#[test]
fn hosts_view_respects_scope_without_touching_out_of_scope_cache() {
    let calls = Arc::new(AtomicUsize::new(0));
    let calls_clone = Arc::clone(&calls);
    let transform = TransformFunction::new(move |host: &Host, _: Option<&TransformFunctionOptions>| {
        calls_clone.fetch_add(1, Ordering::SeqCst);
        host.to_builder().port(host.port().unwrap_or(0) + 1).build()
    });

    let mut hosts = Hosts::new();
    hosts.add_host("h1", Host::builder().port(10).build());
    hosts.add_host("h2", Host::builder().port(20).build());

    let mut inventory = Inventory::builder().hosts(hosts).transform_function(transform).build();
    inventory.state_mut().mark_failed("h2");

    let mut view = inventory.hosts();
    assert_eq!(view.len(), 1);
    assert_eq!(view.keys().len(), 1);
    assert!(view.get("h2").is_none());

    let only_host = view.get("h1").expect("in-scope host exists");
    assert_eq!(only_host.port(), Some(11));
    assert_eq!(calls.load(Ordering::SeqCst), 1);

    let iterated = view.iter();
    assert_eq!(iterated.len(), 1);
    assert_eq!(calls.load(Ordering::SeqCst), 1);
}

fn check_merge_data_merges_objects_and_replaces_non_objects() {
    let mut target = Some(Data::new(json_object(vec![
        ("a", JsonValue::from_u64(1)),
        ("b", JsonValue::from_u64(2)),
    ])));
    let source = Some(Data::new(json_object(vec![
        ("b", JsonValue::from_u64(3)),
        ("c", JsonValue::from_u64(4)),
    ])));

    merge_data(&mut target, &source);
    let target_obj = target
        .as_ref()
        .and_then(|data| data.as_object())
        .expect("target should be object");
    assert_eq!(target_obj.get("a").and_then(|v| v.as_i64()), Some(1));
    assert_eq!(target_obj.get("b").and_then(|v| v.as_i64()), Some(3));
    assert_eq!(target_obj.get("c").and_then(|v| v.as_i64()), Some(4));

    let mut non_object_target = Some(Data::new(JsonValue::array(vec![
        JsonValue::string("x"),
        JsonValue::string("y"),
    ])));
    let object_source = Some(Data::new(json_object(vec![("k", JsonValue::string("v"))])));
    merge_data(&mut non_object_target, &object_source);
    assert!(non_object_target.as_ref().and_then(|data| data.as_object()).is_some());
}

#[test]
fn tests_merge_data_merges_objects_and_replaces_non_objects() {
    check_merge_data_merges_objects_and_replaces_non_objects();
}

#[test]
fn inventory_merge_data_merges_objects_and_replaces_non_objects() {
    check_merge_data_merges_objects_and_replaces_non_objects();
}

fn check_merge_connection_options_fields_overrides_only_present_values() {
    let mut target = ConnectionOptions::builder()
        .hostname("primary")
        .port(22)
        .username("user")
        .platform("linux")
        .build();

    let source = ConnectionOptions::builder()
        .port(2222)
        .password("secret")
        .extras(Extras::new(json_object(vec![("tier", JsonValue::string("core"))])))
        .build();

    merge_connection_options_fields(&mut target, &source);

    assert_eq!(target.hostname(), Some("primary"));
    assert_eq!(target.port(), Some(2222));
    assert_eq!(target.username(), Some("user"));
    assert_eq!(target.password(), Some("secret"));
    assert_eq!(target.platform(), Some("linux"));
    assert_eq!(
        target.extras().and_then(|v| v.get("tier")).and_then(|v| v.as_str()),
        Some("core")
    );
}

#[test]
fn tests_merge_connection_options_fields_overrides_only_present_values() {
    check_merge_connection_options_fields_overrides_only_present_values();
}

#[test]
fn inventory_merge_connection_options_fields_overrides_only_present_values() {
    check_merge_connection_options_fields_overrides_only_present_values();
}

fn check_connection_options_default_and_to_builder_round_trip() {
    let options = ConnectionOptions::default();
    assert_eq!(options.hostname(), None);
    assert_eq!(options.port(), None);
    assert_eq!(options.username(), None);
    assert_eq!(options.password(), None);
    assert_eq!(options.platform(), None);
    assert!(options.extras().is_none());

    let rebuilt = options.to_builder().build();
    assert_eq!(options.hostname(), rebuilt.hostname());
    assert_eq!(options.port(), rebuilt.port());
    assert_eq!(options.username(), rebuilt.username());
    assert_eq!(options.password(), rebuilt.password());
    assert_eq!(options.platform(), rebuilt.platform());
    assert_eq!(options.extras().is_none(), rebuilt.extras().is_none());
}

#[test]
fn tests_connection_options_default_and_to_builder_round_trip() {
    check_connection_options_default_and_to_builder_round_trip();
}

#[test]
fn inventory_connection_options_default_and_to_builder_round_trip() {
    check_connection_options_default_and_to_builder_round_trip();
}

fn check_defaults_builder_to_builder_and_accessors() {
    let defaults = Defaults::builder()
        .hostname("default-host")
        .port(22)
        .username("admin")
        .password("secret")
        .platform("linux")
        .data(Data::new(json_object(vec![("env", JsonValue::string("lab"))])))
        .build();

    assert!(!defaults.is_empty());
    assert_eq!(defaults.hostname(), Some("default-host"));
    assert_eq!(defaults.port(), Some(22));
    assert_eq!(defaults.username(), Some("admin"));
    assert_eq!(defaults.password(), Some("secret"));
    assert_eq!(defaults.platform(), Some("linux"));
    assert!(defaults.data().is_some());

    let modified = defaults.to_builder().port(2222).build();
    assert_eq!(modified.port(), Some(2222));
    assert_eq!(modified.username(), Some("admin"));
}

#[test]
fn tests_defaults_builder_to_builder_and_accessors() {
    check_defaults_builder_to_builder_and_accessors();
}

#[test]
fn inventory_defaults_builder_to_builder_and_accessors() {
    check_defaults_builder_to_builder_and_accessors();
}

fn check_host_and_group_to_builder_preserve_connection_options() {
    let opts1 = ConnectionOptions::builder().port(22).build();
    let opts2 = ConnectionOptions::builder().port(830).build();

    let host = Host::builder()
        .hostname("h1")
        .connection_options("ssh", opts1.clone())
        .connection_options("netconf", opts2.clone())
        .build();
    let host_round = host.to_builder().build();
    assert_eq!(
        host_round.connection_options().and_then(|m| m.get("ssh")).and_then(|o| o.port()),
        Some(22)
    );

    let group = Group::builder().hostname("g1").connection_options("ssh", opts1).build();
    let group_round = group.to_builder().build();
    assert_eq!(
        group_round.connection_options().and_then(|m| m.get("ssh")).and_then(|o| o.port()),
        Some(22)
    );
}

#[test]
fn tests_host_and_group_to_builder_preserve_connection_options() {
    check_host_and_group_to_builder_preserve_connection_options();
}

#[test]
fn inventory_host_and_group_to_builder_preserve_connection_options() {
    check_host_and_group_to_builder_preserve_connection_options();
}

#[test]
fn tests_groups_default_is_empty() {
    let groups = Groups::default();
    assert!(groups.is_empty());
}

#[test]
fn inventory_groups_default_is_empty() {
    let groups = Groups::default();
    assert!(groups.is_empty());
}

struct CountTransform {
    group_calls: Arc<AtomicUsize>,
    defaults_calls: Arc<AtomicUsize>,
}

impl Transform for CountTransform {
    fn transform_group(&self, group: &Group, _options: Option<&TransformFunctionOptions>) -> Group {
        self.group_calls.fetch_add(1, Ordering::SeqCst);
        group.to_builder().port(443).build()
    }

    fn transform_defaults(
        &self,
        defaults: &Defaults,
        _options: Option<&TransformFunctionOptions>,
    ) -> Defaults {
        self.defaults_calls.fetch_add(1, Ordering::SeqCst);
        defaults.to_builder().username("admin").build()
    }
}

fn check_transform_function_group_and_defaults_methods() {
    let group_calls = Arc::new(AtomicUsize::new(0));
    let defaults_calls = Arc::new(AtomicUsize::new(0));
    let transform = TransformFunction::new_full(CountTransform {
        group_calls: Arc::clone(&group_calls),
        defaults_calls: Arc::clone(&defaults_calls),
    });

    let group = Group::builder().platform("linux").build();
    let defaults = Defaults::builder().port(22).build();

    let transformed_group = transform.transform_group(&group, None);
    let transformed_defaults = transform.transform_defaults(&defaults, None);

    assert_eq!(transformed_group.port(), Some(443));
    assert_eq!(transformed_defaults.username(), Some("admin"));
    assert_eq!(group_calls.load(Ordering::SeqCst), 1);
    assert_eq!(defaults_calls.load(Ordering::SeqCst), 1);
}

#[test]
fn tests_transform_function_group_and_defaults_methods() {
    check_transform_function_group_and_defaults_methods();
}

#[test]
fn inventory_transform_function_group_and_defaults_methods() {
    check_transform_function_group_and_defaults_methods();
}

#[test]
fn tests_transform_function_options_new() {
    let options = TransformFunctionOptions::new(json_object(vec![("k", JsonValue::string("v"))]));
    assert_eq!(options.get("k").and_then(|v| v.as_str()), Some("v"));
}

#[test]
fn inventory_transform_function_options_new() {
    let options = TransformFunctionOptions::new(json_object(vec![("k", JsonValue::string("v"))]));
    assert_eq!(options.get("k").and_then(|v| v.as_str()), Some("v"));
}

fn check_inventory_resolve_host_cache_hit() {
    let mut hosts = Hosts::new();
    hosts.add_host("router1", Host::builder().hostname("10.0.0.1").build());
    let mut inventory = Inventory::builder().hosts(hosts).build();

    assert_eq!(inventory.resolved_host_cache_len(), 0);
    let _ = inventory.resolve_host("router1");
    assert_eq!(inventory.resolved_host_cache_len(), 1);
    let _ = inventory.resolve_host("router1");
    assert_eq!(inventory.resolved_host_cache_len(), 1);
}

#[test]
fn tests_inventory_connections_and_resolve_host_cache_hit() {
    check_inventory_resolve_host_cache_hit();
}

#[test]
fn inventory_inventory_connections_and_resolve_host_cache_hit() {
    check_inventory_resolve_host_cache_hit();
}

struct GroupOnlyTransform {
    calls: Arc<AtomicUsize>,
}

impl Transform for GroupOnlyTransform {
    fn transform_group(&self, group: &Group, _options: Option<&TransformFunctionOptions>) -> Group {
        self.calls.fetch_add(1, Ordering::SeqCst);
        group.to_builder().port(1234).build()
    }
}

fn check_groups_view_applies_transform_and_accessors_work() {
    let group_calls = Arc::new(AtomicUsize::new(0));
    let transform = TransformFunction::new_full(GroupOnlyTransform { calls: Arc::clone(&group_calls) });

    let mut groups = Groups::new();
    groups.add_group("core", Group::builder().platform("linux").build());
    groups.add_group("edge", Group::builder().platform("linux").build());

    let mut inventory = Inventory::builder().groups(groups).transform_function(transform).build();

    let mut view = inventory.groups().expect("groups view exists");
    assert_eq!(view.len(), 2);
    assert!(!view.is_empty());
    assert_eq!(view.keys().len(), 2);

    let core = view.get("core").expect("group exists");
    assert_eq!(core.port(), Some(1234));

    let _ = view.iter();
    assert_eq!(group_calls.load(Ordering::SeqCst), 2);
}

#[test]
fn tests_groups_view_applies_transform_and_accessors_work() {
    check_groups_view_applies_transform_and_accessors_work();
}

#[test]
fn inventory_groups_view_applies_transform_and_accessors_work() {
    check_groups_view_applies_transform_and_accessors_work();
}

fn check_merge_connection_options_merges_maps_and_overrides_fields() {
    let mut target: Option<CustomTreeMap<ConnectionOptions>> = Some(CustomTreeMap::new());
    let mut source: Option<CustomTreeMap<ConnectionOptions>> = Some(CustomTreeMap::new());

    if let Some(map) = target.as_mut() {
        map.insert("ssh", ConnectionOptions::builder().hostname("t").port(22).build());
    }
    if let Some(map) = source.as_mut() {
        map.insert("ssh", ConnectionOptions::builder().port(2222).username("u").build());
        map.insert("netconf", ConnectionOptions::builder().port(830).build());
    }

    merge_connection_options(&mut target, &source);
    let merged = target.expect("target should exist");
    let ssh = merged.get("ssh").expect("ssh should exist");
    assert_eq!(ssh.hostname(), Some("t"));
    assert_eq!(ssh.port(), Some(2222));
    assert_eq!(ssh.username(), Some("u"));
    assert!(merged.get("netconf").is_some());
}

#[test]
fn tests_merge_connection_options_merges_maps_and_overrides_fields() {
    check_merge_connection_options_merges_maps_and_overrides_fields();
}

#[test]
fn inventory_merge_connection_options_merges_maps_and_overrides_fields() {
    check_merge_connection_options_merges_maps_and_overrides_fields();
}

fn check_resolve_host_applies_defaults_groups_then_host_in_order() {
    let defaults = Defaults::builder().port(10).build();

    let group_a = Group::builder().port(20).build();
    let group_b = Group::builder().port(30).build();

    let mut groups = Groups::new();
    groups.add_group("a", group_a);
    groups.add_group("b", group_b);

    let mut hosts = Hosts::new();
    let mut parents = ParentGroups::new();
    parents.push("a".to_string());
    parents.push("b".to_string());
    let host = Host::builder().port(40).groups(parents).build();
    hosts.add_host("h1", host);

    let mut inventory = Inventory::builder().hosts(hosts).groups(groups).defaults(defaults).build();

    let resolved = inventory.resolve_host("h1").expect("host should resolve");
    assert_eq!(resolved.port(), Some(40));
}

#[test]
fn tests_resolve_host_applies_defaults_groups_then_host_in_order() {
    check_resolve_host_applies_defaults_groups_then_host_in_order();
}

#[test]
fn inventory_resolve_host_applies_defaults_groups_then_host_in_order() {
    check_resolve_host_applies_defaults_groups_then_host_in_order();
}

fn check_resolve_connection_params_applies_priority_order() {
    let defaults = Defaults::builder()
        .port(10)
        .connection_options("ssh", ConnectionOptions::builder().port(11).build())
        .build();

    let group = Group::builder()
        .port(20)
        .connection_options("ssh", ConnectionOptions::builder().port(21).build())
        .build();

    let mut groups = Groups::new();
    groups.add_group("g1", group);

    let mut parents = ParentGroups::new();
    parents.push("g1".to_string());
    let host = Host::builder()
        .port(30)
        .groups(parents)
        .connection_options("ssh", ConnectionOptions::builder().port(31).build())
        .build();

    let mut hosts = Hosts::new();
    hosts.add_host("h1", host);

    let mut inventory = Inventory::builder().hosts(hosts).groups(groups).defaults(defaults).build();

    let resolved = inventory
        .resolve_connection_params("h1", "ssh")
        .expect("params should resolve");
    assert_eq!(resolved.port, Some(31));
}

#[test]
fn tests_resolve_connection_params_applies_priority_order() {
    check_resolve_connection_params_applies_priority_order();
}

#[test]
fn inventory_resolve_connection_params_applies_priority_order() {
    check_resolve_connection_params_applies_priority_order();
}

struct OptTransform;

impl Transform for OptTransform {
    fn transform_host(&self, host: &Host, options: Option<&TransformFunctionOptions>) -> Host {
        let port = options
            .and_then(|opts| opts.get("port").and_then(|v| v.as_u64()))
            .unwrap_or(0) as u16;
        host.to_builder().port(port).build()
    }

    fn transform_group(&self, group: &Group, options: Option<&TransformFunctionOptions>) -> Group {
        let username = options
            .and_then(|opts| opts.get("username").and_then(|v| v.as_str()))
            .unwrap_or("default");
        group.to_builder().username(username).build()
    }

    fn transform_defaults(
        &self,
        defaults: &Defaults,
        options: Option<&TransformFunctionOptions>,
    ) -> Defaults {
        let hostname = options
            .and_then(|opts| opts.get("hostname").and_then(|v| v.as_str()))
            .unwrap_or("defaults");
        defaults.to_builder().hostname(hostname).build()
    }
}

fn check_inventory_applies_transform_options() {
    let transform = TransformFunction::new_full(OptTransform);
    let options = TransformFunctionOptions::new(json_object(vec![
        ("port", JsonValue::from_u64(2022)),
        ("username", JsonValue::string("opt-user")),
        ("hostname", JsonValue::string("opt-defaults")),
    ]));

    let mut hosts = Hosts::new();
    hosts.add_host("h1", Host::builder().build());

    let mut groups = Groups::new();
    groups.add_group("g1", Group::builder().build());

    let defaults = Defaults::builder().build();

    let mut inventory = Inventory::builder()
        .hosts(hosts)
        .groups(groups)
        .defaults(defaults)
        .transform_function(transform)
        .transform_function_options(options)
        .build();

    let host = inventory.hosts().get("h1").expect("host exists");
    assert_eq!(host.port(), Some(2022));

    let group = inventory.groups().expect("groups exist").get("g1").unwrap();
    assert_eq!(group.username(), Some("opt-user"));

    let defaults = inventory.defaults().expect("defaults exist");
    assert_eq!(defaults.hostname(), Some("opt-defaults"));
}

#[test]
fn tests_inventory_applies_transform_options_to_hosts_groups_and_defaults() {
    check_inventory_applies_transform_options();
}

#[test]
fn inventory_inventory_applies_transform_options_to_hosts_groups_and_defaults() {
    check_inventory_applies_transform_options();
}

#[test]
fn host_settings_win_over_groups_and_defaults() {
    let defaults = Defaults::builder().username("default-user").platform("ios").port(22).build();
    let mut groups = Groups::new();
    groups.add_group("g", Group::builder().username("group-user").port(2200).build());
    let mut parents = ParentGroups::new();
    parents.push("g".to_string());
    let mut hosts = Hosts::new();
    hosts.add_host("h", Host::builder().username("host-user").groups(parents).build());
    let mut inventory = Inventory::builder().hosts(hosts).groups(groups).defaults(defaults).build();

    let resolved = inventory.resolve_host("h").expect("host exists");
    assert_eq!(resolved.username(), Some("host-user"));
    assert_eq!(resolved.port(), Some(2200));
    assert_eq!(resolved.platform(), Some("ios"));
    assert_eq!(resolved.groups().map(|g| g.len()), Some(1));
    assert!(inventory.resolve_host("missing").is_none());
}

#[test]
fn parent_groups_resolve_before_children_and_later_groups_win() {
    let mut groups = Groups::new();
    let mut child_parents = ParentGroups::new();
    child_parents.push("base".to_string());
    groups.add_group("base", Group::builder().platform("linux").port(1).build());
    groups.add_group("child", Group::builder().port(2).groups(child_parents).build());
    groups.add_group("late", Group::builder().port(3).build());
    let mut parents = ParentGroups::new();
    parents.push("child".to_string());
    parents.push("late".to_string());
    let mut hosts = Hosts::new();
    hosts.add_host("h", Host::builder().groups(parents).build());
    let mut inventory = Inventory::builder().hosts(hosts).groups(groups).build();

    let resolved = inventory.resolve_host("h").expect("host exists");
    assert_eq!(resolved.platform(), Some("linux"));
    assert_eq!(resolved.port(), Some(3));
}

#[test]
fn cyclic_groups_resolve_without_the_cycle() {
    let mut groups = Groups::new();
    let mut a_parents = ParentGroups::new();
    a_parents.push("b".to_string());
    let mut b_parents = ParentGroups::new();
    b_parents.push("a".to_string());
    groups.add_group("a", Group::builder().port(1).groups(a_parents).build());
    groups.add_group("b", Group::builder().port(2).username("b-user").groups(b_parents).build());
    let inventory = Inventory::builder().groups(groups).build();

    let mut stack: Vec<String> = Vec::new();
    let mut memo: CustomTreeMap<Group> = CustomTreeMap::new();
    let a = inventory.resolve_group_internal("a", &mut stack, &mut memo).expect("a resolves");
    assert_eq!(a.port(), Some(1));
    assert_eq!(a.username(), Some("b-user"));
    assert!(stack.is_empty());
    assert_eq!(memo.len(), 2);

    let mut on_stack = vec!["a".to_string()];
    let mut fresh: CustomTreeMap<Group> = CustomTreeMap::new();
    assert!(inventory.resolve_group_internal("a", &mut on_stack, &mut fresh).is_none());
    assert!(inventory.resolve_group_internal("missing", &mut Vec::new(), &mut fresh).is_none());
}

#[test]
fn connection_options_for_a_type_win_over_base_fields_of_every_layer() {
    let defaults = Defaults::builder()
        .connection_options("netconf", ConnectionOptions::builder().port(830).build())
        .build();
    let mut hosts = Hosts::new();
    hosts.add_host("r1", Host::builder().hostname("10.0.0.1").port(2201).build());
    let mut inventory = Inventory::builder().hosts(hosts).defaults(defaults).build();

    let netconf = inventory.resolve_connection_params("r1", "netconf").expect("host exists");
    assert_eq!(netconf.port, Some(830));
    assert_eq!(netconf.hostname, "10.0.0.1");
    let ssh = inventory.resolve_connection_params("r1", "ssh").expect("host exists");
    assert_eq!(ssh.port, Some(2201));
    assert!(inventory.resolve_connection_params("r2", "ssh").is_none());
}

#[test]
fn resolved_host_is_cached_after_the_transform() {
    let calls = Arc::new(AtomicUsize::new(0));
    let calls_clone = Arc::clone(&calls);
    let transform = TransformFunction::new(move |host: &Host, _: Option<&TransformFunctionOptions>| {
        let n = calls_clone.fetch_add(1, Ordering::SeqCst) as u16;
        host.to_builder().port(100 + n).build()
    });
    let mut hosts = Hosts::new();
    hosts.add_host("h", Host::builder().build());
    let mut inventory = Inventory::builder().hosts(hosts).transform_function(transform).build();

    let first = inventory.resolve_host("h").expect("host exists");
    let second = inventory.resolve_host("h").expect("host exists");
    assert_eq!(first.port(), Some(100));
    assert_eq!(second.port(), Some(100));
    assert_eq!(calls.load(Ordering::SeqCst), 1);
}

#[test]
fn scope_marks_are_seen_by_the_hosts_view() {
    let mut hosts = Hosts::new();
    hosts.add_host("a", Host::builder().build());
    hosts.add_host("b", Host::builder().build());
    let mut inventory = Inventory::builder().hosts(hosts).build();
    assert_eq!(inventory.hosts().len(), 2);
    inventory.state_mut().mark_failed("a");
    let keys: Vec<String> = inventory.hosts().keys().iter().map(|k| k.to_string()).collect();
    assert_eq!(keys, vec!["b".to_string()]);
    inventory.state_mut().mark_in_scope("a");
    assert_eq!(inventory.hosts().len(), 2);
    assert!(inventory.hosts().get("a").is_some());
}

#[test]
fn defaults_fill_what_the_host_leaves_unset() {
    let defaults = Defaults::builder()
        .hostname("d-host")
        .port(22)
        .data(Data::new(json_object(vec![("site", JsonValue::string("lab"))])))
        .build();
    let mut hosts = Hosts::new();
    hosts.add_host(
        "h",
        Host::builder()
            .port(2222)
            .data(Data::new(json_object(vec![("role", JsonValue::string("core"))])))
            .build(),
    );
    let mut inventory = Inventory::builder().hosts(hosts).defaults(defaults).build();
    let resolved = inventory.resolve_host("h").expect("host exists");
    assert_eq!(resolved.hostname(), Some("d-host"));
    assert_eq!(resolved.port(), Some(2222));
    let data = resolved.data().expect("data is merged");
    assert_eq!(data.get("site").and_then(|v| v.as_str()), Some("lab"));
    assert_eq!(data.get("role").and_then(|v| v.as_str()), Some("core"));
}

#[test]
fn defaults_with_only_empty_values_count_as_empty() {
    assert!(Defaults::new().is_empty());
    let empty_data = Defaults::builder()
        .data(Data::new(json_object(vec![])))
        .build();
    assert!(empty_data.is_empty());
    let mut empty_options = Defaults::new();
    empty_options.connection_options = Some(CustomTreeMap::new());
    assert!(empty_options.is_empty());
    assert!(!Defaults::builder().port(22).build().is_empty());
    let filled_data = Defaults::builder()
        .data(Data::new(json_object(vec![("site", JsonValue::string("lab"))])))
        .build();
    assert!(!filled_data.is_empty());
}

#[test]
fn groups_given_to_the_builder_are_kept_even_when_empty() {
    let with_groups = Inventory::builder().groups(Groups::new()).build();
    assert!(with_groups.groups_raw().is_some());
    let without_groups = Inventory::builder().build();
    assert!(without_groups.groups_raw().is_none());
}
