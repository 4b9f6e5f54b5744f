use genja_core::errors::{
    common_prefix_len, format_settings_deserialize_message, levenshtein_distance, ConfigLoadError,
    GenjaError, InventoryFileKind, InventoryLoadError, SshConfigError, UnknownFieldError,
};

const INVENTORY_MESSAGE: &str = "unknown field `named`, expected one of `plugin`, `options`, `transform_function`, `transform_function_options` for key `inventory`";

#[test]
fn debug_output_for_settings_unknown_field_uses_structured_display() {
    let error = GenjaError::from(ConfigLoadError::Deserialize {
        path: "/tmp/config.yml".to_string(),
        message: INVENTORY_MESSAGE.to_string(),
    });

    let output = error.to_string();

    assert!(output.contains("failed to load settings"));
    assert!(output.contains("unknown settings field"));
    assert!(output.contains("section: `inventory`"));
    assert!(output.contains("field: `named`"));
    assert!(output.contains("expected fields:"));
    assert!(output.contains("suggestion: remove this field"));
    assert!(!output.contains("ConfigLoad(Deserialize"));
}

#[test]
fn unknown_field_message_is_parsed_into_parts() {
    let error = UnknownFieldError::parse(INVENTORY_MESSAGE).expect("names an unknown field");
    assert_eq!(error.field, "named");
    assert_eq!(
        error.expected_fields,
        vec![
            "plugin".to_string(),
            "options".to_string(),
            "transform_function".to_string(),
            "transform_function_options".to_string()
        ]
    );
    assert_eq!(error.section.as_deref(), Some("inventory"));
    assert!(UnknownFieldError::parse("missing field `plugin`").is_none());
}

#[test]
fn unknown_field_without_section_or_expected_list() {
    let error = UnknownFieldError::parse("unknown field `x`").expect("names an unknown field");
    assert_eq!(error.field, "x");
    assert!(error.expected_fields.is_empty());
    assert!(error.section.is_none());
    assert_eq!(
        format_settings_deserialize_message("unknown field `x`"),
        "unknown settings field\n  field: `x`\n  suggestion: remove this field, or move plugin-specific values into an explicit options map such as `runner.options` or `inventory.transform_function_options`"
    );
}

#[test]
fn closest_expected_field_suggests_near_names() {
    let error = UnknownFieldError::parse(
        "unknown field `plugn`, expected one of `plugin`, `options` for key `runner`",
    )
    .unwrap();
    assert_eq!(error.closest_expected_field(), Some("plugin"));

    let by_prefix = UnknownFieldError::parse(
        "unknown field `transform_fn`, expected `transform_function`",
    )
    .unwrap();
    assert_eq!(by_prefix.closest_expected_field(), Some("transform_function"));

    let far = UnknownFieldError::parse(INVENTORY_MESSAGE).unwrap();
    assert_eq!(far.closest_expected_field(), None);
}

#[test]
fn deserialize_message_with_suggestion_is_structured() {
    assert_eq!(
        format_settings_deserialize_message(
            "unknown field `plugn`, expected one of `plugin`, `options` for key `runner`"
        ),
        "unknown settings field\n  section: `runner`\n  field: `plugn`\n  expected fields: `plugin`, `options`\n  suggestion: did you mean `plugin`?"
    );
    assert_eq!(format_settings_deserialize_message("invalid type: map"), "invalid type: map");
}

#[test]
fn levenshtein_distance_counts_edits() {
    assert_eq!(levenshtein_distance("kitten", "sitting"), 3);
    assert_eq!(levenshtein_distance("", "abc"), 3);
    assert_eq!(levenshtein_distance("abc", ""), 3);
    assert_eq!(levenshtein_distance("plugin", "plugin"), 0);
    assert_eq!(levenshtein_distance("plugn", "plugin"), 1);
    assert_eq!(levenshtein_distance("ab", "ba"), 2);
}

#[test]
fn common_prefix_len_counts_shared_characters() {
    assert_eq!(common_prefix_len("transform_fn", "transform_function"), 11);
    assert_eq!(common_prefix_len("abc", "xyz"), 0);
    assert_eq!(common_prefix_len("", "abc"), 0);
    assert_eq!(common_prefix_len("same", "same"), 4);
}

#[test]
fn inventory_load_errors_render_their_messages() {
    let read = InventoryLoadError::Read {
        kind: InventoryFileKind::Hosts,
        path: "/h.yaml".to_string(),
        message: "denied".to_string(),
    };
    assert_eq!(read.to_string(), "failed to read hosts inventory file /h.yaml: denied");
    let json = InventoryLoadError::ParseJson {
        kind: InventoryFileKind::Groups,
        path: "/g.json".to_string(),
        message: "eof".to_string(),
    };
    assert_eq!(json.to_string(), "failed to parse groups inventory JSON file /g.json: eof");
    let yaml = InventoryLoadError::ParseYaml {
        kind: InventoryFileKind::Defaults,
        path: "/d.yml".to_string(),
        message: "tab".to_string(),
    };
    assert_eq!(yaml.to_string(), "failed to parse defaults inventory YAML file /d.yml: tab");
    let unsupported = InventoryLoadError::UnsupportedFormat {
        kind: InventoryFileKind::Hosts,
        path: "/h.txt".to_string(),
    };
    assert_eq!(
        unsupported.to_string(),
        "unsupported hosts inventory file format for /h.txt. Use .json, .yaml, or .yml"
    );
    assert_eq!(
        InventoryLoadError::TransformPluginNotFound { name: "t".to_string() }.to_string(),
        "transform plugin 't' not found"
    );
    assert_eq!(
        InventoryLoadError::NotTransformPlugin { name: "t".to_string() }.to_string(),
        "plugin 't' is not a transform function plugin"
    );
    assert_eq!(InventoryLoadError::from_message("plain").to_string(), "plain");
    assert_eq!(InventoryLoadError::from("owned".to_string()).to_string(), "owned");
}

#[test]
fn inventory_file_kinds_render_their_names() {
    assert_eq!(InventoryFileKind::Hosts.to_string(), "hosts");
    assert_eq!(InventoryFileKind::Groups.to_string(), "groups");
    assert_eq!(InventoryFileKind::Defaults.to_string(), "defaults");
}

#[test]
fn config_load_errors_render_their_messages() {
    assert_eq!(
        ConfigLoadError::Read { path: "/s.yml".to_string(), message: "gone".to_string() }.to_string(),
        "failed to read settings from /s.yml: gone"
    );
    assert_eq!(
        ConfigLoadError::Deserialize { path: "/s.yml".to_string(), message: "bad".to_string() }
            .to_string(),
        "failed to deserialize settings from /s.yml: bad"
    );
    assert_eq!(
        ConfigLoadError::SshConfig(SshConfigError::NotFound { path: "/c".to_string() }).to_string(),
        "SSH config file not found: /c"
    );
}

#[test]
fn genja_errors_render_their_messages() {
    assert_eq!(GenjaError::PluginsNotLoaded.to_string(), "plugins have not been loaded");
    assert_eq!(GenjaError::InventoryNotLoaded.to_string(), "inventory has not been loaded");
    assert_eq!(GenjaError::PluginNotFound("p".to_string()).to_string(), "plugin 'p' not found");
    assert_eq!(
        GenjaError::NotInventoryPlugin("p".to_string()).to_string(),
        "plugin 'p' is not an inventory plugin"
    );
    assert_eq!(
        GenjaError::NotRunnerPlugin("p".to_string()).to_string(),
        "plugin 'p' is not a runner plugin"
    );
    assert_eq!(
        GenjaError::PluginLoad("x".to_string()).to_string(),
        "failed to load plugins: x"
    );
    assert_eq!(
        GenjaError::from(InventoryLoadError::from_message("m")).to_string(),
        "failed to load inventory: m"
    );
    assert_eq!(GenjaError::from("text".to_string()).to_string(), "text");
    assert_eq!(GenjaError::from_message("msg").to_string(), "msg");
    assert_eq!(GenjaError::NotImplemented("later").to_string(), "later");
    assert!(GenjaError::AsyncInventoryPluginRequiresAsyncConstruction("a".to_string())
        .to_string()
        .starts_with("async inventory plugin 'a' requires async runtime construction."));
    assert!(GenjaError::SyncInventoryPluginRequiresSyncConstruction("s".to_string())
        .to_string()
        .starts_with("sync inventory plugin 's' requires sync runtime construction."));
}
