use genja_core::errors::{ConfigLoadError, InventoryFileKind, InventoryLoadError, SshConfigError};
use genja_core::json::JsonValue;
use genja_core::settings::env_defaults::{
    get_default_log_file, get_inventory_plugin_config, get_log_level_default,
    get_log_to_console_default, get_runner_plugin_default, parse_bool_loose, raise_on_error,
};
use genja_core::settings::inventory::{file_format, inventory_file_format, FileFormat};
use genja_core::settings::root::settings_file_format;
use genja_core::settings::runner::{default_retry_config, normalize_retry_config};
use genja_core::settings::ssh::{PathProbe, SshLoadOutcome, SshParseOutcome};
use genja_core::settings::{
    CoreConfig, EnvDefaults, InventoryConfig, LoggingConfig, OptionsConfig, RunnerConfig,
    SSHConfig, Settings,
};
use genja_core::task::RetryConfig;
use std::io::Write;
use std::path::Path;

/// What checking `path` for existence finds.
fn probe_path(path: &Path) -> PathProbe {
    match path.try_exists() {
        Ok(true) => PathProbe::Exists,
        Ok(false) => PathProbe::Missing,
        Err(e) => match e.kind() {
            std::io::ErrorKind::PermissionDenied => PathProbe::PermissionDenied(e.to_string()),
            std::io::ErrorKind::NotFound => PathProbe::NotFound(e.to_string()),
            _ => PathProbe::Failed(e.to_string()),
        },
    }
}

/// A temporary SSH config file holding `contents`.
fn write_temp_ssh_config(contents: &str) -> tempfile::NamedTempFile {
    let mut file = tempfile::NamedTempFile::new().unwrap();
    file.write_all(contents.as_bytes()).unwrap();
    file.flush().unwrap();
    file
}

/// Parses SSH config `contents` strictly.
fn load_ssh_config(contents: &str) -> SshParseOutcome<ssh2_config::SshConfig> {
    let mut reader = contents.as_bytes();
    match ssh2_config::SshConfig::default().parse(&mut reader, ssh2_config::ParseRule::STRICT) {
        Ok(config) => SshParseOutcome::Parsed(config),
        Err(e) => SshParseOutcome::ParseFailed(e.to_string()),
    }
}

/// Opens the temporary SSH config `file` again by its path and parses it strictly.
fn load_ssh_config_file(file: &tempfile::NamedTempFile) -> SshParseOutcome<ssh2_config::SshConfig> {
    let handle = match file.reopen() {
        Ok(handle) => handle,
        Err(e) => return SshParseOutcome::OpenFailed(e.to_string()),
    };
    let mut reader = std::io::BufReader::new(handle);
    match ssh2_config::SshConfig::default().parse(&mut reader, ssh2_config::ParseRule::STRICT) {
        Ok(config) => SshParseOutcome::Parsed(config),
        Err(e) => SshParseOutcome::ParseFailed(e.to_string()),
    }
}

/// The load outcome of the temporary SSH config `file`.
fn load_outcome(file: &tempfile::NamedTempFile) -> SshLoadOutcome {
    match load_ssh_config_file(file) {
        SshParseOutcome::Parsed(_) => SshLoadOutcome::Parsed,
        SshParseOutcome::OpenFailed(m) => SshLoadOutcome::OpenFailed(m),
        SshParseOutcome::ParseFailed(m) => SshLoadOutcome::ParseFailed(m),
    }
}

#[test]
fn parse_returns_config_when_present() {
    let contents = "Host example\n  HostName example.com\n";
    let file = write_temp_ssh_config(contents);
    let path = file.path().to_string_lossy().to_string();
    let ssh_config = SSHConfig { config_file: Some(path) };

    let result = ssh_config.parse(|| probe_path(file.path()), || load_ssh_config_file(&file));
    assert!(matches!(result, Ok(Some(_))));
}

#[test]
fn parse_returns_none_when_missing() {
    let ssh_config = SSHConfig { config_file: None };
    let result = ssh_config.parse(
        || probe_path(Path::new("unused")),
        || load_ssh_config(""),
    );
    assert!(matches!(result, Ok(None)));
}

#[test]
fn ensure_exists_returns_ok_when_present() {
    let file = write_temp_ssh_config("Host example\n  HostName example.com\n");
    let path = file.path().to_string_lossy().to_string();
    let ssh_config = SSHConfig { config_file: Some(path.clone()) };

    let result = ssh_config.ensure_exists(&path, probe_path(file.path()));
    assert!(result.is_ok());
}

#[test]
fn ensure_exists_returns_err_when_missing() {
    let ssh_config = SSHConfig { config_file: None };
    let path = Path::new("nonexistent_file.txt");
    let result = ssh_config.ensure_exists("nonexistent_file.txt", probe_path(path));
    assert!(matches!(result, Err(SshConfigError::NotFound { .. })));
    assert_eq!(
        result.unwrap_err().to_string(),
        "SSH config file not found: nonexistent_file.txt"
    );
}

#[test]
fn validate_ok_with_valid_config() {
    let contents = "Host example\n  HostName example.com\n";
    let file = write_temp_ssh_config(contents);
    let ssh_config = SSHConfig { config_file: Some(file.path().to_string_lossy().to_string()) };

    let result = ssh_config.validate(|| probe_path(file.path()), || load_outcome(&file));
    assert!(result.is_ok());
}

#[test]
fn validate_ok_with_no_config_file() {
    let ssh_config = SSHConfig { config_file: None };
    assert!(ssh_config.validate(|| PathProbe::Missing, || SshLoadOutcome::Parsed).is_ok());
}

#[test]
fn validate_err_with_invalid_config() {
    let contents = "Contents that are not valid ssh config contents\n";
    let file = write_temp_ssh_config(contents);
    let path = file.path().to_string_lossy().to_string();
    let ssh_config = SSHConfig { config_file: Some(path) };
    let result = ssh_config.validate(|| probe_path(file.path()), || load_outcome(&file));
    assert!(matches!(result, Err(SshConfigError::ParseFailed { .. })));
    let pattern =
        regex::Regex::new(r"Failed to parse SSH config file \S+: unknown field: Contents").unwrap();
    assert!(pattern.is_match(&result.unwrap_err().to_string()));
}

#[test]
fn ssh_validation_reports_each_probe_failure() {
    let ssh_config = SSHConfig { config_file: Some("/etc/ssh/config".to_string()) };
    let denied = ssh_config.validate(
        || PathProbe::PermissionDenied("denied".to_string()),
        || SshLoadOutcome::Parsed,
    );
    assert_eq!(
        denied.unwrap_err().to_string(),
        "SSH config file exists but permission denied: /etc/ssh/config: denied"
    );
    let failed = ssh_config.validate(|| PathProbe::Failed("io".to_string()), || SshLoadOutcome::Parsed);
    assert_eq!(
        failed.unwrap_err().to_string(),
        "Failed to check SSH config file /etc/ssh/config: io"
    );
    let open = ssh_config.validate(
        || PathProbe::Exists,
        || SshLoadOutcome::OpenFailed("busy".to_string()),
    );
    assert_eq!(
        open.unwrap_err().to_string(),
        "Failed to open SSH config file /etc/ssh/config: busy"
    );
    let not_found = ssh_config.ensure_exists("/x", PathProbe::NotFound("gone".to_string()));
    assert_eq!(not_found.unwrap_err().to_string(), "SSH config file not found: /x");
}

#[test]
fn ssh_parse_passes_the_parsed_value_through() {
    let ssh_config = SSHConfig { config_file: Some("cfg".to_string()) };
    let result = ssh_config.parse(|| PathProbe::Exists, || SshParseOutcome::Parsed(7u8));
    assert!(matches!(result, Ok(Some(7))));
    let missing = ssh_config.parse(|| PathProbe::Missing, || SshParseOutcome::Parsed(7u8));
    assert!(matches!(missing, Err(SshConfigError::NotFound { .. })));
    let bad = ssh_config.parse(|| PathProbe::Exists, || SshParseOutcome::<u8>::ParseFailed("x".to_string()));
    assert_eq!(bad.unwrap_err().to_string(), "Failed to parse SSH config file cfg: x");
}

#[test]
fn options_config_default_is_all_none() {
    let options = OptionsConfig::default();
    assert!(options.hosts_file.is_none());
    assert!(options.groups_file.is_none());
    assert!(options.defaults_file.is_none());
}

#[test]
fn options_config_builder_sets_paths() {
    let options = OptionsConfig::builder()
        .hosts_file("/tmp/hosts.yaml")
        .groups_file("/tmp/groups.yaml")
        .defaults_file("/tmp/defaults.yaml")
        .build();
    assert_eq!(options.hosts_file(), Some("/tmp/hosts.yaml"));
    assert_eq!(options.groups_file(), Some("/tmp/groups.yaml"));
    assert_eq!(options.defaults_file(), Some("/tmp/defaults.yaml"));
}

#[test]
fn runner_config_default_values() {
    let runner = RunnerConfig::from_env(&EnvDefaults::empty());
    assert_eq!(runner.plugin(), "threaded");
    assert!(matches!(runner.options(), JsonValue::Object(fields) if fields.len() == 0));
    assert_eq!(runner.worker_count(), None);
    assert_eq!(runner.max_task_depth(), 10);
    assert_eq!(runner.max_connection_attempts(), 3);
    assert!(!runner.retry_allow());
    assert_eq!(runner.retry_max_attempts(), 1);
    assert_eq!(runner.retry_delay_ms(), 0);
}

#[test]
fn runner_config_builder_sets_max_connection_attempts() {
    let runner = RunnerConfig::builder()
        .max_connection_attempts(9)
        .build(&EnvDefaults::empty());

    assert_eq!(runner.max_connection_attempts(), 9);
}

#[test]
fn runner_config_builder_sets_worker_count() {
    let runner = RunnerConfig::builder().worker_count(4).build(&EnvDefaults::empty());

    assert_eq!(runner.worker_count(), Some(4));
}

#[test]
fn runner_plugin_comes_from_the_environment() {
    let mut env = EnvDefaults::empty();
    env.runner_plugin = Some("CustomRunner".to_string());
    let runner = RunnerConfig::from_env(&env);
    assert_eq!(runner.plugin(), "CustomRunner");
}

#[test]
fn retry_config_is_normalized() {
    let normalized = normalize_retry_config(RetryConfig::new(None, Some(0), None));
    assert_eq!(normalized.allow(), Some(false));
    assert_eq!(normalized.max_attempts(), Some(1));
    assert_eq!(normalized.delay_ms(), Some(0));

    let kept = normalize_retry_config(RetryConfig::new(Some(true), Some(5), Some(250)));
    assert_eq!(kept.allow(), Some(true));
    assert_eq!(kept.max_attempts(), Some(5));
    assert_eq!(kept.delay_ms(), Some(250));

    let default = default_retry_config();
    assert_eq!(default.allow(), Some(false));
    assert_eq!(default.max_attempts(), Some(1));
    assert_eq!(default.delay_ms(), Some(0));
}

#[test]
fn parse_bool_loose_accepts_common_values() {
    assert_eq!(parse_bool_loose("true"), Some(true));
    assert_eq!(parse_bool_loose("TrUe"), Some(true));
    assert_eq!(parse_bool_loose("1"), Some(true));
    assert_eq!(parse_bool_loose("yes"), Some(true));
    assert_eq!(parse_bool_loose("on"), Some(true));
    assert_eq!(parse_bool_loose("false"), Some(false));
    assert_eq!(parse_bool_loose("0"), Some(false));
    assert_eq!(parse_bool_loose("no"), Some(false));
    assert_eq!(parse_bool_loose("off"), Some(false));
    assert_eq!(parse_bool_loose("maybe"), None);
}

#[test]
fn parse_bool_loose_trims_and_reads_short_forms() {
    assert_eq!(parse_bool_loose("  Y \n"), Some(true));
    assert_eq!(parse_bool_loose("\tT"), Some(true));
    assert_eq!(parse_bool_loose("N"), Some(false));
    assert_eq!(parse_bool_loose(" F "), Some(false));
    assert_eq!(parse_bool_loose("OFF"), Some(false));
    assert_eq!(parse_bool_loose(""), None);
    assert_eq!(parse_bool_loose("tru e"), None);
}

#[test]
fn raise_on_error_uses_env_and_fallbacks() {
    assert!(raise_on_error(Some("true")));
    assert!(!raise_on_error(Some("not_a_bool")));
    assert!(!raise_on_error(None));
}

#[test]
fn get_log_to_console_default_parses_env() {
    assert!(get_log_to_console_default(Some("yes")));
    assert!(!get_log_to_console_default(Some("no")));
}

#[test]
fn env_string_defaults_respect_env_and_fallbacks() {
    assert_eq!(get_inventory_plugin_config(Some("CustomInv")), "CustomInv");
    assert_eq!(get_inventory_plugin_config(None), "FileInventoryPlugin");

    assert_eq!(get_runner_plugin_default(Some("CustomRunner")), "CustomRunner");
    assert_eq!(get_runner_plugin_default(None), "threaded");

    assert_eq!(get_log_level_default(Some("debug")), "debug");
    assert_eq!(get_log_level_default(None), "info");
}

#[test]
fn get_default_log_file_prefers_env() {
    assert_eq!(
        get_default_log_file(Some("/tmp/genja-test.log"), "/work/genja.log"),
        "/tmp/genja-test.log"
    );
}

#[test]
fn get_default_log_file_uses_cwd_when_env_missing() {
    assert_eq!(get_default_log_file(None, "/work/genja.log"), "/work/genja.log");
}

#[test]
fn logging_defaults_follow_the_environment() {
    let mut env = EnvDefaults::empty();
    env.log_level = Some("debug".to_string());
    env.log_to_console = Some("on".to_string());
    env.log_file = Some("/var/log/genja.log".to_string());
    let logging = LoggingConfig::from_env(&env);
    assert_eq!(logging.level(), "debug");
    assert!(logging.to_console());
    assert_eq!(logging.log_file(), "/var/log/genja.log");

    let plain = LoggingConfig::from_env(&EnvDefaults::empty());
    assert_eq!(plain.level(), "info");
    assert!(!plain.to_console());
    assert_eq!(plain.log_file(), "./genja.log");
}

#[test]
fn core_and_inventory_defaults_follow_the_environment() {
    let mut env = EnvDefaults::empty();
    env.raise_on_error = Some("1".to_string());
    env.inventory_plugin = Some("CustomInv".to_string());
    assert!(CoreConfig::from_env(&env).raise_on_error());
    assert_eq!(InventoryConfig::from_env(&env).plugin(), "CustomInv");
    assert!(!CoreConfig::from_env(&EnvDefaults::empty()).raise_on_error());
    assert_eq!(
        InventoryConfig::from_env(&EnvDefaults::empty()).plugin(),
        "FileInventoryPlugin"
    );
}

#[test]
fn settings_defaults_hold_every_section_default() {
    let settings = Settings::from_env(&EnvDefaults::empty());
    assert!(!settings.core_config().raise_on_error());
    assert_eq!(settings.inventory().plugin(), "FileInventoryPlugin");
    assert!(settings.ssh().config_file().is_none());
    assert_eq!(settings.runner().plugin(), "threaded");
    assert_eq!(settings.logging().level(), "info");
}

#[test]
fn file_formats_are_chosen_by_extension() {
    assert_eq!(file_format("a/hosts.json"), Some(FileFormat::Json));
    assert_eq!(file_format("a/hosts.yaml"), Some(FileFormat::Yaml));
    assert_eq!(file_format("a/hosts.yml"), Some(FileFormat::Yaml));
    assert_eq!(file_format("a/hosts.toml"), None);
    assert_eq!(file_format("json"), None);
}

#[test]
fn settings_from_file_errors_on_unsupported_extension() {
    let err = settings_file_format("/tmp/settings.txt").unwrap_err();
    assert!(matches!(err, ConfigLoadError::UnsupportedFormat { .. }));
    assert_eq!(
        err.to_string(),
        "unsupported settings file format for /tmp/settings.txt. Use .json, .yaml, or .yml"
    );
    assert!(matches!(settings_file_format("/tmp/settings.yml"), Ok(FileFormat::Yaml)));
}

#[test]
fn inventory_load_errors_on_unsupported_extension() {
    let err = inventory_file_format(InventoryFileKind::Hosts, "/tmp/hosts.txt").unwrap_err();
    assert!(matches!(
        err,
        InventoryLoadError::UnsupportedFormat { kind: InventoryFileKind::Hosts, .. }
    ));
    assert_eq!(
        inventory_file_format(InventoryFileKind::Groups, "/tmp/groups.json").unwrap(),
        FileFormat::Json
    );
}
