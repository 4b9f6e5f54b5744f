//! Environment-backed defaults.
//!
//! The process environment is read at the edge of the program; this module
//! holds what was read as plain values and decides the defaults from them.
use vstd::prelude::*;
use crate::json::{JsonFields, JsonValue};
use crate::text::{chars_equal, chars_of, to_ascii_lowercase, trim, lowercase_chars, trim_chars};

verus! {

/// Values of the `GENJA_*` environment variables (each `None` when unset), and
/// the log file path used when `GENJA_LOGGING_LOG_FILE` is unset
/// (`genja.log` in the current working directory).
#[derive(Debug, Clone)]
pub struct EnvDefaults {
    /// `GENJA_CORE_RAISE_ON_ERROR`
    pub raise_on_error: Option<String>,
    /// `GENJA_INVENTORY_PLUGIN`
    pub inventory_plugin: Option<String>,
    /// `GENJA_RUNNER_PLUGIN`
    pub runner_plugin: Option<String>,
    /// `GENJA_LOGGING_LEVEL`
    pub log_level: Option<String>,
    /// `GENJA_LOGGING_LOG_FILE`
    pub log_file: Option<String>,
    /// `GENJA_LOGGING_TO_CONSOLE`
    pub log_to_console: Option<String>,
    /// `genja.log` joined to the current working directory.
    pub cwd_log_file: String,
}

impl EnvDefaults {
    /// No variable set, and the working directory taken as `.`.
    pub fn empty() -> (res: Self)
        ensures
            res.raise_on_error is None,
            res.inventory_plugin is None,
            res.runner_plugin is None,
            res.log_level is None,
            res.log_file is None,
            res.log_to_console is None,
            res.cwd_log_file@ == "./genja.log"@,
    {
        EnvDefaults {
            raise_on_error: None,
            inventory_plugin: None,
            runner_plugin: None,
            log_level: None,
            log_file: None,
            log_to_console: None,
            cwd_log_file: String::from_str("./genja.log"),
        }
    }
}

/// The loose boolean reading of `s`: after trimming whitespace and lower-casing
/// ASCII letters, `true t 1 yes y on` read as true and `false f 0 no n off` as false.
pub open spec fn parse_bool_spec(s: Seq<char>) -> Option<bool> {
    let t = to_ascii_lowercase(trim(s));
    if t == "true"@ || t == "t"@ || t == "1"@ || t == "yes"@ || t == "y"@ || t == "on"@ {
        Some(true)
    } else if t == "false"@ || t == "f"@ || t == "0"@ || t == "no"@ || t == "n"@ || t == "off"@ {
        Some(false)
    } else {
        None
    }
}

/// Parses a boolean loosely; see [`parse_bool_spec`].
pub fn parse_bool_loose(s: &str) -> (res: Option<bool>)
    ensures
        res == parse_bool_spec(s@),
{
    let raw = chars_of(s);
    let trimmed = trim_chars(&raw);
    let t = lowercase_chars(&trimmed);
    if chars_equal(&t, "true") || chars_equal(&t, "t") || chars_equal(&t, "1") || chars_equal(
        &t,
        "yes",
    ) || chars_equal(&t, "y") || chars_equal(&t, "on") {
        Some(true)
    } else if chars_equal(&t, "false") || chars_equal(&t, "f") || chars_equal(&t, "0")
        || chars_equal(&t, "no") || chars_equal(&t, "n") || chars_equal(&t, "off") {
        Some(false)
    } else {
        None
    }
}

/// A boolean flag read from an environment value: its loose reading, and
/// `false` when unset or unreadable.
pub open spec fn env_flag(value: Option<Seq<char>>) -> bool {
    match value {
        Some(s) => match parse_bool_spec(s) {
            Some(b) => b,
            None => false,
        },
        None => false,
    }
}

/// The character view of an optional string slice.
pub open spec fn opt_str_view(o: Option<&str>) -> Option<Seq<char>> {
    match o {
        Some(s) => Some(s@),
        None => None,
    }
}

/// An environment value, or `fallback` when unset.
pub open spec fn env_or(value: Option<Seq<char>>, fallback: Seq<char>) -> Seq<char> {
    match value {
        Some(s) => s,
        None => fallback,
    }
}

fn flag_from(value: Option<&str>) -> (res: bool)
    ensures
        res == env_flag(opt_str_view(value)),
{
    match value {
        Some(s) => match parse_bool_loose(s) {
            Some(b) => b,
            None => false,
        },
        None => false,
    }
}

fn string_or(value: Option<&str>, fallback: &str) -> (res: String)
    ensures
        res@ == env_or(opt_str_view(value), fallback@),
{
    match value {
        Some(s) => String::from_str(s),
        None => String::from_str(fallback),
    }
}

/// Whether errors should abort, from `GENJA_CORE_RAISE_ON_ERROR` (default false).
pub fn raise_on_error(value: Option<&str>) -> (res: bool)
    ensures
        res == env_flag(opt_str_view(value)),
{
    flag_from(value)
}

/// The inventory plugin name, from `GENJA_INVENTORY_PLUGIN` (default `FileInventoryPlugin`).
pub fn get_inventory_plugin_config(value: Option<&str>) -> (res: String)
    ensures
        res@ == env_or(opt_str_view(value), "FileInventoryPlugin"@),
{
    string_or(value, "FileInventoryPlugin")
}

/// The runner plugin name, from `GENJA_RUNNER_PLUGIN` (default `threaded`).
pub fn get_runner_plugin_default(value: Option<&str>) -> (res: String)
    ensures
        res@ == env_or(opt_str_view(value), "threaded"@),
{
    string_or(value, "threaded")
}

/// The default runner options: an empty JSON object.
pub fn get_runner_options_default() -> (res: JsonValue)
    ensures
        res == JsonValue::Object(JsonFields::Nil),
{
    JsonValue::Object(JsonFields::Nil)
}

/// The default maximum task depth.
pub fn get_runner_max_task_depth_default() -> (res: usize)
    ensures
        res == 10,
{
    10
}

/// The default maximum number of connection attempts.
pub fn get_runner_max_connection_attempts_default() -> (res: usize)
    ensures
        res == 3,
{
    3
}

/// By default, task retries are not allowed.
pub fn get_runner_retry_allow_default() -> (res: bool)
    ensures
        res == false,
{
    false
}

/// The default maximum number of task attempts.
pub fn get_runner_retry_max_attempts_default() -> (res: usize)
    ensures
        res == 1,
{
    1
}

/// The default delay between task attempts, in milliseconds.
pub fn get_runner_retry_delay_ms_default() -> (res: u64)
    ensures
        res == 0,
{
    0
}

/// The log level, from `GENJA_LOGGING_LEVEL` (default `info`).
pub fn get_log_level_default(value: Option<&str>) -> (res: String)
    ensures
        res@ == env_or(opt_str_view(value), "info"@),
{
    string_or(value, "info")
}

/// Whether to log to the console, from `GENJA_LOGGING_TO_CONSOLE` (default false).
pub fn get_log_to_console_default(value: Option<&str>) -> (res: bool)
    ensures
        res == env_flag(opt_str_view(value)),
{
    flag_from(value)
}

/// The log file, from `GENJA_LOGGING_LOG_FILE`, else `genja.log` in the working directory.
pub fn get_default_log_file(value: Option<&str>, cwd_log_file: &str) -> (res: String)
    ensures
        res@ == env_or(opt_str_view(value), cwd_log_file@),
{
    string_or(value, cwd_log_file)
}

/// An optional string, borrowed.
pub fn opt_as_str(o: &Option<String>) -> (res: Option<&str>)
    ensures
        opt_str_view(res) == crate::text::opt_view(*o),
{
    match o {
        Some(s) => Some(s.as_str()),
        None => None,
    }
}

} // verus!
