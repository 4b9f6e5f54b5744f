//! Logging settings consumed by applications embedding Genja.
use vstd::prelude::*;
use super::env_defaults::{
    env_flag, env_or, get_default_log_file, get_log_level_default, get_log_to_console_default,
    opt_as_str, EnvDefaults,
};
use crate::text::opt_view;

verus! {

/// Logging settings. Genja installs no logger itself; `level`, `log_file` and
/// `to_console` default from the environment.
#[derive(Debug, Clone)]
pub struct LoggingConfig {
    enabled: bool,
    level: String,
    log_file: String,
    to_console: bool,
    file_size: u64,
    max_file_count: usize,
}

/// The abstract value of logging settings.
pub struct LoggingView {
    pub enabled: bool,
    pub level: Seq<char>,
    pub log_file: Seq<char>,
    pub to_console: bool,
    pub file_size: u64,
    pub max_file_count: usize,
}

/// The default log file size limit: 10 MiB.
pub open spec fn default_file_size() -> u64 {
    10485760
}

/// The logging defaults for an environment.
pub open spec fn logging_defaults(env: EnvDefaults) -> LoggingView {
    LoggingView {
        enabled: true,
        level: env_or(opt_view(env.log_level), "info"@),
        log_file: env_or(opt_view(env.log_file), env.cwd_log_file@),
        to_console: env_flag(opt_view(env.log_to_console)),
        file_size: default_file_size(),
        max_file_count: 10,
    }
}

impl View for LoggingConfig {
    type V = LoggingView;

    closed spec fn view(&self) -> LoggingView {
        LoggingView {
            enabled: self.enabled,
            level: self.level@,
            log_file: self.log_file@,
            to_console: self.to_console,
            file_size: self.file_size,
            max_file_count: self.max_file_count,
        }
    }
}

impl LoggingConfig {
    /// The defaults: enabled, environment-backed level, file and console flag,
    /// 10 MiB files, 10 files kept.
    pub fn from_env(env: &EnvDefaults) -> (res: Self)
        ensures
            res@ == logging_defaults(*env),
    {
        LoggingConfig {
            enabled: true,
            level: get_log_level_default(opt_as_str(&env.log_level)),
            log_file: get_default_log_file(opt_as_str(&env.log_file), env.cwd_log_file.as_str()),
            to_console: get_log_to_console_default(opt_as_str(&env.log_to_console)),
            file_size: 1024 * 1024 * 10,
            max_file_count: 10,
        }
    }

    /// A builder with no field set.
    pub fn builder() -> (res: LoggingConfigBuilder)
        ensures
            res.is_unset(),
    {
        LoggingConfigBuilder::default()
    }

    pub fn enabled(&self) -> (res: bool)
        ensures
            res == self@.enabled,
    {
        self.enabled
    }

    pub fn level(&self) -> (res: &str)
        ensures
            res@ == self@.level,
    {
        self.level.as_str()
    }

    pub fn log_file(&self) -> (res: &str)
        ensures
            res@ == self@.log_file,
    {
        self.log_file.as_str()
    }

    pub fn to_console(&self) -> (res: bool)
        ensures
            res == self@.to_console,
    {
        self.to_console
    }

    pub fn file_size(&self) -> (res: u64)
        ensures
            res == self@.file_size,
    {
        self.file_size
    }

    pub fn max_file_count(&self) -> (res: usize)
        ensures
            res == self@.max_file_count,
    {
        self.max_file_count
    }
}

/// Builder for [`LoggingConfig`]; unset fields take their defaults.
pub struct LoggingConfigBuilder {
    pub enabled: Option<bool>,
    pub level: Option<String>,
    pub log_file: Option<String>,
    pub to_console: Option<bool>,
    pub file_size: Option<u64>,
    pub max_file_count: Option<usize>,
}

impl LoggingConfigBuilder {
    /// Whether no field is set.
    pub open spec fn is_unset(&self) -> bool {
        &&& self.enabled is None
        &&& self.level is None
        &&& self.log_file is None
        &&& self.to_console is None
        &&& self.file_size is None
        &&& self.max_file_count is None
    }

    pub fn enabled(self, enabled: bool) -> (res: Self)
        ensures
            res == (LoggingConfigBuilder { enabled: Some(enabled), ..self }),
    {
        LoggingConfigBuilder { enabled: Some(enabled), ..self }
    }

    pub fn level(self, level: &str) -> (res: Self)
        ensures
            opt_view(res.level) == Some(level@),
            res.enabled == self.enabled && res.log_file == self.log_file && res.to_console
                == self.to_console && res.file_size == self.file_size && res.max_file_count
                == self.max_file_count,
    {
        LoggingConfigBuilder { level: Some(String::from_str(level)), ..self }
    }

    pub fn log_file(self, log_file: &str) -> (res: Self)
        ensures
            opt_view(res.log_file) == Some(log_file@),
            res.enabled == self.enabled && res.level == self.level && res.to_console
                == self.to_console && res.file_size == self.file_size && res.max_file_count
                == self.max_file_count,
    {
        LoggingConfigBuilder { log_file: Some(String::from_str(log_file)), ..self }
    }

    pub fn to_console(self, to_console: bool) -> (res: Self)
        ensures
            res == (LoggingConfigBuilder { to_console: Some(to_console), ..self }),
    {
        LoggingConfigBuilder { to_console: Some(to_console), ..self }
    }

    pub fn file_size(self, file_size: u64) -> (res: Self)
        ensures
            res == (LoggingConfigBuilder { file_size: Some(file_size), ..self }),
    {
        LoggingConfigBuilder { file_size: Some(file_size), ..self }
    }

    pub fn max_file_count(self, max_file_count: usize) -> (res: Self)
        ensures
            res == (LoggingConfigBuilder { max_file_count: Some(max_file_count), ..self }),
    {
        LoggingConfigBuilder { max_file_count: Some(max_file_count), ..self }
    }

    /// The built settings: each set field as given, each unset one from the defaults for `env`.
    pub fn build(self, env: &EnvDefaults) -> (res: LoggingConfig)
        ensures
            res@ == (LoggingView {
                enabled: match self.enabled {
                    Some(b) => b,
                    None => logging_defaults(*env).enabled,
                },
                level: match opt_view(self.level) {
                    Some(l) => l,
                    None => logging_defaults(*env).level,
                },
                log_file: match opt_view(self.log_file) {
                    Some(l) => l,
                    None => logging_defaults(*env).log_file,
                },
                to_console: match self.to_console {
                    Some(b) => b,
                    None => logging_defaults(*env).to_console,
                },
                file_size: match self.file_size {
                    Some(n) => n,
                    None => logging_defaults(*env).file_size,
                },
                max_file_count: match self.max_file_count {
                    Some(n) => n,
                    None => logging_defaults(*env).max_file_count,
                },
            }),
    {
        LoggingConfig {
            enabled: match self.enabled {
                Some(b) => b,
                None => true,
            },
            level: match self.level {
                Some(l) => l,
                None => get_log_level_default(opt_as_str(&env.log_level)),
            },
            log_file: match self.log_file {
                Some(l) => l,
                None => get_default_log_file(opt_as_str(&env.log_file), env.cwd_log_file.as_str()),
            },
            to_console: match self.to_console {
                Some(b) => b,
                None => get_log_to_console_default(opt_as_str(&env.log_to_console)),
            },
            file_size: match self.file_size {
                Some(n) => n,
                None => 1024 * 1024 * 10,
            },
            max_file_count: match self.max_file_count {
                Some(n) => n,
                None => 10,
            },
        }
    }
}

impl Default for LoggingConfigBuilder {
    fn default() -> (res: Self)
        ensures
            res.is_unset(),
    {
        LoggingConfigBuilder {
            enabled: None,
            level: None,
            log_file: None,
            to_console: None,
            file_size: None,
            max_file_count: None,
        }
    }
}

} // verus!
