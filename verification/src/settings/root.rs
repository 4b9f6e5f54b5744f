//! Top-level Genja settings.
use vstd::prelude::*;
use super::core_config::CoreConfig;
use super::env_defaults::{env_flag, EnvDefaults};
use super::inventory::{file_format, format_of, inventory_is_default, FileFormat, InventoryConfig};
use super::logging::{logging_defaults, LoggingConfig};
use super::runner::{runner_is_default, RunnerConfig};
use crate::text::opt_view;
use super::ssh::SSHConfig;
use crate::errors::ConfigLoadError;

verus! {

/// Top-level Genja configuration. Missing sections take their defaults.
#[derive(Debug, Clone)]
pub struct Settings {
    core: CoreConfig,
    inventory: InventoryConfig,
    ssh: SSHConfig,
    runner: RunnerConfig,
    logging: LoggingConfig,
}

/// The format of a settings file at `path`, or the error for an unsupported extension.
pub fn settings_file_format(path: &str) -> (res: Result<FileFormat, ConfigLoadError>)
    ensures
        match format_of(path@) {
            Some(f) => res == Ok::<FileFormat, ConfigLoadError>(f),
            None => res matches Err(ConfigLoadError::UnsupportedFormat { path: p }) && p@ == path@,
        },
{
    match file_format(path) {
        Some(f) => Ok(f),
        None => Err(ConfigLoadError::UnsupportedFormat { path: String::from_str(path) }),
    }
}

/// Whether every section of `s` holds its defaults for `env`.
pub open spec fn settings_is_default(s: Settings, env: EnvDefaults) -> bool {
    &&& s.core_spec().raise_on_error_spec() == env_flag(opt_view(env.raise_on_error))
    &&& inventory_is_default(s.inventory_spec(), env)
    &&& s.ssh_spec().config_file is None
    &&& runner_is_default(s.runner_spec()@, env)
    &&& s.logging_spec()@ == logging_defaults(env)
}

impl Settings {
    pub closed spec fn core_spec(&self) -> CoreConfig {
        self.core
    }

    pub closed spec fn inventory_spec(&self) -> InventoryConfig {
        self.inventory
    }

    pub closed spec fn ssh_spec(&self) -> SSHConfig {
        self.ssh
    }

    pub closed spec fn runner_spec(&self) -> RunnerConfig {
        self.runner
    }

    pub closed spec fn logging_spec(&self) -> LoggingConfig {
        self.logging
    }

    /// The defaults for every section.
    pub fn from_env(env: &EnvDefaults) -> (res: Self)
        ensures
            settings_is_default(res, *env),
    {
        Settings {
            core: CoreConfig::from_env(env),
            inventory: InventoryConfig::from_env(env),
            ssh: SSHConfig::default(),
            runner: RunnerConfig::from_env(env),
            logging: LoggingConfig::from_env(env),
        }
    }

    /// A builder with no section set.
    pub fn builder() -> (res: SettingsBuilder)
        ensures
            res.core is None && res.inventory is None && res.ssh is None && res.runner is None
                && res.logging is None,
    {
        SettingsBuilder { core: None, inventory: None, ssh: None, runner: None, logging: None }
    }

    pub fn core_config(&self) -> (res: &CoreConfig)
        ensures
            *res == self.core_spec(),
    {
        &self.core
    }

    pub fn inventory(&self) -> (res: &InventoryConfig)
        ensures
            *res == self.inventory_spec(),
    {
        &self.inventory
    }

    pub fn ssh(&self) -> (res: &SSHConfig)
        ensures
            *res == self.ssh_spec(),
    {
        &self.ssh
    }

    pub fn runner(&self) -> (res: &RunnerConfig)
        ensures
            *res == self.runner_spec(),
    {
        &self.runner
    }

    pub fn logging(&self) -> (res: &LoggingConfig)
        ensures
            *res == self.logging_spec(),
    {
        &self.logging
    }
}

/// Builder for [`Settings`]; unset sections take their defaults.
pub struct SettingsBuilder {
    pub core: Option<CoreConfig>,
    pub inventory: Option<InventoryConfig>,
    pub ssh: Option<SSHConfig>,
    pub runner: Option<RunnerConfig>,
    pub logging: Option<LoggingConfig>,
}

impl SettingsBuilder {
    pub fn core_config(self, core: CoreConfig) -> (res: Self)
        ensures
            res == (SettingsBuilder { core: Some(core), ..self }),
    {
        SettingsBuilder { core: Some(core), ..self }
    }

    pub fn inventory(self, inventory: InventoryConfig) -> (res: Self)
        ensures
            res == (SettingsBuilder { inventory: Some(inventory), ..self }),
    {
        SettingsBuilder { inventory: Some(inventory), ..self }
    }

    pub fn ssh(self, ssh: SSHConfig) -> (res: Self)
        ensures
            res == (SettingsBuilder { ssh: Some(ssh), ..self }),
    {
        SettingsBuilder { ssh: Some(ssh), ..self }
    }

    pub fn runner(self, runner: RunnerConfig) -> (res: Self)
        ensures
            res == (SettingsBuilder { runner: Some(runner), ..self }),
    {
        SettingsBuilder { runner: Some(runner), ..self }
    }

    pub fn logging(self, logging: LoggingConfig) -> (res: Self)
        ensures
            res == (SettingsBuilder { logging: Some(logging), ..self }),
    {
        SettingsBuilder { logging: Some(logging), ..self }
    }

    /// The built settings: each set section as given, each unset one from the
    /// defaults for `env`.
    pub fn build(self, env: &EnvDefaults) -> (res: Settings)
        ensures
            self.core matches Some(c) ==> res.core_spec() == c,
            self.inventory matches Some(i) ==> res.inventory_spec() == i,
            self.ssh matches Some(s) ==> res.ssh_spec() == s,
            self.runner matches Some(r) ==> res.runner_spec() == r,
            self.logging matches Some(l) ==> res.logging_spec() == l,
            self.core is None ==> res.core_spec().raise_on_error_spec() == env_flag(
                opt_view(env.raise_on_error),
            ),
            self.inventory is None ==> inventory_is_default(res.inventory_spec(), *env),
            self.ssh is None ==> res.ssh_spec().config_file is None,
            self.runner is None ==> runner_is_default(res.runner_spec()@, *env),
            self.logging is None ==> res.logging_spec()@ == logging_defaults(*env),
    {
        Settings {
            core: match self.core {
                Some(c) => c,
                None => CoreConfig::from_env(env),
            },
            inventory: match self.inventory {
                Some(i) => i,
                None => InventoryConfig::from_env(env),
            },
            ssh: match self.ssh {
                Some(s) => s,
                None => SSHConfig::default(),
            },
            runner: match self.runner {
                Some(r) => r,
                None => RunnerConfig::from_env(env),
            },
            logging: match self.logging {
                Some(l) => l,
                None => LoggingConfig::from_env(env),
            },
        }
    }
}

impl Default for SettingsBuilder {
    fn default() -> (res: Self)
        ensures
            res.core is None && res.inventory is None && res.ssh is None && res.runner is None
                && res.logging is None,
    {
        Settings::builder()
    }
}

} // verus!
