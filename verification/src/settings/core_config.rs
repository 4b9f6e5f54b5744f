//! Core behaviour settings.
use vstd::prelude::*;
use super::env_defaults::{env_flag, opt_as_str, raise_on_error, EnvDefaults};
use crate::text::opt_view;

verus! {

/// Configuration for core Genja behaviour: whether errors abort the run.
#[derive(Debug, Clone)]
pub struct CoreConfig {
    raise_on_error: bool,
}

impl CoreConfig {
    /// The configured flag.
    pub closed spec fn raise_on_error_spec(&self) -> bool {
        self.raise_on_error
    }

    /// The defaults: `raise_on_error` from `GENJA_CORE_RAISE_ON_ERROR`, else false.
    pub fn from_env(env: &EnvDefaults) -> (res: Self)
        ensures
            res.raise_on_error_spec() == env_flag(opt_view(env.raise_on_error)),
    {
        CoreConfig { raise_on_error: raise_on_error(opt_as_str(&env.raise_on_error)) }
    }

    /// A builder with no field set.
    pub fn builder() -> (res: CoreConfigBuilder)
        ensures
            res.raise_on_error is None,
    {
        CoreConfigBuilder { raise_on_error: None }
    }

    /// Whether errors abort the run.
    pub fn raise_on_error(&self) -> (res: bool)
        ensures
            res == self.raise_on_error_spec(),
    {
        self.raise_on_error
    }
}

/// Builder for [`CoreConfig`]; unset fields take their environment-backed defaults.
pub struct CoreConfigBuilder {
    pub raise_on_error: Option<bool>,
}

impl CoreConfigBuilder {
    pub fn raise_on_error(self, raise_on_error: bool) -> (res: Self)
        ensures
            res.raise_on_error == Some(raise_on_error),
    {
        CoreConfigBuilder { raise_on_error: Some(raise_on_error) }
    }

    /// The built settings, with defaults from `env` for unset fields.
    pub fn build(self, env: &EnvDefaults) -> (res: CoreConfig)
        ensures
            res.raise_on_error_spec() == match self.raise_on_error {
                Some(b) => b,
                None => env_flag(opt_view(env.raise_on_error)),
            },
    {
        CoreConfig {
            raise_on_error: match self.raise_on_error {
                Some(b) => b,
                None => raise_on_error(opt_as_str(&env.raise_on_error)),
            },
        }
    }
}

impl Default for CoreConfigBuilder {
    fn default() -> (res: Self)
        ensures
            res.raise_on_error is None,
    {
        CoreConfigBuilder { raise_on_error: None }
    }
}

} // verus!
