//! Task runner settings.
use vstd::prelude::*;
use super::env_defaults::{
    env_or, get_runner_max_connection_attempts_default, get_runner_max_task_depth_default,
    get_runner_options_default, get_runner_plugin_default, get_runner_retry_allow_default,
    get_runner_retry_delay_ms_default, get_runner_retry_max_attempts_default, opt_as_str,
    EnvDefaults,
};
use crate::json::{JsonFields, JsonValue};
use crate::task::RetryConfig;
use crate::text::opt_view;

verus! {

/// Task runner settings: the plugin (from `GENJA_RUNNER_PLUGIN`), plugin
/// options, worker count, task depth and connection attempt limits, and the
/// runner-level retry policy.
#[derive(Debug, Clone)]
pub struct RunnerConfig {
    plugin: String,
    options: JsonValue,
    worker_count: Option<usize>,
    max_task_depth: usize,
    max_connection_attempts: usize,
    retry: RetryConfig,
}

/// The abstract value of runner settings.
pub struct RunnerView {
    pub plugin: Seq<char>,
    pub options: JsonValue,
    pub worker_count: Option<usize>,
    pub max_task_depth: usize,
    pub max_connection_attempts: usize,
    pub retry: RetryConfig,
}

/// The retry policy used when none is configured: no retries, one attempt, no delay.
pub open spec fn default_retry_spec(r: RetryConfig) -> bool {
    r.allow_spec() == Some(false) && r.max_attempts_spec() == Some(1usize) && r.delay_ms_spec()
        == Some(0u64)
}

/// A retry policy with every field filled in: unset fields take the defaults,
/// and the number of attempts is at least one.
pub open spec fn normalized_retry_spec(r: RetryConfig, given: RetryConfig) -> bool {
    &&& r.allow_spec() == Some(
        match given.allow_spec() {
            Some(b) => b,
            None => false,
        },
    )
    &&& r.max_attempts_spec() == Some(
        match given.max_attempts_spec() {
            Some(n) => if n >= 1 {
                n
            } else {
                1usize
            },
            None => 1usize,
        },
    )
    &&& r.delay_ms_spec() == Some(
        match given.delay_ms_spec() {
            Some(d) => d,
            None => 0u64,
        },
    )
}

/// The default retry policy: retries not allowed, one attempt, no delay.
pub fn default_retry_config() -> (res: RetryConfig)
    ensures
        default_retry_spec(res),
{
    RetryConfig::builder().allow(get_runner_retry_allow_default()).max_attempts(
        get_runner_retry_max_attempts_default(),
    ).delay_ms(get_runner_retry_delay_ms_default()).build()
}

/// `retry` with unset fields filled from the defaults and at least one attempt.
pub fn normalize_retry_config(retry: RetryConfig) -> (res: RetryConfig)
    ensures
        normalized_retry_spec(res, retry),
{
    let allow = match retry.allow() {
        Some(b) => b,
        None => get_runner_retry_allow_default(),
    };
    let attempts = match retry.max_attempts() {
        Some(n) => n,
        None => get_runner_retry_max_attempts_default(),
    };
    let attempts = if attempts >= 1 {
        attempts
    } else {
        1
    };
    let delay = match retry.delay_ms() {
        Some(d) => d,
        None => get_runner_retry_delay_ms_default(),
    };
    RetryConfig::new(Some(allow), Some(attempts), Some(delay))
}

/// Whether `r` holds the runner defaults for `env`.
pub open spec fn runner_is_default(r: RunnerView, env: EnvDefaults) -> bool {
    &&& r.plugin == env_or(opt_view(env.runner_plugin), "threaded"@)
    &&& r.options == JsonValue::Object(JsonFields::Nil)
    &&& r.worker_count is None
    &&& r.max_task_depth == 10
    &&& r.max_connection_attempts == 3
    &&& default_retry_spec(r.retry)
}

impl View for RunnerConfig {
    type V = RunnerView;

    closed spec fn view(&self) -> RunnerView {
        RunnerView {
            plugin: self.plugin@,
            options: self.options,
            worker_count: self.worker_count,
            max_task_depth: self.max_task_depth,
            max_connection_attempts: self.max_connection_attempts,
            retry: self.retry,
        }
    }
}

impl RunnerConfig {
    /// The defaults: plugin from the environment (else `threaded`), empty
    /// options, no worker count, depth 10, 3 connection attempts, default retry.
    pub fn from_env(env: &EnvDefaults) -> (res: Self)
        ensures
            runner_is_default(res@, *env),
    {
        RunnerConfig {
            plugin: get_runner_plugin_default(opt_as_str(&env.runner_plugin)),
            options: get_runner_options_default(),
            worker_count: None,
            max_task_depth: get_runner_max_task_depth_default(),
            max_connection_attempts: get_runner_max_connection_attempts_default(),
            retry: default_retry_config(),
        }
    }

    /// A builder with no field set.
    pub fn builder() -> (res: RunnerConfigBuilder)
        ensures
            res.is_unset(),
    {
        RunnerConfigBuilder::default()
    }

    pub fn plugin(&self) -> (res: &str)
        ensures
            res@ == self@.plugin,
    {
        self.plugin.as_str()
    }

    pub fn options(&self) -> (res: &JsonValue)
        ensures
            *res == self@.options,
    {
        &self.options
    }

    pub fn worker_count(&self) -> (res: Option<usize>)
        ensures
            res == self@.worker_count,
    {
        self.worker_count
    }

    pub fn max_task_depth(&self) -> (res: usize)
        ensures
            res == self@.max_task_depth,
    {
        self.max_task_depth
    }

    pub fn max_connection_attempts(&self) -> (res: usize)
        ensures
            res == self@.max_connection_attempts,
    {
        self.max_connection_attempts
    }

    pub fn retry(&self) -> (res: &RetryConfig)
        ensures
            *res == self@.retry,
    {
        &self.retry
    }

    /// Whether task retries are allowed (default false).
    pub fn retry_allow(&self) -> (res: bool)
        ensures
            res == match self@.retry.allow_spec() {
                Some(b) => b,
                None => false,
            },
    {
        match self.retry.allow() {
            Some(b) => b,
            None => get_runner_retry_allow_default(),
        }
    }

    /// The maximum number of task attempts (default 1).
    pub fn retry_max_attempts(&self) -> (res: usize)
        ensures
            res == match self@.retry.max_attempts_spec() {
                Some(n) => n,
                None => 1usize,
            },
    {
        match self.retry.max_attempts() {
            Some(n) => n,
            None => get_runner_retry_max_attempts_default(),
        }
    }

    /// The delay between task attempts in milliseconds (default 0).
    pub fn retry_delay_ms(&self) -> (res: u64)
        ensures
            res == match self@.retry.delay_ms_spec() {
                Some(d) => d,
                None => 0u64,
            },
    {
        match self.retry.delay_ms() {
            Some(d) => d,
            None => get_runner_retry_delay_ms_default(),
        }
    }
}

/// Builder for [`RunnerConfig`]; unset fields take their defaults.
pub struct RunnerConfigBuilder {
    pub plugin: Option<String>,
    pub options: Option<JsonValue>,
    pub worker_count: Option<usize>,
    pub max_task_depth: Option<usize>,
    pub max_connection_attempts: Option<usize>,
    pub retry: Option<RetryConfig>,
}

impl RunnerConfigBuilder {
    /// Whether no field is set.
    pub open spec fn is_unset(&self) -> bool {
        &&& self.plugin is None
        &&& self.options is None
        &&& self.worker_count is None
        &&& self.max_task_depth is None
        &&& self.max_connection_attempts is None
        &&& self.retry is None
    }

    pub fn plugin(self, plugin: &str) -> (res: Self)
        ensures
            opt_view(res.plugin) == Some(plugin@),
            res.options == self.options && res.worker_count == self.worker_count
                && res.max_task_depth == self.max_task_depth && res.max_connection_attempts
                == self.max_connection_attempts && res.retry == self.retry,
    {
        RunnerConfigBuilder { plugin: Some(String::from_str(plugin)), ..self }
    }

    pub fn options(self, options: JsonValue) -> (res: Self)
        ensures
            res == (RunnerConfigBuilder { options: Some(options), ..self }),
    {
        RunnerConfigBuilder { options: Some(options), ..self }
    }

    pub fn worker_count(self, worker_count: usize) -> (res: Self)
        ensures
            res == (RunnerConfigBuilder { worker_count: Some(worker_count), ..self }),
    {
        RunnerConfigBuilder { worker_count: Some(worker_count), ..self }
    }

    pub fn max_task_depth(self, max_task_depth: usize) -> (res: Self)
        ensures
            res == (RunnerConfigBuilder { max_task_depth: Some(max_task_depth), ..self }),
    {
        RunnerConfigBuilder { max_task_depth: Some(max_task_depth), ..self }
    }

    pub fn max_connection_attempts(self, max_connection_attempts: usize) -> (res: Self)
        ensures
            res == (RunnerConfigBuilder {
                max_connection_attempts: Some(max_connection_attempts),
                ..self
            }),
    {
        RunnerConfigBuilder { max_connection_attempts: Some(max_connection_attempts), ..self }
    }

    /// Sets the retry policy, normalized (unset fields filled, at least one attempt).
    pub fn retry(self, retry: RetryConfig) -> (res: Self)
        ensures
            res.retry matches Some(r) && normalized_retry_spec(r, retry),
            res.plugin == self.plugin && res.options == self.options && res.worker_count
                == self.worker_count && res.max_task_depth == self.max_task_depth
                && res.max_connection_attempts == self.max_connection_attempts,
    {
        RunnerConfigBuilder { retry: Some(normalize_retry_config(retry)), ..self }
    }

    /// The built settings: each set field as given, each unset one from the defaults for `env`.
    pub fn build(self, env: &EnvDefaults) -> (res: RunnerConfig)
        ensures
            res@.plugin == match opt_view(self.plugin) {
                Some(p) => p,
                None => env_or(opt_view(env.runner_plugin), "threaded"@),
            },
            res@.options == match self.options {
                Some(o) => o,
                None => JsonValue::Object(JsonFields::Nil),
            },
            res@.worker_count == self.worker_count,
            res@.max_task_depth == match self.max_task_depth {
                Some(n) => n,
                None => 10usize,
            },
            res@.max_connection_attempts == match self.max_connection_attempts {
                Some(n) => n,
                None => 3usize,
            },
            match self.retry {
                Some(r) => res@.retry == r,
                None => default_retry_spec(res@.retry),
            },
    {
        RunnerConfig {
            plugin: match self.plugin {
                Some(p) => p,
                None => get_runner_plugin_default(opt_as_str(&env.runner_plugin)),
            },
            options: match self.options {
                Some(o) => o,
                None => get_runner_options_default(),
            },
            worker_count: self.worker_count,
            max_task_depth: match self.max_task_depth {
                Some(n) => n,
                None => get_runner_max_task_depth_default(),
            },
            max_connection_attempts: match self.max_connection_attempts {
                Some(n) => n,
                None => get_runner_max_connection_attempts_default(),
            },
            retry: match self.retry {
                Some(r) => r,
                None => default_retry_config(),
            },
        }
    }
}

impl Default for RunnerConfigBuilder {
    fn default() -> (res: Self)
        ensures
            res.is_unset(),
    {
        RunnerConfigBuilder {
            plugin: None,
            options: None,
            worker_count: None,
            max_task_depth: None,
            max_connection_attempts: None,
            retry: None,
        }
    }
}

} // verus!
