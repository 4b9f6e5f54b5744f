//! Task-level settings shared with the runner.
use vstd::prelude::*;

verus! {

/// Retry policy for task execution. Unset fields fall back to the runner's defaults.
#[derive(Debug, Clone, Copy, PartialEq, Eq, Structural)]
pub struct RetryConfig {
    allow: Option<bool>,
    max_attempts: Option<usize>,
    delay_ms: Option<u64>,
}

impl RetryConfig {
    /// The policy with the given fields.
    pub fn new(allow: Option<bool>, max_attempts: Option<usize>, delay_ms: Option<u64>) -> (res: Self)
        ensures
            res.allow_spec() == allow,
            res.max_attempts_spec() == max_attempts,
            res.delay_ms_spec() == delay_ms,
    {
        RetryConfig { allow, max_attempts, delay_ms }
    }

    pub closed spec fn allow_spec(&self) -> Option<bool> {
        self.allow
    }

    pub closed spec fn max_attempts_spec(&self) -> Option<usize> {
        self.max_attempts
    }

    pub closed spec fn delay_ms_spec(&self) -> Option<u64> {
        self.delay_ms
    }

    /// A builder with no field set.
    pub fn builder() -> (res: RetryConfigBuilder)
        ensures
            res.config.allow_spec() is None,
            res.config.max_attempts_spec() is None,
            res.config.delay_ms_spec() is None,
    {
        RetryConfigBuilder { config: RetryConfig { allow: None, max_attempts: None, delay_ms: None } }
    }

    /// Whether retrying is allowed, if set.
    pub fn allow(&self) -> (res: Option<bool>)
        ensures
            res == self.allow_spec(),
    {
        self.allow
    }

    /// The maximum number of attempts, if set.
    pub fn max_attempts(&self) -> (res: Option<usize>)
        ensures
            res == self.max_attempts_spec(),
    {
        self.max_attempts
    }

    /// The delay between attempts in milliseconds, if set.
    pub fn delay_ms(&self) -> (res: Option<u64>)
        ensures
            res == self.delay_ms_spec(),
    {
        self.delay_ms
    }
}

/// Builder for [`RetryConfig`].
pub struct RetryConfigBuilder {
    pub config: RetryConfig,
}

impl RetryConfigBuilder {
    pub fn allow(self, allow: bool) -> (res: Self)
        ensures
            res.config.allow_spec() == Some(allow),
            res.config.max_attempts_spec() == self.config.max_attempts_spec(),
            res.config.delay_ms_spec() == self.config.delay_ms_spec(),
    {
        RetryConfigBuilder { config: RetryConfig { allow: Some(allow), ..self.config } }
    }

    pub fn max_attempts(self, max_attempts: usize) -> (res: Self)
        ensures
            res.config.allow_spec() == self.config.allow_spec(),
            res.config.max_attempts_spec() == Some(max_attempts),
            res.config.delay_ms_spec() == self.config.delay_ms_spec(),
    {
        RetryConfigBuilder { config: RetryConfig { max_attempts: Some(max_attempts), ..self.config } }
    }

    pub fn delay_ms(self, delay_ms: u64) -> (res: Self)
        ensures
            res.config.allow_spec() == self.config.allow_spec(),
            res.config.max_attempts_spec() == self.config.max_attempts_spec(),
            res.config.delay_ms_spec() == Some(delay_ms),
    {
        RetryConfigBuilder { config: RetryConfig { delay_ms: Some(delay_ms), ..self.config } }
    }

    pub fn build(self) -> (res: RetryConfig)
        ensures
            res == self.config,
    {
        self.config
    }
}

} // verus!
