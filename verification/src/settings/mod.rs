//! Configuration and settings for Genja Core.
//!
//! Configuration files are loaded first, environment variables provide
//! defaults for missing fields, and hard-coded defaults are the final fallback.
//! The environment itself is read by the embedding program and handed in as
//! [`EnvDefaults`].
pub mod core_config;
pub mod env_defaults;
pub mod inventory;
pub mod logging;
pub mod root;
pub mod runner;
pub mod ssh;

pub use self::core_config::{CoreConfig, CoreConfigBuilder};
pub use self::env_defaults::EnvDefaults;
pub use self::logging::{LoggingConfig, LoggingConfigBuilder};
pub use self::ssh::{SSHConfig, SSHConfigBuilder};
pub use self::inventory::{InventoryConfig, InventoryConfigBuilder, OptionsConfig, OptionsConfigBuilder};
pub use self::root::{Settings, SettingsBuilder};
pub use self::runner::{RunnerConfig, RunnerConfigBuilder};
