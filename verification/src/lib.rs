//! Genja core: inventory, settings, runtime state and error types for a
//! network automation library.
pub mod errors;
pub mod inventory;
pub mod json;
pub mod settings;
pub mod state;
pub mod task;
pub mod text;
pub mod types;

pub use self::errors::InventoryLoadError;
pub use self::settings::Settings;
pub use self::types::{CustomTreeMap, NatString};
