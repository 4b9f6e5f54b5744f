//! Inventory models and helpers for Genja Core.
//!
//! The in-memory inventory model (hosts, groups, defaults), the rules that
//! resolve a host from its defaults and groups, and the per-run state.
pub mod connections;
pub mod merge;
pub mod models;
pub mod resolution;
pub mod runtime;
pub mod transform;

pub use self::connections::{
    ConnectionCounterTable, ConnectionCounters, ConnectionEvent, ConnectionKey, ConnectionRegistry,
};
pub use self::models::{
    BaseBuilderHost, ConnectionOptions, ConnectionOptionsBuilder, Data, Defaults, DefaultsBuilder,
    DerefTarget, Extras, Group, GroupBuilder, Groups, Host, HostBuilder, Hosts, ParentGroups,
    ResolvedConnectionParams,
};
pub use self::runtime::{GroupsView, HostsView, Inventory, InventoryBuilder};
pub use self::transform::{
    HostOnlyTransform, NoTransform, Transform, TransformFunction, TransformFunctionOptions,
};
