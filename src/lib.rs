//! Supervisor for a locally embedded PostgreSQL engine: configuration,
//! cluster initialization, process start and stop, and account provisioning,
//! expressed as verified decisions that an outer driver carries out.

pub mod access;
pub mod bootstrap;
pub mod commands;
pub mod config;
pub mod lifecycle;
pub mod manager;
pub mod paths;
pub mod plan;
pub mod text;

pub use config::{default_host, DatabaseMode, DbConfig, StoredConfig};
pub use manager::{ConfigSource, PostgresManager, Task, ToolCall};
pub use plan::{Outcome, Plan, Runner};
