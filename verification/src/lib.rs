//! Connection registry and diagnostics for a PostgreSQL dashboard.
//!
//! The crate keeps the registry of saved and active servers, derives
//! configuration and performance findings from catalog rows, and turns the
//! planner's structured output into an annotated plan tree. It opens no
//! connection and touches no file: the caller does both and hands the
//! outcomes in.

pub mod analyzer;
pub mod config;
pub mod connection;
pub mod error;
pub mod keyed;
pub mod metrics;
pub mod performance;
pub mod pool;
pub mod queries;
pub mod storage;
pub mod text;
pub mod types;

pub use analyzer::{ConfigAnalyzer, ConfigIssue, IssueSeverity, PerformanceIssue};
pub use config::{ConfigCollector, HardwareInfo, PostgresConfig};
pub use connection::{ConnectionManager, PendingConnection, ValidatedConnection};
pub use error::{DashboardError, ErrorKind};
pub use metrics::{
    ActiveQuery, DatabaseSize, DatabaseStats, ExplainNode, ExplainPlan, IndexStats, LockInfo,
    PlanField, PlanNumber, PlanValue, TableStats,
};
pub use performance::CacheCounters;
pub use pool::{PoolFactory, PoolHandle, PoolPolicy, Recycling};
pub use queries::MetricsCollector;
pub use storage::{SavedServerConfig, StorageAction, StoredData};
pub use types::{ConnectionConfig, ConnectionTestResult, ServerInfo};
