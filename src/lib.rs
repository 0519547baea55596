//! Validated configuration stores for a chain-monitoring system, and the
//! normalization of chain-specific matches into stored notification records.
use vstd::prelude::*;

pub mod entity_map;
pub mod error;
pub mod models;
pub mod notification;
pub mod repositories;
pub mod source;
pub mod validation;

pub use entity_map::{EntityMap, PayloadRow};
pub use error::{EntityKind, RepositoryError};
pub use notification::{DatabaseConfig, MonitorMatch, NotificationError, NotificationRecord};
pub use repositories::{
    DbMonitorRepository, DbNetworkRepository, DbTriggerRepository, MonitorRepository,
    MonitorRepositoryTrait, MonitorService, NetworkRepository, NetworkRepositoryTrait,
    NetworkService, TriggerRepository, TriggerRepositoryTrait, TriggerService,
};
pub use source::db_url;
