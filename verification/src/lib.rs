//! A registry of independently owned uptime-monitor records with a derived
//! achievement-issuance engine. Every mutation is gated by re-deriving the
//! target record's storage address from its stored immutable fields; ping
//! statistics use overflow-safe arithmetic; withdrawals never drain a
//! record below its reserved minimum balance; achievements are issued at
//! most once per (monitor, kind) pair.

pub mod address;
pub mod eligibility;
pub mod errors;
pub mod events;
pub mod records;
pub mod registry;
pub mod rent;

pub use address::{derive_achievement_address, derive_monitor_address};
pub use eligibility::{is_eligible, uptime_basis_points, AchievementType};
pub use errors::{OpError, UptimeError};
pub use events::{AchievementMinted, FeesWithdrawn, MonitorCreated, MonitorUpdated, PingRecorded};
pub use records::{Achievement, Monitor, StoredAchievement, StoredMonitor, MONITOR_RECORD_SPACE};
pub use registry::{
    replay, CreateMonitor, DeleteMonitor, MintAchievementNFT, Operation, RecordPing, Registry,
    UpdateMonitor, WithdrawFees,
};
