use vstd::prelude::*;

use crate::eligibility::AchievementType;

verus! {

/// Emitted once by each successful monitor creation.
#[derive(Debug, PartialEq, Eq)]
pub struct MonitorCreated {
    pub owner: [u8; 32],
    pub label: String,
    pub url: String,
    pub interval: i64,
    pub created_at: i64,
}

/// Emitted once by each successful monitor update, with the resulting
/// field values.
#[derive(Debug, PartialEq, Eq)]
pub struct MonitorUpdated {
    pub owner: [u8; 32],
    pub label: String,
    pub url: String,
    pub interval: i64,
}

/// Emitted once by each successfully recorded ping.
#[derive(Debug, PartialEq, Eq)]
pub struct PingRecorded {
    pub owner: [u8; 32],
    pub label: String,
    pub url: String,
    pub success: bool,
    pub timestamp: i64,
    pub total_pings: u64,
}

/// Emitted once by each successful withdrawal of surplus funds.
#[derive(Debug, PartialEq, Eq)]
pub struct FeesWithdrawn {
    pub owner: [u8; 32],
    pub amount: u64,
}

/// Emitted once by each successful achievement mint. The uptime snapshot
/// is in hundredths of a percent, rounded down.
#[derive(Debug, PartialEq, Eq)]
pub struct AchievementMinted {
    pub owner: [u8; 32],
    pub monitor: [u8; 32],
    pub achievement_type: AchievementType,
    pub uptime: u64,
    pub minted_at: i64,
}

} // verus!
