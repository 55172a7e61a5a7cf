use vstd::prelude::*;

use crate::eligibility::AchievementType;

verus! {

/// Fixed footprint of a monitor record in underlying storage, in bytes:
/// the fixed-width fields plus the two length-prefixed string fields at
/// their caps (32 owner + 8 seed + 1 nonce + 8 interval + 8 last ping +
/// 8 + 8 + 8 counters + 8 created + 4 + 64 label + 4 + 256 url).
pub const MONITOR_RECORD_SPACE: usize = 417;

/// One uptime check target and its historical ping statistics. One such
/// record exists per (owner, seed) pair, stored at the address derived
/// from those two fields.
#[derive(Debug, PartialEq, Eq)]
pub struct Monitor {
    /// Public-key identifier of the controlling identity; immutable.
    pub owner: [u8; 32],
    /// Caller-chosen value used only for address derivation; immutable.
    pub seed: u64,
    /// The nonce produced by the address derivation for this record,
    /// stored so later operations re-derive the same address.
    pub bump: u8,
    /// Desired check cadence; stored and returned, otherwise opaque.
    pub interval: i64,
    /// Timestamp of the most recent recorded check; 0 until the first.
    pub last_ping: i64,
    /// Number of checks recorded as successful.
    pub success_count: u64,
    /// Number of checks recorded as failed.
    pub failure_count: u64,
    /// Number of checks recorded in total.
    pub total_pings: u64,
    /// Timestamp set once at creation; immutable.
    pub created_at: i64,
    /// Owner-editable descriptive label, at most 64 units.
    pub label: String,
    /// Owner-editable check target, at most 256 units.
    pub url: String,
}

/// A one-time, immutable award record tied to a monitor's statistics at
/// mint time. At most one exists per (monitor, kind) pair, ever; its
/// address is derived from that pair.
#[derive(Debug, PartialEq, Eq)]
pub struct Achievement {
    /// Copied from the monitor's owner at mint time.
    pub owner: [u8; 32],
    /// Address of the source monitor; lookup-only.
    pub monitor: [u8; 32],
    /// Which eligibility rule this record certifies.
    pub achievement_type: AchievementType,
    /// Timestamp of issuance; immutable.
    pub minted_at: i64,
    /// Uptime snapshot in hundredths of a percent, rounded down.
    pub uptime_at_mint: u64,
    /// Snapshot of the monitor's total check count.
    pub total_checks_at_mint: u64,
    /// Caller-supplied metadata reference, at most 200 units; immutable.
    pub metadata_uri: String,
    /// The nonce produced by the address derivation for this record.
    pub bump: u8,
}

/// A monitor record together with the address it occupies and the
/// balance of operational funds held at that address.
#[derive(Debug, PartialEq, Eq)]
pub struct StoredMonitor {
    /// The storage address, equal to the address derived from the
    /// record's owner and seed.
    pub address: [u8; 32],
    /// Funds held by the record, never drawn below the reserved minimum.
    pub lamports: u64,
    pub record: Monitor,
}

/// An achievement record together with the address it occupies.
#[derive(Debug, PartialEq, Eq)]
pub struct StoredAchievement {
    /// The storage address, equal to the address derived from the source
    /// monitor's address and the achievement kind.
    pub address: [u8; 32],
    pub record: Achievement,
}

} // verus!
