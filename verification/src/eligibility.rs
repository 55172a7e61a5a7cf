use vstd::prelude::*;

verus! {

/// Seconds in one day, the granularity of the `days_active` computation.
pub const SECONDS_PER_DAY: i64 = 86400;

/// The closed set of achievement rules. Each variant has one eligibility
/// predicate over a monitor's statistics and its age; there is no
/// combination logic and no fallthrough.
#[derive(Clone, Copy, Debug, PartialEq, Eq)]
pub enum AchievementType {
    /// At least 99% uptime and at least 30 days active.
    Uptime99For30Days,
    /// At least 99.9% uptime and at least 30 days active.
    Uptime999For30Days,
    /// At least 99.99% uptime and at least 90 days active.
    Uptime9999For90Days,
    /// Exactly 100% uptime and at least 7 days active.
    Uptime100For7Days,
    /// At least one recorded check.
    FirstMonitor,
    /// At least 100 recorded checks.
    HundredChecks,
    /// At least 1000 recorded checks.
    ThousandChecks,
}

/// The single byte that tags an achievement kind inside the derivation
/// input of its record address.
pub open spec fn spec_kind_byte(kind: AchievementType) -> u8 {
    match kind {
        AchievementType::Uptime99For30Days => 0u8,
        AchievementType::Uptime999For30Days => 1u8,
        AchievementType::Uptime9999For90Days => 2u8,
        AchievementType::Uptime100For7Days => 3u8,
        AchievementType::FirstMonitor => 4u8,
        AchievementType::HundredChecks => 5u8,
        AchievementType::ThousandChecks => 6u8,
    }
}

pub fn kind_byte(kind: AchievementType) -> (r: u8)
    ensures
        r == spec_kind_byte(kind),
{
    match kind {
        AchievementType::Uptime99For30Days => 0u8,
        AchievementType::Uptime999For30Days => 1u8,
        AchievementType::Uptime9999For90Days => 2u8,
        AchievementType::Uptime100For7Days => 3u8,
        AchievementType::FirstMonitor => 4u8,
        AchievementType::HundredChecks => 5u8,
        AchievementType::ThousandChecks => 6u8,
    }
}

/// Whether the monitor has been active for at least `days` whole days at
/// time `now`: the elapsed seconds reach `days` times a day's seconds.
pub open spec fn active_for_days(created_at: i64, now: i64, days: int) -> bool {
    now - created_at >= days * (SECONDS_PER_DAY as int)
}

/// The eligibility rule of each achievement kind, stated in exact
/// arithmetic over the counters. The uptime percentage is the ratio
/// `success / total * 100`, so `uptime >= p` is compared without rounding
/// as `success * scale >= p_scaled * total`; a monitor with no recorded
/// checks has uptime 0 and satisfies no uptime rule.
pub open spec fn eligible(
    kind: AchievementType,
    success_count: u64,
    total_pings: u64,
    created_at: i64,
    now: i64,
) -> bool {
    match kind {
        AchievementType::Uptime99For30Days => total_pings > 0
            && 100 * (success_count as int) >= 99 * (total_pings as int) && active_for_days(
            created_at,
            now,
            30,
        ),
        AchievementType::Uptime999For30Days => total_pings > 0
            && 1000 * (success_count as int) >= 999 * (total_pings as int) && active_for_days(
            created_at,
            now,
            30,
        ),
        AchievementType::Uptime9999For90Days => total_pings > 0
            && 10000 * (success_count as int) >= 9999 * (total_pings as int) && active_for_days(
            created_at,
            now,
            90,
        ),
        AchievementType::Uptime100For7Days => total_pings > 0 && success_count == total_pings
            && active_for_days(created_at, now, 7),
        AchievementType::FirstMonitor => total_pings >= 1,
        AchievementType::HundredChecks => total_pings >= 100,
        AchievementType::ThousandChecks => total_pings >= 1000,
    }
}

/// Decides the eligibility rule of `kind` over a monitor's statistics.
pub fn is_eligible(
    kind: AchievementType,
    success_count: u64,
    total_pings: u64,
    created_at: i64,
    now: i64,
) -> (r: bool)
    ensures
        r == eligible(kind, success_count, total_pings, created_at, now),
{
    let elapsed: i128 = now as i128 - created_at as i128;
    match kind {
        AchievementType::Uptime99For30Days => total_pings > 0 && 100u128 * (success_count as u128)
            >= 99u128 * (total_pings as u128) && elapsed >= 30i128 * (SECONDS_PER_DAY as i128),
        AchievementType::Uptime999For30Days => total_pings > 0 && 1000u128 * (success_count
            as u128) >= 999u128 * (total_pings as u128) && elapsed >= 30i128 * (SECONDS_PER_DAY
            as i128),
        AchievementType::Uptime9999For90Days => total_pings > 0 && 10000u128 * (success_count
            as u128) >= 9999u128 * (total_pings as u128) && elapsed >= 90i128 * (SECONDS_PER_DAY
            as i128),
        AchievementType::Uptime100For7Days => total_pings > 0 && success_count == total_pings
            && elapsed >= 7i128 * (SECONDS_PER_DAY as i128),
        AchievementType::FirstMonitor => total_pings >= 1,
        AchievementType::HundredChecks => total_pings >= 100,
        AchievementType::ThousandChecks => total_pings >= 1000,
    }
}

/// The uptime ratio in hundredths of a percent, rounded down: the snapshot
/// stored in an achievement record. A monitor with no recorded checks has
/// uptime 0.
pub open spec fn spec_uptime_basis_points(success_count: u64, total_pings: u64) -> int {
    if total_pings == 0 {
        0
    } else {
        (success_count * 10000) / (total_pings as int)
    }
}

/// Computes the uptime snapshot in hundredths of a percent.
pub fn uptime_basis_points(success_count: u64, total_pings: u64) -> (r: u64)
    requires
        success_count <= total_pings,
    ensures
        r == spec_uptime_basis_points(success_count, total_pings),
        r <= 10000,
{
    if total_pings == 0 {
        0
    } else {
        let v: u128 = (success_count as u128) * 10000u128 / (total_pings as u128);
        proof {
            let s = success_count as int;
            let t = total_pings as int;
            vstd::arithmetic::div_mod::lemma_div_is_ordered(s * 10000, t * 10000, t);
            vstd::arithmetic::div_mod::lemma_div_by_multiple(10000, t);
        }
        v as u64
    }
}

} // verus!
