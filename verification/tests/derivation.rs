use anchor_lang::prelude::{Pubkey, Rent};
use uptime::{
    AchievementType, CreateMonitor, Operation, RecordPing, Registry, MONITOR_RECORD_SPACE,
};

fn pid() -> [u8; 32] {
    [1u8; 32]
}

fn owner_a() -> [u8; 32] {
    [2u8; 32]
}

#[test]
fn monitor_derivation_matches_runtime_derivation() {
    let owner = owner_a();
    let seed: u64 = 42;
    let (addr, bump) = uptime::derive_monitor_address(&owner, seed, &pid()).unwrap();
    let (expected, expected_bump) = Pubkey::find_program_address(
        &[b"monitor", &owner, &seed.to_le_bytes()],
        &Pubkey::new_from_array(pid()),
    );
    assert_eq!(addr, expected.to_bytes());
    assert_eq!(bump, expected_bump);
}

#[test]
fn achievement_derivation_matches_runtime_derivation() {
    let monitor = [7u8; 32];
    let (addr, bump) = uptime::derive_achievement_address(&monitor, 4, &pid()).unwrap();
    let (expected, expected_bump) = Pubkey::find_program_address(
        &[b"achievement", &monitor, &[4u8]],
        &Pubkey::new_from_array(pid()),
    );
    assert_eq!(addr, expected.to_bytes());
    assert_eq!(bump, expected_bump);
}

#[test]
fn derivation_is_deterministic_and_input_sensitive() {
    let owner = owner_a();
    let a1 = uptime::derive_monitor_address(&owner, 1, &pid()).unwrap();
    let a2 = uptime::derive_monitor_address(&owner, 1, &pid()).unwrap();
    assert_eq!(a1, a2);
    let other_seed = uptime::derive_monitor_address(&owner, 2, &pid()).unwrap();
    assert_ne!(a1.0, other_seed.0);
    let other_owner = uptime::derive_monitor_address(&[9u8; 32], 1, &pid()).unwrap();
    assert_ne!(a1.0, other_owner.0);
    assert_ne!(a1.0, owner);
}

#[test]
fn reserved_minimum_matches_rent_schedule() {
    let reg = Registry::new(pid());
    let expected = Rent::default().minimum_balance(MONITOR_RECORD_SPACE);
    assert_eq!(reg.reserved_minimum(), expected);
    assert!(reg.reserved_minimum() > 0);
}

#[test]
fn uptime_basis_points_formula() {
    assert_eq!(uptime::uptime_basis_points(0, 0), 0);
    assert_eq!(uptime::uptime_basis_points(5, 5), 10000);
    assert_eq!(uptime::uptime_basis_points(999, 1000), 9990);
    assert_eq!(uptime::uptime_basis_points(1, 3), 3333);
}

#[test]
fn eligibility_rules_direct() {
    let day: i64 = 86400;
    assert!(uptime::is_eligible(AchievementType::FirstMonitor, 0, 1, 0, 0));
    assert!(!uptime::is_eligible(AchievementType::FirstMonitor, 0, 0, 0, 0));
    assert!(uptime::is_eligible(AchievementType::Uptime99For30Days, 99, 100, 0, 30 * day));
    assert!(!uptime::is_eligible(AchievementType::Uptime99For30Days, 99, 100, 0, 30 * day - 1));
    assert!(!uptime::is_eligible(AchievementType::Uptime99For30Days, 0, 0, 0, 30 * day));
    // a monitor created after `now` has not been active at all
    assert!(!uptime::is_eligible(AchievementType::Uptime100For7Days, 1, 1, 100 * day, 0));
    assert!(uptime::is_eligible(AchievementType::ThousandChecks, 0, 1000, 0, 0));
}

#[test]
fn replay_rebuilds_state_from_log() {
    let owner = owner_a();
    let addr = uptime::derive_monitor_address(&owner, 7, &pid()).unwrap().0;
    let log = vec![
        Operation::Create {
            accounts: CreateMonitor { monitor: addr, owner },
            seed: 7,
            interval: 60,
            label: String::from("site"),
            url: String::from("https://example.com"),
            created_at: 0,
        },
        Operation::Ping {
            accounts: RecordPing { monitor: addr, reporter: [3u8; 32] },
            success: true,
            timestamp: 10,
        },
        Operation::Ping {
            accounts: RecordPing { monitor: addr, reporter: [3u8; 32] },
            success: false,
            timestamp: 20,
        },
        Operation::Fund { monitor: addr, amount: 500 },
    ];
    let reg = uptime::registry::replay(pid(), log);
    let m = reg.monitor(&addr).unwrap();
    assert_eq!(m.total_pings, 2);
    assert_eq!(m.success_count, 1);
    assert_eq!(m.last_ping, 20);
    assert_eq!(reg.monitor_lamports(&addr).unwrap(), reg.reserved_minimum() + 500);
}
