use uptime::{
    CreateMonitor, DeleteMonitor, Monitor, OpError, RecordPing, Registry, UpdateMonitor,
    UptimeError, WithdrawFees,
};

fn pid() -> [u8; 32] {
    [1u8; 32]
}

fn owner_a() -> [u8; 32] {
    [2u8; 32]
}

fn owner_b() -> [u8; 32] {
    [3u8; 32]
}

fn monitor_addr(owner: &[u8; 32], seed: u64) -> [u8; 32] {
    uptime::derive_monitor_address(owner, seed, &pid()).unwrap().0
}

fn setup_one(seed: u64) -> (Registry, [u8; 32]) {
    let mut reg = Registry::new(pid());
    let owner = owner_a();
    let addr = monitor_addr(&owner, seed);
    let res = reg.create_monitor(
        CreateMonitor { monitor: addr, owner },
        seed,
        60,
        String::from("my site"),
        String::from("https://example.com"),
        1000,
    );
    assert!(res.is_ok());
    (reg, addr)
}

#[test]
fn create_stores_zeroed_record() {
    let (reg, addr) = setup_one(7);
    assert_eq!(reg.monitor_count(), 1);
    let m: &Monitor = reg.monitor(&addr).unwrap();
    assert_eq!(m.owner, owner_a());
    assert_eq!(m.seed, 7);
    assert_eq!(m.interval, 60);
    assert_eq!(m.last_ping, 0);
    assert_eq!(m.success_count, 0);
    assert_eq!(m.failure_count, 0);
    assert_eq!(m.total_pings, 0);
    assert_eq!(m.created_at, 1000);
    assert_eq!(m.label, "my site");
    assert_eq!(m.url, "https://example.com");
    assert_eq!(reg.monitor_lamports(&addr).unwrap(), reg.reserved_minimum());
}

#[test]
fn create_emits_event() {
    let mut reg = Registry::new(pid());
    let owner = owner_a();
    let addr = monitor_addr(&owner, 9);
    let ev = reg
        .create_monitor(
            CreateMonitor { monitor: addr, owner },
            9,
            30,
            String::from("a"),
            String::from("b"),
            5,
        )
        .unwrap();
    assert_eq!(ev.owner, owner);
    assert_eq!(ev.label, "a");
    assert_eq!(ev.url, "b");
    assert_eq!(ev.interval, 30);
    assert_eq!(ev.created_at, 5);
}

#[test]
fn create_at_wrong_address_rejected() {
    let mut reg = Registry::new(pid());
    let res = reg.create_monitor(
        CreateMonitor { monitor: [9u8; 32], owner: owner_a() },
        7,
        60,
        String::from("l"),
        String::from("u"),
        0,
    );
    assert_eq!(res, Err(OpError::AddressMismatch));
    assert_eq!(reg.monitor_count(), 0);
}

#[test]
fn create_twice_rejected() {
    let (mut reg, addr) = setup_one(7);
    let res = reg.create_monitor(
        CreateMonitor { monitor: addr, owner: owner_a() },
        7,
        60,
        String::from("l"),
        String::from("u"),
        0,
    );
    assert_eq!(res, Err(OpError::AddressInUse));
    assert_eq!(reg.monitor_count(), 1);
}

#[test]
fn create_label_too_long_rejected() {
    let mut reg = Registry::new(pid());
    let owner = owner_a();
    let addr = monitor_addr(&owner, 7);
    let res = reg.create_monitor(
        CreateMonitor { monitor: addr, owner },
        7,
        60,
        "x".repeat(65),
        String::from("u"),
        0,
    );
    assert_eq!(res, Err(OpError::Uptime(UptimeError::LabelTooLong)));
    let ok = reg.create_monitor(
        CreateMonitor { monitor: addr, owner },
        7,
        60,
        "x".repeat(64),
        String::from("u"),
        0,
    );
    assert!(ok.is_ok());
}

#[test]
fn create_url_too_long_rejected() {
    let mut reg = Registry::new(pid());
    let owner = owner_a();
    let addr = monitor_addr(&owner, 7);
    let res = reg.create_monitor(
        CreateMonitor { monitor: addr, owner },
        7,
        60,
        String::from("l"),
        "x".repeat(257),
        0,
    );
    assert_eq!(res, Err(OpError::Uptime(UptimeError::UrlTooLong)));
}

#[test]
fn ping_updates_counters() {
    let (mut reg, addr) = setup_one(7);
    let ev = reg
        .record_ping(RecordPing { monitor: addr, reporter: owner_b() }, true, 111)
        .unwrap();
    assert_eq!(ev.total_pings, 1);
    assert!(ev.success);
    assert_eq!(ev.timestamp, 111);
    let ev2 = reg
        .record_ping(RecordPing { monitor: addr, reporter: owner_b() }, false, 222)
        .unwrap();
    assert_eq!(ev2.total_pings, 2);
    let m = reg.monitor(&addr).unwrap();
    assert_eq!(m.total_pings, 2);
    assert_eq!(m.success_count, 1);
    assert_eq!(m.failure_count, 1);
    assert_eq!(m.last_ping, 222);
    assert_eq!(m.total_pings, m.success_count + m.failure_count);
}

#[test]
fn ping_missing_monitor_rejected() {
    let mut reg = Registry::new(pid());
    let res = reg.record_ping(RecordPing { monitor: [4u8; 32], reporter: owner_a() }, true, 1);
    assert_eq!(res, Err(OpError::RecordNotFound));
}

#[test]
fn update_replaces_supplied_fields() {
    let (mut reg, addr) = setup_one(7);
    let ev = reg
        .update_monitor(
            UpdateMonitor { monitor: addr, owner: owner_a() },
            Some(String::from("new label")),
            None,
            Some(120),
        )
        .unwrap();
    assert_eq!(ev.label, "new label");
    assert_eq!(ev.url, "https://example.com");
    assert_eq!(ev.interval, 120);
    let m = reg.monitor(&addr).unwrap();
    assert_eq!(m.label, "new label");
    assert_eq!(m.url, "https://example.com");
    assert_eq!(m.interval, 120);
}

#[test]
fn update_label_too_long_leaves_record_unchanged() {
    let (mut reg, addr) = setup_one(7);
    let res = reg.update_monitor(
        UpdateMonitor { monitor: addr, owner: owner_a() },
        Some("x".repeat(65)),
        Some(String::from("https://other.example")),
        Some(999),
    );
    assert_eq!(res, Err(OpError::Uptime(UptimeError::LabelTooLong)));
    let m = reg.monitor(&addr).unwrap();
    assert_eq!(m.label, "my site");
    assert_eq!(m.url, "https://example.com");
    assert_eq!(m.interval, 60);
}

#[test]
fn update_url_too_long_rejected() {
    let (mut reg, addr) = setup_one(7);
    let res = reg.update_monitor(
        UpdateMonitor { monitor: addr, owner: owner_a() },
        None,
        Some("x".repeat(257)),
        None,
    );
    assert_eq!(res, Err(OpError::Uptime(UptimeError::UrlTooLong)));
    assert_eq!(reg.monitor(&addr).unwrap().url, "https://example.com");
}

#[test]
fn update_by_non_owner_rejected() {
    let (mut reg, addr) = setup_one(7);
    let res = reg.update_monitor(
        UpdateMonitor { monitor: addr, owner: owner_b() },
        Some(String::from("hijack")),
        None,
        None,
    );
    assert_eq!(res, Err(OpError::NotOwner));
    assert_eq!(reg.monitor(&addr).unwrap().label, "my site");
}

#[test]
fn withdraw_at_exactly_reserved_fails() {
    let (mut reg, addr) = setup_one(7);
    assert_eq!(reg.monitor_lamports(&addr).unwrap(), reg.reserved_minimum());
    let res = reg.withdraw_fees(WithdrawFees { monitor: addr, owner: owner_a() });
    assert_eq!(res, Err(OpError::Uptime(UptimeError::NoAvailableFunds)));
}

#[test]
fn withdraw_transfers_exact_surplus() {
    let (mut reg, addr) = setup_one(7);
    reg.fund_monitor(addr, 500).unwrap();
    let reserved = reg.reserved_minimum();
    assert_eq!(reg.monitor_lamports(&addr).unwrap(), reserved + 500);
    let ev = reg
        .withdraw_fees(WithdrawFees { monitor: addr, owner: owner_a() })
        .unwrap();
    assert_eq!(ev.owner, owner_a());
    assert_eq!(ev.amount, 500);
    assert_eq!(reg.monitor_lamports(&addr).unwrap(), reserved);
    let again = reg.withdraw_fees(WithdrawFees { monitor: addr, owner: owner_a() });
    assert_eq!(again, Err(OpError::Uptime(UptimeError::NoAvailableFunds)));
}

#[test]
fn withdraw_by_non_owner_rejected() {
    let (mut reg, addr) = setup_one(7);
    reg.fund_monitor(addr, 500).unwrap();
    let res = reg.withdraw_fees(WithdrawFees { monitor: addr, owner: owner_b() });
    assert_eq!(res, Err(OpError::NotOwner));
    assert_eq!(
        reg.monitor_lamports(&addr).unwrap(),
        reg.reserved_minimum() + 500
    );
}

#[test]
fn fund_overflow_rejected() {
    let (mut reg, addr) = setup_one(7);
    let res = reg.fund_monitor(addr, u64::MAX);
    assert_eq!(res, Err(OpError::Uptime(UptimeError::Overflow)));
    assert_eq!(reg.monitor_lamports(&addr).unwrap(), reg.reserved_minimum());
}

#[test]
fn delete_returns_entire_balance() {
    let (mut reg, addr) = setup_one(7);
    reg.fund_monitor(addr, 500).unwrap();
    let reserved = reg.reserved_minimum();
    let refund = reg
        .delete_monitor(DeleteMonitor { monitor: addr, owner: owner_a() })
        .unwrap();
    assert_eq!(refund, reserved + 500);
    assert!(reg.monitor(&addr).is_none());
    assert_eq!(reg.monitor_count(), 0);
}

#[test]
fn delete_by_non_owner_rejected() {
    let (mut reg, addr) = setup_one(7);
    let res = reg.delete_monitor(DeleteMonitor { monitor: addr, owner: owner_b() });
    assert_eq!(res, Err(OpError::NotOwner));
    assert_eq!(reg.monitor_count(), 1);
}

#[test]
fn delete_missing_rejected() {
    let mut reg = Registry::new(pid());
    let res = reg.delete_monitor(DeleteMonitor { monitor: [5u8; 32], owner: owner_a() });
    assert_eq!(res, Err(OpError::RecordNotFound));
}

#[test]
fn distinct_owners_same_seed_distinct_records() {
    let mut reg = Registry::new(pid());
    let a1 = monitor_addr(&owner_a(), 42);
    let a2 = monitor_addr(&owner_b(), 42);
    assert_ne!(a1, a2);
    reg.create_monitor(
        CreateMonitor { monitor: a1, owner: owner_a() },
        42,
        60,
        String::from("one"),
        String::from("u1"),
        0,
    )
    .unwrap();
    reg.create_monitor(
        CreateMonitor { monitor: a2, owner: owner_b() },
        42,
        60,
        String::from("two"),
        String::from("u2"),
        0,
    )
    .unwrap();
    assert_eq!(reg.monitor_count(), 2);
    assert_eq!(reg.monitor(&a1).unwrap().label, "one");
    assert_eq!(reg.monitor(&a2).unwrap().label, "two");
}
