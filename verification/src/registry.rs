use vstd::prelude::*;

use core::ops::Deref;
use vstd::string::StrSliceExecFns;

use crate::address::{
    achievement_address_of, bytes32_eq, derive_achievement_address, derive_monitor_address,
    monitor_address_of,
};
use crate::eligibility::{
    eligible, is_eligible, kind_byte, spec_kind_byte, spec_uptime_basis_points,
    uptime_basis_points, AchievementType,
};
use crate::errors::{OpError, UptimeError};
use crate::events::{
    AchievementMinted, FeesWithdrawn, MonitorCreated, MonitorUpdated, PingRecorded,
};
use crate::records::{
    Achievement, Monitor, StoredAchievement, StoredMonitor, MONITOR_RECORD_SPACE,
};
use crate::rent::{min_balance_of, rent_minimum_balance};

verus! {

/// The participants of a monitor creation: the address the new record is
/// to occupy, and the signing owner who pays for it.
#[derive(Clone, Copy, Debug, PartialEq, Eq)]
pub struct CreateMonitor {
    pub monitor: [u8; 32],
    pub owner: [u8; 32],
}

/// The participants of a monitor update: the record's address and the
/// signing caller, who must be the stored owner.
#[derive(Clone, Copy, Debug, PartialEq, Eq)]
pub struct UpdateMonitor {
    pub monitor: [u8; 32],
    pub owner: [u8; 32],
}

/// The participants of a monitor deletion: the record's address and the
/// signing caller, who must be the stored owner and receives the record's
/// balance.
#[derive(Clone, Copy, Debug, PartialEq, Eq)]
pub struct DeleteMonitor {
    pub monitor: [u8; 32],
    pub owner: [u8; 32],
}

/// The participants of a ping report: the record's address and the
/// signing reporter, deliberately not required to be the owner.
#[derive(Clone, Copy, Debug, PartialEq, Eq)]
pub struct RecordPing {
    pub monitor: [u8; 32],
    pub reporter: [u8; 32],
}

/// The participants of a fee withdrawal: the record's address and the
/// signing caller, who must be the stored owner and receives the surplus.
#[derive(Clone, Copy, Debug, PartialEq, Eq)]
pub struct WithdrawFees {
    pub monitor: [u8; 32],
    pub owner: [u8; 32],
}

/// The participants of an achievement mint: the source monitor's address,
/// the address the new achievement record is to occupy, and the signing
/// payer (not validated against the monitor's owner).
#[derive(Clone, Copy, Debug, PartialEq, Eq)]
pub struct MintAchievementNFT {
    pub monitor: [u8; 32],
    pub achievement: [u8; 32],
    pub owner: [u8; 32],
}

/// Well-formedness of a stored monitor record: the counters balance and
/// the string fields respect their caps.
pub open spec fn monitor_record_wf(m: Monitor) -> bool {
    &&& m.total_pings == m.success_count + m.failure_count
    &&& m.label@.len() <= 64
    &&& m.url@.len() <= 256
}

/// Well-formedness of a stored achievement record: the metadata respects
/// its cap and the uptime snapshot is a valid ratio.
pub open spec fn achievement_record_wf(a: Achievement) -> bool {
    &&& a.metadata_uri@.len() <= 200
    &&& a.uptime_at_mint <= 10000
}

/// The monitor record as first stored: counters zeroed, no ping yet.
pub open spec fn created_record(
    accounts: CreateMonitor,
    seed: u64,
    bump: u8,
    interval: i64,
    created_at: i64,
    label: String,
    url: String,
) -> Monitor {
    Monitor {
        owner: accounts.owner,
        seed,
        bump,
        interval,
        last_ping: 0,
        success_count: 0,
        failure_count: 0,
        total_pings: 0,
        created_at,
        label,
        url,
    }
}

/// The monitor record after one recorded ping: the timestamp is noted and
/// the total plus exactly one outcome counter grow by one.
pub open spec fn pinged_record(m: Monitor, success: bool, timestamp: i64) -> Monitor {
    Monitor {
        owner: m.owner,
        seed: m.seed,
        bump: m.bump,
        interval: m.interval,
        last_ping: timestamp,
        success_count: if success {
            (m.success_count + 1) as u64
        } else {
            m.success_count
        },
        failure_count: if success {
            m.failure_count
        } else {
            (m.failure_count + 1) as u64
        },
        total_pings: (m.total_pings + 1) as u64,
        created_at: m.created_at,
        label: m.label,
        url: m.url,
    }
}

/// The monitor record after an update: each supplied field replaces the
/// stored one, absent fields are left untouched.
pub open spec fn updated_record(
    m: Monitor,
    new_label: Option<String>,
    new_url: Option<String>,
    new_interval: Option<i64>,
) -> Monitor {
    Monitor {
        owner: m.owner,
        seed: m.seed,
        bump: m.bump,
        interval: (match new_interval {
            Some(i) => i,
            None => m.interval,
        }),
        last_ping: m.last_ping,
        success_count: m.success_count,
        failure_count: m.failure_count,
        total_pings: m.total_pings,
        created_at: m.created_at,
        label: (match new_label {
            Some(l) => l,
            None => m.label,
        }),
        url: (match new_url {
            Some(u) => u,
            None => m.url,
        }),
    }
}

/// The achievement record minted from a monitor's current statistics.
pub open spec fn minted_record(
    m: Monitor,
    monitor_address: [u8; 32],
    kind: AchievementType,
    metadata_uri: String,
    now: i64,
    bump: u8,
) -> Achievement {
    Achievement {
        owner: m.owner,
        monitor: monitor_address,
        achievement_type: kind,
        minted_at: now,
        uptime_at_mint: spec_uptime_basis_points(m.success_count, m.total_pings) as u64,
        total_checks_at_mint: m.total_pings,
        metadata_uri,
        bump,
    }
}

/// The record store: every monitor and achievement record of one program
/// identity, each stored at its derived address, together with the
/// balance each monitor holds. The surrounding runtime serializes the
/// operations on a registry, so each call is one atomic transition.
pub struct Registry {
    program_id: [u8; 32],
    reserved: u64,
    monitors: Vec<StoredMonitor>,
    achievements: Vec<StoredAchievement>,
}

impl Registry {
    /// The stored monitor records, in creation order.
    pub closed spec fn spec_monitors(self) -> Seq<StoredMonitor> {
        self.monitors@
    }

    /// The stored achievement records, in mint order.
    pub closed spec fn spec_achievements(self) -> Seq<StoredAchievement> {
        self.achievements@
    }

    /// The program identity under which every address is derived.
    pub closed spec fn spec_program_id(self) -> Seq<u8> {
        self.program_id@
    }

    /// The reserved minimum balance of a monitor record.
    pub closed spec fn spec_reserved(self) -> u64 {
        self.reserved
    }

    /// Every stored record is well formed.
    pub open spec fn records_wf(self) -> bool {
        &&& forall|i: int|
            0 <= i < self.spec_monitors().len() ==> monitor_record_wf(
                (#[trigger] self.spec_monitors()[i]).record,
            )
        &&& forall|i: int|
            0 <= i < self.spec_achievements().len() ==> achievement_record_wf(
                (#[trigger] self.spec_achievements()[i]).record,
            )
    }

    /// No two stored records occupy one address.
    pub open spec fn addresses_distinct(self) -> bool {
        &&& forall|i: int, j: int|
            #![trigger self.spec_monitors()[i], self.spec_monitors()[j]]
            0 <= i < j < self.spec_monitors().len() ==> self.spec_monitors()[i].address@
                != self.spec_monitors()[j].address@
        &&& forall|i: int, j: int|
            #![trigger self.spec_achievements()[i], self.spec_achievements()[j]]
            0 <= i < j < self.spec_achievements().len() ==> self.spec_achievements()[i].address@
                != self.spec_achievements()[j].address@
        &&& forall|i: int, j: int|
            #![trigger self.spec_monitors()[i], self.spec_achievements()[j]]
            0 <= i < self.spec_monitors().len() && 0 <= j < self.spec_achievements().len()
                ==> self.spec_monitors()[i].address@ != self.spec_achievements()[j].address@
    }

    /// Every record sits at the address derived from its stored immutable
    /// fields, with the stored nonce, and the reserved minimum is the one
    /// owed for a monitor record's footprint.
    pub closed spec fn addresses_canonical(self) -> bool {
        &&& forall|i: int|
            0 <= i < self.monitors@.len() ==> monitor_address_of(
                (#[trigger] self.monitors@[i]).record.owner@,
                self.monitors@[i].record.seed,
                self.program_id@,
            ) == Some((self.monitors@[i].address@, self.monitors@[i].record.bump))
        &&& forall|i: int|
            0 <= i < self.achievements@.len() ==> achievement_address_of(
                (#[trigger] self.achievements@[i]).record.monitor@,
                spec_kind_byte(self.achievements@[i].record.achievement_type),
                self.program_id@,
            ) == Some((self.achievements@[i].address@, self.achievements@[i].record.bump))
        &&& self.reserved == min_balance_of(MONITOR_RECORD_SPACE as int)
        &&& forall|i: int|
            0 <= i < self.monitors@.len() ==> (#[trigger] self.monitors@[i]).lamports
                >= self.reserved
    }

    /// The registry invariant: established by `new`, preserved by every
    /// operation.
    pub open spec fn wf(self) -> bool {
        &&& self.records_wf()
        &&& self.addresses_distinct()
        &&& self.addresses_canonical()
    }

    /// Whether a monitor record is stored at `addr`.
    pub open spec fn has_monitor(self, addr: Seq<u8>) -> bool {
        exists|i: int|
            0 <= i < self.spec_monitors().len() && (#[trigger] self.spec_monitors()[i]).address@
                == addr
    }

    /// The position of the monitor record stored at `addr`.
    pub open spec fn monitor_idx(self, addr: Seq<u8>) -> int {
        choose|i: int|
            0 <= i < self.spec_monitors().len() && (#[trigger] self.spec_monitors()[i]).address@
                == addr
    }

    /// The monitor record stored at `addr`.
    pub open spec fn monitor_entry(self, addr: Seq<u8>) -> StoredMonitor {
        self.spec_monitors()[self.monitor_idx(addr)]
    }

    /// Whether an achievement record is stored at `addr`.
    pub open spec fn has_achievement(self, addr: Seq<u8>) -> bool {
        exists|i: int|
            0 <= i < self.spec_achievements().len() && (
            #[trigger] self.spec_achievements()[i]).address@ == addr
    }

    /// The position of the achievement record stored at `addr`.
    pub open spec fn achievement_idx(self, addr: Seq<u8>) -> int {
        choose|i: int|
            0 <= i < self.spec_achievements().len() && (
            #[trigger] self.spec_achievements()[i]).address@ == addr
    }

    /// The achievement record stored at `addr`.
    pub open spec fn achievement_entry(self, addr: Seq<u8>) -> StoredAchievement {
        self.spec_achievements()[self.achievement_idx(addr)]
    }

    /// Whether any record occupies `addr`.
    pub open spec fn occupied(self, addr: Seq<u8>) -> bool {
        self.has_monitor(addr) || self.has_achievement(addr)
    }

    /// How a creation call is admitted or rejected: the address must be
    /// derivable, match the caller-supplied one, the strings must respect
    /// their caps, and the address must be free.
    pub open spec fn create_outcome(
        self,
        accounts: CreateMonitor,
        seed: u64,
        label: Seq<char>,
        url: Seq<char>,
    ) -> Result<(), OpError> {
        match monitor_address_of(accounts.owner@, seed, self.spec_program_id()) {
            None => Err(OpError::BumpNotFound),
            Some(p) => if p.0 != accounts.monitor@ {
                Err(OpError::AddressMismatch)
            } else if self.occupied(accounts.monitor@) {
                Err(OpError::AddressInUse)
            } else if label.len() > 64 {
                Err(OpError::Uptime(UptimeError::LabelTooLong))
            } else if url.len() > 256 {
                Err(OpError::Uptime(UptimeError::UrlTooLong))
            } else {
                Ok(())
            },
        }
    }

    /// How an update call is admitted or rejected: the record must exist
    /// at the address, the caller must be the stored owner, and each
    /// supplied string must respect its cap; nothing is changed on any
    /// rejection.
    pub open spec fn update_outcome(
        self,
        accounts: UpdateMonitor,
        new_label: Option<String>,
        new_url: Option<String>,
    ) -> Result<(), OpError> {
        if !self.has_monitor(accounts.monitor@) {
            Err(OpError::RecordNotFound)
        } else if self.monitor_entry(accounts.monitor@).record.owner@ != accounts.owner@ {
            Err(OpError::NotOwner)
        } else if (new_label matches Some(l) && l@.len() > 64) {
            Err(OpError::Uptime(UptimeError::LabelTooLong))
        } else if (new_url matches Some(u) && u@.len() > 256) {
            Err(OpError::Uptime(UptimeError::UrlTooLong))
        } else {
            Ok(())
        }
    }

    /// How a ping report is admitted or rejected: the record must exist,
    /// and the counters must not yet be saturated; any identity may
    /// report.
    pub open spec fn ping_outcome(self, accounts: RecordPing) -> Result<(), OpError> {
        if !self.has_monitor(accounts.monitor@) {
            Err(OpError::RecordNotFound)
        } else if self.monitor_entry(accounts.monitor@).record.total_pings == u64::MAX {
            Err(OpError::Uptime(UptimeError::Overflow))
        } else {
            Ok(())
        }
    }

    /// How a deletion is admitted or rejected: the record must exist and
    /// the caller must be the stored owner.
    pub open spec fn delete_outcome(self, accounts: DeleteMonitor) -> Result<(), OpError> {
        if !self.has_monitor(accounts.monitor@) {
            Err(OpError::RecordNotFound)
        } else if self.monitor_entry(accounts.monitor@).record.owner@ != accounts.owner@ {
            Err(OpError::NotOwner)
        } else {
            Ok(())
        }
    }

    /// How a withdrawal is admitted or rejected: the record must exist,
    /// the caller must be the stored owner, and the balance must exceed
    /// the reserved minimum; there is no partial or zero withdrawal.
    pub open spec fn withdraw_outcome(self, accounts: WithdrawFees) -> Result<(), OpError> {
        if !self.has_monitor(accounts.monitor@) {
            Err(OpError::RecordNotFound)
        } else if self.monitor_entry(accounts.monitor@).record.owner@ != accounts.owner@ {
            Err(OpError::NotOwner)
        } else if self.monitor_entry(accounts.monitor@).lamports <= self.spec_reserved() {
            Err(OpError::Uptime(UptimeError::NoAvailableFunds))
        } else {
            Ok(())
        }
    }

    /// How a mint is admitted or rejected: the monitor must exist, the
    /// achievement address must be derivable, match the caller-supplied
    /// one and be free, the metadata must respect its cap, and the
    /// monitor's statistics must satisfy the requested rule.
    pub open spec fn mint_outcome(
        self,
        accounts: MintAchievementNFT,
        kind: AchievementType,
        metadata_uri: Seq<char>,
        now: i64,
    ) -> Result<(), OpError> {
        if !self.has_monitor(accounts.monitor@) {
            Err(OpError::RecordNotFound)
        } else {
            match achievement_address_of(
                accounts.monitor@,
                spec_kind_byte(kind),
                self.spec_program_id(),
            ) {
                None => Err(OpError::BumpNotFound),
                Some(p) => if p.0 != accounts.achievement@ {
                    Err(OpError::AddressMismatch)
                } else if self.occupied(accounts.achievement@) {
                    Err(OpError::AddressInUse)
                } else if !eligible(
                    kind,
                    self.monitor_entry(accounts.monitor@).record.success_count,
                    self.monitor_entry(accounts.monitor@).record.total_pings,
                    self.monitor_entry(accounts.monitor@).record.created_at,
                    now,
                ) {
                    Err(OpError::Uptime(UptimeError::AchievementNotEligible))
                } else if metadata_uri.len() > 200 {
                    Err(OpError::MetadataTooLong)
                } else {
                    Ok(())
                },
            }
        }
    }

    /// How an external deposit is admitted or rejected: the record must
    /// exist and its balance must not wrap.
    pub open spec fn fund_outcome(self, monitor: [u8; 32], amount: u64) -> Result<(), OpError> {
        if !self.has_monitor(monitor@) {
            Err(OpError::RecordNotFound)
        } else if self.monitor_entry(monitor@).lamports + amount > u64::MAX {
            Err(OpError::Uptime(UptimeError::Overflow))
        } else {
            Ok(())
        }
    }

    /// A position holding `addr` is the position `monitor_idx` names.
    proof fn lemma_monitor_idx_is(self, addr: Seq<u8>, i: int)
        requires
            self.addresses_distinct(),
            0 <= i < self.spec_monitors().len(),
            self.spec_monitors()[i].address@ == addr,
        ensures
            self.has_monitor(addr),
            self.monitor_idx(addr) == i,
            self.monitor_entry(addr) == self.spec_monitors()[i],
    {
        assert(self.has_monitor(addr));
        let j = self.monitor_idx(addr);
        assert(0 <= j < self.spec_monitors().len() && self.spec_monitors()[j].address@ == addr);
        if i < j {
            assert(self.spec_monitors()[i].address@ != self.spec_monitors()[j].address@);
        } else if j < i {
            assert(self.spec_monitors()[j].address@ != self.spec_monitors()[i].address@);
        }
    }

    /// A position holding `addr` is the position `achievement_idx` names.
    proof fn lemma_achievement_idx_is(self, addr: Seq<u8>, i: int)
        requires
            self.addresses_distinct(),
            0 <= i < self.spec_achievements().len(),
            self.spec_achievements()[i].address@ == addr,
        ensures
            self.has_achievement(addr),
            self.achievement_idx(addr) == i,
            self.achievement_entry(addr) == self.spec_achievements()[i],
    {
        assert(self.has_achievement(addr));
        let j = self.achievement_idx(addr);
        assert(0 <= j < self.spec_achievements().len() && self.spec_achievements()[j].address@
            == addr);
        if i < j {
            assert(self.spec_achievements()[i].address@ != self.spec_achievements()[j].address@);
        } else if j < i {
            assert(self.spec_achievements()[j].address@ != self.spec_achievements()[i].address@);
        }
    }

    /// An empty registry for one program identity, with the reserved
    /// minimum fixed from the monitor record footprint.
    pub fn new(program_id: [u8; 32]) -> (r: Registry)
        ensures
            r.wf(),
            r.spec_program_id() == program_id@,
            r.spec_monitors() == Seq::<StoredMonitor>::empty(),
            r.spec_achievements() == Seq::<StoredAchievement>::empty(),
            r.spec_reserved() == min_balance_of(MONITOR_RECORD_SPACE as int),
    {
        let reserved = rent_minimum_balance(MONITOR_RECORD_SPACE);
        let r = Registry { program_id, reserved, monitors: Vec::new(), achievements: Vec::new() };
        proof {
            assert(r.spec_monitors() =~= Seq::<StoredMonitor>::empty());
            assert(r.spec_achievements() =~= Seq::<StoredAchievement>::empty());
        }
        r
    }

    /// The reserved minimum balance of a monitor record.
    pub fn reserved_minimum(&self) -> (r: u64)
        ensures
            r == self.spec_reserved(),
    {
        self.reserved
    }

    fn find_monitor_index(&self, address: &[u8; 32]) -> (r: Option<usize>)
        ensures
            (match r {
                Some(i) => 0 <= i < self.spec_monitors().len() && self.spec_monitors()[
                    i as int
                ].address@ == address@,
                None => !self.has_monitor(address@),
            }),
    {
        let mut i: usize = 0;
        while i < self.monitors.len()
            invariant
                0 <= i <= self.monitors@.len(),
                forall|j: int|
                    0 <= j < i ==> (#[trigger] self.monitors@[j]).address@ != address@,
            decreases self.monitors@.len() - i,
        {
            if bytes32_eq(&self.monitors[i].address, address) {
                return Some(i);
            }
            i += 1;
        }
        None
    }

    fn find_achievement_index(&self, address: &[u8; 32]) -> (r: Option<usize>)
        ensures
            (match r {
                Some(i) => 0 <= i < self.spec_achievements().len() && self.spec_achievements()[
                    i as int
                ].address@ == address@,
                None => !self.has_achievement(address@),
            }),
    {
        let mut i: usize = 0;
        while i < self.achievements.len()
            invariant
                0 <= i <= self.achievements@.len(),
                forall|j: int|
                    0 <= j < i ==> (#[trigger] self.achievements@[j]).address@ != address@,
            decreases self.achievements@.len() - i,
        {
            if bytes32_eq(&self.achievements[i].address, address) {
                return Some(i);
            }
            i += 1;
        }
        None
    }

    /// Re-derives the target monitor's address from its stored immutable
    /// fields and compares address and nonce, the admission check that
    /// gates every operation on an existing record. Under the registry
    /// invariant the check always passes for a stored record.
    fn rederive_check(&self, idx: usize) -> (r: bool)
        requires
            self.addresses_canonical(),
            0 <= idx < self.spec_monitors().len(),
        ensures
            r,
    {
        let entry = &self.monitors[idx];
        match derive_monitor_address(&entry.record.owner, entry.record.seed, &self.program_id) {
            Some(p) => bytes32_eq(&p.0, &entry.address) && p.1 == entry.record.bump,
            None => false,
        }
    }

    /// Creates the monitor record of (owner, seed): derives and checks
    /// its address, validates the strings, requires the address to be
    /// free, and stores the record with zeroed counters and the reserved
    /// minimum balance.
    pub fn create_monitor(
        &mut self,
        accounts: CreateMonitor,
        seed: u64,
        interval: i64,
        label: String,
        url: String,
        created_at: i64,
    ) -> (r: Result<MonitorCreated, OpError>)
        requires
            old(self).wf(),
        ensures
            final(self).wf(),
            final(self).spec_program_id() == old(self).spec_program_id(),
            final(self).spec_reserved() == old(self).spec_reserved(),
            r is Ok <==> old(self).create_outcome(accounts, seed, label@, url@) is Ok,
            (match r {
                Ok(ev) => {
                    &&& final(self).spec_achievements() == old(self).spec_achievements()
                    &&& final(self).spec_monitors() == old(self).spec_monitors().push(
                        (StoredMonitor {
                            address: accounts.monitor,
                            lamports: old(self).spec_reserved(),
                            record: created_record(
                                accounts,
                                seed,
                                monitor_address_of(
                                    accounts.owner@,
                                    seed,
                                    old(self).spec_program_id(),
                                )->Some_0.1,
                                interval,
                                created_at,
                                label,
                                url,
                            ),
                        }),
                    )
                    &&& ev == (MonitorCreated {
                        owner: accounts.owner,
                        label,
                        url,
                        interval,
                        created_at,
                    })
                },
                Err(e) => {
                    &&& *final(self) == *old(self)
                    &&& old(self).create_outcome(accounts, seed, label@, url@) == Err::<(), OpError>(e)
                },
            }),
    {
        let derived = derive_monitor_address(&accounts.owner, seed, &self.program_id);
        let (addr, bump) = match derived {
            None => {
                return Err(OpError::BumpNotFound);
            },
            Some(p) => p,
        };
        if !bytes32_eq(&addr, &accounts.monitor) {
            return Err(OpError::AddressMismatch);
        }
        match self.find_monitor_index(&accounts.monitor) {
            Some(_) => {
                return Err(OpError::AddressInUse);
            },
            None => {},
        }
        match self.find_achievement_index(&accounts.monitor) {
            Some(_) => {
                return Err(OpError::AddressInUse);
            },
            None => {},
        }
        if label.deref().unicode_len() > 64 {
            return Err(OpError::Uptime(UptimeError::LabelTooLong));
        }
        if url.deref().unicode_len() > 256 {
            return Err(OpError::Uptime(UptimeError::UrlTooLong));
        }
        let ev = MonitorCreated {
            owner: accounts.owner,
            label: label.clone(),
            url: url.clone(),
            interval,
            created_at,
        };
        let entry = StoredMonitor {
            address: accounts.monitor,
            lamports: self.reserved,
            record: Monitor {
                owner: accounts.owner,
                seed,
                bump,
                interval,
                last_ping: 0,
                success_count: 0,
                failure_count: 0,
                total_pings: 0,
                created_at,
                label,
                url,
            },
        };
        self.monitors.push(entry);
        proof {
            let m0 = old(self).spec_monitors();
            let m1 = self.spec_monitors();
            assert(addr@ == accounts.monitor@);
            assert forall|i: int| 0 <= i < m0.len() implies (#[trigger] m0[i]).address@
                != accounts.monitor@ by {
                if m0[i].address@ == accounts.monitor@ {
                    old(self).lemma_monitor_idx_is(accounts.monitor@, i);
                }
            }
            assert(forall|i: int| 0 <= i < m0.len() ==> m1[i] == m0[i]);
        }
        Ok(ev)
    }

    /// Updates the editable fields of the monitor at `accounts.monitor`.
    /// Only the stored owner may update; oversized strings are rejected
    /// before anything is changed, so a rejected call leaves the record
    /// exactly as it was.
    pub fn update_monitor(
        &mut self,
        accounts: UpdateMonitor,
        new_label: Option<String>,
        new_url: Option<String>,
        new_interval: Option<i64>,
    ) -> (r: Result<MonitorUpdated, OpError>)
        requires
            old(self).wf(),
        ensures
            final(self).wf(),
            final(self).spec_program_id() == old(self).spec_program_id(),
            final(self).spec_reserved() == old(self).spec_reserved(),
            r is Ok <==> old(self).update_outcome(accounts, new_label, new_url) is Ok,
            (match r {
                Ok(ev) => {
                    &&& final(self).spec_achievements() == old(self).spec_achievements()
                    &&& final(self).spec_monitors() == old(self).spec_monitors().update(
                        old(self).monitor_idx(accounts.monitor@),
                        (StoredMonitor {
                            address: old(self).monitor_entry(accounts.monitor@).address,
                            lamports: old(self).monitor_entry(accounts.monitor@).lamports,
                            record: updated_record(
                                old(self).monitor_entry(accounts.monitor@).record,
                                new_label,
                                new_url,
                                new_interval,
                            ),
                        }),
                    )
                    &&& ev == (MonitorUpdated {
                        owner: old(self).monitor_entry(accounts.monitor@).record.owner,
                        label: updated_record(
                            old(self).monitor_entry(accounts.monitor@).record,
                            new_label,
                            new_url,
                            new_interval,
                        ).label,
                        url: updated_record(
                            old(self).monitor_entry(accounts.monitor@).record,
                            new_label,
                            new_url,
                            new_interval,
                        ).url,
                        interval: updated_record(
                            old(self).monitor_entry(accounts.monitor@).record,
                            new_label,
                            new_url,
                            new_interval,
                        ).interval,
                    })
                },
                Err(e) => {
                    &&& *final(self) == *old(self)
                    &&& old(self).update_outcome(accounts, new_label, new_url) == Err::<
                        (),
                        OpError,
                    >(e)
                },
            }),
    {
        let idx = match self.find_monitor_index(&accounts.monitor) {
            None => {
                return Err(OpError::RecordNotFound);
            },
            Some(i) => i,
        };
        proof {
            self.lemma_monitor_idx_is(accounts.monitor@, idx as int);
        }
        if !self.rederive_check(idx) {
            return Err(OpError::RecordNotFound);
        }
        if !bytes32_eq(&self.monitors[idx].record.owner, &accounts.owner) {
            return Err(OpError::NotOwner);
        }
        match &new_label {
            Some(l) => {
                if l.deref().unicode_len() > 64 {
                    return Err(OpError::Uptime(UptimeError::LabelTooLong));
                }
            },
            None => {},
        }
        match &new_url {
            Some(u) => {
                if u.deref().unicode_len() > 256 {
                    return Err(OpError::Uptime(UptimeError::UrlTooLong));
                }
            },
            None => {},
        }
        match new_label {
            Some(l) => {
                self.monitors[idx].record.label = l;
            },
            None => {},
        }
        match new_url {
            Some(u) => {
                self.monitors[idx].record.url = u;
            },
            None => {},
        }
        match new_interval {
            Some(iv) => {
                self.monitors[idx].record.interval = iv;
            },
            None => {},
        }
        let ev = MonitorUpdated {
            owner: self.monitors[idx].record.owner,
            label: self.monitors[idx].record.label.clone(),
            url: self.monitors[idx].record.url.clone(),
            interval: self.monitors[idx].record.interval,
        };
        proof {
            let i = idx as int;
            assert(self.monitors@ =~= old(self).monitors@.update(
                i,
                (StoredMonitor {
                    address: old(self).monitors@[i].address,
                    lamports: old(self).monitors@[i].lamports,
                    record: updated_record(
                        old(self).monitors@[i].record,
                        new_label,
                        new_url,
                        new_interval,
                    ),
                }),
            ));
        }
        Ok(ev)
    }

    /// Records one check outcome on the monitor at `accounts.monitor`,
    /// callable by any identity: notes the timestamp and increments the
    /// total and exactly one outcome counter, rejecting the call whole if
    /// a counter would wrap.
    pub fn record_ping(&mut self, accounts: RecordPing, success: bool, timestamp: i64) -> (r:
        Result<PingRecorded, OpError>)
        requires
            old(self).wf(),
        ensures
            final(self).wf(),
            final(self).spec_program_id() == old(self).spec_program_id(),
            final(self).spec_reserved() == old(self).spec_reserved(),
            r is Ok <==> old(self).ping_outcome(accounts) is Ok,
            (match r {
                Ok(ev) => {
                    &&& final(self).spec_achievements() == old(self).spec_achievements()
                    &&& final(self).spec_monitors() == old(self).spec_monitors().update(
                        old(self).monitor_idx(accounts.monitor@),
                        (StoredMonitor {
                            address: old(self).monitor_entry(accounts.monitor@).address,
                            lamports: old(self).monitor_entry(accounts.monitor@).lamports,
                            record: pinged_record(
                                old(self).monitor_entry(accounts.monitor@).record,
                                success,
                                timestamp,
                            ),
                        }),
                    )
                    &&& ev == (PingRecorded {
                        owner: old(self).monitor_entry(accounts.monitor@).record.owner,
                        label: old(self).monitor_entry(accounts.monitor@).record.label,
                        url: old(self).monitor_entry(accounts.monitor@).record.url,
                        success,
                        timestamp,
                        total_pings: (old(self).monitor_entry(
                            accounts.monitor@,
                        ).record.total_pings + 1) as u64,
                    })
                },
                Err(e) => {
                    &&& *final(self) == *old(self)
                    &&& old(self).ping_outcome(accounts) == Err::<(), OpError>(e)
                },
            }),
    {
        let idx = match self.find_monitor_index(&accounts.monitor) {
            None => {
                return Err(OpError::RecordNotFound);
            },
            Some(i) => i,
        };
        proof {
            self.lemma_monitor_idx_is(accounts.monitor@, idx as int);
        }
        if !self.rederive_check(idx) {
            return Err(OpError::RecordNotFound);
        }
        let total = self.monitors[idx].record.total_pings;
        if total == u64::MAX {
            return Err(OpError::Uptime(UptimeError::Overflow));
        }
        self.monitors[idx].record.last_ping = timestamp;
        self.monitors[idx].record.total_pings = total + 1;
        if success {
            let s = self.monitors[idx].record.success_count;
            self.monitors[idx].record.success_count = s + 1;
        } else {
            let f = self.monitors[idx].record.failure_count;
            self.monitors[idx].record.failure_count = f + 1;
        }
        let ev = PingRecorded {
            owner: self.monitors[idx].record.owner,
            label: self.monitors[idx].record.label.clone(),
            url: self.monitors[idx].record.url.clone(),
            success,
            timestamp,
            total_pings: total + 1,
        };
        proof {
            let i = idx as int;
            assert(self.monitors@ =~= old(self).monitors@.update(
                i,
                (StoredMonitor {
                    address: old(self).monitors@[i].address,
                    lamports: old(self).monitors@[i].lamports,
                    record: pinged_record(old(self).monitors@[i].record, success, timestamp),
                }),
            ));
        }
        Ok(ev)
    }

    /// Deletes the monitor at `accounts.monitor` and returns its entire
    /// balance, which the runtime credits back to the owner. Only the
    /// stored owner may delete. Achievement records already minted from
    /// the monitor remain.
    pub fn delete_monitor(&mut self, accounts: DeleteMonitor) -> (r: Result<u64, OpError>)
        requires
            old(self).wf(),
        ensures
            final(self).wf(),
            final(self).spec_program_id() == old(self).spec_program_id(),
            final(self).spec_reserved() == old(self).spec_reserved(),
            r is Ok <==> old(self).delete_outcome(accounts) is Ok,
            (match r {
                Ok(refund) => {
                    &&& final(self).spec_achievements() == old(self).spec_achievements()
                    &&& final(self).spec_monitors() == old(self).spec_monitors().remove(
                        old(self).monitor_idx(accounts.monitor@),
                    )
                    &&& refund == old(self).monitor_entry(accounts.monitor@).lamports
                },
                Err(e) => {
                    &&& *final(self) == *old(self)
                    &&& old(self).delete_outcome(accounts) == Err::<(), OpError>(e)
                },
            }),
    {
        let idx = match self.find_monitor_index(&accounts.monitor) {
            None => {
                return Err(OpError::RecordNotFound);
            },
            Some(i) => i,
        };
        proof {
            self.lemma_monitor_idx_is(accounts.monitor@, idx as int);
        }
        if !self.rederive_check(idx) {
            return Err(OpError::RecordNotFound);
        }
        if !bytes32_eq(&self.monitors[idx].record.owner, &accounts.owner) {
            return Err(OpError::NotOwner);
        }
        let entry = self.monitors.remove(idx);
        Ok(entry.lamports)
    }

    /// Withdraws the surplus above the reserved minimum from the monitor
    /// at `accounts.monitor` to its owner, authorized by re-deriving the
    /// record's own address and nonce. The balance check and the
    /// transfer are one atomic step; the record keeps exactly the
    /// reserved minimum.
    pub fn withdraw_fees(&mut self, accounts: WithdrawFees) -> (r: Result<FeesWithdrawn, OpError>)
        requires
            old(self).wf(),
        ensures
            final(self).wf(),
            final(self).spec_program_id() == old(self).spec_program_id(),
            final(self).spec_reserved() == old(self).spec_reserved(),
            r is Ok <==> old(self).withdraw_outcome(accounts) is Ok,
            (match r {
                Ok(ev) => {
                    &&& final(self).spec_achievements() == old(self).spec_achievements()
                    &&& final(self).spec_monitors() == old(self).spec_monitors().update(
                        old(self).monitor_idx(accounts.monitor@),
                        (StoredMonitor {
                            address: old(self).monitor_entry(accounts.monitor@).address,
                            lamports: old(self).spec_reserved(),
                            record: old(self).monitor_entry(accounts.monitor@).record,
                        }),
                    )
                    &&& ev == (FeesWithdrawn {
                        owner: old(self).monitor_entry(accounts.monitor@).record.owner,
                        amount: (old(self).monitor_entry(accounts.monitor@).lamports - old(
                            self,
                        ).spec_reserved()) as u64,
                    })
                },
                Err(e) => {
                    &&& *final(self) == *old(self)
                    &&& old(self).withdraw_outcome(accounts) == Err::<(), OpError>(e)
                },
            }),
    {
        let idx = match self.find_monitor_index(&accounts.monitor) {
            None => {
                return Err(OpError::RecordNotFound);
            },
            Some(i) => i,
        };
        proof {
            self.lemma_monitor_idx_is(accounts.monitor@, idx as int);
        }
        if !self.rederive_check(idx) {
            return Err(OpError::RecordNotFound);
        }
        if !bytes32_eq(&self.monitors[idx].record.owner, &accounts.owner) {
            return Err(OpError::NotOwner);
        }
        let avail = self.monitors[idx].lamports;
        if avail <= self.reserved {
            return Err(OpError::Uptime(UptimeError::NoAvailableFunds));
        }
        let amount = avail - self.reserved;
        self.monitors[idx].lamports = self.reserved;
        let ev = FeesWithdrawn { owner: self.monitors[idx].record.owner, amount };
        proof {
            let i = idx as int;
            assert(self.monitors@ =~= old(self).monitors@.update(
                i,
                (StoredMonitor {
                    address: old(self).monitors@[i].address,
                    lamports: old(self).spec_reserved(),
                    record: old(self).monitors@[i].record,
                }),
            ));
        }
        Ok(ev)
    }

    /// Mints the achievement of (monitor, kind) if the monitor's current
    /// statistics satisfy the kind's rule at time `now`: derives and
    /// checks the achievement address, requires it to be free — a second
    /// mint for the same pair collides with the stored record — and
    /// stores an immutable snapshot record. The monitor itself is only
    /// read.
    pub fn mint_achievement_nft(
        &mut self,
        accounts: MintAchievementNFT,
        achievement_type: AchievementType,
        metadata_uri: String,
        now: i64,
    ) -> (r: Result<AchievementMinted, OpError>)
        requires
            old(self).wf(),
        ensures
            final(self).wf(),
            final(self).spec_program_id() == old(self).spec_program_id(),
            final(self).spec_reserved() == old(self).spec_reserved(),
            r is Ok <==> old(self).mint_outcome(accounts, achievement_type, metadata_uri@, now)
                is Ok,
            (match r {
                Ok(ev) => {
                    &&& final(self).spec_monitors() == old(self).spec_monitors()
                    &&& final(self).spec_achievements() == old(self).spec_achievements().push(
                        (StoredAchievement {
                            address: accounts.achievement,
                            record: minted_record(
                                old(self).monitor_entry(accounts.monitor@).record,
                                accounts.monitor,
                                achievement_type,
                                metadata_uri,
                                now,
                                achievement_address_of(
                                    accounts.monitor@,
                                    spec_kind_byte(achievement_type),
                                    old(self).spec_program_id(),
                                )->Some_0.1,
                            ),
                        }),
                    )
                    &&& ev == (AchievementMinted {
                        owner: old(self).monitor_entry(accounts.monitor@).record.owner,
                        monitor: accounts.monitor,
                        achievement_type,
                        uptime: minted_record(
                            old(self).monitor_entry(accounts.monitor@).record,
                            accounts.monitor,
                            achievement_type,
                            metadata_uri,
                            now,
                            0u8,
                        ).uptime_at_mint,
                        minted_at: now,
                    })
                },
                Err(e) => {
                    &&& *final(self) == *old(self)
                    &&& old(self).mint_outcome(accounts, achievement_type, metadata_uri@, now)
                        == Err::<(), OpError>(e)
                },
            }),
    {
        let midx = match self.find_monitor_index(&accounts.monitor) {
            None => {
                return Err(OpError::RecordNotFound);
            },
            Some(i) => i,
        };
        proof {
            self.lemma_monitor_idx_is(accounts.monitor@, midx as int);
        }
        if !self.rederive_check(midx) {
            return Err(OpError::RecordNotFound);
        }
        let kb = kind_byte(achievement_type);
        let derived = derive_achievement_address(&accounts.monitor, kb, &self.program_id);
        let (addr, bump) = match derived {
            None => {
                return Err(OpError::BumpNotFound);
            },
            Some(p) => p,
        };
        if !bytes32_eq(&addr, &accounts.achievement) {
            return Err(OpError::AddressMismatch);
        }
        match self.find_monitor_index(&accounts.achievement) {
            Some(_) => {
                return Err(OpError::AddressInUse);
            },
            None => {},
        }
        match self.find_achievement_index(&accounts.achievement) {
            Some(_) => {
                return Err(OpError::AddressInUse);
            },
            None => {},
        }
        let success_count = self.monitors[midx].record.success_count;
        let total_pings = self.monitors[midx].record.total_pings;
        let created_at = self.monitors[midx].record.created_at;
        if !is_eligible(achievement_type, success_count, total_pings, created_at, now) {
            return Err(OpError::Uptime(UptimeError::AchievementNotEligible));
        }
        if metadata_uri.deref().unicode_len() > 200 {
            return Err(OpError::MetadataTooLong);
        }
        let ubp = uptime_basis_points(success_count, total_pings);
        let rec = Achievement {
            owner: self.monitors[midx].record.owner,
            monitor: accounts.monitor,
            achievement_type,
            minted_at: now,
            uptime_at_mint: ubp,
            total_checks_at_mint: total_pings,
            metadata_uri,
            bump,
        };
        let ev = AchievementMinted {
            owner: rec.owner,
            monitor: accounts.monitor,
            achievement_type,
            uptime: ubp,
            minted_at: now,
        };
        self.achievements.push(StoredAchievement { address: accounts.achievement, record: rec });
        proof {
            let a0 = old(self).spec_achievements();
            assert(addr@ == accounts.achievement@);
            assert forall|i: int| 0 <= i < a0.len() implies (#[trigger] a0[i]).address@
                != accounts.achievement@ by {
                if a0[i].address@ == accounts.achievement@ {
                    old(self).lemma_achievement_idx_is(accounts.achievement@, i);
                }
            }
            assert forall|i: int|
                0 <= i < old(self).spec_monitors().len() implies (#[trigger] old(
                self,
            ).spec_monitors()[i]).address@ != accounts.achievement@ by {
                if old(self).spec_monitors()[i].address@ == accounts.achievement@ {
                    old(self).lemma_monitor_idx_is(accounts.achievement@, i);
                }
            }
        }
        Ok(ev)
    }

    /// Credits `amount` to the balance of the monitor at `monitor`,
    /// standing for a transfer made to the record's address outside the
    /// program's own operations; anyone may fund any record.
    pub fn fund_monitor(&mut self, monitor: [u8; 32], amount: u64) -> (r: Result<(), OpError>)
        requires
            old(self).wf(),
        ensures
            final(self).wf(),
            final(self).spec_program_id() == old(self).spec_program_id(),
            final(self).spec_reserved() == old(self).spec_reserved(),
            r is Ok <==> old(self).fund_outcome(monitor, amount) is Ok,
            (match r {
                Ok(u) => {
                    &&& final(self).spec_achievements() == old(self).spec_achievements()
                    &&& final(self).spec_monitors() == old(self).spec_monitors().update(
                        old(self).monitor_idx(monitor@),
                        (StoredMonitor {
                            address: old(self).monitor_entry(monitor@).address,
                            lamports: (old(self).monitor_entry(monitor@).lamports + amount) as u64,
                            record: old(self).monitor_entry(monitor@).record,
                        }),
                    )
                },
                Err(e) => {
                    &&& *final(self) == *old(self)
                    &&& old(self).fund_outcome(monitor, amount) == Err::<(), OpError>(e)
                },
            }),
    {
        let idx = match self.find_monitor_index(&monitor) {
            None => {
                return Err(OpError::RecordNotFound);
            },
            Some(i) => i,
        };
        proof {
            self.lemma_monitor_idx_is(monitor@, idx as int);
        }
        let lamports = self.monitors[idx].lamports;
        if amount > u64::MAX - lamports {
            return Err(OpError::Uptime(UptimeError::Overflow));
        }
        self.monitors[idx].lamports = lamports + amount;
        proof {
            let i = idx as int;
            assert(self.monitors@ =~= old(self).monitors@.update(
                i,
                (StoredMonitor {
                    address: old(self).monitors@[i].address,
                    lamports: (old(self).monitors@[i].lamports + amount) as u64,
                    record: old(self).monitors@[i].record,
                }),
            ));
        }
        Ok(())
    }

    /// The monitor record stored at `address`, if any.
    pub fn monitor(&self, address: &[u8; 32]) -> (r: Option<&Monitor>)
        requires
            self.addresses_distinct(),
        ensures
            (match r {
                Some(m) => self.has_monitor(address@) && *m == self.monitor_entry(
                    address@,
                ).record,
                None => !self.has_monitor(address@),
            }),
    {
        match self.find_monitor_index(address) {
            Some(i) => {
                proof {
                    self.lemma_monitor_idx_is(address@, i as int);
                }
                Some(&self.monitors[i].record)
            },
            None => None,
        }
    }

    /// The balance held by the monitor record at `address`, if any.
    pub fn monitor_lamports(&self, address: &[u8; 32]) -> (r: Option<u64>)
        requires
            self.addresses_distinct(),
        ensures
            (match r {
                Some(l) => self.has_monitor(address@) && l == self.monitor_entry(
                    address@,
                ).lamports,
                None => !self.has_monitor(address@),
            }),
    {
        match self.find_monitor_index(address) {
            Some(i) => {
                proof {
                    self.lemma_monitor_idx_is(address@, i as int);
                }
                Some(self.monitors[i].lamports)
            },
            None => None,
        }
    }

    /// The achievement record stored at `address`, if any.
    pub fn achievement(&self, address: &[u8; 32]) -> (r: Option<&Achievement>)
        requires
            self.addresses_distinct(),
        ensures
            (match r {
                Some(a) => self.has_achievement(address@) && *a == self.achievement_entry(
                    address@,
                ).record,
                None => !self.has_achievement(address@),
            }),
    {
        match self.find_achievement_index(address) {
            Some(i) => {
                proof {
                    self.lemma_achievement_idx_is(address@, i as int);
                }
                Some(&self.achievements[i].record)
            },
            None => None,
        }
    }

    /// How many monitor records are stored.
    pub fn monitor_count(&self) -> (n: usize)
        ensures
            n == self.spec_monitors().len(),
    {
        self.monitors.len()
    }

    /// How many achievement records are stored.
    pub fn achievement_count(&self) -> (n: usize)
        ensures
            n == self.spec_achievements().len(),
    {
        self.achievements.len()
    }
}

/// After every operation the counters of every stored monitor balance:
/// the total equals the successes plus the failures, whatever sequence of
/// calls produced the state.
pub proof fn lemma_counters_consistent(r: Registry, i: int)
    requires
        r.wf(),
        0 <= i < r.spec_monitors().len(),
    ensures
        r.spec_monitors()[i].record.total_pings == r.spec_monitors()[i].record.success_count
            + r.spec_monitors()[i].record.failure_count,
{
}

/// Two monitors stored at the same time occupy distinct records: their
/// addresses differ. In particular, monitors created by different owners
/// with the same seed occupy distinct records, since creation stores each
/// at its derived address and fails on an occupied one.
pub proof fn lemma_distinct_records(r: Registry, i: int, j: int)
    requires
        r.wf(),
        0 <= i < r.spec_monitors().len(),
        0 <= j < r.spec_monitors().len(),
        i != j,
    ensures
        r.spec_monitors()[i].address@ != r.spec_monitors()[j].address@,
{
    if i < j {
        assert(r.spec_monitors()[i].address@ != r.spec_monitors()[j].address@);
    } else {
        assert(r.spec_monitors()[j].address@ != r.spec_monitors()[i].address@);
    }
}

/// No stored monitor's balance is below the reserved minimum: creation
/// reserves it and withdrawal never drains below it.
pub proof fn lemma_reserved_protected(r: Registry, i: int)
    requires
        r.wf(),
        0 <= i < r.spec_monitors().len(),
    ensures
        r.spec_monitors()[i].lamports >= r.spec_reserved(),
{
}

/// A saturated outcome counter can only come with a saturated total, so
/// the next ping report on that monitor — whatever its outcome — is
/// rejected with Overflow rather than silently wrapping: the state a
/// maximal run of same-outcome reports produces admits no further one.
pub proof fn lemma_saturated_counter_overflows(r: Registry, accounts: RecordPing)
    requires
        r.wf(),
        r.has_monitor(accounts.monitor@),
        r.monitor_entry(accounts.monitor@).record.success_count == u64::MAX || r.monitor_entry(
            accounts.monitor@,
        ).record.failure_count == u64::MAX,
    ensures
        r.ping_outcome(accounts) == Err::<(), OpError>(OpError::Uptime(UptimeError::Overflow)),
{
    let i = r.monitor_idx(accounts.monitor@);
    assert(0 <= i < r.spec_monitors().len() && r.spec_monitors()[i].address@
        == accounts.monitor@);
    assert(monitor_record_wf(r.spec_monitors()[i].record));
}

/// A FirstMonitor mint that passes the address and metadata admission
/// checks succeeds if and only if the monitor has recorded at least one
/// check.
pub proof fn lemma_first_monitor_mint(
    r: Registry,
    accounts: MintAchievementNFT,
    metadata_uri: Seq<char>,
    now: i64,
)
    requires
        r.wf(),
    ensures
        (r.has_monitor(accounts.monitor@) && !r.occupied(accounts.achievement@)
            && metadata_uri.len() <= 200 && (achievement_address_of(
            accounts.monitor@,
            spec_kind_byte(AchievementType::FirstMonitor),
            r.spec_program_id(),
        ) matches Some(p) && p.0 == accounts.achievement@)) ==> (r.mint_outcome(
            accounts,
            AchievementType::FirstMonitor,
            metadata_uri,
            now,
        ) is Ok <==> r.monitor_entry(accounts.monitor@).record.total_pings >= 1),
{
}

/// An Uptime100For7Days mint that passes the address and metadata
/// admission checks succeeds if and only if every recorded check
/// succeeded, at least one check was recorded, and at least seven whole
/// days have passed since creation.
pub proof fn lemma_perfect_week_mint(
    r: Registry,
    accounts: MintAchievementNFT,
    metadata_uri: Seq<char>,
    now: i64,
)
    requires
        r.wf(),
    ensures
        (r.has_monitor(accounts.monitor@) && !r.occupied(accounts.achievement@)
            && metadata_uri.len() <= 200 && (achievement_address_of(
            accounts.monitor@,
            spec_kind_byte(AchievementType::Uptime100For7Days),
            r.spec_program_id(),
        ) matches Some(p) && p.0 == accounts.achievement@)) ==> (r.mint_outcome(
            accounts,
            AchievementType::Uptime100For7Days,
            metadata_uri,
            now,
        ) is Ok <==> (r.monitor_entry(accounts.monitor@).record.success_count == r.monitor_entry(
            accounts.monitor@,
        ).record.total_pings && r.monitor_entry(accounts.monitor@).record.total_pings > 0 && now
            - r.monitor_entry(accounts.monitor@).record.created_at >= 7 * (
        crate::eligibility::SECONDS_PER_DAY as int))),
{
}

/// One recorded call into the registry, as the surrounding runtime hands
/// it over.
#[allow(inconsistent_fields)]
pub enum Operation {
    Create {
        accounts: CreateMonitor,
        seed: u64,
        interval: i64,
        label: String,
        url: String,
        created_at: i64,
    },
    Update {
        accounts: UpdateMonitor,
        new_label: Option<String>,
        new_url: Option<String>,
        new_interval: Option<i64>,
    },
    Ping { accounts: RecordPing, success: bool, timestamp: i64 },
    Delete { accounts: DeleteMonitor },
    Withdraw { accounts: WithdrawFees },
    Mint {
        accounts: MintAchievementNFT,
        achievement_type: AchievementType,
        metadata_uri: String,
        now: i64,
    },
    Fund { monitor: [u8; 32], amount: u64 },
}

/// Replays a recorded operation log against a fresh registry, e.g. to
/// rebuild the state a runtime persisted; every rejected call leaves the
/// state unchanged, so the result is well formed whatever the log holds.
pub fn replay(program_id: [u8; 32], log: Vec<Operation>) -> (r: Registry)
    ensures
        r.wf(),
        r.spec_program_id() == program_id@,
{
    let mut reg = Registry::new(program_id);
    let mut rest = log;
    while rest.len() > 0
        invariant
            reg.wf(),
            reg.spec_program_id() == program_id@,
        decreases rest@.len(),
    {
        let op = rest.remove(0);
        match op {
            Operation::Create { accounts, seed, interval, label, url, created_at } => {
                let _ = reg.create_monitor(accounts, seed, interval, label, url, created_at);
            },
            Operation::Update { accounts, new_label, new_url, new_interval } => {
                let _ = reg.update_monitor(accounts, new_label, new_url, new_interval);
            },
            Operation::Ping { accounts, success, timestamp } => {
                let _ = reg.record_ping(accounts, success, timestamp);
            },
            Operation::Delete { accounts } => {
                let _ = reg.delete_monitor(accounts);
            },
            Operation::Withdraw { accounts } => {
                let _ = reg.withdraw_fees(accounts);
            },
            Operation::Mint { accounts, achievement_type, metadata_uri, now } => {
                let _ = reg.mint_achievement_nft(accounts, achievement_type, metadata_uri, now);
            },
            Operation::Fund { monitor, amount } => {
                let _ = reg.fund_monitor(monitor, amount);
            },
        }
    }
    reg
}

} // verus!
