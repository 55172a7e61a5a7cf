use vstd::prelude::*;

verus! {

/// Program-level failures of the monitor registry, as surfaced to callers of
/// the mutating operations.
#[derive(Clone, Copy, Debug, PartialEq, Eq)]
pub enum UptimeError {
    /// A label longer than the 64-unit cap was supplied.
    LabelTooLong,
    /// A URL longer than the 256-unit cap was supplied.
    UrlTooLong,
    /// A counter increment would exceed the largest representable value.
    Overflow,
    /// The record holds no balance above its reserved minimum.
    NoAvailableFunds,
    /// The monitor's statistics do not satisfy the requested achievement rule.
    AchievementNotEligible,
}

/// Failures of an operation against the record store, including the
/// admission checks that run before any program logic.
#[derive(Clone, Copy, Debug, PartialEq, Eq)]
pub enum OpError {
    /// A program-level failure (validation, arithmetic or business rule).
    Uptime(UptimeError),
    /// No record is stored at the address derived from the stored immutable
    /// fields, or the caller named an address that holds no such record.
    RecordNotFound,
    /// The caller-supplied address does not match the derived address.
    AddressMismatch,
    /// A record already occupies the derived address.
    AddressInUse,
    /// The derivation search exhausted the nonce space without finding a
    /// valid address.
    BumpNotFound,
    /// The caller is not the stored owner of the record.
    NotOwner,
    /// A metadata string longer than the 200-unit cap was supplied.
    MetadataTooLong,
}

} // verus!
