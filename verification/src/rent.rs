use vstd::prelude::*;

use anchor_lang::prelude::Rent;

verus! {

/// The minimum balance that a record of the given byte footprint must
/// retain to stay persisted in underlying storage, under the fixed
/// default rent schedule. A pure function of the footprint alone.
pub uninterp spec fn min_balance_of(data_len: int) -> u64;

/// Relies on `anchor_lang::prelude::Rent`: `Rent::default()` is the fixed
/// default rent schedule (a compile-time constant configuration), and
/// `Rent::minimum_balance` computes from it the rent-exempt minimum for
/// an account of `data_len` bytes, a function of `data_len` alone.
#[verifier::external_body]
pub(crate) fn rent_minimum_balance(data_len: usize) -> (r: u64)
    ensures
        r == min_balance_of(data_len as int),
{
    Rent::default().minimum_balance(data_len)
}

} // verus!
