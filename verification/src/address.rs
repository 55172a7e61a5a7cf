use vstd::prelude::*;

use anchor_lang::prelude::Pubkey;
use vstd::bytes::{spec_u64_to_le_bytes, u64_to_le_bytes};
use vstd::slice::slice_to_vec;

verus! {

/// The derived storage address and nonce that the derivation algorithm
/// yields for a prefix, two further binary components and a program
/// identity, or nothing when the nonce search space is exhausted. The
/// result is a pure function of these inputs: the same inputs always
/// yield the same address, in every process.
pub uninterp spec fn pda_of(prefix: Seq<u8>, comp1: Seq<u8>, comp2: Seq<u8>, program_id: Seq<u8>) -> Option<(Seq<u8>, u8)>;

/// Relies on `solana_pubkey::Pubkey::try_find_program_address` (via the
/// `anchor_lang` prelude re-export): a deterministic, collision-resistant
/// derivation of a 32-byte storage address plus a one-byte nonce from the
/// seed components and the program identity, searching nonces from the
/// highest value downwards and returning the first that yields a valid
/// address; `None` in the statistically improbable event that no nonce
/// yields one. `Pubkey::new_from_array` and `Pubkey::to_bytes` only
/// convert between the key type and its 32 raw bytes.
#[verifier::external_body]
fn find_address(prefix: &Vec<u8>, comp1: &Vec<u8>, comp2: &Vec<u8>, program_id: &[u8; 32]) -> (r:
    Option<([u8; 32], u8)>)
    ensures
        (match r {
            Some(p) => pda_of(prefix@, comp1@, comp2@, program_id@) == Some((p.0@, p.1)),
            None => pda_of(prefix@, comp1@, comp2@, program_id@) is None,
        }),
{
    let seeds: [&[u8]; 3] = [prefix.as_slice(), comp1.as_slice(), comp2.as_slice()];
    Pubkey::try_find_program_address(&seeds, &Pubkey::new_from_array(*program_id)).map(
        |p: (Pubkey, u8)| (p.0.to_bytes(), p.1),
    )
}

/// The fixed prefix of every monitor address derivation: the bytes of
/// "monitor".
pub open spec fn monitor_prefix() -> Seq<u8> {
    seq![109u8, 111u8, 110u8, 105u8, 116u8, 111u8, 114u8]
}

/// The fixed prefix of every achievement address derivation: the bytes of
/// "achievement".
pub open spec fn achievement_prefix() -> Seq<u8> {
    seq![97u8, 99u8, 104u8, 105u8, 101u8, 118u8, 101u8, 109u8, 101u8, 110u8, 116u8]
}

fn monitor_prefix_bytes() -> (r: Vec<u8>)
    ensures
        r@ == monitor_prefix(),
{
    let mut v: Vec<u8> = Vec::new();
    v.push(109u8);
    v.push(111u8);
    v.push(110u8);
    v.push(105u8);
    v.push(116u8);
    v.push(111u8);
    v.push(114u8);
    proof {
        assert(v@ =~= monitor_prefix());
    }
    v
}

fn achievement_prefix_bytes() -> (r: Vec<u8>)
    ensures
        r@ == achievement_prefix(),
{
    let mut v: Vec<u8> = Vec::new();
    v.push(97u8);
    v.push(99u8);
    v.push(104u8);
    v.push(105u8);
    v.push(101u8);
    v.push(118u8);
    v.push(101u8);
    v.push(109u8);
    v.push(101u8);
    v.push(110u8);
    v.push(116u8);
    proof {
        assert(v@ =~= achievement_prefix());
    }
    v
}

/// The address and nonce of the monitor record of (owner, seed) under the
/// given program identity.
pub open spec fn monitor_address_of(owner: Seq<u8>, seed: u64, program_id: Seq<u8>) -> Option<
    (Seq<u8>, u8),
> {
    pda_of(monitor_prefix(), owner, spec_u64_to_le_bytes(seed), program_id)
}

/// The address and nonce of the achievement record of (monitor, kind
/// byte) under the given program identity.
pub open spec fn achievement_address_of(monitor: Seq<u8>, kind_byte: u8, program_id: Seq<u8>) -> Option<
    (Seq<u8>, u8),
> {
    pda_of(achievement_prefix(), monitor, seq![kind_byte], program_id)
}

/// Derives the storage address and nonce of the monitor record of
/// (owner, seed): the prefix "monitor", the owner identity and the
/// little-endian seed bytes, under the given program identity.
pub fn derive_monitor_address(owner: &[u8; 32], seed: u64, program_id: &[u8; 32]) -> (r: Option<
    ([u8; 32], u8),
>)
    ensures
        (match r {
            Some(p) => monitor_address_of(owner@, seed, program_id@) == Some((p.0@, p.1)),
            None => monitor_address_of(owner@, seed, program_id@) is None,
        }),
{
    let prefix = monitor_prefix_bytes();
    let owner_bytes = slice_to_vec(owner.as_slice());
    let seed_bytes = u64_to_le_bytes(seed);
    find_address(&prefix, &owner_bytes, &seed_bytes, program_id)
}

/// Derives the storage address and nonce of the achievement record of
/// (monitor, kind byte): the prefix "achievement", the monitor's address
/// and the single kind byte, under the given program identity.
pub fn derive_achievement_address(monitor: &[u8; 32], kind_byte: u8, program_id: &[u8; 32]) -> (r:
    Option<([u8; 32], u8)>)
    ensures
        (match r {
            Some(p) => achievement_address_of(monitor@, kind_byte, program_id@) == Some(
                (p.0@, p.1),
            ),
            None => achievement_address_of(monitor@, kind_byte, program_id@) is None,
        }),
{
    let prefix = achievement_prefix_bytes();
    let monitor_bytes = slice_to_vec(monitor.as_slice());
    let mut kind_bytes: Vec<u8> = Vec::new();
    kind_bytes.push(kind_byte);
    proof {
        assert(kind_bytes@ =~= seq![kind_byte]);
    }
    find_address(&prefix, &monitor_bytes, &kind_bytes, program_id)
}

/// Compares two 32-byte addresses or identities.
pub fn bytes32_eq(a: &[u8; 32], b: &[u8; 32]) -> (r: bool)
    ensures
        r == (a@ == b@),
{
    let mut i: usize = 0;
    while i < 32
        invariant
            0 <= i <= 32,
            forall|j: int| 0 <= j < i ==> a@[j] == b@[j],
        decreases 32 - i,
    {
        if a[i] != b[i] {
            return false;
        }
        i += 1;
    }
    proof {
        assert(a@ =~= b@);
    }
    true
}

} // verus!
