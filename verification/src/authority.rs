//! Custody authority derivation.
//!
//! Both engines keep assets in custody accounts whose owner is a *derived
//! authority*: an address computed deterministically from a seed tuple, with
//! no private key behind it. The derivation also yields a *bump*, the
//! smallest value that makes the candidate address land outside the keyed
//! part of the address space; together they make the derivation canonical.
//!
//! The address space is modeled as a plain partition: addresses with an even
//! identity stand for wallet addresses (some caller holds a signing key for
//! them), addresses with an odd identity have no key and can only be signed
//! for by presenting the exact seed tuple and bump that derive them. A
//! presented bump is never trusted blindly: every check re-derives the
//! candidate and compares.

use vstd::prelude::*;

use crate::state::Pubkey;
use vstd::arithmetic::div_mod::lemma_fundamental_div_mod;
use vstd::arithmetic::div_mod::lemma_mod_multiples_vanish;
use vstd::arithmetic::mul::lemma_mul_upper_bound;

verus! {

/// Seed tag for escrow records and their vault authority.
pub const TAG_ESCROW: u64 = 0x6573_6372;
/// Seed tag for pool configuration records and the pool vault authority.
pub const TAG_CONFIG: u64 = 0x636f_6e66;
/// Seed tag for the pool-share mint address.
pub const TAG_LP: u64 = 0x6c70_5f6d;

/// Multiplier mixing the tag into a candidate address.
pub const MIX_TAG: u64 = 0x9e37_79b1;
/// Multiplier mixing the base identity into a candidate address.
pub const MIX_BASE: u64 = 0x85eb_ca77;
/// Multiplier mixing the caller-chosen seed into a candidate address.
pub const MIX_SEED: u64 = 0xc2b2_ae3d;

/// The modulus of the address space.
pub const ADDRESS_SPACE: u128 = 0x1_0000_0000_0000_0000;

/// Whether some caller holds a signing key for this address. Even identities
/// are wallet addresses; odd identities are derived, keyless addresses that
/// only seed knowledge can sign for.
pub open spec fn has_private_key(a: Pubkey) -> bool {
    a.id % 2 == 0
}

/// The candidate address for a seed tuple `(tag, base, seed)` at a given bump.
pub open spec fn candidate(tag: u64, base: u64, seed: u64, bump: u8) -> u64 {
    ((tag * MIX_TAG + base * MIX_BASE + seed * MIX_SEED + bump) % (ADDRESS_SPACE as int)) as u64
}

/// Whether `addr` is exactly the keyless authority that the seed tuple and
/// bump derive. This is the re-derive-and-compare check every engine runs on
/// a presented authority, so a forged bump or address cannot pass.
pub open spec fn is_authority_for(addr: Pubkey, tag: u64, base: u64, seed: u64, bump: u8) -> bool {
    addr.id == candidate(tag, base, seed, bump) && !has_private_key(addr)
}

/// Computes the candidate address for a seed tuple at a given bump.
pub fn candidate_address(tag: u64, base: u64, seed: u64, bump: u8) -> (r: u64)
    ensures
        r == candidate(tag, base, seed, bump),
{
    proof {
        lemma_mul_upper_bound(tag as int, u64::MAX as int, MIX_TAG as int, MIX_TAG as int);
        lemma_mul_upper_bound(base as int, u64::MAX as int, MIX_BASE as int, MIX_BASE as int);
        lemma_mul_upper_bound(seed as int, u64::MAX as int, MIX_SEED as int, MIX_SEED as int);
    }
    let mixed: u128 = (tag as u128) * (MIX_TAG as u128) + (base as u128) * (MIX_BASE as u128)
        + (seed as u128) * (MIX_SEED as u128) + (bump as u128);
    (mixed % ADDRESS_SPACE) as u64
}

/// Consecutive bumps yield candidates of opposite parity: the mixed value
/// grows by exactly one, and the address space modulus is even.
proof fn lemma_candidate_parity(tag: u64, base: u64, seed: u64, bump: u8)
    requires
        bump < 255,
    ensures
        candidate(tag, base, seed, bump) % 2 != candidate(tag, base, seed, (bump + 1) as u8) % 2,
{
    let m = tag * MIX_TAG + base * MIX_BASE + seed * MIX_SEED + bump;
    let space = ADDRESS_SPACE as int;
    let c0 = m % space;
    let c1 = (m + 1) % space;
    lemma_fundamental_div_mod(m, space);
    lemma_fundamental_div_mod(m + 1, space);
    let q0 = m / space;
    let q1 = (m + 1) / space;
    // Each candidate differs from its mixed value by a multiple of the (even)
    // address space, so it keeps the mixed value's parity.
    lemma_mod_multiples_vanish(q0 * (space / 2), c0, 2);
    lemma_mod_multiples_vanish(q1 * (space / 2), c1, 2);
    assert(q0 * (space / 2) * 2 + c0 == m) by (nonlinear_arith)
        requires
            m == q0 * space + c0,
            space == ADDRESS_SPACE as int,
    ;
    assert(q1 * (space / 2) * 2 + c1 == m + 1) by (nonlinear_arith)
        requires
            m + 1 == q1 * space + c1,
            space == ADDRESS_SPACE as int,
    ;
    assert(c0 % 2 == m % 2);
    assert(c1 % 2 == (m + 1) % 2);
}

/// Derives the canonical custody authority for a seed tuple: the candidate
/// address at the smallest bump that lands outside the keyed address space.
/// Deterministic and pure; for a given seed tuple there is exactly one
/// canonical `(address, bump)` pair.
pub fn derive_authority(tag: u64, base: u64, seed: u64) -> (r: (Pubkey, u8))
    ensures
        is_authority_for(r.0, tag, base, seed, r.1),
        forall|b: u8| b < r.1 ==> has_private_key(
            Pubkey { id: candidate(tag, base, seed, b) },
        ),
{
    let mut bump: u16 = 0;
    while bump < 256
        invariant
            bump <= 256,
            forall|b: u8| b < bump ==> candidate(tag, base, seed, b) % 2 == 0,
        decreases 256 - bump,
    {
        let c = candidate_address(tag, base, seed, bump as u8);
        if c % 2 == 1 {
            return (Pubkey { id: c }, bump as u8);
        }
        bump = bump + 1;
    }
    // Unreachable: candidates at bumps 0 and 1 have opposite parity, so one
    // of the first two bumps already lands on a keyless address.
    proof {
        lemma_candidate_parity(tag, base, seed, 0);
        assert(false);
    }
    (Pubkey { id: 1 }, 0)
}

/// Law: for a given seed tuple there is exactly one canonical
/// `(address, bump)` pair — any two bumps that each land on a keyless
/// candidate with every smaller bump keyed are the same bump, and so derive
/// the same address.
pub proof fn law_canonical_pair_unique(tag: u64, base: u64, seed: u64, b1: u8, b2: u8)
    requires
        !has_private_key(Pubkey { id: candidate(tag, base, seed, b1) }),
        forall|b: u8| b < b1 ==> has_private_key(Pubkey { id: candidate(tag, base, seed, b) }),
        !has_private_key(Pubkey { id: candidate(tag, base, seed, b2) }),
        forall|b: u8| b < b2 ==> has_private_key(Pubkey { id: candidate(tag, base, seed, b) }),
    ensures
        b1 == b2,
{
    if b1 < b2 {
        assert(has_private_key(Pubkey { id: candidate(tag, base, seed, b1) }));
    }
    if b2 < b1 {
        assert(has_private_key(Pubkey { id: candidate(tag, base, seed, b2) }));
    }
}

/// Re-derives the candidate for a presented `(address, bump)` pair and
/// compares: true exactly when `addr` is the keyless authority that the seed
/// tuple and bump derive.
pub fn verify_authority(addr: Pubkey, tag: u64, base: u64, seed: u64, bump: u8) -> (r: bool)
    ensures
        r == is_authority_for(addr, tag, base, seed, bump),
{
    let c = candidate_address(tag, base, seed, bump);
    addr.id == c && c % 2 == 1
}

} // verus!
