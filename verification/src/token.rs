//! The asset transfer gateway, modeled.
//!
//! The host environment's token subsystem moves `amount` units of an asset
//! from one account to another when the presented authorization matches the
//! paying account's owner. The engines invoke it but never bypass it: an
//! outbound transfer from a custody account is honored only when the exact
//! seed tuple and bump that derive the custody authority are presented —
//! capability by knowledge of the derivation, not a signature.

use vstd::prelude::*;

use crate::authority::is_authority_for;
use crate::state::Pubkey;
use crate::state::TokenAccount;

verus! {

/// What a caller presents to authorize the debit side of a transfer.
pub enum Authorization {
    /// The transfer is signed by the holder of this wallet address's key.
    Signer(Pubkey),
    /// The transfer is signed as a derived authority by presenting its seed
    /// tuple and bump; the gateway re-derives and compares before honoring it.
    Derived { tag: u64, base: u64, seed: u64, bump: u8 },
}

/// Whether an authorization is good for debiting an account owned by `owner`.
pub open spec fn authorizes(auth: Authorization, owner: Pubkey) -> bool {
    match auth {
        Authorization::Signer(key) => key == owner,
        Authorization::Derived { tag, base, seed, bump } => is_authority_for(
            owner,
            tag,
            base,
            seed,
            bump,
        ),
    }
}

/// Checks an authorization against an account owner, exactly as the gateway
/// does before honoring a debit.
pub fn check_authorization(auth: &Authorization, owner: Pubkey) -> (r: bool)
    ensures
        r == authorizes(*auth, owner),
{
    match auth {
        Authorization::Signer(key) => *key == owner,
        Authorization::Derived { tag, base, seed, bump } => crate::authority::verify_authority(
            owner,
            *tag,
            *base,
            *seed,
            *bump,
        ),
    }
}

/// Moves `amount` units from `from` to `to`.
///
/// The gateway refuses a transfer across asset types, one whose authorization
/// does not match the paying owner, one the payer cannot fund, and one that
/// would overflow the receiving balance; the engines establish all four
/// conditions before issuing a leg, so the call sites carry them here as
/// preconditions. Nothing else about either account changes.
pub fn transfer(
    from: &mut TokenAccount,
    to: &mut TokenAccount,
    amount: u64,
    auth: Authorization,
)
    requires
        old(from).mint == old(to).mint,
        authorizes(auth, old(from).owner),
        old(from).amount >= amount,
        old(to).amount + amount <= u64::MAX,
    ensures
        final(from).amount == old(from).amount - amount,
        final(to).amount == old(to).amount + amount,
        final(from).mint == old(from).mint,
        final(from).owner == old(from).owner,
        final(to).mint == old(to).mint,
        final(to).owner == old(to).owner,
{
    from.amount = from.amount - amount;
    to.amount = to.amount + amount;
}

} // verus!
