//! The persisted records and account shapes the two engines work on.
//!
//! Every account is modeled by the plain values the custody logic reads:
//! an address is an opaque identity, a token account is its mint, its owner
//! and its balance. Whatever else the host ledger stores about an account
//! (rent, data layout) is outside the core and not represented.

use vstd::prelude::*;

verus! {

/// An account address: an opaque identity on the ledger.
///
/// Addresses come in two kinds, told apart by `crate::authority::has_private_key`:
/// wallet addresses, for which some caller holds a signing key, and derived
/// addresses, which no key controls and which only seed knowledge can sign for.
#[derive(Clone, Copy, PartialEq, Eq, Structural, Debug)]
pub struct Pubkey {
    pub id: u64,
}

/// An asset type: its address and the supply bookkeeping the engines read.
#[derive(Clone, Copy, PartialEq, Eq, Structural, Debug)]
pub struct Mint {
    pub address: Pubkey,
    pub supply: u64,
    pub decimals: u8,
}

/// An asset-holding account: `amount` units of `mint`, controlled by `owner`.
#[derive(Clone, Copy, PartialEq, Eq, Structural, Debug)]
pub struct TokenAccount {
    pub mint: Pubkey,
    pub owner: Pubkey,
    pub amount: u64,
}

/// The escrow record: created by `make`, read-only for its whole life,
/// destroyed by exactly one of `take` / `refund`.
#[derive(Clone, Copy, PartialEq, Eq, Structural, Debug)]
pub struct Escrow {
    /// Caller-chosen uniqueness value; part of the record's derivation seeds.
    pub seed: u64,
    /// The offering party, and the only identity allowed to refund.
    pub maker: Pubkey,
    /// The asset the maker deposited into the vault.
    pub mint_a: Pubkey,
    /// The asset the maker demands in exchange.
    pub mint_b: Pubkey,
    /// How much of asset B the maker demands.
    pub receive: u64,
    /// Verification value proving the record's address derivation is canonical.
    pub bump: u8,
}

/// The pool configuration record: fixed at pool creation, never mutated by a swap.
#[derive(Clone, Copy, PartialEq, Eq, Structural, Debug)]
pub struct Config {
    /// Caller-chosen uniqueness value; part of the pool's derivation seeds.
    pub seed: u64,
    /// The pool's first asset.
    pub mint_x: Pubkey,
    /// The pool's second asset.
    pub mint_y: Pubkey,
    /// Swap fee in basis points, taken on the input leg.
    pub fee: u16,
    /// Circuit breaker: while true, swaps are disabled entirely.
    pub locked: bool,
    /// Verification value for the config address derivation.
    pub config_bump: u8,
    /// Verification value for the pool-share mint address derivation.
    pub lp_bump: u8,
}

} // verus!
