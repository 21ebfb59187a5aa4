//! Two on-ledger value-custody primitives for a deterministic, account-based
//! execution environment: a peer-to-peer atomic swap escrow and a
//! constant-product automated market maker pool.
//!
//! Both primitives hold user assets in custody accounts that are owned by a
//! derived authority — an address with no private key, computed
//! deterministically from seed inputs — so only the engines' own checked
//! logic can move funds out. Every operation is a single atomic state
//! transition: it either commits in full or leaves every account exactly as
//! it was.

use vstd::prelude::*;

pub mod authority;
pub mod curve;
pub mod errors;
pub mod escrow;
pub mod state;
pub mod swap;
pub mod token;

verus! {

/// A bootstrap operation that declares no accounts and has no effect.
pub struct Initialize {}

} // verus!
