//! The pool engine's swap: trade one pool asset for the other through the
//! constant-product curve with an input-leg fee.
//!
//! The pool's two vaults are owned by the configuration record's derived
//! authority; the deposit leg is signed by the user, the withdraw leg is
//! signed as that authority by presenting the pool's seed and bump. All
//! checks — circuit breaker, amount, curve, slippage floor, funds and
//! representability of both legs — run before the first leg is issued, so a
//! failing swap leaves every account exactly as it was. A swap reads the
//! pool-share supply and the configuration but never mutates them.

use vstd::prelude::*;

use crate::authority::TAG_CONFIG;
use crate::authority::TAG_LP;
use crate::authority::candidate;
use crate::authority::has_private_key;
use crate::authority::is_authority_for;
use crate::authority::verify_authority;
use crate::curve::curve_output;
use crate::curve::lemma_curve_output_bounds;
use crate::curve::lemma_product_not_decreased;
use crate::errors::AmmError;
use crate::state::Config;
use crate::state::Mint;
use crate::state::Pubkey;
use crate::state::TokenAccount;
use crate::token::Authorization;
use crate::token::transfer;
use vstd::arithmetic::mul::lemma_mul_is_commutative;

verus! {

/// The accounts a `swap` operation declares.
#[derive(Clone, Copy)]
pub struct Swap {
    /// The trading party; signs the deposit leg.
    pub user: Pubkey,
    /// The pool's first asset.
    pub mint_x: Mint,
    /// The pool's second asset.
    pub mint_y: Mint,
    /// The pool configuration record; read, never mutated, by a swap.
    pub config: Config,
    /// The pool-share mint; its supply is read, never mutated, by a swap.
    pub mint_lp: Mint,
    /// The pool's custody vault for asset X.
    pub vault_x: TokenAccount,
    /// The pool's custody vault for asset Y.
    pub vault_y: TokenAccount,
    /// The user's asset-X account.
    pub user_x: TokenAccount,
    /// The user's asset-Y account.
    pub user_y: TokenAccount,
    /// The user's pool-share account; declared, untouched by a swap.
    pub user_lp: TokenAccount,
}

/// The pool's derived authority: the keyless address the configuration
/// record's seed and bump re-derive. It owns both vaults.
pub open spec fn pool_authority(s: Swap) -> Pubkey {
    Pubkey { id: candidate(TAG_CONFIG, 0, s.config.seed, s.config.config_bump) }
}

/// Every declared account stands in the relationship the configuration
/// demands: the stored asset identities match the presented mints, both
/// vaults are owned by exactly the derived pool authority, the pool-share
/// mint sits at its derived address, and the user's accounts carry the
/// right assets and owner.
pub open spec fn swap_accounts_ok(s: Swap) -> bool {
    &&& s.config.mint_x == s.mint_x.address
    &&& s.config.mint_y == s.mint_y.address
    &&& !has_private_key(pool_authority(s))
    &&& s.vault_x.owner == pool_authority(s)
    &&& s.vault_x.mint == s.mint_x.address
    &&& s.vault_y.owner == pool_authority(s)
    &&& s.vault_y.mint == s.mint_y.address
    &&& is_authority_for(s.mint_lp.address, TAG_LP, pool_authority(s).id, 0, s.config.lp_bump)
    &&& s.user_x.mint == s.mint_x.address
    &&& s.user_x.owner == s.user
    &&& s.user_y.mint == s.mint_y.address
    &&& s.user_y.owner == s.user
    &&& s.user_lp.mint == s.mint_lp.address
    &&& s.user_lp.owner == s.user
}

/// The pool's vault on side X or side Y.
pub open spec fn vault_account(s: Swap, on_x: bool) -> TokenAccount {
    if on_x {
        s.vault_x
    } else {
        s.vault_y
    }
}

/// The user's account on side X or side Y.
pub open spec fn user_account(s: Swap, on_x: bool) -> TokenAccount {
    if on_x {
        s.user_x
    } else {
        s.user_y
    }
}

/// The asset identity on side X or side Y.
pub open spec fn side_mint(s: Swap, on_x: bool) -> Pubkey {
    if on_x {
        s.mint_x.address
    } else {
        s.mint_y.address
    }
}

/// The reserve on the side being paid in.
pub open spec fn reserve_in(s: Swap, is_x: bool) -> u64 {
    vault_account(s, is_x).amount
}

/// The reserve on the side being paid out.
pub open spec fn reserve_out(s: Swap, is_x: bool) -> u64 {
    vault_account(s, !is_x).amount
}

/// The curve-computed output for this swap.
pub open spec fn swap_out_amount(s: Swap, is_x: bool, amount_in: u64) -> int {
    curve_output(
        reserve_in(s, is_x) as int,
        reserve_out(s, is_x) as int,
        amount_in as int,
        s.config.fee as int,
    )
}

/// The curve can be evaluated: both reserves are non-empty and the fee does
/// not exceed the whole basis-point scale.
pub open spec fn swap_curve_ok(s: Swap, is_x: bool) -> bool {
    reserve_in(s, is_x) >= 1 && reserve_out(s, is_x) >= 1 && s.config.fee <= 10000
}

/// The curve-computed output clears the caller's floor and is not zero.
pub open spec fn swap_slippage_ok(s: Swap, is_x: bool, amount_in: u64, min_amount_out: u64) -> bool {
    swap_out_amount(s, is_x, amount_in) >= 1 && swap_out_amount(s, is_x, amount_in)
        >= min_amount_out
}

/// The user can fund the deposit leg.
pub open spec fn swap_funded(s: Swap, is_x: bool, amount_in: u64) -> bool {
    user_account(s, is_x).amount >= amount_in
}

/// Both receiving balances stay representable.
pub open spec fn swap_fits(s: Swap, is_x: bool, amount_in: u64) -> bool {
    &&& reserve_in(s, is_x) + amount_in <= u64::MAX
    &&& user_account(s, !is_x).amount + swap_out_amount(s, is_x, amount_in) <= u64::MAX
}

/// Exactly when `swap` commits.
pub open spec fn swap_succeeds(s: Swap, is_x: bool, amount_in: u64, min_amount_out: u64) -> bool {
    &&& swap_accounts_ok(s)
    &&& !s.config.locked
    &&& amount_in >= 1
    &&& swap_curve_ok(s, is_x)
    &&& swap_slippage_ok(s, is_x, amount_in, min_amount_out)
    &&& swap_funded(s, is_x, amount_in)
    &&& swap_fits(s, is_x, amount_in)
}

/// The error a failing `swap` reports, by the first check that fails: the
/// declared relationships are validated first, then the circuit breaker,
/// the amount, the curve, the slippage floor, and finally the two legs'
/// funds and representability.
pub open spec fn swap_err(s: Swap, is_x: bool, amount_in: u64, min_amount_out: u64) -> AmmError {
    if !swap_accounts_ok(s) {
        AmmError::AccountMismatch
    } else if s.config.locked {
        AmmError::PoolLocked
    } else if amount_in == 0 {
        AmmError::InvalidAmount
    } else if !swap_curve_ok(s, is_x) {
        AmmError::CurveError
    } else if !swap_slippage_ok(s, is_x, amount_in, min_amount_out) {
        AmmError::SlippageExceeded
    } else if !swap_funded(s, is_x, amount_in) {
        AmmError::InsufficientFunds
    } else {
        AmmError::Overflow
    }
}

/// The accounts after a successful swap: the whole input amount joins the
/// incoming reserve, the curve-computed output leaves the outgoing reserve
/// for the user, and nothing else — in particular neither the configuration
/// nor the pool-share supply — changes.
pub open spec fn swap_post(s: Swap, is_x: bool, amount_in: u64) -> Swap {
    let out = swap_out_amount(s, is_x, amount_in);
    if is_x {
        Swap {
            vault_x: TokenAccount { amount: (s.vault_x.amount + amount_in) as u64, ..s.vault_x },
            user_x: TokenAccount { amount: (s.user_x.amount - amount_in) as u64, ..s.user_x },
            vault_y: TokenAccount { amount: (s.vault_y.amount - out) as u64, ..s.vault_y },
            user_y: TokenAccount { amount: (s.user_y.amount + out) as u64, ..s.user_y },
            ..s
        }
    } else {
        Swap {
            vault_y: TokenAccount { amount: (s.vault_y.amount + amount_in) as u64, ..s.vault_y },
            user_y: TokenAccount { amount: (s.user_y.amount - amount_in) as u64, ..s.user_y },
            vault_x: TokenAccount { amount: (s.vault_x.amount - out) as u64, ..s.vault_x },
            user_x: TokenAccount { amount: (s.user_x.amount + out) as u64, ..s.user_x },
            ..s
        }
    }
}

/// The conditions of the deposit leg alone: the user's paying account and
/// the receiving vault carry the declared asset, the user owns and can fund
/// the payment, and the vault balance stays representable.
pub open spec fn deposit_tokens_ok(s: Swap, is_x: bool, amount: u64) -> bool {
    let from = user_account(s, is_x);
    let to = vault_account(s, is_x);
    let m = side_mint(s, is_x);
    &&& from.mint == m
    &&& from.owner == s.user
    &&& to.mint == m
    &&& from.amount >= amount
    &&& to.amount + amount <= u64::MAX
}

/// The error a failing deposit leg reports.
pub open spec fn deposit_tokens_err(s: Swap, is_x: bool, amount: u64) -> AmmError {
    let from = user_account(s, is_x);
    let to = vault_account(s, is_x);
    let m = side_mint(s, is_x);
    if !(from.mint == m && from.owner == s.user && to.mint == m) {
        AmmError::AccountMismatch
    } else if from.amount < amount {
        AmmError::InsufficientFunds
    } else {
        AmmError::Overflow
    }
}

/// The accounts after the deposit leg: `amount` has moved from the user's
/// account into the vault on side `is_x`.
pub open spec fn deposit_tokens_post(s: Swap, is_x: bool, amount: u64) -> Swap {
    if is_x {
        Swap {
            vault_x: TokenAccount { amount: (s.vault_x.amount + amount) as u64, ..s.vault_x },
            user_x: TokenAccount { amount: (s.user_x.amount - amount) as u64, ..s.user_x },
            ..s
        }
    } else {
        Swap {
            vault_y: TokenAccount { amount: (s.vault_y.amount + amount) as u64, ..s.vault_y },
            user_y: TokenAccount { amount: (s.user_y.amount - amount) as u64, ..s.user_y },
            ..s
        }
    }
}

/// The conditions of the withdraw leg alone: the paying vault on side
/// `is_x` is owned by exactly the derived pool authority, both accounts
/// carry the declared asset, the vault can fund the payment, and the user's
/// balance stays representable.
pub open spec fn withdraw_tokens_ok(s: Swap, is_x: bool, amount: u64) -> bool {
    let from = vault_account(s, is_x);
    let to = user_account(s, is_x);
    let m = side_mint(s, is_x);
    &&& is_authority_for(from.owner, TAG_CONFIG, 0, s.config.seed, s.config.config_bump)
    &&& from.mint == m
    &&& to.mint == m
    &&& to.owner == s.user
    &&& from.amount >= amount
    &&& to.amount + amount <= u64::MAX
}

/// The error a failing withdraw leg reports.
pub open spec fn withdraw_tokens_err(s: Swap, is_x: bool, amount: u64) -> AmmError {
    let from = vault_account(s, is_x);
    let to = user_account(s, is_x);
    let m = side_mint(s, is_x);
    if !(is_authority_for(from.owner, TAG_CONFIG, 0, s.config.seed, s.config.config_bump)
        && from.mint == m && to.mint == m && to.owner == s.user) {
        AmmError::AccountMismatch
    } else if from.amount < amount {
        AmmError::InsufficientFunds
    } else {
        AmmError::Overflow
    }
}

/// The accounts after the withdraw leg: `amount` has moved from the vault
/// on side `is_x` to the user's account on that side.
pub open spec fn withdraw_tokens_post(s: Swap, is_x: bool, amount: u64) -> Swap {
    if is_x {
        Swap {
            vault_x: TokenAccount { amount: (s.vault_x.amount - amount) as u64, ..s.vault_x },
            user_x: TokenAccount { amount: (s.user_x.amount + amount) as u64, ..s.user_x },
            ..s
        }
    } else {
        Swap {
            vault_y: TokenAccount { amount: (s.vault_y.amount - amount) as u64, ..s.vault_y },
            user_y: TokenAccount { amount: (s.user_y.amount + amount) as u64, ..s.user_y },
            ..s
        }
    }
}

impl Swap {
    /// The deposit leg: moves `amount` of the side-`is_x` asset from the
    /// user into that side's vault, signed by the user. Checks its own
    /// conditions and moves nothing on failure.
    pub fn deposit_tokens(&mut self, is_x: bool, amount: u64) -> (r: Result<(), AmmError>)
        ensures
            r is Ok <==> deposit_tokens_ok(*old(self), is_x, amount),
            deposit_tokens_ok(*old(self), is_x, amount) ==> *final(self) == deposit_tokens_post(
                *old(self),
                is_x,
                amount,
            ),
            !deposit_tokens_ok(*old(self), is_x, amount) ==> *final(self) == *old(self) && r
                == Err::<(), AmmError>(deposit_tokens_err(*old(self), is_x, amount)),
    {
        let m = if is_x {
            self.mint_x.address
        } else {
            self.mint_y.address
        };
        let from_mint = if is_x {
            self.user_x.mint
        } else {
            self.user_y.mint
        };
        let from_owner = if is_x {
            self.user_x.owner
        } else {
            self.user_y.owner
        };
        let from_amount = if is_x {
            self.user_x.amount
        } else {
            self.user_y.amount
        };
        let to_mint = if is_x {
            self.vault_x.mint
        } else {
            self.vault_y.mint
        };
        let to_amount = if is_x {
            self.vault_x.amount
        } else {
            self.vault_y.amount
        };
        if !(from_mint == m && from_owner == self.user && to_mint == m) {
            return Err(AmmError::AccountMismatch);
        }
        if from_amount < amount {
            return Err(AmmError::InsufficientFunds);
        }
        if amount > u64::MAX - to_amount {
            return Err(AmmError::Overflow);
        }
        if is_x {
            transfer(&mut self.user_x, &mut self.vault_x, amount, Authorization::Signer(self.user));
        } else {
            transfer(&mut self.user_y, &mut self.vault_y, amount, Authorization::Signer(self.user));
        }
        Ok(())
    }

    /// The withdraw leg: moves `amount` of the side-`is_x` asset from that
    /// side's vault to the user, signed as the pool's derived authority by
    /// presenting the configuration's seed and bump. Checks its own
    /// conditions and moves nothing on failure.
    pub fn withdraw_tokens(&mut self, is_x: bool, amount: u64) -> (r: Result<(), AmmError>)
        ensures
            r is Ok <==> withdraw_tokens_ok(*old(self), is_x, amount),
            withdraw_tokens_ok(*old(self), is_x, amount) ==> *final(self) == withdraw_tokens_post(
                *old(self),
                is_x,
                amount,
            ),
            !withdraw_tokens_ok(*old(self), is_x, amount) ==> *final(self) == *old(self) && r
                == Err::<(), AmmError>(withdraw_tokens_err(*old(self), is_x, amount)),
    {
        let m = if is_x {
            self.mint_x.address
        } else {
            self.mint_y.address
        };
        let from_mint = if is_x {
            self.vault_x.mint
        } else {
            self.vault_y.mint
        };
        let from_owner = if is_x {
            self.vault_x.owner
        } else {
            self.vault_y.owner
        };
        let from_amount = if is_x {
            self.vault_x.amount
        } else {
            self.vault_y.amount
        };
        let to_mint = if is_x {
            self.user_x.mint
        } else {
            self.user_y.mint
        };
        let to_owner = if is_x {
            self.user_x.owner
        } else {
            self.user_y.owner
        };
        let to_amount = if is_x {
            self.user_x.amount
        } else {
            self.user_y.amount
        };
        if !(verify_authority(from_owner, TAG_CONFIG, 0, self.config.seed, self.config.config_bump)
            && from_mint == m && to_mint == m && to_owner == self.user) {
            return Err(AmmError::AccountMismatch);
        }
        if from_amount < amount {
            return Err(AmmError::InsufficientFunds);
        }
        if amount > u64::MAX - to_amount {
            return Err(AmmError::Overflow);
        }
        let auth = Authorization::Derived {
            tag: TAG_CONFIG,
            base: 0,
            seed: self.config.seed,
            bump: self.config.config_bump,
        };
        if is_x {
            transfer(&mut self.vault_x, &mut self.user_x, amount, auth);
        } else {
            transfer(&mut self.vault_y, &mut self.user_y, amount, auth);
        }
        Ok(())
    }

    /// Swaps `amount_in` of the side-`is_x` asset for the curve-computed
    /// amount of the other asset, as one atomic unit: deposit leg signed by
    /// the user, withdraw leg signed as the pool's derived authority. Every
    /// condition of both legs is validated before the first leg is issued,
    /// so a failing swap leaves every account exactly as it was.
    pub fn swap(&mut self, is_x: bool, amount_in: u64, min_amount_out: u64) -> (r: Result<
        (),
        AmmError,
    >)
        ensures
            r is Ok <==> swap_succeeds(*old(self), is_x, amount_in, min_amount_out),
            swap_succeeds(*old(self), is_x, amount_in, min_amount_out) ==> *final(self)
                == swap_post(*old(self), is_x, amount_in),
            !swap_succeeds(*old(self), is_x, amount_in, min_amount_out) ==> *final(self) == *old(
                self,
            ) && r == Err::<(), AmmError>(swap_err(*old(self), is_x, amount_in, min_amount_out)),
    {
        let cfg = crate::authority::candidate_address(
            TAG_CONFIG,
            0,
            self.config.seed,
            self.config.config_bump,
        );
        if !(self.config.mint_x == self.mint_x.address && self.config.mint_y
            == self.mint_y.address && cfg % 2 == 1 && self.vault_x.owner.id == cfg
            && self.vault_x.mint == self.mint_x.address && self.vault_y.owner.id == cfg
            && self.vault_y.mint == self.mint_y.address && verify_authority(
            self.mint_lp.address,
            TAG_LP,
            cfg,
            0,
            self.config.lp_bump,
        ) && self.user_x.mint == self.mint_x.address && self.user_x.owner == self.user
            && self.user_y.mint == self.mint_y.address && self.user_y.owner == self.user
            && self.user_lp.mint == self.mint_lp.address && self.user_lp.owner == self.user) {
            return Err(AmmError::AccountMismatch);
        }
        if self.config.locked {
            return Err(AmmError::PoolLocked);
        }
        if amount_in == 0 {
            return Err(AmmError::InvalidAmount);
        }
        let r_in = if is_x {
            self.vault_x.amount
        } else {
            self.vault_y.amount
        };
        let r_out = if is_x {
            self.vault_y.amount
        } else {
            self.vault_x.amount
        };
        let out = match crate::curve::swap_output(r_in, r_out, amount_in, self.config.fee) {
            Ok(out) => out,
            Err(_) => { return Err(AmmError::CurveError) },
        };
        if out == 0 || out < min_amount_out {
            return Err(AmmError::SlippageExceeded);
        }
        let user_in_amount = if is_x {
            self.user_x.amount
        } else {
            self.user_y.amount
        };
        if user_in_amount < amount_in {
            return Err(AmmError::InsufficientFunds);
        }
        let user_out_amount = if is_x {
            self.user_y.amount
        } else {
            self.user_x.amount
        };
        if amount_in > u64::MAX - r_in || out > u64::MAX - user_out_amount {
            return Err(AmmError::Overflow);
        }
        let r1 = self.deposit_tokens(is_x, amount_in);
        if r1.is_err() {
            return r1;
        }
        self.withdraw_tokens(!is_x, out)
    }
}

// ---------------------------------------------------------------------------
// Laws
// ---------------------------------------------------------------------------

/// Law: a successful swap never decreases the product of the two reserves,
/// and strictly increases it whenever the fee is positive — the
/// constant-product invariant.
pub proof fn law_swap_product_not_decreased(s: Swap, is_x: bool, amount_in: u64, min_amount_out: u64)
    requires
        swap_succeeds(s, is_x, amount_in, min_amount_out),
    ensures
        swap_post(s, is_x, amount_in).vault_x.amount * swap_post(s, is_x, amount_in).vault_y.amount
            >= s.vault_x.amount * s.vault_y.amount,
        s.config.fee >= 1 ==> swap_post(s, is_x, amount_in).vault_x.amount * swap_post(
            s,
            is_x,
            amount_in,
        ).vault_y.amount > s.vault_x.amount * s.vault_y.amount,
{
    let ri = reserve_in(s, is_x) as int;
    let ro = reserve_out(s, is_x) as int;
    lemma_curve_output_bounds(ri, ro, amount_in as int, s.config.fee as int);
    lemma_product_not_decreased(ri, ro, amount_in as int, s.config.fee as int);
    let post = swap_post(s, is_x, amount_in);
    lemma_mul_is_commutative(post.vault_x.amount as int, post.vault_y.amount as int);
    lemma_mul_is_commutative(s.vault_x.amount as int, s.vault_y.amount as int);
}

/// Law: whenever the caller's floor lies above the curve-computed output —
/// the true computable output of the pool — the swap is refused with the
/// slippage error, whatever the balances involved.
pub proof fn law_swap_slippage_floor(s: Swap, is_x: bool, amount_in: u64, min_amount_out: u64)
    requires
        swap_accounts_ok(s),
        !s.config.locked,
        amount_in >= 1,
        swap_curve_ok(s, is_x),
        min_amount_out > swap_out_amount(s, is_x, amount_in),
    ensures
        !swap_succeeds(s, is_x, amount_in, min_amount_out),
        swap_err(s, is_x, amount_in, min_amount_out) == AmmError::SlippageExceeded,
{
}

/// Law: while the circuit breaker is engaged no swap ever commits,
/// regardless of every other parameter; with validated accounts the error
/// is precisely the locked-pool error.
pub proof fn law_swap_locked_rejected(s: Swap, is_x: bool, amount_in: u64, min_amount_out: u64)
    requires
        s.config.locked,
    ensures
        !swap_succeeds(s, is_x, amount_in, min_amount_out),
        swap_accounts_ok(s) ==> swap_err(s, is_x, amount_in, min_amount_out)
            == AmmError::PoolLocked,
{
}

/// Law: a swap never mutates the pool configuration, the pool-share mint or
/// the user's pool-share account, and never changes the fee.
pub proof fn law_swap_keeps_config(s: Swap, is_x: bool, amount_in: u64)
    ensures
        swap_post(s, is_x, amount_in).config == s.config,
        swap_post(s, is_x, amount_in).mint_lp == s.mint_lp,
        swap_post(s, is_x, amount_in).user_lp == s.user_lp,
{
}

} // verus!