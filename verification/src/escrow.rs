//! The escrow engine: a peer-to-peer atomic swap.
//!
//! `make` creates an escrow record together with a custody vault owned by the
//! record's derived authority and funds the vault with the maker's deposit of
//! asset A. Exactly one of `take` / `refund` then resolves it: `take` pays the
//! maker `receive` of asset B and hands the whole vault to the taker;
//! `refund` hands the whole vault back to the maker. Either resolution closes
//! the record and the vault, so the losing second attempt finds no record and
//! fails — that, not a lock, is what prevents double resolution.
//!
//! Every operation validates all account relationships and balances before it
//! issues any transfer leg, so a failed operation leaves every account
//! exactly as it was.

use vstd::prelude::*;

use crate::authority::TAG_ESCROW;
use crate::authority::candidate;
use crate::authority::derive_authority;
use crate::authority::has_private_key;
use crate::authority::is_authority_for;
use crate::authority::verify_authority;
use crate::errors::EscrowError;
use crate::state::Escrow;
use crate::state::Mint;
use crate::state::Pubkey;
use crate::state::TokenAccount;
use crate::token::Authorization;
use crate::token::transfer;

verus! {

/// The accounts a `make` operation declares.
#[derive(Clone, Copy)]
pub struct Make {
    /// The offering party; signs the operation.
    pub maker: Pubkey,
    /// The asset the maker deposits.
    pub mint_a: Mint,
    /// The asset the maker demands.
    pub mint_b: Mint,
    /// The maker's asset-A account, the source of the deposit.
    pub maker_ata_a: TokenAccount,
    /// The record slot at the derived escrow address; must be vacant.
    pub escrow: Option<Escrow>,
    /// The vault slot at the derived vault address; must be vacant.
    pub vault: Option<TokenAccount>,
}

/// The accounts a `take` operation declares.
#[derive(Clone, Copy)]
pub struct Take {
    /// The party recorded as the escrow's maker.
    pub maker: Pubkey,
    /// The fulfilling party; signs the operation.
    pub taker: Pubkey,
    /// The deposited asset.
    pub mint_a: Mint,
    /// The demanded asset.
    pub mint_b: Mint,
    /// The taker's asset-A account, which receives the vault's balance.
    pub taker_ata_a: TokenAccount,
    /// The taker's asset-B account, the source of the payment to the maker.
    pub taker_ata_b: TokenAccount,
    /// The maker's asset-B account, which receives the payment.
    pub maker_ata_b: TokenAccount,
    /// The escrow record being resolved, if it still exists.
    pub escrow: Option<Escrow>,
    /// The escrow's custody vault, if it still exists.
    pub vault: Option<TokenAccount>,
}

/// The accounts a `refund` operation declares.
#[derive(Clone, Copy)]
pub struct Refund {
    /// The caller claiming the refund; signs the operation. Only the stored
    /// maker may resolve an escrow this way.
    pub maker: Pubkey,
    /// The deposited asset.
    pub mint_a: Mint,
    /// The maker's asset-A account, which receives the vault's balance back.
    pub maker_ata_a: TokenAccount,
    /// The escrow record being resolved, if it still exists.
    pub escrow: Option<Escrow>,
    /// The escrow's custody vault, if it still exists.
    pub vault: Option<TokenAccount>,
}

// ---------------------------------------------------------------------------
// make
// ---------------------------------------------------------------------------

/// No record or vault sits at the derived addresses yet.
pub open spec fn make_vacant(m: Make) -> bool {
    m.escrow is None && m.vault is None
}

/// The maker's funding account stands in the declared relationships.
pub open spec fn make_accounts_ok(m: Make) -> bool {
    m.maker_ata_a.mint == m.mint_a.address && m.maker_ata_a.owner == m.maker
}

/// Both amounts are positive: something to custody, something owed back.
pub open spec fn make_amounts_ok(deposit: u64, receive: u64) -> bool {
    deposit >= 1 && receive >= 1
}

/// The maker can fund the deposit leg.
pub open spec fn make_funded(m: Make, deposit: u64) -> bool {
    m.maker_ata_a.amount >= deposit
}

/// Exactly when `make` commits.
pub open spec fn make_succeeds(m: Make, deposit: u64, receive: u64) -> bool {
    make_vacant(m) && make_accounts_ok(m) && make_amounts_ok(deposit, receive) && make_funded(
        m,
        deposit,
    )
}

/// The error a failing `make` reports, by the first check that fails.
pub open spec fn make_err(m: Make, deposit: u64, receive: u64) -> EscrowError {
    if !make_vacant(m) {
        EscrowError::AlreadyExists
    } else if !make_accounts_ok(m) {
        EscrowError::AccountMismatch
    } else if !make_amounts_ok(deposit, receive) {
        EscrowError::InvalidAmount
    } else {
        EscrowError::InsufficientFunds
    }
}

/// Creates the escrow record and its vault and funds the vault with exactly
/// `deposit` of asset A, all as one atomic unit. The record stores the seed,
/// the maker, both asset identities and the demanded amount verbatim, plus
/// the canonical bump of its derivation; the vault is owned by the derived
/// authority, never by a wallet key. On any failure no record is created and
/// no balance moves.
pub fn make(m: &mut Make, seed: u64, deposit: u64, receive: u64) -> (r: Result<(), EscrowError>)
    ensures
        r is Ok <==> make_succeeds(*old(m), deposit, receive),
        !make_succeeds(*old(m), deposit, receive) ==> *final(m) == *old(m) && r == Err::<
            (),
            EscrowError,
        >(make_err(*old(m), deposit, receive)),
        make_succeeds(*old(m), deposit, receive) ==> {
            let e = final(m).escrow.unwrap();
            let v = final(m).vault.unwrap();
            &&& final(m).escrow is Some
            &&& final(m).vault is Some
            &&& e.seed == seed
            &&& e.maker == old(m).maker
            &&& e.mint_a == old(m).mint_a.address
            &&& e.mint_b == old(m).mint_b.address
            &&& e.receive == receive
            &&& is_authority_for(v.owner, TAG_ESCROW, old(m).maker.id, seed, e.bump)
            &&& (forall|b: u8|
                b < e.bump ==> has_private_key(
                    Pubkey { id: candidate(TAG_ESCROW, old(m).maker.id, seed, b) },
                ))
            &&& v.mint == old(m).mint_a.address
            &&& v.amount == deposit
            &&& final(m).maker_ata_a == (TokenAccount {
                amount: (old(m).maker_ata_a.amount - deposit) as u64,
                ..old(m).maker_ata_a
            })
            &&& final(m).maker == old(m).maker
            &&& final(m).mint_a == old(m).mint_a
            &&& final(m).mint_b == old(m).mint_b
        },
{
    if m.escrow.is_some() || m.vault.is_some() {
        return Err(EscrowError::AlreadyExists);
    }
    if !(m.maker_ata_a.mint == m.mint_a.address && m.maker_ata_a.owner == m.maker) {
        return Err(EscrowError::AccountMismatch);
    }
    if deposit == 0 || receive == 0 {
        return Err(EscrowError::InvalidAmount);
    }
    if m.maker_ata_a.amount < deposit {
        return Err(EscrowError::InsufficientFunds);
    }
    let (vault_authority, bump) = derive_authority(TAG_ESCROW, m.maker.id, seed);
    let mut vault = TokenAccount { mint: m.mint_a.address, owner: vault_authority, amount: 0 };
    transfer(&mut m.maker_ata_a, &mut vault, deposit, Authorization::Signer(m.maker));
    m.vault = Some(vault);
    m.escrow = Some(
        Escrow {
            seed,
            maker: m.maker,
            mint_a: m.mint_a.address,
            mint_b: m.mint_b.address,
            receive,
            bump,
        },
    );
    Ok(())
}

// ---------------------------------------------------------------------------
// take
// ---------------------------------------------------------------------------

/// The record and its vault still exist; a resolved escrow cannot be
/// re-targeted.
pub open spec fn take_ready(t: Take) -> bool {
    t.escrow is Some && t.vault is Some
}

/// Every declared account stands in the relationship the record demands:
/// the stored maker and asset identities match the presented accounts, the
/// vault is owned by exactly the authority the record's seed and bump
/// re-derive, and each party's token accounts carry the right asset and
/// owner.
pub open spec fn take_accounts_ok(t: Take) -> bool {
    let e = t.escrow.unwrap();
    let v = t.vault.unwrap();
    &&& e.maker == t.maker
    &&& e.mint_a == t.mint_a.address
    &&& e.mint_b == t.mint_b.address
    &&& is_authority_for(v.owner, TAG_ESCROW, t.maker.id, e.seed, e.bump)
    &&& v.mint == t.mint_a.address
    &&& t.taker_ata_a.mint == t.mint_a.address
    &&& t.taker_ata_a.owner == t.taker
    &&& t.taker_ata_b.mint == t.mint_b.address
    &&& t.taker_ata_b.owner == t.taker
    &&& t.maker_ata_b.mint == t.mint_b.address
    &&& t.maker_ata_b.owner == t.maker
}

/// The taker holds at least the demanded amount of asset B.
pub open spec fn take_funded(t: Take) -> bool {
    t.taker_ata_b.amount >= t.escrow.unwrap().receive
}

/// Both receiving balances stay representable.
pub open spec fn take_fits(t: Take) -> bool {
    &&& t.maker_ata_b.amount + t.escrow.unwrap().receive <= u64::MAX
    &&& t.taker_ata_a.amount + t.vault.unwrap().amount <= u64::MAX
}

/// Exactly when `take` commits.
pub open spec fn take_succeeds(t: Take) -> bool {
    take_ready(t) && take_accounts_ok(t) && take_funded(t) && take_fits(t)
}

/// The error a failing `take` reports, by the first check that fails.
pub open spec fn take_err(t: Take) -> EscrowError {
    if !take_ready(t) {
        EscrowError::EscrowNotFound
    } else if !take_accounts_ok(t) {
        EscrowError::AccountMismatch
    } else if !take_funded(t) {
        EscrowError::InsufficientFunds
    } else {
        EscrowError::Overflow
    }
}

/// The accounts after a successful `take`: the maker is paid `receive` of
/// asset B by the taker, the taker receives the vault's whole balance of
/// asset A, and the record and vault cease to exist.
pub open spec fn take_post(t: Take) -> Take {
    let e = t.escrow.unwrap();
    let v = t.vault.unwrap();
    Take {
        taker_ata_b: TokenAccount {
            amount: (t.taker_ata_b.amount - e.receive) as u64,
            ..t.taker_ata_b
        },
        maker_ata_b: TokenAccount {
            amount: (t.maker_ata_b.amount + e.receive) as u64,
            ..t.maker_ata_b
        },
        taker_ata_a: TokenAccount {
            amount: (t.taker_ata_a.amount + v.amount) as u64,
            ..t.taker_ata_a
        },
        escrow: None,
        vault: None,
        ..t
    }
}

/// The conditions of the payment leg alone: the record exists and the two
/// asset-B accounts can carry the payment the taker signs.
pub open spec fn deposit_ok(t: Take) -> bool {
    &&& t.escrow is Some
    &&& t.taker_ata_b.mint == t.mint_b.address
    &&& t.taker_ata_b.owner == t.taker
    &&& t.maker_ata_b.mint == t.mint_b.address
    &&& t.taker_ata_b.amount >= t.escrow.unwrap().receive
    &&& t.maker_ata_b.amount + t.escrow.unwrap().receive <= u64::MAX
}

/// The error a failing payment leg reports, by the first check that fails.
pub open spec fn deposit_err(t: Take) -> EscrowError {
    if !(t.escrow is Some) {
        EscrowError::EscrowNotFound
    } else if !(t.taker_ata_b.mint == t.mint_b.address && t.taker_ata_b.owner == t.taker
        && t.maker_ata_b.mint == t.mint_b.address) {
        EscrowError::AccountMismatch
    } else if !take_funded(t) {
        EscrowError::InsufficientFunds
    } else {
        EscrowError::Overflow
    }
}

/// The accounts after the payment leg: `receive` of asset B has moved from
/// the taker to the maker.
pub open spec fn deposit_post(t: Take) -> Take {
    let e = t.escrow.unwrap();
    Take {
        taker_ata_b: TokenAccount {
            amount: (t.taker_ata_b.amount - e.receive) as u64,
            ..t.taker_ata_b
        },
        maker_ata_b: TokenAccount {
            amount: (t.maker_ata_b.amount + e.receive) as u64,
            ..t.maker_ata_b
        },
        ..t
    }
}

/// The conditions of the withdraw-and-close leg alone: the record and vault
/// exist, the vault is owned by exactly the authority the record's seed and
/// bump re-derive, and the taker's asset-A account can receive the whole
/// balance.
pub open spec fn withdraw_ok(t: Take) -> bool {
    let e = t.escrow.unwrap();
    let v = t.vault.unwrap();
    &&& t.escrow is Some
    &&& t.vault is Some
    &&& e.maker == t.maker
    &&& is_authority_for(v.owner, TAG_ESCROW, t.maker.id, e.seed, e.bump)
    &&& v.mint == t.mint_a.address
    &&& t.taker_ata_a.mint == t.mint_a.address
    &&& t.taker_ata_a.owner == t.taker
    &&& t.taker_ata_a.amount + v.amount <= u64::MAX
}

/// The error a failing withdraw-and-close leg reports.
pub open spec fn withdraw_err(t: Take) -> EscrowError {
    if !(t.escrow is Some && t.vault is Some) {
        EscrowError::EscrowNotFound
    } else if !(t.escrow.unwrap().maker == t.maker && is_authority_for(
        t.vault.unwrap().owner,
        TAG_ESCROW,
        t.maker.id,
        t.escrow.unwrap().seed,
        t.escrow.unwrap().bump,
    ) && t.vault.unwrap().mint == t.mint_a.address && t.taker_ata_a.mint == t.mint_a.address
        && t.taker_ata_a.owner == t.taker) {
        EscrowError::AccountMismatch
    } else {
        EscrowError::Overflow
    }
}

/// The accounts after the withdraw-and-close leg: the vault's whole balance
/// has moved to the taker and the record and vault are closed.
pub open spec fn withdraw_post(t: Take) -> Take {
    let v = t.vault.unwrap();
    Take {
        taker_ata_a: TokenAccount {
            amount: (t.taker_ata_a.amount + v.amount) as u64,
            ..t.taker_ata_a
        },
        escrow: None,
        vault: None,
        ..t
    }
}

impl Take {
    /// The payment leg: transfers `receive` of asset B from the taker to the
    /// maker, signed by the taker. Checks its own conditions and moves
    /// nothing on failure.
    pub fn deposit(&mut self) -> (r: Result<(), EscrowError>)
        ensures
            r is Ok <==> deposit_ok(*old(self)),
            deposit_ok(*old(self)) ==> *final(self) == deposit_post(*old(self)),
            !deposit_ok(*old(self)) ==> *final(self) == *old(self) && r == Err::<
                (),
                EscrowError,
            >(deposit_err(*old(self))),
    {
        let e = match self.escrow {
            Some(e) => e,
            None => { return Err(EscrowError::EscrowNotFound) },
        };
        if !(self.taker_ata_b.mint == self.mint_b.address && self.taker_ata_b.owner == self.taker
            && self.maker_ata_b.mint == self.mint_b.address) {
            return Err(EscrowError::AccountMismatch);
        }
        if self.taker_ata_b.amount < e.receive {
            return Err(EscrowError::InsufficientFunds);
        }
        if e.receive > u64::MAX - self.maker_ata_b.amount {
            return Err(EscrowError::Overflow);
        }
        transfer(
            &mut self.taker_ata_b,
            &mut self.maker_ata_b,
            e.receive,
            Authorization::Signer(self.taker),
        );
        Ok(())
    }

    /// The custody leg: transfers the vault's whole asset-A balance to the
    /// taker, signed as the escrow's derived authority by presenting the
    /// record's seed tuple and bump, then closes the vault and the record.
    /// Checks its own conditions and moves nothing on failure.
    pub fn withdraw_and_close(&mut self) -> (r: Result<(), EscrowError>)
        ensures
            r is Ok <==> withdraw_ok(*old(self)),
            withdraw_ok(*old(self)) ==> *final(self) == withdraw_post(*old(self)),
            !withdraw_ok(*old(self)) ==> *final(self) == *old(self) && r == Err::<
                (),
                EscrowError,
            >(withdraw_err(*old(self))),
    {
        let e = match self.escrow {
            Some(e) => e,
            None => { return Err(EscrowError::EscrowNotFound) },
        };
        let mut v = match self.vault {
            Some(v) => v,
            None => { return Err(EscrowError::EscrowNotFound) },
        };
        if !(e.maker == self.maker && verify_authority(
            v.owner,
            TAG_ESCROW,
            self.maker.id,
            e.seed,
            e.bump,
        ) && v.mint == self.mint_a.address && self.taker_ata_a.mint == self.mint_a.address
            && self.taker_ata_a.owner == self.taker) {
            return Err(EscrowError::AccountMismatch);
        }
        if v.amount > u64::MAX - self.taker_ata_a.amount {
            return Err(EscrowError::Overflow);
        }
        let whole = v.amount;
        transfer(
            &mut v,
            &mut self.taker_ata_a,
            whole,
            Authorization::Derived {
                tag: TAG_ESCROW,
                base: self.maker.id,
                seed: e.seed,
                bump: e.bump,
            },
        );
        self.vault = None;
        self.escrow = None;
        Ok(())
    }
}

/// Resolves the escrow in the taker's favor, as one atomic unit: pays the
/// maker `receive` of asset B, hands the vault's whole asset-A balance to
/// the taker, and closes the vault and the record. Every condition of both
/// legs is validated before the first leg is issued, so a failing `take`
/// leaves every account exactly as it was.
pub fn take(t: &mut Take) -> (r: Result<(), EscrowError>)
    ensures
        r is Ok <==> take_succeeds(*old(t)),
        take_succeeds(*old(t)) ==> *final(t) == take_post(*old(t)),
        !take_succeeds(*old(t)) ==> *final(t) == *old(t) && r == Err::<(), EscrowError>(
            take_err(*old(t)),
        ),
{
    let e = match t.escrow {
        Some(e) => e,
        None => { return Err(EscrowError::EscrowNotFound) },
    };
    let v = match t.vault {
        Some(v) => v,
        None => { return Err(EscrowError::EscrowNotFound) },
    };
    if !(e.maker == t.maker && e.mint_a == t.mint_a.address && e.mint_b == t.mint_b.address
        && verify_authority(v.owner, TAG_ESCROW, t.maker.id, e.seed, e.bump)
        && v.mint == t.mint_a.address && t.taker_ata_a.mint == t.mint_a.address
        && t.taker_ata_a.owner == t.taker && t.taker_ata_b.mint == t.mint_b.address
        && t.taker_ata_b.owner == t.taker && t.maker_ata_b.mint == t.mint_b.address
        && t.maker_ata_b.owner == t.maker) {
        return Err(EscrowError::AccountMismatch);
    }
    if t.taker_ata_b.amount < e.receive {
        return Err(EscrowError::InsufficientFunds);
    }
    if e.receive > u64::MAX - t.maker_ata_b.amount || v.amount > u64::MAX - t.taker_ata_a.amount {
        return Err(EscrowError::Overflow);
    }
    t.deposit()?;
    t.withdraw_and_close()
}

// ---------------------------------------------------------------------------
// refund
// ---------------------------------------------------------------------------

/// The record and its vault still exist.
pub open spec fn refund_ready(rf: Refund) -> bool {
    rf.escrow is Some && rf.vault is Some
}

/// The caller is the escrow's stored maker; nobody else may refund.
pub open spec fn refund_authorized(rf: Refund) -> bool {
    rf.escrow.unwrap().maker == rf.maker
}

/// Every declared account stands in the relationship the record demands.
pub open spec fn refund_accounts_ok(rf: Refund) -> bool {
    let e = rf.escrow.unwrap();
    let v = rf.vault.unwrap();
    &&& e.mint_a == rf.mint_a.address
    &&& is_authority_for(v.owner, TAG_ESCROW, rf.maker.id, e.seed, e.bump)
    &&& v.mint == rf.mint_a.address
    &&& rf.maker_ata_a.mint == rf.mint_a.address
    &&& rf.maker_ata_a.owner == rf.maker
}

/// The maker's receiving balance stays representable.
pub open spec fn refund_fits(rf: Refund) -> bool {
    rf.maker_ata_a.amount + rf.vault.unwrap().amount <= u64::MAX
}

/// Exactly when `refund` commits.
pub open spec fn refund_succeeds(rf: Refund) -> bool {
    refund_ready(rf) && refund_authorized(rf) && refund_accounts_ok(rf) && refund_fits(rf)
}

/// The error a failing `refund` reports, by the first check that fails.
pub open spec fn refund_err(rf: Refund) -> EscrowError {
    if !refund_ready(rf) {
        EscrowError::EscrowNotFound
    } else if !refund_authorized(rf) {
        EscrowError::Unauthorized
    } else if !refund_accounts_ok(rf) {
        EscrowError::AccountMismatch
    } else {
        EscrowError::Overflow
    }
}

/// The accounts after a successful `refund`: the vault's whole balance is
/// back with the maker and the record and vault cease to exist.
pub open spec fn refund_post(rf: Refund) -> Refund {
    let v = rf.vault.unwrap();
    Refund {
        maker_ata_a: TokenAccount {
            amount: (rf.maker_ata_a.amount + v.amount) as u64,
            ..rf.maker_ata_a
        },
        escrow: None,
        vault: None,
        ..rf
    }
}

impl Refund {
    /// Returns the vault's whole asset-A balance to the maker, signed as the
    /// escrow's derived authority, then closes the vault and the record.
    /// Only the stored maker may call this; everything is validated before
    /// the transfer leg is issued, so a failing refund moves nothing.
    pub fn refund_and_close(&mut self) -> (r: Result<(), EscrowError>)
        ensures
            r is Ok <==> refund_succeeds(*old(self)),
            refund_succeeds(*old(self)) ==> *final(self) == refund_post(*old(self)),
            !refund_succeeds(*old(self)) ==> *final(self) == *old(self) && r == Err::<
                (),
                EscrowError,
            >(refund_err(*old(self))),
    {
        let e = match self.escrow {
            Some(e) => e,
            None => { return Err(EscrowError::EscrowNotFound) },
        };
        let mut v = match self.vault {
            Some(v) => v,
            None => { return Err(EscrowError::EscrowNotFound) },
        };
        if e.maker != self.maker {
            return Err(EscrowError::Unauthorized);
        }
        if !(e.mint_a == self.mint_a.address && verify_authority(
            v.owner,
            TAG_ESCROW,
            self.maker.id,
            e.seed,
            e.bump,
        ) && v.mint == self.mint_a.address && self.maker_ata_a.mint == self.mint_a.address
            && self.maker_ata_a.owner == self.maker) {
            return Err(EscrowError::AccountMismatch);
        }
        if v.amount > u64::MAX - self.maker_ata_a.amount {
            return Err(EscrowError::Overflow);
        }
        let whole = v.amount;
        transfer(
            &mut v,
            &mut self.maker_ata_a,
            whole,
            Authorization::Derived {
                tag: TAG_ESCROW,
                base: self.maker.id,
                seed: e.seed,
                bump: e.bump,
            },
        );
        self.vault = None;
        self.escrow = None;
        Ok(())
    }
}

/// Resolves the escrow in the maker's favor: the whole vault goes back to
/// the maker and the record and vault are closed.
pub fn refund(rf: &mut Refund) -> (r: Result<(), EscrowError>)
    ensures
        r is Ok <==> refund_succeeds(*old(rf)),
        refund_succeeds(*old(rf)) ==> *final(rf) == refund_post(*old(rf)),
        !refund_succeeds(*old(rf)) ==> *final(rf) == *old(rf) && r == Err::<(), EscrowError>(
            refund_err(*old(rf)),
        ),
{
    rf.refund_and_close()
}

// ---------------------------------------------------------------------------
// Laws
// ---------------------------------------------------------------------------

/// Law: a successful `take` removes the record and the vault, so any later
/// `take` or `refund` that targets the resolved escrow finds no record and
/// fails — at most one resolution ever commits.
pub proof fn law_take_resolves_once(t: Take, t2: Take, rf2: Refund)
    requires
        take_succeeds(t),
        t2.escrow == take_post(t).escrow,
        t2.vault == take_post(t).vault,
        rf2.escrow == take_post(t).escrow,
        rf2.vault == take_post(t).vault,
    ensures
        take_post(t).escrow is None,
        take_post(t).vault is None,
        !take_succeeds(t2),
        take_err(t2) == EscrowError::EscrowNotFound,
        !refund_succeeds(rf2),
        refund_err(rf2) == EscrowError::EscrowNotFound,
{
}

/// Law: a successful `refund` removes the record and the vault, so any later
/// `take` or `refund` that targets the resolved escrow finds no record and
/// fails — at most one resolution ever commits.
pub proof fn law_refund_resolves_once(rf: Refund, t2: Take, rf2: Refund)
    requires
        refund_succeeds(rf),
        t2.escrow == refund_post(rf).escrow,
        t2.vault == refund_post(rf).vault,
        rf2.escrow == refund_post(rf).escrow,
        rf2.vault == refund_post(rf).vault,
    ensures
        refund_post(rf).escrow is None,
        refund_post(rf).vault is None,
        !take_succeeds(t2),
        take_err(t2) == EscrowError::EscrowNotFound,
        !refund_succeeds(rf2),
        refund_err(rf2) == EscrowError::EscrowNotFound,
{
}

/// Law: with validated accounts and representable receiving balances,
/// `take` succeeds exactly when the taker holds at least `receive` of asset
/// B; on success the maker's asset-B balance grows by exactly `receive`,
/// the taker's asset-A balance grows by exactly the vault's prior balance,
/// and the record and vault cease to exist.
pub proof fn law_take_exchange(t: Take)
    requires
        take_ready(t),
        take_accounts_ok(t),
        take_fits(t),
    ensures
        take_succeeds(t) <==> t.taker_ata_b.amount >= t.escrow.unwrap().receive,
        take_succeeds(t) ==> take_post(t).maker_ata_b.amount == t.maker_ata_b.amount
            + t.escrow.unwrap().receive,
        take_succeeds(t) ==> take_post(t).taker_ata_a.amount == t.taker_ata_a.amount
            + t.vault.unwrap().amount,
        take_succeeds(t) ==> take_post(t).taker_ata_b.amount == t.taker_ata_b.amount
            - t.escrow.unwrap().receive,
        take_succeeds(t) ==> take_post(t).escrow is None && take_post(t).vault is None,
{
}

/// Law: a successful `refund` returns exactly the vault's full balance to
/// the maker and removes the record and the vault; a caller other than the
/// stored maker is always refused.
pub proof fn law_refund_full_return(rf: Refund)
    requires
        refund_ready(rf),
    ensures
        refund_succeeds(rf) ==> refund_post(rf).maker_ata_a.amount == rf.maker_ata_a.amount
            + rf.vault.unwrap().amount,
        refund_succeeds(rf) ==> refund_post(rf).escrow is None && refund_post(rf).vault is None,
        rf.maker != rf.escrow.unwrap().maker ==> !refund_succeeds(rf) && refund_err(rf)
            == EscrowError::Unauthorized,
{
}

} // verus!
