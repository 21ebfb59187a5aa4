use escrow_amm::authority::derive_authority;
use escrow_amm::authority::TAG_ESCROW;
use escrow_amm::errors::EscrowError;
use escrow_amm::escrow::make;
use escrow_amm::escrow::refund;
use escrow_amm::escrow::take;
use escrow_amm::escrow::Make;
use escrow_amm::escrow::Refund;
use escrow_amm::escrow::Take;
use escrow_amm::state::Mint;
use escrow_amm::state::Pubkey;
use escrow_amm::state::TokenAccount;

fn pk(id: u64) -> Pubkey {
    Pubkey { id }
}

fn asset(id: u64) -> Mint {
    Mint { address: pk(id), supply: 1_000_000, decimals: 6 }
}

fn account(mint: Pubkey, owner: Pubkey, amount: u64) -> TokenAccount {
    TokenAccount { mint, owner, amount }
}

fn fresh_make(maker_funds: u64) -> Make {
    let maker = pk(2);
    let mint_a = asset(100);
    let mint_b = asset(102);
    Make {
        maker,
        mint_a,
        mint_b,
        maker_ata_a: account(mint_a.address, maker, maker_funds),
        escrow: None,
        vault: None,
    }
}

/// Builds a taker-side view of the escrow that `make` produced.
fn take_of(m: &Make, taker: Pubkey, taker_a: u64, taker_b: u64, maker_b: u64) -> Take {
    Take {
        maker: m.maker,
        taker,
        mint_a: m.mint_a,
        mint_b: m.mint_b,
        taker_ata_a: account(m.mint_a.address, taker, taker_a),
        taker_ata_b: account(m.mint_b.address, taker, taker_b),
        maker_ata_b: account(m.mint_b.address, m.maker, maker_b),
        escrow: m.escrow,
        vault: m.vault,
    }
}

fn refund_of(m: &Make, caller: Pubkey, maker_a: u64) -> Refund {
    Refund {
        maker: caller,
        mint_a: m.mint_a,
        maker_ata_a: account(m.mint_a.address, caller, maker_a),
        escrow: m.escrow,
        vault: m.vault,
    }
}

#[test]
fn make_funds_vault_and_stores_record() {
    let mut m = fresh_make(1_000);
    assert_eq!(make(&mut m, 7, 250, 100), Ok(()));
    let e = m.escrow.expect("record created");
    let v = m.vault.expect("vault created");
    assert_eq!(e.seed, 7);
    assert_eq!(e.maker, pk(2));
    assert_eq!(e.mint_a, pk(100));
    assert_eq!(e.mint_b, pk(102));
    assert_eq!(e.receive, 100);
    assert_eq!(v.amount, 250);
    assert_eq!(v.mint, pk(100));
    assert_eq!(m.maker_ata_a.amount, 750);
    // the vault is owned by the canonical derived authority, not a wallet key
    let (authority, bump) = derive_authority(TAG_ESCROW, 2, 7);
    assert_eq!(v.owner, authority);
    assert_eq!(e.bump, bump);
    assert_eq!(authority.id % 2, 1);
}

#[test]
fn make_rejects_zero_deposit() {
    let mut m = fresh_make(1_000);
    assert_eq!(make(&mut m, 7, 0, 100), Err(EscrowError::InvalidAmount));
    assert!(m.escrow.is_none());
    assert_eq!(m.maker_ata_a.amount, 1_000);
}

#[test]
fn make_rejects_zero_receive() {
    let mut m = fresh_make(1_000);
    assert_eq!(make(&mut m, 7, 250, 0), Err(EscrowError::InvalidAmount));
    assert!(m.escrow.is_none());
}

#[test]
fn make_rejects_poor_maker() {
    let mut m = fresh_make(249);
    assert_eq!(make(&mut m, 7, 250, 100), Err(EscrowError::InsufficientFunds));
    assert!(m.escrow.is_none());
    assert_eq!(m.maker_ata_a.amount, 249);
}

#[test]
fn make_rejects_existing_record() {
    let mut m = fresh_make(1_000);
    assert_eq!(make(&mut m, 7, 250, 100), Ok(()));
    let before = m.maker_ata_a.amount;
    assert_eq!(make(&mut m, 7, 250, 100), Err(EscrowError::AlreadyExists));
    assert_eq!(m.maker_ata_a.amount, before);
}

#[test]
fn make_rejects_foreign_funding_account() {
    let mut m = fresh_make(1_000);
    m.maker_ata_a.owner = pk(4); // not the maker
    assert_eq!(make(&mut m, 7, 250, 100), Err(EscrowError::AccountMismatch));
    assert!(m.escrow.is_none());
}

#[test]
fn take_swaps_assets_and_closes_escrow() {
    // escrow make(seed = 1, deposit = 500, receive = 200), then take by a
    // taker holding exactly 200 of asset B and 0 of asset A
    let mut m = fresh_make(500);
    assert_eq!(make(&mut m, 1, 500, 200), Ok(()));
    let mut t = take_of(&m, pk(4), 0, 200, 1_000);
    assert_eq!(take(&mut t), Ok(()));
    assert_eq!(t.taker_ata_a.amount, 500);
    assert_eq!(t.taker_ata_b.amount, 0);
    assert_eq!(t.maker_ata_b.amount, 1_200);
    assert!(t.escrow.is_none());
    assert!(t.vault.is_none());
}

#[test]
fn take_rejects_poor_taker() {
    let mut m = fresh_make(500);
    assert_eq!(make(&mut m, 1, 500, 200), Ok(()));
    let mut t = take_of(&m, pk(4), 0, 199, 1_000);
    assert_eq!(take(&mut t), Err(EscrowError::InsufficientFunds));
    assert_eq!(t.taker_ata_b.amount, 199);
    assert_eq!(t.maker_ata_b.amount, 1_000);
    assert!(t.escrow.is_some());
    assert!(t.vault.is_some());
}

#[test]
fn take_rejects_wrong_asset_account() {
    let mut m = fresh_make(500);
    assert_eq!(make(&mut m, 1, 500, 200), Ok(()));
    let mut t = take_of(&m, pk(4), 0, 200, 1_000);
    t.taker_ata_b.mint = pk(100); // asset A where asset B is demanded
    assert_eq!(take(&mut t), Err(EscrowError::AccountMismatch));
    assert!(t.escrow.is_some());
}

#[test]
fn take_rejects_overflowing_maker_balance() {
    let mut m = fresh_make(500);
    assert_eq!(make(&mut m, 1, 500, 200), Ok(()));
    let mut t = take_of(&m, pk(4), 0, 200, u64::MAX - 199);
    assert_eq!(take(&mut t), Err(EscrowError::Overflow));
    assert_eq!(t.maker_ata_b.amount, u64::MAX - 199);
    assert!(t.escrow.is_some());
}

#[test]
fn second_resolution_fails_after_take() {
    let mut m = fresh_make(500);
    assert_eq!(make(&mut m, 1, 500, 200), Ok(()));
    let mut t = take_of(&m, pk(4), 0, 200, 1_000);
    assert_eq!(take(&mut t), Ok(()));

    // the record and vault no longer exist: a second take and a refund both
    // fail without touching any balance
    let mut t2 = take_of(&m, pk(6), 0, 400, 0);
    t2.escrow = t.escrow;
    t2.vault = t.vault;
    assert_eq!(take(&mut t2), Err(EscrowError::EscrowNotFound));
    assert_eq!(t2.taker_ata_b.amount, 400);

    let mut r2 = refund_of(&m, m.maker, 0);
    r2.escrow = t.escrow;
    r2.vault = t.vault;
    assert_eq!(refund(&mut r2), Err(EscrowError::EscrowNotFound));
    assert_eq!(r2.maker_ata_a.amount, 0);
}

#[test]
fn second_resolution_fails_after_refund() {
    let mut m = fresh_make(500);
    assert_eq!(make(&mut m, 1, 500, 200), Ok(()));
    let mut r = refund_of(&m, m.maker, 17);
    assert_eq!(refund(&mut r), Ok(()));
    assert_eq!(r.maker_ata_a.amount, 517);
    assert!(r.escrow.is_none());
    assert!(r.vault.is_none());

    let mut t2 = take_of(&m, pk(4), 0, 200, 1_000);
    t2.escrow = r.escrow;
    t2.vault = r.vault;
    assert_eq!(take(&mut t2), Err(EscrowError::EscrowNotFound));
    assert_eq!(t2.maker_ata_b.amount, 1_000);
}

#[test]
fn refund_returns_full_vault_to_maker() {
    let mut m = fresh_make(750);
    assert_eq!(make(&mut m, 9, 750, 300), Ok(()));
    assert_eq!(m.maker_ata_a.amount, 0);
    let mut r = refund_of(&m, m.maker, m.maker_ata_a.amount);
    assert_eq!(refund(&mut r), Ok(()));
    assert_eq!(r.maker_ata_a.amount, 750);
    assert!(r.escrow.is_none());
    assert!(r.vault.is_none());
}

#[test]
fn refund_rejects_stranger() {
    let mut m = fresh_make(500);
    assert_eq!(make(&mut m, 1, 500, 200), Ok(()));
    let stranger = pk(8);
    let mut r = refund_of(&m, stranger, 0);
    assert_eq!(refund(&mut r), Err(EscrowError::Unauthorized));
    assert_eq!(r.maker_ata_a.amount, 0);
    assert!(r.escrow.is_some());
}
