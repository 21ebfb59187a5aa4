use escrow_amm::authority::derive_authority;
use escrow_amm::authority::TAG_CONFIG;
use escrow_amm::authority::TAG_LP;
use escrow_amm::errors::AmmError;
use escrow_amm::state::Config;
use escrow_amm::state::Mint;
use escrow_amm::state::Pubkey;
use escrow_amm::state::TokenAccount;
use escrow_amm::swap::Swap;

fn pk(id: u64) -> Pubkey {
    Pubkey { id }
}

/// Builds a pool with the given reserves and fee, plus a user holding the
/// given balances, with every derived relationship in place.
fn pool(reserve_x: u64, reserve_y: u64, fee: u16, user_x: u64, user_y: u64) -> Swap {
    let seed = 11;
    let (authority, config_bump) = derive_authority(TAG_CONFIG, 0, seed);
    let (lp_address, lp_bump) = derive_authority(TAG_LP, authority.id, 0);
    let mint_x = Mint { address: pk(200), supply: 1_000_000, decimals: 6 };
    let mint_y = Mint { address: pk(202), supply: 1_000_000, decimals: 6 };
    let mint_lp = Mint { address: lp_address, supply: 5_000, decimals: 6 };
    let user = pk(14);
    Swap {
        user,
        mint_x,
        mint_y,
        config: Config {
            seed,
            mint_x: mint_x.address,
            mint_y: mint_y.address,
            fee,
            locked: false,
            config_bump,
            lp_bump,
        },
        mint_lp,
        vault_x: TokenAccount { mint: mint_x.address, owner: authority, amount: reserve_x },
        vault_y: TokenAccount { mint: mint_y.address, owner: authority, amount: reserve_y },
        user_x: TokenAccount { mint: mint_x.address, owner: user, amount: user_x },
        user_y: TokenAccount { mint: mint_y.address, owner: user, amount: user_y },
        user_lp: TokenAccount { mint: mint_lp.address, owner: user, amount: 0 },
    }
}

#[test]
fn swap_x_for_y_concrete() {
    // pool (1000, 1000), fee = 30 bps, swap 100 of X with no floor:
    // retained = 100 * 9970 / 10000 = 99, out = 1000 * 99 / 1099 = 90
    let mut s = pool(1_000, 1_000, 30, 500, 0);
    assert_eq!(s.swap(true, 100, 0), Ok(()));
    assert_eq!(s.vault_x.amount, 1_100);
    assert_eq!(s.vault_y.amount, 910);
    assert_eq!(s.user_x.amount, 400);
    assert_eq!(s.user_y.amount, 90);
    // the reserve product strictly grew
    assert!(1_100u128 * 910u128 > 1_000u128 * 1_000u128);
    // configuration and pool-share accounting untouched
    assert!(!s.config.locked);
    assert_eq!(s.config.fee, 30);
    assert_eq!(s.mint_lp.supply, 5_000);
    assert_eq!(s.user_lp.amount, 0);
}

#[test]
fn swap_y_for_x_concrete() {
    // mirrored direction, zero fee: out = 1000 * 100 / 1100 = 90
    let mut s = pool(1_000, 1_000, 0, 0, 500);
    assert_eq!(s.swap(false, 100, 0), Ok(()));
    assert_eq!(s.vault_y.amount, 1_100);
    assert_eq!(s.vault_x.amount, 910);
    assert_eq!(s.user_y.amount, 400);
    assert_eq!(s.user_x.amount, 90);
    // with zero fee the product may not decrease (rounding can still grow it)
    assert!(910u128 * 1_100u128 >= 1_000u128 * 1_000u128);
}

#[test]
fn swap_locked_pool_rejected_unchanged() {
    let mut s = pool(1_000, 1_000, 30, 500, 0);
    s.config.locked = true;
    assert_eq!(s.swap(true, 100, 0), Err(AmmError::PoolLocked));
    assert_eq!(s.vault_x.amount, 1_000);
    assert_eq!(s.vault_y.amount, 1_000);
    assert_eq!(s.user_x.amount, 500);
    assert_eq!(s.user_y.amount, 0);
}

#[test]
fn swap_zero_amount_rejected() {
    let mut s = pool(1_000, 1_000, 30, 500, 0);
    assert_eq!(s.swap(true, 0, 0), Err(AmmError::InvalidAmount));
    assert_eq!(s.vault_x.amount, 1_000);
}

#[test]
fn swap_empty_reserve_rejected() {
    let mut s = pool(1_000, 0, 30, 500, 0);
    assert_eq!(s.swap(true, 100, 0), Err(AmmError::CurveError));
    assert_eq!(s.vault_x.amount, 1_000);
}

#[test]
fn swap_fee_over_scale_rejected() {
    let mut s = pool(1_000, 1_000, 10_001, 500, 0);
    assert_eq!(s.swap(true, 100, 0), Err(AmmError::CurveError));
    assert_eq!(s.vault_x.amount, 1_000);
}

#[test]
fn swap_floor_above_output_rejected() {
    // the curve pays 90 here; every floor above 90 must be refused
    let mut s = pool(1_000, 1_000, 30, 500, 0);
    assert_eq!(s.swap(true, 100, 91), Err(AmmError::SlippageExceeded));
    assert_eq!(s.vault_x.amount, 1_000);
    assert_eq!(s.user_y.amount, 0);
}

#[test]
fn swap_zero_output_rejected() {
    // one unit in against deep reserves buys nothing: 1000 * 1 / 1001 = 0
    let mut s = pool(1_000, 1_000, 0, 500, 0);
    assert_eq!(s.swap(true, 1, 0), Err(AmmError::SlippageExceeded));
    assert_eq!(s.vault_x.amount, 1_000);
}

#[test]
fn swap_poor_user_rejected() {
    let mut s = pool(1_000, 1_000, 30, 99, 0);
    assert_eq!(s.swap(true, 100, 0), Err(AmmError::InsufficientFunds));
    assert_eq!(s.vault_x.amount, 1_000);
    assert_eq!(s.user_x.amount, 99);
}

#[test]
fn swap_overflowing_user_balance_rejected() {
    let mut s = pool(1_000, 1_000, 30, 500, u64::MAX - 89);
    assert_eq!(s.swap(true, 100, 0), Err(AmmError::Overflow));
    assert_eq!(s.vault_x.amount, 1_000);
    assert_eq!(s.user_y.amount, u64::MAX - 89);
}

#[test]
fn swap_overflowing_vault_rejected() {
    // the incoming reserve itself can no longer absorb the deposit leg
    let mut s = pool(u64::MAX, u64::MAX, 0, 10, 0);
    assert_eq!(s.swap(true, 2, 0), Err(AmmError::Overflow));
    assert_eq!(s.vault_x.amount, u64::MAX);
    assert_eq!(s.user_x.amount, 10);
}

#[test]
fn swap_foreign_vault_rejected() {
    let mut s = pool(1_000, 1_000, 30, 500, 0);
    s.vault_y.owner = pk(16); // a wallet key, not the derived pool authority
    assert_eq!(s.swap(true, 100, 0), Err(AmmError::AccountMismatch));
    assert_eq!(s.vault_x.amount, 1_000);
}

#[test]
fn deposit_tokens_moves_input_leg() {
    let mut s = pool(1_000, 1_000, 30, 500, 0);
    assert_eq!(s.deposit_tokens(true, 60), Ok(()));
    assert_eq!(s.vault_x.amount, 1_060);
    assert_eq!(s.user_x.amount, 440);
}

#[test]
fn withdraw_tokens_needs_derived_authority() {
    let mut s = pool(1_000, 1_000, 30, 500, 0);
    assert_eq!(s.withdraw_tokens(false, 40), Ok(()));
    assert_eq!(s.vault_y.amount, 960);
    assert_eq!(s.user_y.amount, 40);

    let mut foreign = pool(1_000, 1_000, 30, 500, 0);
    foreign.vault_y.owner = pk(16);
    assert_eq!(foreign.withdraw_tokens(false, 40), Err(AmmError::AccountMismatch));
    assert_eq!(foreign.vault_y.amount, 1_000);
}
