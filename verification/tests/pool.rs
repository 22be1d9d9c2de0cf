use amm::config::Config;
use amm::errors::AmmError;
use amm::pool::{DepositEffects, Pool, Side, SwapEffects, WithdrawEffects};

fn fresh_pool(fee: u16, authority: Option<u64>) -> Pool {
    Pool::initialize(7, 11, 22, fee, authority).unwrap()
}

fn pool_with(reserve_x: u64, reserve_y: u64, lp_supply: u64, fee: u16) -> Pool {
    Pool {
        config: Config {
            seed: 7,
            authority: None,
            mint_x: 11,
            mint_y: 22,
            fee,
            locked: false,
        },
        reserve_x,
        reserve_y,
        lp_supply,
    }
}

#[test]
fn initialize_records_configuration() {
    let p = fresh_pool(30, Some(42));
    assert_eq!(p.config.seed, 7);
    assert_eq!(p.config.mint_x, 11);
    assert_eq!(p.config.mint_y, 22);
    assert_eq!(p.config.fee, 30);
    assert_eq!(p.config.authority, Some(42));
    assert!(!p.config.locked);
    assert_eq!(p.reserve_x, 0);
    assert_eq!(p.reserve_y, 0);
    assert_eq!(p.lp_supply, 0);
}

#[test]
fn initialize_rejects_fee_above_ten_thousand() {
    let r = Pool::initialize(7, 11, 22, 10001, None);
    assert_eq!(r.unwrap_err(), AmmError::InvalidParameter);
    assert!(Pool::initialize(7, 11, 22, 10000, None).is_ok());
}

#[test]
fn bootstrap_deposit_sets_initial_ratio() {
    let mut p = fresh_pool(30, None);
    let fx = p.deposit(1000, 500, 2000).unwrap();
    assert_eq!(
        fx,
        DepositEffects { transfer_x: 500, transfer_y: 2000, mint_lp: 1000 }
    );
    assert_eq!(p.reserve_x, 500);
    assert_eq!(p.reserve_y, 2000);
    assert_eq!(p.lp_supply, 1000);
}

#[test]
fn deposit_rejects_slippage() {
    let mut p = pool_with(1000, 4000, 1000, 30);
    // Ten shares out of a thousand require x = 10, above the bound of 9.
    let r = p.deposit(10, 9, 40);
    assert_eq!(r, Err(AmmError::SlippageExceeded));
    assert_eq!(p.reserve_x, 1000);
    assert_eq!(p.reserve_y, 4000);
    assert_eq!(p.lp_supply, 1000);
}

#[test]
fn deposit_takes_proportional_amounts() {
    let mut p = pool_with(1000, 4000, 1000, 30);
    let fx = p.deposit(10, 10, 40).unwrap();
    assert_eq!(
        fx,
        DepositEffects { transfer_x: 10, transfer_y: 40, mint_lp: 10 }
    );
    assert_eq!(p.reserve_x, 1010);
    assert_eq!(p.reserve_y, 4040);
    assert_eq!(p.lp_supply, 1010);
}

#[test]
fn deposit_rejects_zero_supply_with_nonempty_vaults() {
    let mut p = pool_with(5, 5, 0, 30);
    assert_eq!(p.deposit(10, 10, 10), Err(AmmError::ArithmeticError));
}

#[test]
fn deposit_rejects_overflow() {
    // Reserves near the 64-bit maximum with a large share claim.
    let mut p = pool_with(u64::MAX, u64::MAX, 1, 30);
    let r = p.deposit(2, u64::MAX, u64::MAX);
    assert_eq!(r, Err(AmmError::ArithmeticError));
    assert_eq!(p.reserve_x, u64::MAX);
    assert_eq!(p.lp_supply, 1);
}

#[test]
fn deposit_rejects_reserve_overflow() {
    // The proportional amounts fit, but the vault balance would wrap.
    let mut p = pool_with(u64::MAX - 1, 10, 4, 30);
    let r = p.deposit(1, u64::MAX, u64::MAX);
    assert_eq!(r, Err(AmmError::ArithmeticError));
}

#[test]
fn deposit_then_withdraw_returns_no_more() {
    let mut p = pool_with(1000, 4000, 1000, 30);
    let d = p.deposit(10, 10, 40).unwrap();
    let w = p.withdraw(10, 0, 0).unwrap();
    assert!(w.transfer_x <= d.transfer_x);
    assert!(w.transfer_y <= d.transfer_y);
    assert_eq!(
        w,
        WithdrawEffects { transfer_x: 10, transfer_y: 40, burn_lp: 10 }
    );
    assert_eq!(p.reserve_x, 1000);
    assert_eq!(p.reserve_y, 4000);
    assert_eq!(p.lp_supply, 1000);
}

#[test]
fn withdraw_full_supply_drains_pool() {
    let mut p = fresh_pool(30, None);
    p.deposit(1000, 500, 2000).unwrap();
    let fx = p.withdraw(1000, 500, 2000).unwrap();
    assert_eq!(
        fx,
        WithdrawEffects { transfer_x: 500, transfer_y: 2000, burn_lp: 1000 }
    );
    assert_eq!(p.reserve_x, 0);
    assert_eq!(p.reserve_y, 0);
    assert_eq!(p.lp_supply, 0);
}

#[test]
fn withdraw_rejects_slippage() {
    let mut p = pool_with(1000, 4000, 1000, 30);
    let r = p.withdraw(10, 11, 0);
    assert_eq!(r, Err(AmmError::SlippageExceeded));
    assert_eq!(p.reserve_x, 1000);
}

#[test]
fn withdraw_rejects_vault_shortfall() {
    // More shares than the supply claim more than the vaults hold.
    let mut p = pool_with(10, 10, 5, 30);
    assert_eq!(p.withdraw(20, 0, 0), Err(AmmError::TransferFailed));
}

#[test]
fn withdraw_rejects_burning_above_supply() {
    let mut p = pool_with(0, 0, 5, 30);
    assert_eq!(p.withdraw(7, 0, 0), Err(AmmError::BurnFailed));
}

#[test]
fn withdraw_on_empty_pool_is_a_no_op() {
    let mut p = fresh_pool(30, None);
    let fx = p.withdraw(0, 0, 0).unwrap();
    assert_eq!(
        fx,
        WithdrawEffects { transfer_x: 0, transfer_y: 0, burn_lp: 0 }
    );
    assert_eq!(p.reserve_x, 0);
    assert_eq!(p.lp_supply, 0);
    assert_eq!(p.withdraw(0, 5, 0), Err(AmmError::TransferFailed));
    assert_eq!(p.withdraw(3, 0, 0), Err(AmmError::BurnFailed));
}

#[test]
fn swap_golden_value() {
    let mut p = pool_with(1000, 1000, 1000, 30);
    let fx = p.swap(Side::X, 100, 0).unwrap();
    assert_eq!(
        fx,
        SwapEffects { side: Side::X, transfer_in: 100, transfer_out: 90 }
    );
    assert_eq!(p.reserve_x, 1100);
    assert_eq!(p.reserve_y, 910);
    // The reserve product grew: the fee stayed in the pool.
    assert!((p.reserve_x as u128) * (p.reserve_y as u128) >= 1000 * 1000);
    // The same trade on a fresh pool reproduces the same output.
    let mut q = pool_with(1000, 1000, 1000, 30);
    let again = q.swap(Side::X, 100, 0).unwrap();
    assert_eq!(again.transfer_out, 90);
}

#[test]
fn swap_is_symmetric_between_sides() {
    let mut p = pool_with(1000, 1000, 1000, 30);
    let fx = p.swap(Side::Y, 100, 0).unwrap();
    assert_eq!(
        fx,
        SwapEffects { side: Side::Y, transfer_in: 100, transfer_out: 90 }
    );
    assert_eq!(p.reserve_y, 1100);
    assert_eq!(p.reserve_x, 910);
}

#[test]
fn swap_rejects_slippage() {
    let mut p = pool_with(1000, 1000, 1000, 30);
    let r = p.swap(Side::X, 100, 91);
    assert_eq!(r, Err(AmmError::SlippageExceeded));
    assert_eq!(p.reserve_x, 1000);
    assert_eq!(p.reserve_y, 1000);
}

#[test]
fn swap_rejects_vault_overflow() {
    let mut p = pool_with(u64::MAX - 50, 1000, 1000, 30);
    let r = p.swap(Side::X, 100, 0);
    assert_eq!(r, Err(AmmError::ArithmeticError));
    assert_eq!(p.reserve_x, u64::MAX - 50);
}

#[test]
fn swap_rejects_empty_input_reserve_with_no_effective_input() {
    let mut p = pool_with(0, 1000, 1000, 10000);
    assert_eq!(p.swap(Side::X, 5, 0), Err(AmmError::ArithmeticError));
}

#[test]
fn swap_does_not_shrink_reserve_product_with_ample_fee() {
    let mut p = pool_with(1000, 1000, 1000, 5000);
    let fx = p.swap(Side::X, 1000, 0).unwrap();
    assert_eq!(fx.transfer_out, 333);
    let pre: u128 = 1000 * 1000;
    let post: u128 = (p.reserve_x as u128) * (p.reserve_y as u128);
    assert!(post >= pre);
}

#[test]
fn locked_pool_rejects_deposit_and_swap_but_not_withdraw() {
    let mut p = fresh_pool(30, Some(42));
    p.deposit(1000, 500, 2000).unwrap();
    p.set_locked(42, true).unwrap();
    assert!(p.config.locked);
    assert_eq!(p.swap(Side::X, 100, 0), Err(AmmError::PoolLocked));
    assert_eq!(p.deposit(10, 5, 20), Err(AmmError::PoolLocked));
    let fx = p.withdraw(100, 50, 200).unwrap();
    assert_eq!(
        fx,
        WithdrawEffects { transfer_x: 50, transfer_y: 200, burn_lp: 100 }
    );
    assert_eq!(p.reserve_x, 450);
    assert_eq!(p.reserve_y, 1800);
    assert_eq!(p.lp_supply, 900);
}

#[test]
fn unlocking_restores_deposit_and_swap() {
    let mut p = fresh_pool(30, Some(42));
    p.deposit(1000, 1000, 1000).unwrap();
    p.set_locked(42, true).unwrap();
    p.set_locked(42, false).unwrap();
    assert!(!p.config.locked);
    assert!(p.swap(Side::X, 100, 0).is_ok());
}

#[test]
fn set_locked_rejects_other_callers() {
    let mut p = fresh_pool(30, Some(42));
    assert_eq!(p.set_locked(41, true), Err(AmmError::InvalidParameter));
    assert!(!p.config.locked);
}

#[test]
fn set_locked_rejects_ungoverned_pool() {
    let mut p = fresh_pool(30, None);
    assert_eq!(p.set_locked(42, true), Err(AmmError::InvalidParameter));
    assert!(!p.config.locked);
}
