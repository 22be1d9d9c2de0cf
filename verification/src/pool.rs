use vstd::prelude::*;

use crate::config::Config;
use crate::curve;
use crate::curve::{after_fee, lemma_share_within_reserve, proportional, swap_out, LP_DECIMALS};
use crate::errors::AmmError;

verus! {

/// Which asset a trader hands to the pool in a swap.
#[derive(Clone, Copy, Debug, PartialEq, Eq, Structural)]
pub enum Side {
    X,
    Y,
}

/// Token movements a successful deposit asks of the ledger: two transfers
/// from the depositor into the vaults and one mint of liquidity shares to
/// the depositor, performed as one atomic unit.
#[derive(Clone, Copy, Debug, PartialEq, Eq, Structural)]
pub struct DepositEffects {
    /// Amount of asset X transferred from the depositor into vault X.
    pub transfer_x: u64,
    /// Amount of asset Y transferred from the depositor into vault Y.
    pub transfer_y: u64,
    /// Liquidity shares minted to the depositor.
    pub mint_lp: u64,
}

/// Token movements a successful withdrawal asks of the ledger: two
/// transfers out of the vaults, authorized by the pool's own derived
/// signing capability, and one burn of the withdrawer's shares.
#[derive(Clone, Copy, Debug, PartialEq, Eq, Structural)]
pub struct WithdrawEffects {
    /// Amount of asset X transferred from vault X to the withdrawer.
    pub transfer_x: u64,
    /// Amount of asset Y transferred from vault Y to the withdrawer.
    pub transfer_y: u64,
    /// Liquidity shares burned from the withdrawer.
    pub burn_lp: u64,
}

/// Token movements a successful swap asks of the ledger: the trader's
/// input into one vault and the pool's output out of the other, as one
/// atomic unit.
#[derive(Clone, Copy, Debug, PartialEq, Eq, Structural)]
pub struct SwapEffects {
    /// Which asset the trader handed in.
    pub side: Side,
    /// Amount transferred from the trader into the input-side vault.
    pub transfer_in: u64,
    /// Amount transferred from the output-side vault to the trader.
    pub transfer_out: u64,
}

/// One pool: its configuration record together with the balances the core
/// reads and accounts for — the two reserve vaults and the liquidity-share
/// supply.  The vault balances are held by the ledger; the core treats them
/// as read inputs and issues transfer requests as the only mutation path,
/// mirroring every accepted request in these fields.
#[derive(Clone, Copy, Debug)]
pub struct Pool {
    /// The persistent configuration record.
    pub config: Config,
    /// Current balance of reserve vault X.
    pub reserve_x: u64,
    /// Current balance of reserve vault Y.
    pub reserve_y: u64,
    /// Current supply of the liquidity-share token.
    pub lp_supply: u64,
}

/// A pool is at bootstrap when no shares exist and both vaults are empty:
/// the first depositor sets the initial price ratio unilaterally.
pub open spec fn is_bootstrap(p: Pool) -> bool {
    p.lp_supply == 0 && p.reserve_x == 0 && p.reserve_y == 0
}

/// Specified outcome of a deposit: the new pool state and the requested
/// token movements on success, or the exact error otherwise.
pub open spec fn deposit_spec(p: Pool, lp_amount: u64, max_x: u64, max_y: u64) -> Result<
    (Pool, DepositEffects),
    AmmError,
> {
    if p.config.locked {
        Err(AmmError::PoolLocked)
    } else if is_bootstrap(p) {
        Ok(
            (
                Pool { reserve_x: max_x, reserve_y: max_y, lp_supply: lp_amount, ..p },
                DepositEffects { transfer_x: max_x, transfer_y: max_y, mint_lp: lp_amount },
            ),
        )
    } else if p.lp_supply == 0 {
        Err(AmmError::ArithmeticError)
    } else {
        let x = proportional(lp_amount as int, p.reserve_x as int, p.lp_supply as int);
        let y = proportional(lp_amount as int, p.reserve_y as int, p.lp_supply as int);
        if x > u64::MAX as int || y > u64::MAX as int {
            Err(AmmError::ArithmeticError)
        } else if x > max_x as int || y > max_y as int {
            Err(AmmError::SlippageExceeded)
        } else if p.reserve_x as int + x > u64::MAX as int || p.reserve_y as int + y > u64::MAX as int
            || p.lp_supply as int + lp_amount as int > u64::MAX as int {
            Err(AmmError::ArithmeticError)
        } else {
            Ok(
                (
                    Pool {
                        reserve_x: (p.reserve_x + x) as u64,
                        reserve_y: (p.reserve_y + y) as u64,
                        lp_supply: (p.lp_supply + lp_amount) as u64,
                        ..p
                    },
                    DepositEffects { transfer_x: x as u64, transfer_y: y as u64, mint_lp: lp_amount },
                ),
            )
        }
    }
}

/// Specified outcome of a withdrawal.  Withdrawal is never gated by the
/// lock: the capital-exit path stays open on a locked pool.
pub open spec fn withdraw_spec(p: Pool, lp_amount: u64, min_x: u64, min_y: u64) -> Result<
    (Pool, WithdrawEffects),
    AmmError,
> {
    let x = if is_bootstrap(p) {
        min_x as int
    } else {
        proportional(lp_amount as int, p.reserve_x as int, p.lp_supply as int)
    };
    let y = if is_bootstrap(p) {
        min_y as int
    } else {
        proportional(lp_amount as int, p.reserve_y as int, p.lp_supply as int)
    };
    if !is_bootstrap(p) && p.lp_supply == 0 {
        Err(AmmError::ArithmeticError)
    } else if x > u64::MAX as int || y > u64::MAX as int {
        Err(AmmError::ArithmeticError)
    } else if x < min_x as int || y < min_y as int {
        Err(AmmError::SlippageExceeded)
    } else if x > p.reserve_x as int || y > p.reserve_y as int {
        Err(AmmError::TransferFailed)
    } else if lp_amount > p.lp_supply {
        Err(AmmError::BurnFailed)
    } else {
        Ok(
            (
                Pool {
                    reserve_x: (p.reserve_x - x) as u64,
                    reserve_y: (p.reserve_y - y) as u64,
                    lp_supply: (p.lp_supply - lp_amount) as u64,
                    ..p
                },
                WithdrawEffects { transfer_x: x as u64, transfer_y: y as u64, burn_lp: lp_amount },
            ),
        )
    }
}

/// Specified outcome of a swap on the given input side.
pub open spec fn swap_spec(p: Pool, side: Side, amount_in: u64, min_amount_out: u64) -> Result<
    (Pool, SwapEffects),
    AmmError,
> {
    let reserve_in = match side {
        Side::X => p.reserve_x as int,
        Side::Y => p.reserve_y as int,
    };
    let reserve_out = match side {
        Side::X => p.reserve_y as int,
        Side::Y => p.reserve_x as int,
    };
    if p.config.locked {
        Err(AmmError::PoolLocked)
    } else if reserve_in + after_fee(amount_in as int, p.config.fee as int) == 0 {
        Err(AmmError::ArithmeticError)
    } else {
        let out = swap_out(reserve_in, reserve_out, amount_in as int, p.config.fee as int);
        if out < min_amount_out as int {
            Err(AmmError::SlippageExceeded)
        } else if reserve_in + amount_in as int > u64::MAX as int {
            Err(AmmError::ArithmeticError)
        } else {
            Ok(
                (
                    match side {
                        Side::X => Pool {
                            reserve_x: (reserve_in + amount_in) as u64,
                            reserve_y: (reserve_out - out) as u64,
                            ..p
                        },
                        Side::Y => Pool {
                            reserve_x: (reserve_out - out) as u64,
                            reserve_y: (reserve_in + amount_in) as u64,
                            ..p
                        },
                    },
                    SwapEffects { side, transfer_in: amount_in, transfer_out: out as u64 },
                ),
            )
        }
    }
}

impl Pool {
    /// The pool invariant, inherited from the configuration record.
    pub open spec fn wf(self) -> bool {
        self.config.wf()
    }

    /// Creates a pool: validates the fee, and records an unlocked pool with
    /// empty vaults and zero share supply.  The ledger-side allocation of
    /// the vaults and the share-token descriptor is the caller's concern,
    /// as is reporting `AlreadyExists` on a seed collision there.
    pub fn initialize(seed: u64, mint_x: u64, mint_y: u64, fee: u16, authority: Option<u64>) -> (r:
        Result<Pool, AmmError>)
        ensures
            fee > 10000 ==> r == Err::<Pool, AmmError>(AmmError::InvalidParameter),
            fee <= 10000 ==> r == Ok::<Pool, AmmError>(
                Pool {
                    config: Config { seed, authority, mint_x, mint_y, fee, locked: false },
                    reserve_x: 0,
                    reserve_y: 0,
                    lp_supply: 0,
                },
            ),
            r matches Ok(p) ==> p.wf(),
    {
        if fee > 10000 {
            return Err(AmmError::InvalidParameter);
        }
        Ok(
            Pool {
                config: Config { seed, authority, mint_x, mint_y, fee, locked: false },
                reserve_x: 0,
                reserve_y: 0,
                lp_supply: 0,
            },
        )
    }

    /// Deposits liquidity: mints `lp_amount` shares against at most
    /// `max_x` of asset X and `max_y` of asset Y.
    ///
    /// At bootstrap the caller's bounds are taken verbatim as the first
    /// deposit and set the initial price ratio; otherwise the proportional
    /// amounts are computed by the curve and checked against the bounds.
    /// On success the pool records the grown reserves and supply and
    /// returns the token movements the ledger must perform atomically; on
    /// failure the pool is unchanged.
    pub fn deposit(&mut self, lp_amount: u64, max_x: u64, max_y: u64) -> (r: Result<
        DepositEffects,
        AmmError,
    >)
        requires
            old(self).wf(),
        ensures
            final(self).wf(),
            final(self).config == old(self).config,
            (match r {
                Ok(fx) => deposit_spec(*old(self), lp_amount, max_x, max_y) == Ok::<
                    (Pool, DepositEffects),
                    AmmError,
                >((*final(self), fx)),
                Err(e) => deposit_spec(*old(self), lp_amount, max_x, max_y) == Err::<
                    (Pool, DepositEffects),
                    AmmError,
                >(e) && *final(self) == *old(self),
            }),
    {
        if self.config.locked {
            return Err(AmmError::PoolLocked);
        }
        if self.lp_supply == 0 && self.reserve_x == 0 && self.reserve_y == 0 {
            self.reserve_x = max_x;
            self.reserve_y = max_y;
            self.lp_supply = lp_amount;
            return Ok(DepositEffects { transfer_x: max_x, transfer_y: max_y, mint_lp: lp_amount });
        }
        let amounts = match curve::deposit_amounts(
            self.reserve_x,
            self.reserve_y,
            self.lp_supply,
            lp_amount,
            LP_DECIMALS,
        ) {
            Ok(a) => a,
            Err(e) => {
                return Err(e);
            },
        };
        let (x, y) = amounts;
        if !(x <= max_x && y <= max_y) {
            return Err(AmmError::SlippageExceeded);
        }
        if x > u64::MAX - self.reserve_x || y > u64::MAX - self.reserve_y || lp_amount > u64::MAX
            - self.lp_supply {
            return Err(AmmError::ArithmeticError);
        }
        self.reserve_x = self.reserve_x + x;
        self.reserve_y = self.reserve_y + y;
        self.lp_supply = self.lp_supply + lp_amount;
        Ok(DepositEffects { transfer_x: x, transfer_y: y, mint_lp: lp_amount })
    }

    /// Withdraws liquidity: burns `lp_amount` shares for at least `min_x`
    /// of asset X and `min_y` of asset Y.  Never gated by the lock.
    ///
    /// On success the pool records the shrunk reserves and supply and
    /// returns the token movements the ledger must perform atomically,
    /// with the vault-side transfers authorized by the pool's own derived
    /// signing capability; on failure the pool is unchanged.
    pub fn withdraw(&mut self, lp_amount: u64, min_x: u64, min_y: u64) -> (r: Result<
        WithdrawEffects,
        AmmError,
    >)
        requires
            old(self).wf(),
        ensures
            final(self).wf(),
            final(self).config == old(self).config,
            (match r {
                Ok(fx) => withdraw_spec(*old(self), lp_amount, min_x, min_y) == Ok::<
                    (Pool, WithdrawEffects),
                    AmmError,
                >((*final(self), fx)),
                Err(e) => withdraw_spec(*old(self), lp_amount, min_x, min_y) == Err::<
                    (Pool, WithdrawEffects),
                    AmmError,
                >(e) && *final(self) == *old(self),
            }),
    {
        let bootstrap = self.lp_supply == 0 && self.reserve_x == 0 && self.reserve_y == 0;
        let (x, y) = if bootstrap {
            (min_x, min_y)
        } else {
            match curve::withdraw_amounts(
                self.reserve_x,
                self.reserve_y,
                self.lp_supply,
                lp_amount,
                LP_DECIMALS,
            ) {
                Ok(a) => a,
                Err(e) => {
                    return Err(e);
                },
            }
        };
        if !(x >= min_x && y >= min_y) {
            return Err(AmmError::SlippageExceeded);
        }
        if x > self.reserve_x || y > self.reserve_y {
            return Err(AmmError::TransferFailed);
        }
        if lp_amount > self.lp_supply {
            return Err(AmmError::BurnFailed);
        }
        self.reserve_x = self.reserve_x - x;
        self.reserve_y = self.reserve_y - y;
        self.lp_supply = self.lp_supply - lp_amount;
        Ok(WithdrawEffects { transfer_x: x, transfer_y: y, burn_lp: lp_amount })
    }

    /// Swaps `amount_in` of the input-side asset for the curve's output,
    /// rejecting the trade when the output falls short of
    /// `min_amount_out`.
    ///
    /// The fee is deducted from the input before the curve is applied; the
    /// full input amount, fee included, enters the input-side vault.  On
    /// success the pool records the moved reserves and returns the two
    /// transfers the ledger must perform as one atomic unit; on failure
    /// the pool is unchanged.
    pub fn swap(&mut self, side: Side, amount_in: u64, min_amount_out: u64) -> (r: Result<
        SwapEffects,
        AmmError,
    >)
        requires
            old(self).wf(),
        ensures
            final(self).wf(),
            final(self).config == old(self).config,
            (match r {
                Ok(fx) => swap_spec(*old(self), side, amount_in, min_amount_out) == Ok::<
                    (Pool, SwapEffects),
                    AmmError,
                >((*final(self), fx)),
                Err(e) => swap_spec(*old(self), side, amount_in, min_amount_out) == Err::<
                    (Pool, SwapEffects),
                    AmmError,
                >(e) && *final(self) == *old(self),
            }),
    {
        if self.config.locked {
            return Err(AmmError::PoolLocked);
        }
        let (reserve_in, reserve_out) = match side {
            Side::X => (self.reserve_x, self.reserve_y),
            Side::Y => (self.reserve_y, self.reserve_x),
        };
        let out = match curve::swap_output(reserve_in, reserve_out, amount_in, self.config.fee) {
            Ok(o) => o,
            Err(e) => {
                return Err(e);
            },
        };
        if out < min_amount_out {
            return Err(AmmError::SlippageExceeded);
        }
        if amount_in > u64::MAX - reserve_in {
            return Err(AmmError::ArithmeticError);
        }
        match side {
            Side::X => {
                self.reserve_x = reserve_in + amount_in;
                self.reserve_y = reserve_out - out;
            },
            Side::Y => {
                self.reserve_y = reserve_in + amount_in;
                self.reserve_x = reserve_out - out;
            },
        }
        Ok(SwapEffects { side, transfer_in: amount_in, transfer_out: out })
    }

    /// Toggles the lock.  Only the configured authority may do so; a pool
    /// without an authority is permanently unlocked and every request is
    /// rejected as `InvalidParameter`, as is one from any other caller.
    pub fn set_locked(&mut self, caller: u64, locked: bool) -> (r: Result<(), AmmError>)
        requires
            old(self).wf(),
        ensures
            final(self).wf(),
            old(self).config.authority == Some(caller) ==> r == Ok::<(), AmmError>(())
                && *final(self) == (Pool {
                config: Config { locked, ..old(self).config },
                ..*old(self)
            }),
            old(self).config.authority != Some(caller) ==> r == Err::<(), AmmError>(
                AmmError::InvalidParameter,
            ) && *final(self) == *old(self),
    {
        let authorized = match self.config.authority {
            Some(a) => a == caller,
            None => false,
        };
        if !authorized {
            return Err(AmmError::InvalidParameter);
        }
        self.config.locked = locked;
        Ok(())
    }
}


/// Law: withdrawal is never gated by the lock.  `withdraw_spec` does not
/// read `locked`, so toggling it changes nothing about a withdrawal's
/// outcome — the same error, or the same amounts and accounting, with the
/// lock merely carried through into the new state.  The capital-exit path
/// on a locked pool answers exactly as on an unlocked one.
pub proof fn lemma_withdraw_ignores_lock(p: Pool, locked: bool, lp_amount: u64, min_x: u64, min_y: u64)
    ensures
        withdraw_spec(
            Pool { config: Config { locked, ..p.config }, ..p },
            lp_amount,
            min_x,
            min_y,
        ) == (match withdraw_spec(p, lp_amount, min_x, min_y) {
            Ok((after, fx)) => Ok::<(Pool, WithdrawEffects), AmmError>(
                (Pool { config: Config { locked, ..after.config }, ..after }, fx),
            ),
            Err(e) => Err::<(Pool, WithdrawEffects), AmmError>(e),
        }),
{
}

/// Law: a withdrawal whose computed payout meets the caller's bounds
/// succeeds whenever the burned shares are covered by the supply — on a
/// locked pool as much as on an unlocked one.
pub proof fn lemma_withdraw_within_supply_succeeds(p: Pool, lp_amount: u64, min_x: u64, min_y: u64)
    requires
        0 < p.lp_supply,
        lp_amount <= p.lp_supply,
        min_x as int <= proportional(lp_amount as int, p.reserve_x as int, p.lp_supply as int),
        min_y as int <= proportional(lp_amount as int, p.reserve_y as int, p.lp_supply as int),
    ensures
        withdraw_spec(p, lp_amount, min_x, min_y) is Ok,
{
    lemma_share_within_reserve(p.reserve_x as int, p.lp_supply as int, lp_amount as int);
    lemma_share_within_reserve(p.reserve_y as int, p.lp_supply as int, lp_amount as int);
}

/// Law: an oversized proportional claim is reported as `ArithmeticError`,
/// never wrapped or truncated: when the share of either reserve exceeds the
/// `u64` range, an unlocked deposit yields exactly that error, and
/// `Pool::deposit` leaves the pool unchanged on every error.
pub proof fn lemma_deposit_overflow_is_reported(p: Pool, lp_amount: u64, max_x: u64, max_y: u64)
    requires
        !p.config.locked,
        0 < p.lp_supply,
        proportional(lp_amount as int, p.reserve_x as int, p.lp_supply as int) > u64::MAX as int
            || proportional(lp_amount as int, p.reserve_y as int, p.lp_supply as int) > u64::MAX as int,
    ensures
        deposit_spec(p, lp_amount, max_x, max_y) == Err::<(Pool, DepositEffects), AmmError>(
            AmmError::ArithmeticError,
        ),
{
}

} // verus!
