//! The accrual engine: settling a participant's pending rewards up to the
//! current time.
//!
//! Accrual is lazy and incremental. Every operation that reads or mutates a
//! balance first settles the participant to "now", so a balance change never
//! gains or loses accrual. A participant earns, per unit time, the pool's
//! emission rate scaled by their current share of the total stake — the
//! share as read at the moment of settlement, not a time-weighted integral
//! over the interval. That instantaneous-share approximation is deliberate:
//! a settlement depends only on the participant's own last-update timestamp
//! and the pool's current total, never on how many operations others made in
//! between, so each settlement is self-contained and auditable without a
//! scheduler or background job.

use vstd::prelude::*;

use crate::errors::StakingError;
use crate::state::{Pool, UserStake};

verus! {

/// The seconds elapsed since the participant's last settlement, as a
/// mathematical integer (no wrap-around).
pub open spec fn elapsed_since(user: UserStake, now: i64) -> int {
    now - user.last_update
}

/// The full accrual product `amount_staked * rate * elapsed`, before the
/// division by the pool total narrows it back down.
pub open spec fn accrual_product(user: UserStake, pool: Pool, now: i64) -> int {
    user.amount_staked * pool.reward_rate_per_second * elapsed_since(user, now)
}

/// The reward owed to `user` for the interval since its last settlement:
/// its staked amount times the emission rate times the elapsed seconds,
/// divided by the pool total. Meaningful only when `pool.total_staked > 0`.
pub open spec fn accrued_reward(user: UserStake, pool: Pool, now: i64) -> int {
    accrual_product(user, pool, now) / (pool.total_staked as int)
}

/// The machine-limit bounds under which settlement runs without wrap-around:
/// when there is anything to accrue, the elapsed time fits in 64 signed bits
/// and the full accrual product fits in 128 bits before the division.
pub open spec fn accrual_in_range(user: UserStake, pool: Pool, now: i64) -> bool {
    (user.amount_staked > 0 && pool.total_staked > 0) ==> {
        &&& i64::MIN <= elapsed_since(user, now) <= i64::MAX
        &&& (elapsed_since(user, now) > 0 ==> accrual_product(user, pool, now) <= u128::MAX)
    }
}

/// What settling `user` against `pool` at time `now` yields.
///
/// - With a zero stake or an empty pool no reward is owed for the interval
///   (this also guards the division by zero): only the settlement timestamp
///   moves to `now`.
/// - If the clock has not advanced (or ran backwards), nothing changes:
///   accrual is never negative.
/// - Otherwise the elapsed reward is added to `pending_rewards`; if that sum
///   exceeds the representable range the settlement fails with `Overflow`
///   and no state transition is produced.
pub open spec fn accrue(user: UserStake, pool: Pool, now: i64) -> Result<UserStake, StakingError> {
    if user.amount_staked == 0 || pool.total_staked == 0 {
        Ok(UserStake { last_update: now, ..user })
    } else if elapsed_since(user, now) <= 0 {
        Ok(user)
    } else if user.pending_rewards + accrued_reward(user, pool, now) > u128::MAX {
        Err(StakingError::Overflow)
    } else {
        Ok(UserStake {
            pending_rewards: (user.pending_rewards + accrued_reward(user, pool, now)) as u128,
            last_update: now,
            ..user
        })
    }
}

/// Settle `user`'s pending rewards against `pool` as of `now`, exactly as
/// [`accrue`] describes; on failure the record is left untouched.
pub fn update_rewards(user: &mut UserStake, pool: &Pool, now: i64) -> (result: Result<
    (),
    StakingError,
>)
    requires
        accrual_in_range(*old(user), *pool, now),
    ensures
        match accrue(*old(user), *pool, now) {
            Ok(settled) => result == Ok::<(), StakingError>(()) && *final(user) == settled,
            Err(e) => result == Err::<(), StakingError>(e) && *final(user) == *old(user),
        },
{
    if user.amount_staked == 0 || pool.total_staked == 0 {
        user.last_update = now;
        return Ok(());
    }
    let elapsed: i64 = now - user.last_update;
    if elapsed <= 0 {
        return Ok(());
    }
    proof {
        let a: int = user.amount_staked as int;
        let r: int = pool.reward_rate_per_second as int;
        let e: int = elapsed as int;
        assert(a * r <= a * r * e && 0 <= a * r) by (nonlinear_arith)
            requires
                a >= 0,
                r >= 0,
                e >= 1,
        ;
    }
    let product: u128 = user.amount_staked * (pool.reward_rate_per_second as u128) * (elapsed
        as u128);
    let reward: u128 = product / pool.total_staked;
    proof {
        assert(0 <= accrual_product(*user, *pool, now) / (pool.total_staked as int)
            <= accrual_product(*user, *pool, now)) by (nonlinear_arith)
            requires
                accrual_product(*user, *pool, now) >= 0,
                pool.total_staked > 0,
        ;
    }
    if user.pending_rewards > u128::MAX - reward {
        return Err(StakingError::Overflow);
    }
    user.pending_rewards = user.pending_rewards + reward;
    user.last_update = now;
    Ok(())
}

} // verus!
