//! The laws of the ledger: the properties that hold of every sequence of
//! operations, each stated over the operations' own specifications and
//! proved here.
//!
//! A pool's participants are modelled as a sequence of records; an
//! operation touches one of them (or appends a first-time staker) and the
//! shared pool record. The central invariant is conservation: the pool's
//! staked total always equals the sum of the participants' staked balances.

use vstd::prelude::*;

use crate::accrual::{accrue, accrued_reward, elapsed_since};
use crate::errors::StakingError;
use crate::ops::{
    claim_rewards_spec, new_pool, stake_in_range, stake_spec, unstake_spec, TransferRequest,
};
use crate::state::{AccountId, Pool, UserStake};

verus! {

/// The sum of the participants' staked balances, as a mathematical integer.
pub open spec fn sum_staked(users: Seq<UserStake>) -> int
    decreases users.len(),
{
    if users.len() == 0 {
        0
    } else {
        sum_staked(users.drop_last()) + users.last().amount_staked
    }
}

/// Conservation: the pool's recorded total equals the sum of all
/// participants' staked balances.
pub open spec fn conserved(users: Seq<UserStake>, pool: Pool) -> bool {
    pool.total_staked == sum_staked(users)
}

/// A sum of non-negative balances is non-negative.
pub proof fn lemma_sum_staked_non_negative(users: Seq<UserStake>)
    ensures
        sum_staked(users) >= 0,
    decreases users.len(),
{
    if users.len() > 0 {
        lemma_sum_staked_non_negative(users.drop_last());
    }
}

/// Every participant's balance is covered by the sum of all balances.
pub proof fn lemma_sum_staked_element_bound(users: Seq<UserStake>, i: int)
    requires
        0 <= i < users.len(),
    ensures
        sum_staked(users) >= users[i].amount_staked,
    decreases users.len(),
{
    if i == users.len() - 1 {
        lemma_sum_staked_non_negative(users.drop_last());
    } else {
        lemma_sum_staked_element_bound(users.drop_last(), i);
    }
}

/// Replacing one participant's record moves the sum by exactly the change
/// in that participant's balance.
pub proof fn lemma_sum_staked_update(users: Seq<UserStake>, i: int, user: UserStake)
    requires
        0 <= i < users.len(),
    ensures
        sum_staked(users.update(i, user)) == sum_staked(users) + user.amount_staked
            - users[i].amount_staked,
    decreases users.len(),
{
    let updated = users.update(i, user);
    if i == users.len() - 1 {
        assert(updated.drop_last() =~= users.drop_last());
    } else {
        assert(updated.drop_last() =~= users.drop_last().update(i, user));
        lemma_sum_staked_update(users.drop_last(), i, user);
    }
}

/// Appending a participant's record grows the sum by exactly that
/// participant's balance.
pub proof fn lemma_sum_staked_push(users: Seq<UserStake>, user: UserStake)
    ensures
        sum_staked(users.push(user)) == sum_staked(users) + user.amount_staked,
{
    assert(users.push(user).drop_last() =~= users);
}

/// The reward owed for a non-negative interval is never negative: every
/// factor of the accrual product is non-negative and the pool total is
/// positive.
pub proof fn lemma_accrued_reward_non_negative(user: UserStake, pool: Pool, now: i64)
    requires
        pool.total_staked > 0,
        elapsed_since(user, now) >= 0,
    ensures
        accrued_reward(user, pool, now) >= 0,
{
    let a: int = user.amount_staked as int;
    let r: int = pool.reward_rate_per_second as int;
    let e: int = elapsed_since(user, now);
    let t: int = pool.total_staked as int;
    assert(a * r * e >= 0) by (nonlinear_arith)
        requires
            a >= 0,
            r >= 0,
            e >= 0,
    ;
    assert(a * r * e / t >= 0) by (nonlinear_arith)
        requires
            a * r * e >= 0,
            t > 0,
    ;
}

/// Settlement only ever raises the pending balance — accrual is the one way
/// pending rewards increase, and it never lowers them — and touches neither
/// the staked balance nor the record's identity.
pub proof fn lemma_accrual_pending_non_decreasing(
    user: UserStake,
    pool: Pool,
    now: i64,
    settled: UserStake,
)
    requires
        accrue(user, pool, now) == Ok::<UserStake, StakingError>(settled),
    ensures
        settled.pending_rewards >= user.pending_rewards,
        settled.amount_staked == user.amount_staked,
        settled.owner == user.owner,
        settled.bump == user.bump,
{
    if user.amount_staked == 0 || pool.total_staked == 0 {
    } else if elapsed_since(user, now) <= 0 {
    } else {
        lemma_accrued_reward_non_negative(user, pool, now);
    }
}

/// Settling twice at the same time is a no-op the second time: a settled
/// record settles to itself, so no interval is ever credited twice.
pub proof fn lemma_accrual_idempotent(user: UserStake, pool: Pool, now: i64, settled: UserStake)
    requires
        accrue(user, pool, now) == Ok::<UserStake, StakingError>(settled),
    ensures
        accrue(settled, pool, now) == Ok::<UserStake, StakingError>(settled),
{
}

/// The zero-division guard: with a zero stake or an empty pool, settlement
/// always succeeds, divides by nothing, and leaves the pending balance
/// unchanged; only the settlement timestamp moves to `now`.
pub proof fn lemma_accrual_zero_stake_guard(user: UserStake, pool: Pool, now: i64)
    requires
        user.amount_staked == 0 || pool.total_staked == 0,
    ensures
        accrue(user, pool, now) == Ok::<UserStake, StakingError>(
            (UserStake { last_update: now, ..user }),
        ),
{
}

/// Settlement alone preserves conservation: it moves no staked balance, so
/// the sum and the pool total both stand still.
pub proof fn lemma_settlement_preserves_conservation(
    users: Seq<UserStake>,
    pool: Pool,
    i: int,
    now: i64,
    settled: UserStake,
)
    requires
        conserved(users, pool),
        0 <= i < users.len(),
        accrue(users[i], pool, now) == Ok::<UserStake, StakingError>(settled),
    ensures
        conserved(users.update(i, settled), pool),
{
    lemma_accrual_pending_non_decreasing(users[i], pool, now, settled);
    lemma_sum_staked_update(users, i, settled);
}

/// A pool starts conserved: its total is zero and it has no participants.
pub proof fn lemma_new_pool_conserved(
    admin: AccountId,
    stake_mint: AccountId,
    reward_mint: AccountId,
    reward_rate_per_second: u64,
    bump: u8,
)
    ensures
        conserved(
            Seq::<UserStake>::empty(),
            new_pool(admin, stake_mint, reward_mint, reward_rate_per_second, bump),
        ),
{
}

/// A successful stake by an existing participant preserves conservation:
/// the participant's balance and the pool total grow by the same amount.
pub proof fn lemma_stake_preserves_conservation(
    users: Seq<UserStake>,
    pool: Pool,
    i: int,
    owner: AccountId,
    user_bump: u8,
    amount: u64,
    now: i64,
    new_user: UserStake,
    new_pool: Pool,
    transfer: TransferRequest,
)
    requires
        conserved(users, pool),
        0 <= i < users.len(),
        stake_in_range(Some(users[i]), pool, owner, user_bump, amount, now),
        stake_spec(Some(users[i]), pool, owner, user_bump, amount, now) == Ok::<
            (UserStake, Pool, TransferRequest),
            StakingError,
        >((new_user, new_pool, transfer)),
    ensures
        conserved(users.update(i, new_user), new_pool),
{
    match accrue(users[i], pool, now) {
        Ok(settled) => {
            lemma_accrual_pending_non_decreasing(users[i], pool, now, settled);
            lemma_sum_staked_update(users, i, new_user);
        },
        Err(_) => {},
    }
}

/// A successful first stake preserves conservation: the appended record's
/// balance and the pool total both grow by the staked amount.
pub proof fn lemma_first_stake_preserves_conservation(
    users: Seq<UserStake>,
    pool: Pool,
    owner: AccountId,
    user_bump: u8,
    amount: u64,
    now: i64,
    new_user: UserStake,
    new_pool: Pool,
    transfer: TransferRequest,
)
    requires
        conserved(users, pool),
        stake_in_range(None, pool, owner, user_bump, amount, now),
        stake_spec(None, pool, owner, user_bump, amount, now) == Ok::<
            (UserStake, Pool, TransferRequest),
            StakingError,
        >((new_user, new_pool, transfer)),
    ensures
        conserved(users.push(new_user), new_pool),
{
    lemma_sum_staked_push(users, new_user);
}

/// A successful unstake preserves conservation: the participant's balance
/// and the pool total shrink by the same amount. That the pool total covers
/// the amount follows from conservation itself.
pub proof fn lemma_unstake_preserves_conservation(
    users: Seq<UserStake>,
    pool: Pool,
    i: int,
    amount: u64,
    now: i64,
    new_user: UserStake,
    new_pool: Pool,
    transfer: TransferRequest,
)
    requires
        conserved(users, pool),
        0 <= i < users.len(),
        unstake_spec(users[i], pool, amount, now) == Ok::<
            (UserStake, Pool, TransferRequest),
            StakingError,
        >((new_user, new_pool, transfer)),
    ensures
        conserved(users.update(i, new_user), new_pool),
{
    lemma_sum_staked_element_bound(users, i);
    match accrue(users[i], pool, now) {
        Ok(settled) => {
            lemma_accrual_pending_non_decreasing(users[i], pool, now, settled);
            lemma_sum_staked_update(users, i, new_user);
        },
        Err(_) => {},
    }
}

/// A successful claim preserves conservation: it moves only the pending
/// balance, never a staked balance, and the pool record is unchanged.
pub proof fn lemma_claim_preserves_conservation(
    users: Seq<UserStake>,
    pool: Pool,
    i: int,
    now: i64,
    claimed: UserStake,
    transfer: TransferRequest,
)
    requires
        conserved(users, pool),
        0 <= i < users.len(),
        claim_rewards_spec(users[i], pool, now) == Ok::<
            (UserStake, TransferRequest),
            StakingError,
        >((claimed, transfer)),
    ensures
        conserved(users.update(i, claimed), pool),
{
    match accrue(users[i], pool, now) {
        Ok(settled) => {
            lemma_accrual_pending_non_decreasing(users[i], pool, now, settled);
            lemma_sum_staked_update(users, i, claimed);
        },
        Err(_) => {},
    }
}

/// An unstake beyond the staked balance is always rejected with
/// `InsufficientFunds` — never clamped — and produces no state transition
/// and no transfer.
pub proof fn lemma_unstake_beyond_balance_rejected(
    user: UserStake,
    pool: Pool,
    amount: u64,
    now: i64,
)
    requires
        user.amount_staked < amount,
    ensures
        unstake_spec(user, pool, amount, now) == Err::<
            (UserStake, Pool, TransferRequest),
            StakingError,
        >(StakingError::InsufficientFunds),
{
}

/// A successful stake never lowers the pending balance: only a claim does.
pub proof fn lemma_stake_pending_non_decreasing(
    user: UserStake,
    pool: Pool,
    owner: AccountId,
    user_bump: u8,
    amount: u64,
    now: i64,
    new_user: UserStake,
    new_pool: Pool,
    transfer: TransferRequest,
)
    requires
        stake_spec(Some(user), pool, owner, user_bump, amount, now) == Ok::<
            (UserStake, Pool, TransferRequest),
            StakingError,
        >((new_user, new_pool, transfer)),
    ensures
        new_user.pending_rewards >= user.pending_rewards,
{
    match accrue(user, pool, now) {
        Ok(settled) => {
            lemma_accrual_pending_non_decreasing(user, pool, now, settled);
        },
        Err(_) => {},
    }
}

/// A successful unstake never lowers the pending balance: only a claim
/// does.
pub proof fn lemma_unstake_pending_non_decreasing(
    user: UserStake,
    pool: Pool,
    amount: u64,
    now: i64,
    new_user: UserStake,
    new_pool: Pool,
    transfer: TransferRequest,
)
    requires
        unstake_spec(user, pool, amount, now) == Ok::<
            (UserStake, Pool, TransferRequest),
            StakingError,
        >((new_user, new_pool, transfer)),
    ensures
        new_user.pending_rewards >= user.pending_rewards,
{
    match accrue(user, pool, now) {
        Ok(settled) => {
            lemma_accrual_pending_non_decreasing(user, pool, now, settled);
        },
        Err(_) => {},
    }
}

/// A successful claim resets the pending balance to exactly zero and pays
/// out the whole settled amount — at least everything that was pending
/// before, and never nothing.
pub proof fn lemma_claim_pays_out_in_full(
    user: UserStake,
    pool: Pool,
    now: i64,
    claimed: UserStake,
    transfer: TransferRequest,
)
    requires
        claim_rewards_spec(user, pool, now) == Ok::<
            (UserStake, TransferRequest),
            StakingError,
        >((claimed, transfer)),
    ensures
        claimed.pending_rewards == 0,
        transfer.amount >= user.pending_rewards,
        transfer.amount > 0,
        claimed.amount_staked == user.amount_staked,
{
    match accrue(user, pool, now) {
        Ok(settled) => {
            lemma_accrual_pending_non_decreasing(user, pool, now, settled);
        },
        Err(_) => {},
    }
}

/// A claim zeroes exactly once: after a successful claim, an immediate
/// second claim — same time, no new stake — fails with `NoRewardsAccrued`.
pub proof fn lemma_claim_zeroes_exactly_once(
    user: UserStake,
    pool: Pool,
    now: i64,
    claimed: UserStake,
    transfer: TransferRequest,
)
    requires
        claim_rewards_spec(user, pool, now) == Ok::<
            (UserStake, TransferRequest),
            StakingError,
        >((claimed, transfer)),
    ensures
        claimed.pending_rewards == 0,
        claim_rewards_spec(claimed, pool, now) == Err::<
            (UserStake, TransferRequest),
            StakingError,
        >(StakingError::NoRewardsAccrued),
{
}

/// One ledger operation on a pool and its participants, as the hosting
/// environment schedules them: against which record it runs, and at which
/// clock reading.
pub enum LedgerOp {
    /// The administrator (or anyone else — a rejection changes nothing)
    /// funds the reward reserve; no ledger record is touched either way.
    Deposit { caller: AccountId, amount: u64 },
    /// A first-time staker: a fresh record is appended on success.
    FirstStake { owner: AccountId, user_bump: u8, amount: u64, now: i64 },
    /// A further stake by the participant at index `i`.
    Stake { i: int, amount: u64, now: i64 },
    /// An unstake by the participant at index `i`.
    Unstake { i: int, amount: u64, now: i64 },
    /// A claim by the participant at index `i`.
    Claim { i: int, now: i64 },
}

/// The ledger after one operation: on success the touched record and the
/// pool are replaced, on rejection nothing changes (every failure aborts the
/// whole operation), and an operation outside the machine-limit bounds or
/// aimed at no existing record is not a ledger state at all.
pub open spec fn apply_op(users: Seq<UserStake>, pool: Pool, op: LedgerOp) -> Option<
    (Seq<UserStake>, Pool),
> {
    match op {
        LedgerOp::Deposit { .. } => Some((users, pool)),
        LedgerOp::FirstStake { owner, user_bump, amount, now } => {
            if stake_in_range(None, pool, owner, user_bump, amount, now) {
                match stake_spec(None, pool, owner, user_bump, amount, now) {
                    Ok((new_user, new_pool, _)) => Some((users.push(new_user), new_pool)),
                    Err(_) => Some((users, pool)),
                }
            } else {
                None
            }
        },
        LedgerOp::Stake { i, amount, now } => {
            if 0 <= i < users.len() && stake_in_range(
                Some(users[i]),
                pool,
                users[i].owner,
                users[i].bump,
                amount,
                now,
            ) {
                match stake_spec(Some(users[i]), pool, users[i].owner, users[i].bump, amount, now) {
                    Ok((new_user, new_pool, _)) => Some(
                        (users.update(i, new_user), new_pool),
                    ),
                    Err(_) => Some((users, pool)),
                }
            } else {
                None
            }
        },
        LedgerOp::Unstake { i, amount, now } => {
            if 0 <= i < users.len() {
                match unstake_spec(users[i], pool, amount, now) {
                    Ok((new_user, new_pool, _)) => Some(
                        (users.update(i, new_user), new_pool),
                    ),
                    Err(_) => Some((users, pool)),
                }
            } else {
                None
            }
        },
        LedgerOp::Claim { i, now } => {
            if 0 <= i < users.len() {
                match claim_rewards_spec(users[i], pool, now) {
                    Ok((claimed, _)) => Some((users.update(i, claimed), pool)),
                    Err(_) => Some((users, pool)),
                }
            } else {
                None
            }
        },
    }
}

/// The ledger after a sequence of operations, first to last.
pub open spec fn apply_ops(users: Seq<UserStake>, pool: Pool, ops: Seq<LedgerOp>) -> Option<
    (Seq<UserStake>, Pool),
>
    decreases ops.len(),
{
    if ops.len() == 0 {
        Some((users, pool))
    } else {
        match apply_op(users, pool, ops[0]) {
            Some(ledger) => apply_ops(ledger.0, ledger.1, ops.drop_first()),
            None => None,
        }
    }
}

/// Conservation holds after one operation, whatever it was and whether or
/// not it succeeded.
pub proof fn lemma_op_preserves_conservation(
    users: Seq<UserStake>,
    pool: Pool,
    op: LedgerOp,
    new_users: Seq<UserStake>,
    new_pool: Pool,
)
    requires
        conserved(users, pool),
        apply_op(users, pool, op) == Some((new_users, new_pool)),
    ensures
        conserved(new_users, new_pool),
{
    match op {
        LedgerOp::Deposit { .. } => {},
        LedgerOp::FirstStake { owner, user_bump, amount, now } => {
            match stake_spec(None, pool, owner, user_bump, amount, now) {
                Ok((new_user, p, transfer)) => {
                    lemma_first_stake_preserves_conservation(
                        users,
                        pool,
                        owner,
                        user_bump,
                        amount,
                        now,
                        new_user,
                        p,
                        transfer,
                    );
                },
                Err(_) => {},
            }
        },
        LedgerOp::Stake { i, amount, now } => {
            match stake_spec(Some(users[i]), pool, users[i].owner, users[i].bump, amount, now) {
                Ok((new_user, p, transfer)) => {
                    lemma_stake_preserves_conservation(
                        users,
                        pool,
                        i,
                        users[i].owner,
                        users[i].bump,
                        amount,
                        now,
                        new_user,
                        p,
                        transfer,
                    );
                },
                Err(_) => {},
            }
        },
        LedgerOp::Unstake { i, amount, now } => {
            match unstake_spec(users[i], pool, amount, now) {
                Ok((new_user, p, transfer)) => {
                    lemma_unstake_preserves_conservation(
                        users,
                        pool,
                        i,
                        amount,
                        now,
                        new_user,
                        p,
                        transfer,
                    );
                },
                Err(_) => {},
            }
        },
        LedgerOp::Claim { i, now } => {
            match claim_rewards_spec(users[i], pool, now) {
                Ok((claimed, transfer)) => {
                    lemma_claim_preserves_conservation(users, pool, i, now, claimed, transfer);
                },
                Err(_) => {},
            }
        },
    }
}

/// Conservation, in full: starting from any conserved ledger — a freshly
/// initialized pool is one — the pool total equals the sum of all
/// participants' staked balances after every sequence of operations.
pub proof fn theorem_conservation(users: Seq<UserStake>, pool: Pool, ops: Seq<LedgerOp>)
    requires
        conserved(users, pool),
    ensures
        apply_ops(users, pool, ops) matches Some(ledger) ==> conserved(ledger.0, ledger.1),
    decreases ops.len(),
{
    if ops.len() > 0 {
        match apply_op(users, pool, ops[0]) {
            Some(ledger) => {
                lemma_op_preserves_conservation(users, pool, ops[0], ledger.0, ledger.1);
                theorem_conservation(ledger.0, ledger.1, ops.drop_first());
            },
            None => {},
        }
    }
}

} // verus!
