//! The five operation handlers: initialize pool, deposit rewards, stake,
//! unstake, claim rewards.
//!
//! Each handler is a pure state transition: from the ledger records, the
//! operation's inputs and the current time to the new records and the token
//! transfer the hosting environment must perform — or to an error, in which
//! case no transition is produced at all, so a failed operation leaves
//! nothing partial to commit. The host performs the returned transfer and
//! commits the returned records in the same atomic unit, discarding both if
//! the transfer fails.

use vstd::prelude::*;

use crate::accrual::{accrual_in_range, accrue, update_rewards};
use crate::errors::StakingError;
use crate::state::{AccountId, Pool, UserStake, VaultAuthority};

verus! {

/// Which accounts a requested token transfer moves value between.
#[derive(Clone, Copy, Debug, PartialEq, Eq, Structural)]
pub enum TransferDirection {
    /// Stake tokens, from the acting participant into the pool's stake vault.
    UserToStakeVault,
    /// Stake tokens, from the pool's stake vault back to the participant.
    StakeVaultToUser,
    /// Reward tokens, from the administrator into the pool's reward vault.
    AdminToRewardVault,
    /// Reward tokens, from the pool's reward vault to the participant.
    RewardVaultToUser,
}

/// Who signs a requested transfer.
#[derive(Clone, Copy, Debug, PartialEq, Eq, Structural)]
pub enum TransferAuthority {
    /// The acting caller signs: the source account is their own.
    Caller,
    /// The pool's self-derived authority signs: the source is a pool vault,
    /// and no participant or administrator signature can stand in for it.
    PoolDerived(VaultAuthority),
}

/// The one token movement an operation asks of the value-transfer
/// collaborator. It succeeds or fails as a whole; on failure the host
/// discards the operation's record updates too.
#[derive(Clone, Copy, Debug, PartialEq, Eq, Structural)]
pub struct TransferRequest {
    /// Source and destination of the movement.
    pub direction: TransferDirection,
    /// How many token units move.
    pub amount: u128,
    /// Who must sign the movement.
    pub authority: TransferAuthority,
}

/// The pool record as pool initialization creates it: the given identities
/// and rate, an empty total.
pub open spec fn new_pool(
    admin: AccountId,
    stake_mint: AccountId,
    reward_mint: AccountId,
    reward_rate_per_second: u64,
    bump: u8,
) -> Pool {
    Pool { admin, stake_mint, reward_mint, reward_rate_per_second, total_staked: 0, bump }
}

/// Create the pool record for one (stake token, reward token) pair: the
/// administrator and token identities are fixed for the pool's lifetime,
/// the staked total starts at zero. Provisioning the record's storage and
/// the two custody vaults — and rejecting a second pool for the same pair —
/// is the hosting environment's part.
pub fn initialize_pool(
    admin: AccountId,
    stake_mint: AccountId,
    reward_mint: AccountId,
    reward_rate_per_second: u64,
    bump: u8,
) -> (pool: Pool)
    ensures
        pool == new_pool(admin, stake_mint, reward_mint, reward_rate_per_second, bump),
        pool.total_staked == 0,
{
    Pool { admin, stake_mint, reward_mint, reward_rate_per_second, total_staked: 0, bump }
}

/// What depositing rewards decides: only the pool's administrator may fund
/// the reserve, and a successful deposit asks for exactly `amount` of reward
/// tokens moved into the reward vault, touching no ledger record.
pub open spec fn deposit_rewards_spec(pool: Pool, caller: AccountId, amount: u64) -> Result<
    TransferRequest,
    StakingError,
> {
    if caller == pool.admin {
        Ok(TransferRequest {
            direction: TransferDirection::AdminToRewardVault,
            amount: amount as u128,
            authority: TransferAuthority::Caller,
        })
    } else {
        Err(StakingError::Unauthorized)
    }
}

/// Fund the pool's reward reserve. Succeeds exactly when `caller` is the
/// pool's administrator; any other caller is `Unauthorized` and no transfer
/// is requested. No participant's pending rewards are touched: this only
/// provisions the reserve that future claims draw from.
pub fn deposit_rewards(pool: &Pool, caller: AccountId, amount: u64) -> (result: Result<
    TransferRequest,
    StakingError,
>)
    ensures
        result == deposit_rewards_spec(*pool, caller, amount),
{
    if caller == pool.admin {
        Ok(TransferRequest {
            direction: TransferDirection::AdminToRewardVault,
            amount: amount as u128,
            authority: TransferAuthority::Caller,
        })
    } else {
        Err(StakingError::Unauthorized)
    }
}

/// The zero-balance participant record that a first stake creates, settled
/// as of `now`.
pub open spec fn fresh_user_stake(owner: AccountId, bump: u8, now: i64) -> UserStake {
    UserStake { owner, amount_staked: 0, pending_rewards: 0, last_update: now, bump }
}

/// The participant record a stake operation acts on: the existing one, or a
/// freshly created zero-balance record for a first-time staker.
pub open spec fn stake_base_user(
    user: Option<UserStake>,
    owner: AccountId,
    user_bump: u8,
    now: i64,
) -> UserStake {
    match user {
        Some(existing) => existing,
        None => fresh_user_stake(owner, user_bump, now),
    }
}

/// The machine-limit bounds under which a stake runs without wrap-around:
/// settlement stays in range, and both the participant's balance and the
/// pool total have room for `amount`.
pub open spec fn stake_in_range(
    user: Option<UserStake>,
    pool: Pool,
    owner: AccountId,
    user_bump: u8,
    amount: u64,
    now: i64,
) -> bool {
    let base = stake_base_user(user, owner, user_bump, now);
    &&& accrual_in_range(base, pool, now)
    &&& base.amount_staked + amount <= u128::MAX
    &&& pool.total_staked + amount <= u128::MAX
}

/// What staking decides: a zero amount is rejected before anything else;
/// otherwise the participant (created on first touch) is settled to `now`,
/// and on success both their balance and the pool total grow by `amount` —
/// after settlement, so the new stake earns nothing for time before it was
/// deposited — and `amount` of stake tokens move into the stake vault under
/// the participant's own signature.
pub open spec fn stake_spec(
    user: Option<UserStake>,
    pool: Pool,
    owner: AccountId,
    user_bump: u8,
    amount: u64,
    now: i64,
) -> Result<(UserStake, Pool, TransferRequest), StakingError> {
    if amount == 0 {
        Err(StakingError::ZeroAmount)
    } else {
        match accrue(stake_base_user(user, owner, user_bump, now), pool, now) {
            Ok(settled) => Ok(
                (
                    UserStake {
                        amount_staked: (settled.amount_staked + amount) as u128,
                        last_update: now,
                        ..settled
                    },
                    Pool { total_staked: (pool.total_staked + amount) as u128, ..pool },
                    TransferRequest {
                        direction: TransferDirection::UserToStakeVault,
                        amount: amount as u128,
                        authority: TransferAuthority::Caller,
                    },
                ),
            ),
            Err(e) => Err(e),
        }
    }
}

/// Stake `amount` tokens for `owner`, exactly as [`stake_spec`] describes.
/// `user` is the participant's existing record, or `None` on their first
/// stake, in which case a zero-balance record is created settled at `now`.
pub fn stake(
    user: Option<UserStake>,
    pool: &Pool,
    owner: AccountId,
    user_bump: u8,
    amount: u64,
    now: i64,
) -> (result: Result<(UserStake, Pool, TransferRequest), StakingError>)
    requires
        amount > 0 ==> stake_in_range(user, *pool, owner, user_bump, amount, now),
    ensures
        result == stake_spec(user, *pool, owner, user_bump, amount, now),
{
    if amount == 0 {
        return Err(StakingError::ZeroAmount);
    }
    let mut settled: UserStake = match user {
        Some(existing) => existing,
        None => UserStake {
            owner,
            amount_staked: 0,
            pending_rewards: 0,
            last_update: now,
            bump: user_bump,
        },
    };
    match update_rewards(&mut settled, pool, now) {
        Ok(()) => {},
        Err(e) => {
            return Err(e);
        },
    }
    let new_user = UserStake {
        amount_staked: settled.amount_staked + amount as u128,
        last_update: now,
        ..settled
    };
    let new_pool = Pool { total_staked: pool.total_staked + amount as u128, ..*pool };
    Ok(
        (
            new_user,
            new_pool,
            TransferRequest {
                direction: TransferDirection::UserToStakeVault,
                amount: amount as u128,
                authority: TransferAuthority::Caller,
            },
        ),
    )
}

/// The machine-limit bound under which an unstake runs without wrap-around:
/// settlement stays in range, and the pool total covers whatever the
/// participant's balance covers — which the conservation invariant
/// guarantees, the total being the sum of all balances.
pub open spec fn unstake_in_range(user: UserStake, pool: Pool, amount: u64, now: i64) -> bool {
    &&& accrual_in_range(user, pool, now)
    &&& (amount <= user.amount_staked ==> amount <= pool.total_staked)
}

/// What unstaking decides: a zero amount is rejected first; an amount above
/// the participant's staked balance is rejected with `InsufficientFunds`,
/// never clamped; otherwise the participant is settled to `now` using the
/// balances as they stood before any reduction — never the reduced ones, so
/// the interval just elapsed is fully credited — and on success both their
/// balance and the pool total shrink by `amount`, and `amount` of stake
/// tokens move from the stake vault back to the participant under the
/// pool's self-derived authority.
pub open spec fn unstake_spec(user: UserStake, pool: Pool, amount: u64, now: i64) -> Result<
    (UserStake, Pool, TransferRequest),
    StakingError,
> {
    if amount == 0 {
        Err(StakingError::ZeroAmount)
    } else if user.amount_staked < amount {
        Err(StakingError::InsufficientFunds)
    } else {
        match accrue(user, pool, now) {
            Ok(settled) => Ok(
                (
                    UserStake {
                        amount_staked: (settled.amount_staked - amount) as u128,
                        last_update: now,
                        ..settled
                    },
                    Pool { total_staked: (pool.total_staked - amount) as u128, ..pool },
                    TransferRequest {
                        direction: TransferDirection::StakeVaultToUser,
                        amount: amount as u128,
                        authority: TransferAuthority::PoolDerived(pool.spec_vault_authority()),
                    },
                ),
            ),
            Err(e) => Err(e),
        }
    }
}

/// Unstake `amount` tokens, exactly as [`unstake_spec`] describes.
pub fn unstake(user: &UserStake, pool: &Pool, amount: u64, now: i64) -> (result: Result<
    (UserStake, Pool, TransferRequest),
    StakingError,
>)
    requires
        unstake_in_range(*user, *pool, amount, now),
    ensures
        result == unstake_spec(*user, *pool, amount, now),
{
    if amount == 0 {
        return Err(StakingError::ZeroAmount);
    }
    if user.amount_staked < amount as u128 {
        return Err(StakingError::InsufficientFunds);
    }
    let mut settled: UserStake = *user;
    match update_rewards(&mut settled, pool, now) {
        Ok(()) => {},
        Err(e) => {
            return Err(e);
        },
    }
    let new_user = UserStake {
        amount_staked: settled.amount_staked - amount as u128,
        last_update: now,
        ..settled
    };
    let new_pool = Pool { total_staked: pool.total_staked - amount as u128, ..*pool };
    Ok(
        (
            new_user,
            new_pool,
            TransferRequest {
                direction: TransferDirection::StakeVaultToUser,
                amount: amount as u128,
                authority: TransferAuthority::PoolDerived(pool.vault_authority()),
            },
        ),
    )
}

/// What claiming decides: the participant is settled to `now` first; if the
/// settled pending balance is zero the claim fails with `NoRewardsAccrued`;
/// otherwise the pending balance is reset to exactly zero and the full
/// settled amount moves from the reward vault to the participant under the
/// pool's self-derived authority, within the same atomic unit, so a failed
/// or retried transfer can never pay twice from an intermediate state.
pub open spec fn claim_rewards_spec(user: UserStake, pool: Pool, now: i64) -> Result<
    (UserStake, TransferRequest),
    StakingError,
> {
    match accrue(user, pool, now) {
        Ok(settled) => {
            if settled.pending_rewards == 0 {
                Err(StakingError::NoRewardsAccrued)
            } else {
                Ok(
                    (
                        UserStake { pending_rewards: 0, last_update: now, ..settled },
                        TransferRequest {
                            direction: TransferDirection::RewardVaultToUser,
                            amount: settled.pending_rewards,
                            authority: TransferAuthority::PoolDerived(pool.spec_vault_authority()),
                        },
                    ),
                )
            }
        },
        Err(e) => Err(e),
    }
}

/// Claim the participant's accrued rewards, exactly as
/// [`claim_rewards_spec`] describes. The pool record is not changed by a
/// claim: only the participant's pending balance and settlement time move.
pub fn claim_rewards(user: &UserStake, pool: &Pool, now: i64) -> (result: Result<
    (UserStake, TransferRequest),
    StakingError,
>)
    requires
        accrual_in_range(*user, *pool, now),
    ensures
        result == claim_rewards_spec(*user, *pool, now),
{
    let mut settled: UserStake = *user;
    match update_rewards(&mut settled, pool, now) {
        Ok(()) => {},
        Err(e) => {
            return Err(e);
        },
    }
    if settled.pending_rewards == 0 {
        return Err(StakingError::NoRewardsAccrued);
    }
    let amount: u128 = settled.pending_rewards;
    let new_user = UserStake { pending_rewards: 0, last_update: now, ..settled };
    Ok(
        (
            new_user,
            TransferRequest {
                direction: TransferDirection::RewardVaultToUser,
                amount,
                authority: TransferAuthority::PoolDerived(pool.vault_authority()),
            },
        ),
    )
}

} // verus!
