//! Tests of the five operation handlers: creation, funding, staking,
//! unstaking, claiming, their error paths, and conservation across a run of
//! operations.

use staking_rewards::errors::StakingError;
use staking_rewards::ops::{
    claim_rewards, deposit_rewards, initialize_pool, stake, unstake, TransferAuthority,
    TransferDirection, TransferRequest,
};
use staking_rewards::state::{AccountId, Pool, VaultAuthority};

fn admin() -> AccountId {
    AccountId { value: 1 }
}

fn alice() -> AccountId {
    AccountId { value: 10 }
}

fn bob() -> AccountId {
    AccountId { value: 11 }
}

fn fresh_pool(rate: u64) -> Pool {
    initialize_pool(
        admin(),
        AccountId { value: 2 },
        AccountId { value: 3 },
        rate,
        250,
    )
}

#[test]
fn initialize_pool_starts_empty() {
    let pool = fresh_pool(100);
    assert_eq!(pool.admin, admin());
    assert_eq!(pool.stake_mint, AccountId { value: 2 });
    assert_eq!(pool.reward_mint, AccountId { value: 3 });
    assert_eq!(pool.reward_rate_per_second, 100);
    assert_eq!(pool.total_staked, 0);
    assert_eq!(pool.bump, 250);
}

#[test]
fn deposit_rewards_by_admin_requests_transfer() {
    let pool = fresh_pool(100);
    let r = deposit_rewards(&pool, admin(), 5000);
    assert_eq!(
        r,
        Ok(TransferRequest {
            direction: TransferDirection::AdminToRewardVault,
            amount: 5000,
            authority: TransferAuthority::Caller,
        })
    );
}

#[test]
fn deposit_rewards_by_non_admin_unauthorized() {
    let pool = fresh_pool(100);
    let r = deposit_rewards(&pool, alice(), 5000);
    assert_eq!(r, Err(StakingError::Unauthorized));
}

#[test]
fn stake_zero_amount_rejected() {
    let pool = fresh_pool(100);
    assert_eq!(
        stake(None, &pool, alice(), 251, 0, 7),
        Err(StakingError::ZeroAmount)
    );
}

#[test]
fn first_stake_creates_record() {
    let pool = fresh_pool(100);
    let (user, pool, transfer) = stake(None, &pool, alice(), 251, 1000, 7).unwrap();
    assert_eq!(user.owner, alice());
    assert_eq!(user.amount_staked, 1000);
    assert_eq!(user.pending_rewards, 0);
    assert_eq!(user.last_update, 7);
    assert_eq!(user.bump, 251);
    assert_eq!(pool.total_staked, 1000);
    assert_eq!(
        transfer,
        TransferRequest {
            direction: TransferDirection::UserToStakeVault,
            amount: 1000,
            authority: TransferAuthority::Caller,
        }
    );
}

#[test]
fn stake_settles_before_balance_change() {
    // The new stake must not earn for time before it was deposited: the
    // settlement uses the old balance, then the balance grows.
    let pool = fresh_pool(100);
    let (user, pool, _) = stake(None, &pool, alice(), 251, 1000, 0).unwrap();
    let (user, pool, _) = stake(Some(user), &pool, alice(), 251, 500, 10).unwrap();
    // Settled for 10 seconds on the old balance: 1000 * 100 * 10 / 1000.
    assert_eq!(user.pending_rewards, 1000);
    assert_eq!(user.amount_staked, 1500);
    assert_eq!(user.last_update, 10);
    assert_eq!(pool.total_staked, 1500);
}

#[test]
fn unstake_zero_amount_rejected() {
    let pool = fresh_pool(100);
    let (user, pool, _) = stake(None, &pool, alice(), 251, 1000, 0).unwrap();
    assert_eq!(
        unstake(&user, &pool, 0, 5),
        Err(StakingError::ZeroAmount)
    );
}

#[test]
fn unstake_beyond_balance_insufficient_funds() {
    // Rejected, never clamped: no records and no transfer come back.
    let pool = fresh_pool(100);
    let (user, pool, _) = stake(None, &pool, alice(), 251, 1000, 0).unwrap();
    assert_eq!(
        unstake(&user, &pool, 1001, 5),
        Err(StakingError::InsufficientFunds)
    );
    // The inputs still carry the pre-operation state.
    assert_eq!(user.amount_staked, 1000);
    assert_eq!(pool.total_staked, 1000);
}

#[test]
fn unstake_settles_with_pre_reduction_balances() {
    // Accrual is settled on the balances before the reduction, so the
    // interval just elapsed is fully credited.
    let pool = fresh_pool(100);
    let (user, pool, _) = stake(None, &pool, alice(), 251, 1000, 0).unwrap();
    let (user, pool, transfer) = unstake(&user, &pool, 400, 10).unwrap();
    assert_eq!(user.pending_rewards, 1000);
    assert_eq!(user.amount_staked, 600);
    assert_eq!(user.last_update, 10);
    assert_eq!(pool.total_staked, 600);
    assert_eq!(transfer.direction, TransferDirection::StakeVaultToUser);
    assert_eq!(transfer.amount, 400);
    assert_eq!(
        transfer.authority,
        TransferAuthority::PoolDerived(pool.vault_authority())
    );
}

#[test]
fn vault_withdrawals_carry_the_pool_authority() {
    let pool = fresh_pool(100);
    let (user, pool, _) = stake(None, &pool, alice(), 251, 1000, 0).unwrap();
    let (_, transfer) = claim_rewards(&user, &pool, 10).unwrap();
    match transfer.authority {
        TransferAuthority::PoolDerived(authority) => {
            assert!(pool.authorizes(&authority));
            let foreign = VaultAuthority {
                stake_mint: authority.stake_mint,
                reward_mint: authority.reward_mint,
                bump: authority.bump.wrapping_add(1),
            };
            assert!(!pool.authorizes(&foreign));
        }
        TransferAuthority::Caller => panic!("a vault withdrawal must not be caller-signed"),
    }
}

#[test]
fn claim_pays_full_pending_and_zeroes_once() {
    // Single staker, rate 100/sec, 1000 staked, 10 seconds: the claim pays
    // 1000 and resets pending to zero; an immediate second claim fails.
    let pool = fresh_pool(100);
    let (user, pool, _) = stake(None, &pool, alice(), 251, 1000, 0).unwrap();
    let (user, transfer) = claim_rewards(&user, &pool, 10).unwrap();
    assert_eq!(transfer.amount, 1000);
    assert_eq!(transfer.direction, TransferDirection::RewardVaultToUser);
    assert_eq!(user.pending_rewards, 0);
    assert_eq!(user.last_update, 10);
    assert_eq!(
        claim_rewards(&user, &pool, 10),
        Err(StakingError::NoRewardsAccrued)
    );
}

#[test]
fn claim_with_nothing_pending_fails() {
    let pool = fresh_pool(100);
    let (user, pool, _) = stake(None, &pool, alice(), 251, 1000, 5).unwrap();
    assert_eq!(
        claim_rewards(&user, &pool, 5),
        Err(StakingError::NoRewardsAccrued)
    );
}

#[test]
fn two_stakers_split_the_emission() {
    // Alice stakes 1000 and Bob 3000 at the same instant (total 4000).
    // Ten seconds later each settles against the same total: Alice earns
    // 1000*100*10/4000 = 250, Bob 3000*100*10/4000 = 750 — together the
    // pool-level emission for the interval, 100 * 10.
    let pool = fresh_pool(100);
    let (alice, pool, _) = stake(None, &pool, alice(), 251, 1000, 0).unwrap();
    let (bob, pool, _) = stake(None, &pool, bob(), 252, 3000, 0).unwrap();
    assert_eq!(pool.total_staked, 4000);
    let (alice, a_pay) = claim_rewards(&alice, &pool, 10).unwrap();
    let (bob, b_pay) = claim_rewards(&bob, &pool, 10).unwrap();
    assert_eq!(a_pay.amount, 250);
    assert_eq!(b_pay.amount, 750);
    assert_eq!(a_pay.amount + b_pay.amount, 100 * 10);
    assert_eq!(alice.pending_rewards, 0);
    assert_eq!(bob.pending_rewards, 0);
}

#[test]
fn late_joiner_earns_at_prevailing_density() {
    // Bob joins ten seconds after Alice. He earns nothing for time before
    // his stake was deposited, and from his settlement on he earns at the
    // pool's current density: 3000*100*10/4000 = 750 for his ten seconds.
    let pool = fresh_pool(100);
    let (_alice, pool, _) = stake(None, &pool, alice(), 251, 1000, 0).unwrap();
    let (bob_rec, pool, _) = stake(None, &pool, bob(), 252, 3000, 10).unwrap();
    assert_eq!(bob_rec.pending_rewards, 0);
    let (_, b_pay) = claim_rewards(&bob_rec, &pool, 20).unwrap();
    assert_eq!(b_pay.amount, 750);
}

#[test]
fn conservation_across_operations() {
    // After every operation the pool total equals the sum of all
    // participants' staked balances.
    let pool = fresh_pool(100);
    let (alice, pool, _) = stake(None, &pool, alice(), 251, 1000, 0).unwrap();
    assert_eq!(pool.total_staked, alice.amount_staked);
    let (bob, pool, _) = stake(None, &pool, bob(), 252, 3000, 2).unwrap();
    assert_eq!(pool.total_staked, alice.amount_staked + bob.amount_staked);
    let (alice, pool, _) = unstake(&alice, &pool, 700, 4).unwrap();
    assert_eq!(pool.total_staked, alice.amount_staked + bob.amount_staked);
    let (bob, _) = claim_rewards(&bob, &pool, 6).unwrap();
    assert_eq!(pool.total_staked, alice.amount_staked + bob.amount_staked);
    let (alice, pool, _) = unstake(&alice, &pool, 300, 8).unwrap();
    assert_eq!(pool.total_staked, alice.amount_staked + bob.amount_staked);
    assert_eq!(alice.amount_staked, 0);
}

#[test]
fn drained_participant_stays_inert_but_valid() {
    // A participant may reach zero stake and zero pending and remain a
    // valid record: later settlement credits nothing.
    let pool = fresh_pool(100);
    let (user, pool, _) = stake(None, &pool, alice(), 251, 1000, 0).unwrap();
    let (user, pool, _) = unstake(&user, &pool, 1000, 10).unwrap();
    let (user, _) = claim_rewards(&user, &pool, 10).unwrap();
    assert_eq!(user.amount_staked, 0);
    assert_eq!(user.pending_rewards, 0);
    assert_eq!(
        claim_rewards(&user, &pool, 100),
        Err(StakingError::NoRewardsAccrued)
    );
}
