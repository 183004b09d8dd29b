//! The two ledger record kinds — the shared pool and the per-participant
//! stake — together with account identities and the pool's self-derived
//! vault authority.

use vstd::prelude::*;

verus! {

/// An opaque account identity: a participant, an administrator, or a token
/// kind. The engine only ever compares identities for equality; what an
/// identity resolves to is the hosting environment's concern.
#[derive(Clone, Copy, Debug, PartialEq, Eq, Structural)]
pub struct AccountId {
    /// The host-assigned identity value.
    pub value: u64,
}

/// The shared record of one staking pool: one per (stake token, reward
/// token) pair.
#[derive(Clone, Copy, Debug, PartialEq, Eq, Structural)]
pub struct Pool {
    /// The identity authorized to fund rewards; immutable after creation.
    pub admin: AccountId,
    /// The token kind participants stake; immutable after creation.
    pub stake_mint: AccountId,
    /// The token kind paid out as rewards; immutable after creation.
    pub reward_mint: AccountId,
    /// Reward units emitted per second across the whole pool, scaled by each
    /// participant's share of the total stake.
    pub reward_rate_per_second: u64,
    /// Sum of all participants' staked amounts; wide so that the accrual
    /// product has room before division narrows it back down.
    pub total_staked: u128,
    /// The derivation seed for the pool's vault authority; reproducible and
    /// unique per pool, opaque to the engine beyond that.
    pub bump: u8,
}

/// The per-(pool, participant) record of an individual's staked balance and
/// unclaimed reward balance. Created lazily on a participant's first stake,
/// never destroyed.
#[derive(Clone, Copy, Debug, PartialEq, Eq, Structural)]
pub struct UserStake {
    /// The participant identity; immutable after first creation.
    pub owner: AccountId,
    /// The participant's staked balance.
    pub amount_staked: u128,
    /// Reward owed but not yet claimed; grows only through accrual and is
    /// reset to exactly zero by a successful claim.
    pub pending_rewards: u128,
    /// Timestamp of the last accrual settlement.
    pub last_update: i64,
    /// The derivation seed of this record's address.
    pub bump: u8,
}

/// The pool's self-derived signing authority for outbound vault transfers.
/// It is a deterministic function of the pool's identity, never a stored or
/// transferable credential: only a value equal to the pool's own derivation
/// may authorize a withdrawal from a pool vault.
#[derive(Clone, Copy, Debug, PartialEq, Eq, Structural)]
pub struct VaultAuthority {
    /// The stake token of the deriving pool.
    pub stake_mint: AccountId,
    /// The reward token of the deriving pool.
    pub reward_mint: AccountId,
    /// The deriving pool's derivation seed.
    pub bump: u8,
}

impl Pool {
    /// The authority that this pool derives for its own vaults.
    pub open spec fn spec_vault_authority(self) -> VaultAuthority {
        VaultAuthority { stake_mint: self.stake_mint, reward_mint: self.reward_mint, bump: self.bump }
    }

    /// Re-derive the pool's vault authority.
    pub fn vault_authority(&self) -> (authority: VaultAuthority)
        ensures
            authority == self.spec_vault_authority(),
    {
        VaultAuthority { stake_mint: self.stake_mint, reward_mint: self.reward_mint, bump: self.bump }
    }

    /// Whether `authority` may sign a transfer out of this pool's vaults:
    /// exactly when it equals the pool's own derived authority.
    pub fn authorizes(&self, authority: &VaultAuthority) -> (granted: bool)
        ensures
            granted == (*authority == self.spec_vault_authority()),
    {
        self.stake_mint == authority.stake_mint
            && self.reward_mint == authority.reward_mint
            && self.bump == authority.bump
    }
}

} // verus!
