use vstd::prelude::*;
use crate::pubkey::Pubkey;

verus! {

/// A stored record together with the address it lives at.
pub struct Account<T> {
    pub key: Pubkey,
    pub data: T,
}

/// Global settings and running totals; one per deployment.
pub struct ProtocolConfig {
    /// Administrator allowed to change the fee.
    pub authority: Pubkey,
    /// Mint of the staking token.
    pub shade_mint: Pubkey,
    /// Token account that receives spend fees and pays out rewards.
    pub fee_vault: Pubkey,
    /// Token account that holds staked tokens.
    pub staking_vault: Pubkey,
    /// Fee charged on each spend, in basis points.
    pub fee_basis_points: u16,
    pub total_staked: u64,
    pub total_fees_collected: u64,
    pub total_fees_distributed: u64,
    pub bronze_threshold: u64,
    pub silver_threshold: u64,
    pub gold_threshold: u64,
    /// Cap multipliers, in hundredths of the base cap.
    pub bronze_cap_multiplier: u16,
    pub silver_cap_multiplier: u16,
    pub gold_cap_multiplier: u16,
    pub bump: u8,
}

/// One user's staking record.
pub struct Staker {
    pub user: Pubkey,
    pub staked_amount: u64,
    pub pending_rewards: u64,
    pub last_claim_timestamp: i64,
    /// 0 = none, 1 = bronze, 2 = silver, 3 = gold; always derived from `staked_amount`.
    pub tier: u8,
    pub bump: u8,
}

/// A shared liquidity reservoir. Its counters are bookkeeping; the vault's
/// balance is the live one.
pub struct FogPool {
    pub authority: Pubkey,
    pub vault: Pubkey,
    pub total_deposited: u64,
    pub total_spent: u64,
    pub total_fees_generated: u64,
    pub active_authorizations: u64,
    pub pool_seed: [u8; 32],
    pub bump: u8,
}

/// A capped, expiring, revocable permission to spend from one pool.
pub struct Authorization {
    pub fog_pool: Pubkey,
    pub authorized_spender: Pubkey,
    pub issuer: Pubkey,
    pub spending_cap: u64,
    pub amount_spent: u64,
    pub created_at: i64,
    pub expires_at: i64,
    pub purpose: String,
    pub is_active: bool,
    pub bump: u8,
}

impl Authorization {
    /// What is left to spend; zero once the cap is used up.
    pub open spec fn remaining(&self) -> int {
        self.spending_cap - self.amount_spent
    }

    /// The authorization never records more spent than its cap.
    pub open spec fn wf(&self) -> bool {
        self.amount_spent <= self.spending_cap
    }
}

} // verus!
