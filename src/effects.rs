use vstd::prelude::*;
use crate::pubkey::Pubkey;

verus! {

/// Who signs a token transfer.
#[derive(Clone, Copy, Debug)]
pub enum TransferAuthority {
    /// The user's own wallet.
    Wallet(Pubkey),
    /// The protocol configuration account, which owns the fee and staking vaults.
    ProtocolConfig,
    /// The pool account, which owns its vault.
    FogPool,
}

/// A token transfer that the host performs as part of an operation, all or nothing.
#[derive(Clone, Copy, Debug)]
pub struct TokenTransfer {
    pub from: Pubkey,
    pub to: Pubkey,
    pub authority: TransferAuthority,
    pub amount: u64,
}

#[derive(Clone, Copy, Debug)]
pub struct ProtocolInitialized {
    pub config: Pubkey,
    pub authority: Pubkey,
    pub fee_basis_points: u16,
}

#[derive(Clone, Copy, Debug)]
pub struct FeeUpdated {
    pub old_fee: u16,
    pub new_fee: u16,
}

#[derive(Clone, Copy, Debug)]
pub struct Staked {
    pub user: Pubkey,
    pub amount: u64,
    pub new_total: u64,
    pub tier: u8,
}

#[derive(Clone, Copy, Debug)]
pub struct Unstaked {
    pub user: Pubkey,
    pub amount: u64,
    pub remaining: u64,
    pub tier: u8,
}

#[derive(Clone, Copy, Debug)]
pub struct RewardsClaimed {
    pub user: Pubkey,
    pub amount: u64,
}

#[derive(Clone, Copy, Debug)]
pub struct FeesDistributed {
    pub staker: Pubkey,
    pub amount: u64,
}

#[derive(Clone, Copy, Debug)]
pub struct FogPoolCreated {
    pub pool: Pubkey,
    pub authority: Pubkey,
    pub vault: Pubkey,
}

#[derive(Clone, Copy, Debug)]
pub struct DepositMade {
    pub pool: Pubkey,
    pub depositor: Pubkey,
    pub amount: u64,
}

#[derive(Debug)]
pub struct AuthorizationCreated {
    pub authorization: Pubkey,
    pub fog_pool: Pubkey,
    pub spender: Pubkey,
    pub issuer: Pubkey,
    pub spending_cap: u64,
    pub expires_at: i64,
    pub purpose: String,
}

#[derive(Clone, Copy, Debug)]
pub struct SpendExecuted {
    pub authorization: Pubkey,
    pub fog_pool: Pubkey,
    pub spender: Pubkey,
    pub recipient: Pubkey,
    pub amount: u64,
    pub fee: u64,
    pub net_amount: u64,
    pub remaining: u64,
}

#[derive(Clone, Copy, Debug)]
pub struct AuthorizationRevoked {
    pub authorization: Pubkey,
    pub fog_pool: Pubkey,
    pub revoked_by: Pubkey,
}

} // verus!
