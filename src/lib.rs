//! Authorization-based finance: shared liquidity pools, capped and expiring
//! spending authorizations drawn against them, and a staking ledger that gates
//! authorization caps and shares protocol fees.
//!
//! Every operation is a single state transition over the accounts it names:
//! it either returns `Ok` with the accounts updated and the token transfers the
//! host must perform, or returns `Err` and leaves every account as it was.
//! Identities are compared by key; the current time is passed in.
mod authorization;
mod effects;
mod error;
mod fog;
mod laws;
mod policy;
mod protocol;
mod pubkey;
mod staking;
mod state;

pub use authorization::{
    create_authorization, revoke_authorization, spend, CreateAuthorization, RevokeAuthorization,
    Spend, MAX_PURPOSE_LEN,
};
pub use effects::{
    AuthorizationCreated, AuthorizationRevoked, DepositMade, FeeUpdated, FeesDistributed,
    FogPoolCreated, ProtocolInitialized, RewardsClaimed, SpendExecuted, Staked, TokenTransfer,
    TransferAuthority, Unstaked,
};
pub use error::ShadeError;
pub use fog::{deposit_to_fog, initialize_fog_pool, DepositToFog, InitializeFogPool};
pub use laws::{
    revoke_keeps_spent, revoke_twice_fails, spent_grows_within_cap, stake_unstake_round_trip,
};
pub use policy::{
    calculate_fee, calculate_share, calculate_tier, get_max_cap_for_tier, BASE_CAP, BASIS_POINTS,
    BRONZE_CAP_MULTIPLIER, BRONZE_THRESHOLD, GOLD_CAP_MULTIPLIER, GOLD_THRESHOLD,
    MAX_FEE_BASIS_POINTS, SILVER_CAP_MULTIPLIER, SILVER_THRESHOLD, UNTIERED_CAP_MULTIPLIER,
};
pub use protocol::{initialize_protocol, update_fee, InitializeProtocol, UpdateProtocol};
pub use pubkey::Pubkey;
pub use staking::{
    claim_rewards, distribute_fees, stake, unstake, ClaimRewards, DistributeFees, Stake, Unstake,
};
pub use state::{Account, Authorization, FogPool, ProtocolConfig, Staker};
