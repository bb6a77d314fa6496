use shade::{
    calculate_fee, calculate_share, calculate_tier, claim_rewards, create_authorization,
    deposit_to_fog, distribute_fees, get_max_cap_for_tier, initialize_fog_pool,
    initialize_protocol, revoke_authorization, spend, stake, unstake, update_fee, Account,
    Authorization, ClaimRewards, CreateAuthorization, DepositToFog, DistributeFees, FogPool,
    InitializeFogPool, InitializeProtocol, ProtocolConfig, Pubkey, RevokeAuthorization,
    ShadeError, Spend, Stake, Staker, TransferAuthority, Unstake, UpdateProtocol,
};

fn key(n: u8) -> Pubkey {
    Pubkey::new([n; 32])
}

const ADMIN: u8 = 1;
const FEE_VAULT: u8 = 2;
const STAKING_VAULT: u8 = 3;
const POOL: u8 = 4;
const POOL_VAULT: u8 = 5;
const ISSUER: u8 = 6;
const SPENDER: u8 = 7;
const RECIPIENT: u8 = 8;
const AUTH: u8 = 9;
const USER: u8 = 10;
const USER_TOKENS: u8 = 11;

fn config(fee: u16) -> ProtocolConfig {
    let ctx = InitializeProtocol {
        protocol_config: key(20),
        shade_mint: key(21),
        fee_vault: key(FEE_VAULT),
        staking_vault: key(STAKING_VAULT),
        authority: key(ADMIN),
        bump: 255,
    };
    initialize_protocol(&ctx, fee).unwrap().0
}

fn pool() -> FogPool {
    let ctx = InitializeFogPool { fog_pool: key(POOL), vault: key(POOL_VAULT), authority: key(ISSUER), bump: 254 };
    initialize_fog_pool(&ctx, [7u8; 32]).0
}

fn empty_staker() -> Staker {
    Staker {
        user: Pubkey::zero(),
        staked_amount: 0,
        pending_rewards: 0,
        last_claim_timestamp: 0,
        tier: 0,
        bump: 0,
    }
}

fn create_ctx(fee: u16, staker: Option<Staker>) -> CreateAuthorization {
    CreateAuthorization {
        authorization: key(AUTH),
        fog_pool: Account { key: key(POOL), data: pool() },
        protocol_config: Account { key: key(20), data: config(fee) },
        staker: staker.map(|s| Account { key: key(30), data: s }),
        spender: key(SPENDER),
        issuer: key(ISSUER),
        bump: 253,
    }
}

fn authorization(cap: u64, expires_at: i64) -> Authorization {
    let mut ctx = create_ctx(100, None);
    create_authorization(&mut ctx, cap, expires_at, "groceries".to_string(), 1000).unwrap().0
}

fn spend_ctx(fee: u16, auth: Authorization) -> Spend {
    Spend {
        authorization: Account { key: key(AUTH), data: auth },
        fog_pool: Account { key: key(POOL), data: pool() },
        protocol_config: Account { key: key(20), data: config(fee) },
        vault: key(POOL_VAULT),
        fee_vault: key(FEE_VAULT),
        recipient_token_account: key(RECIPIENT),
        spender: key(SPENDER),
    }
}

fn stake_ctx(cfg: ProtocolConfig, staker: Staker) -> Stake {
    Stake {
        protocol_config: Account { key: key(20), data: cfg },
        staker: Account { key: key(30), data: staker },
        staking_vault: key(STAKING_VAULT),
        user_shade_account: key(USER_TOKENS),
        user: key(USER),
        bump: 252,
    }
}

fn unstake_ctx(from: &Stake) -> Unstake {
    Unstake {
        protocol_config: Account { key: from.protocol_config.key, data: from.protocol_config.data.clone_config() },
        staker: Account { key: from.staker.key, data: copy_staker(&from.staker.data) },
        staking_vault: key(STAKING_VAULT),
        user_shade_account: key(USER_TOKENS),
        user: key(USER),
    }
}

fn copy_staker(s: &Staker) -> Staker {
    Staker {
        user: s.user,
        staked_amount: s.staked_amount,
        pending_rewards: s.pending_rewards,
        last_claim_timestamp: s.last_claim_timestamp,
        tier: s.tier,
        bump: s.bump,
    }
}

trait CloneConfig {
    fn clone_config(&self) -> ProtocolConfig;
}

impl CloneConfig for ProtocolConfig {
    fn clone_config(&self) -> ProtocolConfig {
        ProtocolConfig {
            authority: self.authority,
            shade_mint: self.shade_mint,
            fee_vault: self.fee_vault,
            staking_vault: self.staking_vault,
            fee_basis_points: self.fee_basis_points,
            total_staked: self.total_staked,
            total_fees_collected: self.total_fees_collected,
            total_fees_distributed: self.total_fees_distributed,
            bronze_threshold: self.bronze_threshold,
            silver_threshold: self.silver_threshold,
            gold_threshold: self.gold_threshold,
            bronze_cap_multiplier: self.bronze_cap_multiplier,
            silver_cap_multiplier: self.silver_cap_multiplier,
            gold_cap_multiplier: self.gold_cap_multiplier,
            bump: self.bump,
        }
    }
}

// ----- scenarios -----

#[test]
fn spend_one_percent_fee_scenario() {
    let mut ctx = spend_ctx(100, authorization(1_000_000, 5000));
    let (transfers, event) = spend(&mut ctx, 100_000, 2000).unwrap();
    assert_eq!(event.fee, 1_000);
    assert_eq!(event.net_amount, 99_000);
    assert_eq!(event.remaining, 900_000);
    assert_eq!(transfers.len(), 2);
    assert_eq!(transfers[0].amount, 99_000);
    assert_eq!(transfers[0].from, key(POOL_VAULT));
    assert_eq!(transfers[0].to, key(RECIPIENT));
    assert!(matches!(transfers[0].authority, TransferAuthority::FogPool));
    assert_eq!(transfers[1].amount, 1_000);
    assert_eq!(transfers[1].to, key(FEE_VAULT));
    assert_eq!(ctx.authorization.data.amount_spent, 100_000);
    assert_eq!(ctx.fog_pool.data.total_spent, 100_000);
    assert_eq!(ctx.fog_pool.data.total_fees_generated, 1_000);
    assert_eq!(ctx.protocol_config.data.total_fees_collected, 1_000);
}

#[test]
fn expiry_equal_to_now_is_invalid() {
    let mut ctx = create_ctx(100, None);
    let r = create_authorization(&mut ctx, 1_000, 1000, "x".to_string(), 1000);
    assert_eq!(r.err(), Some(ShadeError::InvalidExpiry));
    assert_eq!(ctx.fog_pool.data.active_authorizations, 0);
}

#[test]
fn non_staking_spender_is_held_to_half_the_base_cap() {
    // Half of the base cap of 1,000,000,000 is 500,000,000.
    let mut ctx = create_ctx(100, None);
    let r = create_authorization(&mut ctx, 500_000_001, 2000, "x".to_string(), 1000);
    assert_eq!(r.err(), Some(ShadeError::ExceedsTierLimit));
    let r = create_authorization(&mut ctx, 500_000_000, 2000, "x".to_string(), 1000);
    assert!(r.is_ok());
    assert_eq!(ctx.fog_pool.data.active_authorizations, 1);
}

#[test]
fn tier_zero_staker_limit_equals_non_staker_limit() {
    let mut with_record = create_ctx(100, Some(empty_staker()));
    let r = create_authorization(&mut with_record, 500_000_001, 2000, "x".to_string(), 1000);
    assert_eq!(r.err(), Some(ShadeError::ExceedsTierLimit));
    let mut gold = empty_staker();
    gold.tier = 3;
    let mut ctx = create_ctx(100, Some(gold));
    assert!(create_authorization(&mut ctx, 10_000_000_000, 2000, "x".to_string(), 1000).is_ok());
    let r = create_authorization(&mut ctx, 10_000_000_001, 2000, "x".to_string(), 1000);
    assert_eq!(r.err(), Some(ShadeError::ExceedsTierLimit));
}

#[test]
fn distribute_without_stakers_is_a_noop() {
    let mut cfg = config(100);
    cfg.total_fees_collected = 5_000;
    let mut staker = empty_staker();
    staker.user = key(USER);
    staker.staked_amount = 10;
    let mut ctx = DistributeFees {
        protocol_config: Account { key: key(20), data: cfg },
        staker: Account { key: key(30), data: staker },
    };
    let r = distribute_fees(&mut ctx).unwrap();
    assert!(r.is_none());
    assert_eq!(ctx.staker.data.pending_rewards, 0);
    assert_eq!(ctx.protocol_config.data.total_fees_collected, 5_000);
    assert_eq!(ctx.protocol_config.data.total_fees_distributed, 0);
}

// ----- concrete cases of the general properties -----

#[test]
fn spent_amount_grows_and_stops_at_cap() {
    let mut ctx = spend_ctx(100, authorization(1_000, 5000));
    let mut last = 0;
    for amount in [300u64, 0, 400, 300] {
        spend(&mut ctx, amount, 2000).unwrap();
        assert!(ctx.authorization.data.amount_spent >= last);
        assert!(ctx.authorization.data.amount_spent <= ctx.authorization.data.spending_cap);
        last = ctx.authorization.data.amount_spent;
    }
    assert_eq!(last, 1_000);
    assert!(ctx.authorization.data.is_active);
    let r = spend(&mut ctx, 1, 2000);
    assert_eq!(r.err(), Some(ShadeError::ExceedsSpendingCap));
    assert_eq!(ctx.authorization.data.amount_spent, 1_000);
}

#[test]
fn fee_and_net_add_up_to_amount() {
    for (fee_bps, amount) in [(0u16, 12_345u64), (1, 9_999), (37, 1_000_001), (1000, 7), (1000, u64::MAX / 2)] {
        let mut ctx = spend_ctx(fee_bps, authorization(1_000, 5000));
        ctx.authorization.data.spending_cap = u64::MAX;
        let (transfers, event) = spend(&mut ctx, amount, 2000).unwrap();
        assert_eq!(event.fee + event.net_amount, amount);
        let moved: u64 = transfers.iter().map(|t| t.amount).sum();
        assert_eq!(moved, amount);
        assert_eq!(transfers.len(), if event.fee > 0 { 2 } else { 1 });
    }
}

#[test]
fn tier_follows_stake_after_each_change() {
    let mut ctx = stake_ctx(config(100), empty_staker());
    for amount in [99_999_999u64, 1, 900_000_000, 9_000_000_000] {
        let (_, event) = stake(&mut ctx, amount, 50).unwrap();
        let expected = calculate_tier(ctx.staker.data.staked_amount, &ctx.protocol_config.data);
        assert_eq!(ctx.staker.data.tier, expected);
        assert_eq!(event.tier, expected);
    }
    assert_eq!(ctx.staker.data.tier, 3);
    let mut back = unstake_ctx(&ctx);
    for (amount, tier) in [(1u64, 2u8), (9_000_000_000, 1), (900_000_000, 0)] {
        unstake(&mut back, amount).unwrap();
        assert_eq!(back.staker.data.tier, tier);
        assert_eq!(back.staker.data.tier, calculate_tier(back.staker.data.staked_amount, &back.protocol_config.data));
    }
}

#[test]
fn second_revoke_fails_and_changes_nothing() {
    let mut p = pool();
    p.active_authorizations = 1;
    let mut ctx = RevokeAuthorization {
        authorization: Account { key: key(AUTH), data: authorization(1_000, 5000) },
        fog_pool: Account { key: key(POOL), data: p },
        issuer: key(ISSUER),
    };
    let event = revoke_authorization(&mut ctx).unwrap();
    assert_eq!(event.revoked_by, key(ISSUER));
    assert!(!ctx.authorization.data.is_active);
    assert_eq!(ctx.fog_pool.data.active_authorizations, 0);
    let r = revoke_authorization(&mut ctx);
    assert_eq!(r.err(), Some(ShadeError::AuthorizationInactive));
    assert!(!ctx.authorization.data.is_active);
    assert_eq!(ctx.fog_pool.data.active_authorizations, 0);
}

#[test]
fn stake_then_unstake_returns_to_start() {
    let mut cfg = config(100);
    cfg.total_staked = 777;
    let mut ctx = stake_ctx(cfg, empty_staker());
    let (transfer, event) = stake(&mut ctx, 2_000_000_000, 60).unwrap();
    assert_eq!(event.tier, 2);
    assert_eq!(transfer.from, key(USER_TOKENS));
    assert_eq!(transfer.to, key(STAKING_VAULT));
    assert_eq!(ctx.protocol_config.data.total_staked, 2_000_000_777);
    assert_eq!(ctx.staker.data.user, key(USER));
    assert_eq!(ctx.staker.data.last_claim_timestamp, 60);
    let mut back = unstake_ctx(&ctx);
    let (transfer, event) = unstake(&mut back, 2_000_000_000).unwrap();
    assert_eq!(event.tier, 0);
    assert_eq!(event.remaining, 0);
    assert!(matches!(transfer.authority, TransferAuthority::ProtocolConfig));
    assert_eq!(back.staker.data.tier, 0);
    assert_eq!(back.protocol_config.data.total_staked, 777);
}

// ----- formulas -----

#[test]
fn tier_thresholds_resolve_upward() {
    let cfg = config(0);
    assert_eq!(calculate_tier(0, &cfg), 0);
    assert_eq!(calculate_tier(99_999_999, &cfg), 0);
    assert_eq!(calculate_tier(100_000_000, &cfg), 1);
    assert_eq!(calculate_tier(1_000_000_000, &cfg), 2);
    assert_eq!(calculate_tier(10_000_000_000, &cfg), 3);
    assert_eq!(calculate_tier(u64::MAX, &cfg), 3);
}

#[test]
fn max_cap_per_tier() {
    let cfg = config(0);
    assert_eq!(get_max_cap_for_tier(0, &cfg), 500_000_000);
    assert_eq!(get_max_cap_for_tier(1, &cfg), 1_000_000_000);
    assert_eq!(get_max_cap_for_tier(2, &cfg), 5_000_000_000);
    assert_eq!(get_max_cap_for_tier(3, &cfg), 10_000_000_000);
    assert_eq!(get_max_cap_for_tier(200, &cfg), 500_000_000);
}

#[test]
fn fee_rounds_down() {
    assert_eq!(calculate_fee(100_000, 100), 1_000);
    assert_eq!(calculate_fee(99, 100), 0);
    assert_eq!(calculate_fee(19_999, 5), 9);
    assert_eq!(calculate_fee(u64::MAX, 1000), (u64::MAX as u128) / 10);
}

#[test]
fn share_is_proportional_and_rounds_down() {
    assert_eq!(calculate_share(1_000, 1, 3), Some(333));
    assert_eq!(calculate_share(1_000, 3, 3), Some(1_000));
    assert_eq!(calculate_share(u64::MAX, u64::MAX, u64::MAX), Some(u64::MAX));
    assert_eq!(calculate_share(u64::MAX, 2, 1), None);
}

#[test]
fn distribute_credits_proportional_share() {
    let mut cfg = config(100);
    cfg.total_staked = 400;
    cfg.total_fees_collected = 1_000;
    cfg.total_fees_distributed = 200;
    let mut staker = empty_staker();
    staker.user = key(USER);
    staker.staked_amount = 100;
    staker.pending_rewards = 5;
    let mut ctx = DistributeFees {
        protocol_config: Account { key: key(20), data: cfg },
        staker: Account { key: key(30), data: staker },
    };
    let event = distribute_fees(&mut ctx).unwrap().unwrap();
    assert_eq!(event.amount, 200);
    assert_eq!(event.staker, key(USER));
    assert_eq!(ctx.staker.data.pending_rewards, 205);
    assert_eq!(ctx.protocol_config.data.total_fees_distributed, 200);
}

#[test]
fn distribute_share_rounding_to_zero_is_a_noop() {
    let mut cfg = config(100);
    cfg.total_staked = 1_000;
    cfg.total_fees_collected = 3;
    let mut staker = empty_staker();
    staker.user = key(USER);
    staker.staked_amount = 1;
    let mut ctx = DistributeFees {
        protocol_config: Account { key: key(20), data: cfg },
        staker: Account { key: key(30), data: staker },
    };
    assert!(distribute_fees(&mut ctx).unwrap().is_none());
    assert_eq!(ctx.staker.data.pending_rewards, 0);
}

#[test]
fn claim_pays_pending_and_counts_it_distributed() {
    let mut cfg = config(100);
    cfg.total_fees_distributed = 10;
    let mut staker = empty_staker();
    staker.user = key(USER);
    staker.pending_rewards = 250;
    let mut ctx = ClaimRewards {
        protocol_config: Account { key: key(20), data: cfg },
        staker: Account { key: key(30), data: staker },
        fee_vault: key(FEE_VAULT),
        user_token_account: key(USER_TOKENS),
        user: key(USER),
    };
    let (transfer, event) = claim_rewards(&mut ctx, 99).unwrap();
    assert_eq!(transfer.amount, 250);
    assert_eq!(transfer.from, key(FEE_VAULT));
    assert_eq!(event.amount, 250);
    assert_eq!(ctx.staker.data.pending_rewards, 0);
    assert_eq!(ctx.staker.data.last_claim_timestamp, 99);
    assert_eq!(ctx.protocol_config.data.total_fees_distributed, 260);
    assert_eq!(claim_rewards(&mut ctx, 100).err(), Some(ShadeError::NoRewardsToClaim));
}

#[test]
fn deposit_adds_to_pool() {
    let mut ctx = DepositToFog {
        fog_pool: Account { key: key(POOL), data: pool() },
        vault: key(POOL_VAULT),
        depositor_token_account: key(USER_TOKENS),
        depositor: key(USER),
    };
    let (transfer, event) = deposit_to_fog(&mut ctx, 5_000).unwrap();
    assert_eq!(transfer.to, key(POOL_VAULT));
    assert!(matches!(transfer.authority, TransferAuthority::Wallet(k) if k == key(USER)));
    assert_eq!(event.amount, 5_000);
    assert_eq!(ctx.fog_pool.data.total_deposited, 5_000);
    ctx.fog_pool.data.total_deposited = u64::MAX;
    assert_eq!(deposit_to_fog(&mut ctx, 1).err(), Some(ShadeError::Overflow));
    assert_eq!(deposit_to_fog(&mut ctx, 0).err(), Some(ShadeError::InvalidAmount));
    ctx.vault = key(99);
    assert_eq!(deposit_to_fog(&mut ctx, 1).err(), Some(ShadeError::InvalidAccount));
}

#[test]
fn protocol_bootstrap_and_fee_update() {
    let cfg = config(1000);
    assert_eq!(cfg.fee_basis_points, 1000);
    assert_eq!(cfg.bronze_threshold, 100_000_000);
    assert_eq!(cfg.gold_cap_multiplier, 1000);
    assert_eq!(cfg.total_staked, 0);
    let ctx = InitializeProtocol {
        protocol_config: key(20),
        shade_mint: key(21),
        fee_vault: key(FEE_VAULT),
        staking_vault: key(STAKING_VAULT),
        authority: key(ADMIN),
        bump: 255,
    };
    assert_eq!(initialize_protocol(&ctx, 1001).err(), Some(ShadeError::FeeTooHigh));
    let mut up = UpdateProtocol { protocol_config: Account { key: key(20), data: cfg }, authority: key(ADMIN) };
    let event = update_fee(&mut up, 25).unwrap();
    assert_eq!((event.old_fee, event.new_fee), (1000, 25));
    assert_eq!(up.protocol_config.data.fee_basis_points, 25);
    assert_eq!(update_fee(&mut up, 1001).err(), Some(ShadeError::FeeTooHigh));
    up.authority = key(99);
    assert_eq!(update_fee(&mut up, 10).err(), Some(ShadeError::Unauthorized));
    assert_eq!(up.protocol_config.data.fee_basis_points, 25);
}

// ----- errors -----

#[test]
fn create_authorization_errors() {
    let mut ctx = create_ctx(100, None);
    let long: String = std::iter::repeat('a').take(65).collect();
    assert_eq!(create_authorization(&mut ctx, 0, 2000, "x".to_string(), 1000).err(), Some(ShadeError::InvalidAmount));
    assert_eq!(create_authorization(&mut ctx, 10, 2000, long, 1000).err(), Some(ShadeError::PurposeTooLong));
    let exact: String = std::iter::repeat('a').take(64).collect();
    let (auth, event) = create_authorization(&mut ctx, 10, 2000, exact, 1000).unwrap();
    assert_eq!(auth.purpose.len(), 64);
    assert_eq!(event.purpose, auth.purpose);
    assert_eq!(auth.amount_spent, 0);
    assert!(auth.is_active);
    assert_eq!(auth.created_at, 1000);
    ctx.fog_pool.data.active_authorizations = u64::MAX;
    assert_eq!(create_authorization(&mut ctx, 10, 2000, "x".to_string(), 1000).err(), Some(ShadeError::Overflow));
    ctx.issuer = key(99);
    assert_eq!(create_authorization(&mut ctx, 10, 2000, "x".to_string(), 1000).err(), Some(ShadeError::Unauthorized));
}

#[test]
fn spend_errors() {
    let mut ctx = spend_ctx(100, authorization(1_000, 5000));
    assert_eq!(spend(&mut ctx, 1, 5000).err(), Some(ShadeError::AuthorizationExpired));
    assert_eq!(spend(&mut ctx, 1_001, 2000).err(), Some(ShadeError::ExceedsSpendingCap));
    ctx.protocol_config.data.total_fees_collected = u64::MAX;
    assert_eq!(spend(&mut ctx, 500, 2000).err(), Some(ShadeError::Overflow));
    ctx.protocol_config.data.total_fees_collected = 0;
    ctx.fee_vault = key(99);
    assert_eq!(spend(&mut ctx, 500, 2000).err(), Some(ShadeError::InvalidAccount));
    ctx.fee_vault = key(FEE_VAULT);
    ctx.spender = key(99);
    assert_eq!(spend(&mut ctx, 500, 2000).err(), Some(ShadeError::Unauthorized));
    ctx.spender = key(SPENDER);
    ctx.authorization.data.is_active = false;
    assert_eq!(spend(&mut ctx, 500, 2000).err(), Some(ShadeError::AuthorizationInactive));
    assert_eq!(ctx.authorization.data.amount_spent, 0);
    assert_eq!(ctx.fog_pool.data.total_spent, 0);
}

#[test]
fn staking_errors() {
    let mut ctx = stake_ctx(config(100), empty_staker());
    assert_eq!(stake(&mut ctx, 0, 1).err(), Some(ShadeError::InvalidAmount));
    stake(&mut ctx, 10, 1).unwrap();
    assert_eq!(stake(&mut ctx, u64::MAX, 1).err(), Some(ShadeError::Overflow));
    let mut back = unstake_ctx(&ctx);
    assert_eq!(unstake(&mut back, 11).err(), Some(ShadeError::InsufficientStake));
    back.user = key(99);
    assert_eq!(unstake(&mut back, 1).err(), Some(ShadeError::Unauthorized));
    let mut d = DistributeFees {
        protocol_config: Account { key: key(20), data: back.protocol_config.data.clone_config() },
        staker: Account { key: key(31), data: empty_staker() },
    };
    assert_eq!(distribute_fees(&mut d).err(), Some(ShadeError::NotStaking));
}

#[test]
fn error_messages() {
    assert_eq!(ShadeError::FeeTooHigh.message(), "Fee too high (max 10%)");
    assert_eq!(ShadeError::NotStaking.message(), "User is not staking");
}
