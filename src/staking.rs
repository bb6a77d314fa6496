use vstd::prelude::*;
use crate::effects::{
    FeesDistributed, RewardsClaimed, Staked, TokenTransfer, TransferAuthority, Unstaked,
};
use crate::error::ShadeError;
use crate::policy::{calculate_share, calculate_tier, share_for};
use crate::pubkey::Pubkey;
use crate::state::{Account, ProtocolConfig, Staker};

verus! {

/// Undistributed fees: collected but not yet claimed, floored at zero.
pub open spec fn undistributed(cfg: ProtocolConfig) -> u64 {
    if cfg.total_fees_collected >= cfg.total_fees_distributed {
        (cfg.total_fees_collected - cfg.total_fees_distributed) as u64
    } else {
        0
    }
}

// ---------------------------------------------------------------------------
// stake
// ---------------------------------------------------------------------------

/// The accounts that staking reads and writes.
pub struct Stake {
    pub protocol_config: Account<ProtocolConfig>,
    /// The user's staking record; all zero before the first stake.
    pub staker: Account<Staker>,
    pub staking_vault: Pubkey,
    /// The user's token account, which pays.
    pub user_shade_account: Pubkey,
    /// The caller.
    pub user: Pubkey,
    pub bump: u8,
}

impl Stake {
    /// The record that the stake is added to: the stored one, or a fresh one
    /// for the user when none was filled in yet.
    pub open spec fn base_record(self, now: i64) -> Staker {
        if self.staker.data.user.is_zero_spec() {
            Staker {
                user: self.user,
                staked_amount: 0,
                pending_rewards: 0,
                last_claim_timestamp: now,
                bump: self.bump,
                ..self.staker.data
            }
        } else {
            self.staker.data
        }
    }

    /// Why staking `amount` fails, if it does.
    pub open spec fn stake_error(self, amount: u64, now: i64) -> Option<ShadeError> {
        if self.staking_vault != self.protocol_config.data.staking_vault {
            Some(ShadeError::InvalidAccount)
        } else if amount == 0 {
            Some(ShadeError::InvalidAmount)
        } else if self.base_record(now).staked_amount + amount > u64::MAX
            || self.protocol_config.data.total_staked + amount > u64::MAX {
            Some(ShadeError::Overflow)
        } else {
            None
        }
    }

    /// The accounts after staking `amount`: the stake and the protocol total
    /// grow by `amount`, and the tier follows the new stake.
    pub open spec fn after_stake(self, amount: u64, now: i64) -> Stake {
        let base = self.base_record(now);
        let staked = (base.staked_amount + amount) as u64;
        Stake {
            staker: Account {
                data: Staker {
                    staked_amount: staked,
                    tier: self.protocol_config.data.tier_of(staked),
                    ..base
                },
                ..self.staker
            },
            protocol_config: Account {
                data: ProtocolConfig {
                    total_staked: (self.protocol_config.data.total_staked + amount) as u64,
                    ..self.protocol_config.data
                },
                ..self.protocol_config
            },
            ..self
        }
    }
}

/// Stakes `amount` of the user's tokens at time `now`, creating the user's
/// record on the first stake. The tokens move from the user's account to the
/// staking vault.
pub fn stake(ctx: &mut Stake, amount: u64, now: i64) -> (r: Result<
    (TokenTransfer, Staked),
    ShadeError,
>)
    ensures
        match r {
            Ok((transfer, event)) => {
                &&& old(ctx).stake_error(amount, now) is None
                &&& *final(ctx) == old(ctx).after_stake(amount, now)
                &&& final(ctx).staker.data.tier == final(ctx).protocol_config.data.tier_of(
                    final(ctx).staker.data.staked_amount,
                )
                &&& transfer == (TokenTransfer {
                    from: old(ctx).user_shade_account,
                    to: old(ctx).staking_vault,
                    authority: TransferAuthority::Wallet(old(ctx).user),
                    amount,
                })
                &&& event == (Staked {
                    user: old(ctx).user,
                    amount,
                    new_total: final(ctx).staker.data.staked_amount,
                    tier: final(ctx).staker.data.tier,
                })
            },
            Err(e) => {
                &&& old(ctx).stake_error(amount, now) == Some(e)
                &&& *final(ctx) == *old(ctx)
            },
        },
{
    if !ctx.staking_vault.same_as(&ctx.protocol_config.data.staking_vault) {
        return Err(ShadeError::InvalidAccount);
    }
    if amount == 0 {
        return Err(ShadeError::InvalidAmount);
    }
    let fresh = ctx.staker.data.user.is_zero();
    let base_staked: u64 = if fresh {
        0
    } else {
        ctx.staker.data.staked_amount
    };
    let staked = match base_staked.checked_add(amount) {
        Some(v) => v,
        None => return Err(ShadeError::Overflow),
    };
    let total_staked = match ctx.protocol_config.data.total_staked.checked_add(amount) {
        Some(v) => v,
        None => return Err(ShadeError::Overflow),
    };
    if fresh {
        ctx.staker.data.user = ctx.user;
        ctx.staker.data.pending_rewards = 0;
        ctx.staker.data.last_claim_timestamp = now;
        ctx.staker.data.bump = ctx.bump;
    }
    ctx.staker.data.staked_amount = staked;
    ctx.staker.data.tier = calculate_tier(staked, &ctx.protocol_config.data);
    ctx.protocol_config.data.total_staked = total_staked;
    let transfer = TokenTransfer {
        from: ctx.user_shade_account,
        to: ctx.staking_vault,
        authority: TransferAuthority::Wallet(ctx.user),
        amount,
    };
    let event = Staked {
        user: ctx.user,
        amount,
        new_total: ctx.staker.data.staked_amount,
        tier: ctx.staker.data.tier,
    };
    Ok((transfer, event))
}

// ---------------------------------------------------------------------------
// unstake
// ---------------------------------------------------------------------------

/// The accounts that unstaking reads and writes.
pub struct Unstake {
    pub protocol_config: Account<ProtocolConfig>,
    pub staker: Account<Staker>,
    pub staking_vault: Pubkey,
    /// The user's token account, which receives the tokens.
    pub user_shade_account: Pubkey,
    /// The caller.
    pub user: Pubkey,
}

impl Unstake {
    /// Why unstaking `amount` fails, if it does.
    pub open spec fn unstake_error(self, amount: u64) -> Option<ShadeError> {
        if self.staker.data.user != self.user {
            Some(ShadeError::Unauthorized)
        } else if self.staking_vault != self.protocol_config.data.staking_vault {
            Some(ShadeError::InvalidAccount)
        } else if amount == 0 {
            Some(ShadeError::InvalidAmount)
        } else if amount > self.staker.data.staked_amount {
            Some(ShadeError::InsufficientStake)
        } else {
            None
        }
    }

    /// The accounts after unstaking `amount`: the stake shrinks by `amount`,
    /// the tier follows it, and the protocol total shrinks, floored at zero.
    pub open spec fn after_unstake(self, amount: u64) -> Unstake {
        let staked = (self.staker.data.staked_amount - amount) as u64;
        let total = self.protocol_config.data.total_staked;
        Unstake {
            staker: Account {
                data: Staker {
                    staked_amount: staked,
                    tier: self.protocol_config.data.tier_of(staked),
                    ..self.staker.data
                },
                ..self.staker
            },
            protocol_config: Account {
                data: ProtocolConfig {
                    total_staked: if total >= amount {
                        (total - amount) as u64
                    } else {
                        0
                    },
                    ..self.protocol_config.data
                },
                ..self.protocol_config
            },
            ..self
        }
    }
}

/// Unstakes `amount`; the tokens move from the staking vault back to the
/// user's account, signed by the protocol configuration account.
pub fn unstake(ctx: &mut Unstake, amount: u64) -> (r: Result<(TokenTransfer, Unstaked), ShadeError>)
    ensures
        match r {
            Ok((transfer, event)) => {
                &&& old(ctx).unstake_error(amount) is None
                &&& *final(ctx) == old(ctx).after_unstake(amount)
                &&& final(ctx).staker.data.tier == final(ctx).protocol_config.data.tier_of(
                    final(ctx).staker.data.staked_amount,
                )
                &&& transfer == (TokenTransfer {
                    from: old(ctx).staking_vault,
                    to: old(ctx).user_shade_account,
                    authority: TransferAuthority::ProtocolConfig,
                    amount,
                })
                &&& event == (Unstaked {
                    user: old(ctx).user,
                    amount,
                    remaining: final(ctx).staker.data.staked_amount,
                    tier: final(ctx).staker.data.tier,
                })
            },
            Err(e) => {
                &&& old(ctx).unstake_error(amount) == Some(e)
                &&& *final(ctx) == *old(ctx)
            },
        },
{
    if !ctx.staker.data.user.same_as(&ctx.user) {
        return Err(ShadeError::Unauthorized);
    }
    if !ctx.staking_vault.same_as(&ctx.protocol_config.data.staking_vault) {
        return Err(ShadeError::InvalidAccount);
    }
    if amount == 0 {
        return Err(ShadeError::InvalidAmount);
    }
    if amount > ctx.staker.data.staked_amount {
        return Err(ShadeError::InsufficientStake);
    }
    let staked: u64 = ctx.staker.data.staked_amount - amount;
    ctx.staker.data.staked_amount = staked;
    ctx.staker.data.tier = calculate_tier(staked, &ctx.protocol_config.data);
    ctx.protocol_config.data.total_staked = ctx.protocol_config.data.total_staked.saturating_sub(
        amount,
    );
    let transfer = TokenTransfer {
        from: ctx.staking_vault,
        to: ctx.user_shade_account,
        authority: TransferAuthority::ProtocolConfig,
        amount,
    };
    let event = Unstaked {
        user: ctx.user,
        amount,
        remaining: ctx.staker.data.staked_amount,
        tier: ctx.staker.data.tier,
    };
    Ok((transfer, event))
}

// ---------------------------------------------------------------------------
// claim_rewards
// ---------------------------------------------------------------------------

/// The accounts that claiming reads and writes.
pub struct ClaimRewards {
    pub protocol_config: Account<ProtocolConfig>,
    pub staker: Account<Staker>,
    pub fee_vault: Pubkey,
    /// The user's token account, which receives the rewards.
    pub user_token_account: Pubkey,
    /// The caller.
    pub user: Pubkey,
}

impl ClaimRewards {
    /// Why claiming fails, if it does.
    pub open spec fn claim_error(self) -> Option<ShadeError> {
        let pending = self.staker.data.pending_rewards;
        if self.staker.data.user != self.user {
            Some(ShadeError::Unauthorized)
        } else if self.fee_vault != self.protocol_config.data.fee_vault {
            Some(ShadeError::InvalidAccount)
        } else if pending == 0 {
            Some(ShadeError::NoRewardsToClaim)
        } else if self.protocol_config.data.total_fees_distributed + pending > u64::MAX {
            Some(ShadeError::Overflow)
        } else {
            None
        }
    }

    /// The accounts after a claim at time `now`: nothing pending, and the
    /// claimed amount counted as distributed.
    pub open spec fn after_claim(self, now: i64) -> ClaimRewards {
        ClaimRewards {
            staker: Account {
                data: Staker {
                    pending_rewards: 0,
                    last_claim_timestamp: now,
                    ..self.staker.data
                },
                ..self.staker
            },
            protocol_config: Account {
                data: ProtocolConfig {
                    total_fees_distributed: (self.protocol_config.data.total_fees_distributed
                        + self.staker.data.pending_rewards) as u64,
                    ..self.protocol_config.data
                },
                ..self.protocol_config
            },
            ..self
        }
    }
}

/// Pays out all pending rewards at time `now`, from the fee vault to the
/// user's account, signed by the protocol configuration account.
pub fn claim_rewards(ctx: &mut ClaimRewards, now: i64) -> (r: Result<
    (TokenTransfer, RewardsClaimed),
    ShadeError,
>)
    ensures
        match r {
            Ok((transfer, event)) => {
                &&& old(ctx).claim_error() is None
                &&& *final(ctx) == old(ctx).after_claim(now)
                &&& transfer == (TokenTransfer {
                    from: old(ctx).fee_vault,
                    to: old(ctx).user_token_account,
                    authority: TransferAuthority::ProtocolConfig,
                    amount: old(ctx).staker.data.pending_rewards,
                })
                &&& event == (RewardsClaimed {
                    user: old(ctx).user,
                    amount: old(ctx).staker.data.pending_rewards,
                })
            },
            Err(e) => {
                &&& old(ctx).claim_error() == Some(e)
                &&& *final(ctx) == *old(ctx)
            },
        },
{
    if !ctx.staker.data.user.same_as(&ctx.user) {
        return Err(ShadeError::Unauthorized);
    }
    if !ctx.fee_vault.same_as(&ctx.protocol_config.data.fee_vault) {
        return Err(ShadeError::InvalidAccount);
    }
    let pending = ctx.staker.data.pending_rewards;
    if pending == 0 {
        return Err(ShadeError::NoRewardsToClaim);
    }
    let distributed = match ctx.protocol_config.data.total_fees_distributed.checked_add(pending) {
        Some(v) => v,
        None => return Err(ShadeError::Overflow),
    };
    ctx.staker.data.pending_rewards = 0;
    ctx.staker.data.last_claim_timestamp = now;
    ctx.protocol_config.data.total_fees_distributed = distributed;
    let transfer = TokenTransfer {
        from: ctx.fee_vault,
        to: ctx.user_token_account,
        authority: TransferAuthority::ProtocolConfig,
        amount: pending,
    };
    Ok((transfer, RewardsClaimed { user: ctx.user, amount: pending }))
}

// ---------------------------------------------------------------------------
// distribute_fees
// ---------------------------------------------------------------------------

/// The accounts that a distribution reads and writes.
pub struct DistributeFees {
    pub protocol_config: Account<ProtocolConfig>,
    pub staker: Account<Staker>,
}

impl DistributeFees {
    /// The staker's proportional share of the undistributed fees.
    pub open spec fn share(self) -> int {
        share_for(
            undistributed(self.protocol_config.data),
            self.staker.data.staked_amount,
            self.protocol_config.data.total_staked,
        )
    }

    /// Whether the call does nothing and succeeds: no stake in the protocol,
    /// nothing undistributed, or a share that rounds down to zero.
    pub open spec fn distribution_is_noop(self) -> bool {
        self.protocol_config.data.total_staked == 0 || (self.staker.data.staked_amount != 0 && (
        undistributed(self.protocol_config.data) == 0 || self.share() == 0))
    }

    /// Why distributing fails, if it does.
    pub open spec fn distribute_error(self) -> Option<ShadeError> {
        if self.protocol_config.data.total_staked == 0 {
            None
        } else if self.staker.data.staked_amount == 0 {
            Some(ShadeError::NotStaking)
        } else if self.distribution_is_noop() {
            None
        } else if self.share() > u64::MAX || self.staker.data.pending_rewards + self.share()
            > u64::MAX {
            Some(ShadeError::Overflow)
        } else {
            None
        }
    }

    /// The accounts after crediting the share to the staker's pending rewards.
    pub open spec fn after_distribute(self) -> DistributeFees {
        DistributeFees {
            staker: Account {
                data: Staker {
                    pending_rewards: (self.staker.data.pending_rewards + self.share()) as u64,
                    ..self.staker.data
                },
                ..self.staker
            },
            ..self
        }
    }
}

/// Credits a staker with its share of the undistributed fees: undistributed
/// times its stake over the total stake, rounded down. Anyone may call it.
///
/// With no stake in the protocol, nothing undistributed, or a share that
/// rounds to zero, it succeeds and changes nothing (`Ok(None)`). The
/// protocol's distributed total is not advanced here but when rewards are
/// claimed, so crediting the same fees to several stakers before they claim
/// hands out more than was collected.
pub fn distribute_fees(ctx: &mut DistributeFees) -> (r: Result<Option<FeesDistributed>, ShadeError>)
    ensures
        match r {
            Ok(None) => {
                &&& old(ctx).distribute_error() is None
                &&& old(ctx).distribution_is_noop()
                &&& *final(ctx) == *old(ctx)
            },
            Ok(Some(event)) => {
                &&& old(ctx).distribute_error() is None
                &&& !old(ctx).distribution_is_noop()
                &&& *final(ctx) == old(ctx).after_distribute()
                &&& event == (FeesDistributed {
                    staker: old(ctx).staker.data.user,
                    amount: old(ctx).share() as u64,
                })
            },
            Err(e) => {
                &&& old(ctx).distribute_error() == Some(e)
                &&& *final(ctx) == *old(ctx)
            },
        },
        old(ctx).protocol_config.data.total_staked == 0 ==> r == Ok::<
            Option<FeesDistributed>,
            ShadeError,
        >(None) && *final(ctx) == *old(ctx),
{
    let total_staked = ctx.protocol_config.data.total_staked;
    if total_staked == 0 {
        return Ok(None);
    }
    if ctx.staker.data.staked_amount == 0 {
        return Err(ShadeError::NotStaking);
    }
    let undistributed = ctx.protocol_config.data.total_fees_collected.saturating_sub(
        ctx.protocol_config.data.total_fees_distributed,
    );
    if undistributed == 0 {
        return Ok(None);
    }
    let share = match calculate_share(undistributed, ctx.staker.data.staked_amount, total_staked) {
        Some(v) => v,
        None => return Err(ShadeError::Overflow),
    };
    if share == 0 {
        return Ok(None);
    }
    let pending = match ctx.staker.data.pending_rewards.checked_add(share) {
        Some(v) => v,
        None => return Err(ShadeError::Overflow),
    };
    ctx.staker.data.pending_rewards = pending;
    Ok(Some(FeesDistributed { staker: ctx.staker.data.user, amount: share }))
}

} // verus!
