use vstd::prelude::*;
use crate::effects::{FeeUpdated, ProtocolInitialized};
use crate::error::ShadeError;
use crate::policy::{
    BRONZE_CAP_MULTIPLIER, BRONZE_THRESHOLD, GOLD_CAP_MULTIPLIER, GOLD_THRESHOLD,
    MAX_FEE_BASIS_POINTS, SILVER_CAP_MULTIPLIER, SILVER_THRESHOLD,
};
use crate::pubkey::Pubkey;
use crate::state::{Account, ProtocolConfig};

verus! {

impl ProtocolConfig {
    /// A configuration as bootstrap leaves it and the fee update keeps it:
    /// a fee of at most 10% and positive, ascending tier thresholds.
    pub open spec fn wf(&self) -> bool {
        &&& self.fee_basis_points <= MAX_FEE_BASIS_POINTS
        &&& 0 < self.bronze_threshold <= self.silver_threshold <= self.gold_threshold
    }
}

/// The accounts that bootstrap the protocol.
pub struct InitializeProtocol {
    /// Address of the new configuration record.
    pub protocol_config: Pubkey,
    pub shade_mint: Pubkey,
    pub fee_vault: Pubkey,
    pub staking_vault: Pubkey,
    /// The caller, who becomes the administrator.
    pub authority: Pubkey,
    pub bump: u8,
}

impl InitializeProtocol {
    /// The configuration bootstrap creates: the fixed tier thresholds and
    /// multipliers, and every total at zero.
    pub open spec fn initial_config(self, fee_basis_points: u16) -> ProtocolConfig {
        ProtocolConfig {
            authority: self.authority,
            shade_mint: self.shade_mint,
            fee_vault: self.fee_vault,
            staking_vault: self.staking_vault,
            fee_basis_points,
            total_staked: 0,
            total_fees_collected: 0,
            total_fees_distributed: 0,
            bronze_threshold: BRONZE_THRESHOLD,
            silver_threshold: SILVER_THRESHOLD,
            gold_threshold: GOLD_THRESHOLD,
            bronze_cap_multiplier: BRONZE_CAP_MULTIPLIER,
            silver_cap_multiplier: SILVER_CAP_MULTIPLIER,
            gold_cap_multiplier: GOLD_CAP_MULTIPLIER,
            bump: self.bump,
        }
    }
}

/// Creates the protocol configuration with a fee of `fee_basis_points`,
/// which may be at most 1000 (10%).
pub fn initialize_protocol(ctx: &InitializeProtocol, fee_basis_points: u16) -> (r: Result<
    (ProtocolConfig, ProtocolInitialized),
    ShadeError,
>)
    ensures
        fee_basis_points > MAX_FEE_BASIS_POINTS ==> r == Err::<
            (ProtocolConfig, ProtocolInitialized),
            ShadeError,
        >(ShadeError::FeeTooHigh),
        fee_basis_points <= MAX_FEE_BASIS_POINTS ==> r == Ok::<_, ShadeError>(
            (
                ctx.initial_config(fee_basis_points),
                ProtocolInitialized {
                    config: ctx.protocol_config,
                    authority: ctx.authority,
                    fee_basis_points,
                },
            ),
        ),
        r matches Ok((cfg, _)) ==> cfg.wf(),
{
    if fee_basis_points > MAX_FEE_BASIS_POINTS {
        return Err(ShadeError::FeeTooHigh);
    }
    let config = ProtocolConfig {
        authority: ctx.authority,
        shade_mint: ctx.shade_mint,
        fee_vault: ctx.fee_vault,
        staking_vault: ctx.staking_vault,
        fee_basis_points,
        total_staked: 0,
        total_fees_collected: 0,
        total_fees_distributed: 0,
        bronze_threshold: BRONZE_THRESHOLD,
        silver_threshold: SILVER_THRESHOLD,
        gold_threshold: GOLD_THRESHOLD,
        bronze_cap_multiplier: BRONZE_CAP_MULTIPLIER,
        silver_cap_multiplier: SILVER_CAP_MULTIPLIER,
        gold_cap_multiplier: GOLD_CAP_MULTIPLIER,
        bump: ctx.bump,
    };
    let event = ProtocolInitialized {
        config: ctx.protocol_config,
        authority: ctx.authority,
        fee_basis_points,
    };
    Ok((config, event))
}

/// The accounts that a fee update reads and writes.
pub struct UpdateProtocol {
    pub protocol_config: Account<ProtocolConfig>,
    /// The caller.
    pub authority: Pubkey,
}

impl UpdateProtocol {
    /// Why the update fails, if it does.
    pub open spec fn update_error(self, new_fee_basis_points: u16) -> Option<ShadeError> {
        if self.protocol_config.data.authority != self.authority {
            Some(ShadeError::Unauthorized)
        } else if new_fee_basis_points > MAX_FEE_BASIS_POINTS {
            Some(ShadeError::FeeTooHigh)
        } else {
            None
        }
    }
}

/// Sets the fee to `new_fee_basis_points` (at most 1000). Only the
/// administrator may do so.
pub fn update_fee(ctx: &mut UpdateProtocol, new_fee_basis_points: u16) -> (r: Result<
    FeeUpdated,
    ShadeError,
>)
    ensures
        match r {
            Ok(event) => {
                &&& old(ctx).update_error(new_fee_basis_points) is None
                &&& *final(ctx) == (UpdateProtocol {
                    protocol_config: Account {
                        data: ProtocolConfig {
                            fee_basis_points: new_fee_basis_points,
                            ..old(ctx).protocol_config.data
                        },
                        ..old(ctx).protocol_config
                    },
                    ..*old(ctx)
                })
                &&& event == (FeeUpdated {
                    old_fee: old(ctx).protocol_config.data.fee_basis_points,
                    new_fee: new_fee_basis_points,
                })
            },
            Err(e) => {
                &&& old(ctx).update_error(new_fee_basis_points) == Some(e)
                &&& *final(ctx) == *old(ctx)
            },
        },
        old(ctx).protocol_config.data.wf() ==> final(ctx).protocol_config.data.wf(),
{
    if !ctx.protocol_config.data.authority.same_as(&ctx.authority) {
        return Err(ShadeError::Unauthorized);
    }
    if new_fee_basis_points > MAX_FEE_BASIS_POINTS {
        return Err(ShadeError::FeeTooHigh);
    }
    let old_fee = ctx.protocol_config.data.fee_basis_points;
    ctx.protocol_config.data.fee_basis_points = new_fee_basis_points;
    Ok(FeeUpdated { old_fee, new_fee: new_fee_basis_points })
}

} // verus!
