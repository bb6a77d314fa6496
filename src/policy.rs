use vstd::prelude::*;
use crate::state::ProtocolConfig;

verus! {

/// Largest fee rate, in basis points (10%).
pub const MAX_FEE_BASIS_POINTS: u16 = 1000;

/// Basis points in a whole.
pub const BASIS_POINTS: u64 = 10000;

/// Stake thresholds, in base units of a token with 6 decimals.
pub const BRONZE_THRESHOLD: u64 = 100_000_000;
pub const SILVER_THRESHOLD: u64 = 1_000_000_000;
pub const GOLD_THRESHOLD: u64 = 10_000_000_000;

/// Cap multipliers, in hundredths of the base cap.
pub const BRONZE_CAP_MULTIPLIER: u16 = 100;
pub const SILVER_CAP_MULTIPLIER: u16 = 500;
pub const GOLD_CAP_MULTIPLIER: u16 = 1000;

/// Multiplier for spenders without a tier: half the base cap.
pub const UNTIERED_CAP_MULTIPLIER: u16 = 50;

/// The cap that a multiplier of 100 allows.
pub const BASE_CAP: u64 = 1_000_000_000;

/// The highest tier whose threshold `staked` reaches, checked gold first.
pub open spec fn tier_for(staked: u64, bronze: u64, silver: u64, gold: u64) -> u8 {
    if staked >= gold {
        3
    } else if staked >= silver {
        2
    } else if staked >= bronze {
        1
    } else {
        0
    }
}

impl ProtocolConfig {
    pub open spec fn tier_of(&self, staked: u64) -> u8 {
        tier_for(staked, self.bronze_threshold, self.silver_threshold, self.gold_threshold)
    }

    /// The multiplier of a tier; anything but 1, 2 or 3 gets the untiered one.
    pub open spec fn cap_multiplier(&self, tier: u8) -> u16 {
        if tier == 3 {
            self.gold_cap_multiplier
        } else if tier == 2 {
            self.silver_cap_multiplier
        } else if tier == 1 {
            self.bronze_cap_multiplier
        } else {
            UNTIERED_CAP_MULTIPLIER
        }
    }

    /// The largest spending cap a spender of `tier` may be granted.
    pub open spec fn max_cap(&self, tier: u8) -> int {
        BASE_CAP * self.cap_multiplier(tier) / 100
    }
}

/// The fee on a spend of `amount`, rounded down.
pub open spec fn fee_for(amount: u64, fee_basis_points: u16) -> int {
    amount * fee_basis_points / (BASIS_POINTS as int)
}

/// A staker's proportional share of the undistributed fees, rounded down.
pub open spec fn share_for(undistributed: u64, staked: u64, total_staked: u64) -> int
    recommends
        total_staked > 0,
{
    undistributed * staked / (total_staked as int)
}

/// The tier that `staked_amount` earns under the thresholds of `config`.
pub fn calculate_tier(staked_amount: u64, config: &ProtocolConfig) -> (r: u8)
    ensures
        r == config.tier_of(staked_amount),
        r <= 3,
{
    if staked_amount >= config.gold_threshold {
        3
    } else if staked_amount >= config.silver_threshold {
        2
    } else if staked_amount >= config.bronze_threshold {
        1
    } else {
        0
    }
}

/// The largest spending cap for `tier`: the base cap times the tier's
/// multiplier, over 100.
pub fn get_max_cap_for_tier(tier: u8, config: &ProtocolConfig) -> (r: u64)
    ensures
        r == config.max_cap(tier),
{
    let multiplier: u16 = if tier == 3 {
        config.gold_cap_multiplier
    } else if tier == 2 {
        config.silver_cap_multiplier
    } else if tier == 1 {
        config.bronze_cap_multiplier
    } else {
        UNTIERED_CAP_MULTIPLIER
    };
    let wide: u128 = (BASE_CAP as u128) * (multiplier as u128);
    assert(wide / 100 <= BASE_CAP * 65535 / 100) by (nonlinear_arith)
        requires
            wide == BASE_CAP * multiplier,
            multiplier <= 65535,
    ;
    (wide / 100) as u64
}

/// The fee on a spend of `amount` at `fee_basis_points`, rounded down,
/// computed without overflow for every rate.
pub fn calculate_fee(amount: u64, fee_basis_points: u16) -> (r: u128)
    ensures
        r == fee_for(amount, fee_basis_points),
        fee_basis_points <= BASIS_POINTS ==> r <= amount,
{
    assert((amount as int) * (fee_basis_points as int) <= u64::MAX * 65535) by (nonlinear_arith)
        requires
            amount <= u64::MAX,
            fee_basis_points <= 65535,
    ;
    let wide: u128 = (amount as u128) * (fee_basis_points as u128);
    assert(fee_basis_points <= 10000 ==> wide / 10000 <= amount) by (nonlinear_arith)
        requires
            wide == amount * fee_basis_points,
    ;
    wide / 10000
}

/// A staker's share of `undistributed`, in proportion of `staked` to
/// `total_staked`; `None` when the share does not fit in a `u64`.
pub fn calculate_share(undistributed: u64, staked: u64, total_staked: u64) -> (r: Option<u64>)
    requires
        total_staked > 0,
    ensures
        r == (if share_for(undistributed, staked, total_staked) <= u64::MAX {
            Some(share_for(undistributed, staked, total_staked) as u64)
        } else {
            None::<u64>
        }),
{
    assert((undistributed as int) * (staked as int) <= u64::MAX * u64::MAX) by (nonlinear_arith)
        requires
            undistributed <= u64::MAX,
            staked <= u64::MAX,
    ;
    let wide: u128 = (undistributed as u128) * (staked as u128);
    let share: u128 = wide / (total_staked as u128);
    if share > u64::MAX as u128 {
        None
    } else {
        Some(share as u64)
    }
}

} // verus!
