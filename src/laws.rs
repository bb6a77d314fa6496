use vstd::prelude::*;
use crate::authorization::{RevokeAuthorization, Spend};
use crate::error::ShadeError;
use crate::staking::{Stake, Unstake};

verus! {

/// A spend never lowers what an authorization has spent and never takes it
/// past the cap: from a well-formed authorization, the record after the
/// spend (or after its failure, which leaves it as it was) is well-formed
/// and has spent at least as much as before. The spend also leaves the
/// active flag as it found it.
pub proof fn spent_grows_within_cap(ctx: Spend, amount: u64, now: i64)
    requires
        ctx.authorization.data.wf(),
    ensures
        ({
            let after = if ctx.spend_error(amount, now) is None {
                ctx.after_spend(amount)
            } else {
                ctx
            };
            &&& after.authorization.data.wf()
            &&& after.authorization.data.amount_spent >= ctx.authorization.data.amount_spent
            &&& after.authorization.data.spending_cap == ctx.authorization.data.spending_cap
            &&& after.authorization.data.is_active == ctx.authorization.data.is_active
        }),
{
}

/// Revoking keeps what was spent and the cap, and turns the authorization
/// off for good.
pub proof fn revoke_keeps_spent(ctx: RevokeAuthorization)
    requires
        ctx.revoke_error() is None,
    ensures
        ctx.after_revoke().authorization.data.amount_spent == ctx.authorization.data.amount_spent,
        ctx.after_revoke().authorization.data.spending_cap == ctx.authorization.data.spending_cap,
        !ctx.after_revoke().authorization.data.is_active,
{
}

/// Revoking a second time fails with `AuthorizationInactive`; a failed
/// revoke changes nothing.
pub proof fn revoke_twice_fails(ctx: RevokeAuthorization)
    requires
        ctx.revoke_error() is None,
    ensures
        ctx.after_revoke().revoke_error() == Some(ShadeError::AuthorizationInactive),
{
}

/// Staking `x` and then unstaking `x` puts the user's stake, tier and the
/// protocol's total stake back where they were before the stake; a user who
/// had no stake is back at tier 0.
pub proof fn stake_unstake_round_trip(ctx: Stake, x: u64, now: i64)
    requires
        ctx.staker.data.user.is_zero_spec() || ctx.staker.data.user == ctx.user,
        ctx.staker.data.tier == ctx.protocol_config.data.tier_of(ctx.staker.data.staked_amount),
        ctx.stake_error(x, now) is None,
    ensures
        ({
            let staked = ctx.after_stake(x, now);
            let back = Unstake {
                protocol_config: staked.protocol_config,
                staker: staked.staker,
                staking_vault: staked.staking_vault,
                user_shade_account: staked.user_shade_account,
                user: staked.user,
            };
            let base = ctx.base_record(now);
            &&& back.unstake_error(x) is None
            &&& back.after_unstake(x).protocol_config.data == ctx.protocol_config.data
            &&& back.after_unstake(x).staker.data.staked_amount == base.staked_amount
            &&& back.after_unstake(x).staker.data.tier == ctx.protocol_config.data.tier_of(
                base.staked_amount,
            )
            &&& (base.staked_amount == 0 && ctx.protocol_config.data.wf())
                ==> back.after_unstake(x).staker.data.tier == 0
        }),
{
}

} // verus!
