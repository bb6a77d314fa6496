use vstd::prelude::*;
use crate::effects::{
    AuthorizationCreated, AuthorizationRevoked, SpendExecuted, TokenTransfer, TransferAuthority,
};
use crate::error::ShadeError;
use crate::policy::{calculate_fee, fee_for, get_max_cap_for_tier};
use crate::pubkey::Pubkey;
use crate::state::{Account, Authorization, FogPool, ProtocolConfig, Staker};

verus! {

/// Longest purpose text, in bytes of UTF-8.
pub const MAX_PURPOSE_LEN: usize = 64;

/// Length of a text in bytes of UTF-8, as `str::len` reports it.
pub open spec fn utf8_len(s: Seq<char>) -> usize {
    vstd::utf8::encode_utf8(s).len() as usize
}

// ---------------------------------------------------------------------------
// spend
// ---------------------------------------------------------------------------

/// The accounts a spend reads and writes.
pub struct Spend {
    pub authorization: Account<Authorization>,
    pub fog_pool: Account<FogPool>,
    pub protocol_config: Account<ProtocolConfig>,
    /// The pool's vault, which pays.
    pub vault: Pubkey,
    /// The protocol's fee vault, which receives the fee.
    pub fee_vault: Pubkey,
    /// The token account that receives the net amount.
    pub recipient_token_account: Pubkey,
    /// The caller.
    pub spender: Pubkey,
}

impl Spend {
    /// The fee a spend of `amount` is charged at the current rate.
    pub open spec fn fee(self, amount: u64) -> int {
        fee_for(amount, self.protocol_config.data.fee_basis_points)
    }

    /// Why a spend of `amount` at time `now` fails, if it does.
    pub open spec fn spend_error(self, amount: u64, now: i64) -> Option<ShadeError> {
        let a = self.authorization.data;
        let pool = self.fog_pool.data;
        let cfg = self.protocol_config.data;
        let fee = self.fee(amount);
        if a.authorized_spender != self.spender {
            Some(ShadeError::Unauthorized)
        } else if a.fog_pool != self.fog_pool.key || self.vault != pool.vault
            || self.fee_vault != cfg.fee_vault {
            Some(ShadeError::InvalidAccount)
        } else if !a.is_active {
            Some(ShadeError::AuthorizationInactive)
        } else if now >= a.expires_at {
            Some(ShadeError::AuthorizationExpired)
        } else if a.amount_spent > a.spending_cap {
            Some(ShadeError::Overflow)
        } else if amount > a.remaining() {
            Some(ShadeError::ExceedsSpendingCap)
        } else if fee > amount || pool.total_spent + amount > u64::MAX
            || pool.total_fees_generated + fee > u64::MAX
            || cfg.total_fees_collected + fee > u64::MAX {
            Some(ShadeError::Overflow)
        } else {
            None
        }
    }

    /// The accounts after a successful spend of `amount`.
    pub open spec fn after_spend(self, amount: u64) -> Spend {
        let fee = self.fee(amount);
        Spend {
            authorization: Account {
                data: Authorization {
                    amount_spent: (self.authorization.data.amount_spent + amount) as u64,
                    ..self.authorization.data
                },
                ..self.authorization
            },
            fog_pool: Account {
                data: FogPool {
                    total_spent: (self.fog_pool.data.total_spent + amount) as u64,
                    total_fees_generated: (self.fog_pool.data.total_fees_generated + fee) as u64,
                    ..self.fog_pool.data
                },
                ..self.fog_pool
            },
            protocol_config: Account {
                data: ProtocolConfig {
                    total_fees_collected: (self.protocol_config.data.total_fees_collected
                        + fee) as u64,
                    ..self.protocol_config.data
                },
                ..self.protocol_config
            },
            ..self
        }
    }

    /// The transfers of a successful spend: the net amount to the recipient,
    /// then the fee to the fee vault when there is one, both signed by the pool.
    pub open spec fn spend_transfers(self, amount: u64) -> Seq<TokenTransfer> {
        let fee = self.fee(amount);
        let net = TokenTransfer {
            from: self.vault,
            to: self.recipient_token_account,
            authority: TransferAuthority::FogPool,
            amount: (amount - fee) as u64,
        };
        if fee > 0 {
            seq![net, TokenTransfer {
                from: self.vault,
                to: self.fee_vault,
                authority: TransferAuthority::FogPool,
                amount: fee as u64,
            }]
        } else {
            seq![net]
        }
    }
}

/// Spends `amount` from the pool through an authorization, at time `now`.
///
/// The pool's vault pays `amount - fee` to the recipient and `fee` to the
/// fee vault, where `fee` is `amount` times the fee rate over 10000, rounded
/// down. The authorization's `amount_spent`, the pool's `total_spent` and
/// `total_fees_generated`, and the protocol's `total_fees_collected` grow
/// accordingly. An authorization whose cap is used up stays active; further
/// spends fail with `ExceedsSpendingCap`.
pub fn spend(ctx: &mut Spend, amount: u64, now: i64) -> (r: Result<
    (Vec<TokenTransfer>, SpendExecuted),
    ShadeError,
>)
    ensures
        match r {
            Ok((transfers, event)) => {
                &&& old(ctx).spend_error(amount, now) is None
                &&& *final(ctx) == old(ctx).after_spend(amount)
                &&& transfers@ == old(ctx).spend_transfers(amount)
                &&& event == (SpendExecuted {
                    authorization: old(ctx).authorization.key,
                    fog_pool: old(ctx).fog_pool.key,
                    spender: old(ctx).spender,
                    recipient: old(ctx).recipient_token_account,
                    amount,
                    fee: old(ctx).fee(amount) as u64,
                    net_amount: (amount - old(ctx).fee(amount)) as u64,
                    remaining: final(ctx).authorization.data.remaining() as u64,
                })
                &&& event.fee + event.net_amount == amount
            },
            Err(e) => {
                &&& old(ctx).spend_error(amount, now) == Some(e)
                &&& *final(ctx) == *old(ctx)
            },
        },
{
    if !ctx.authorization.data.authorized_spender.same_as(&ctx.spender) {
        return Err(ShadeError::Unauthorized);
    }
    if !ctx.authorization.data.fog_pool.same_as(&ctx.fog_pool.key) || !ctx.vault.same_as(
        &ctx.fog_pool.data.vault,
    ) || !ctx.fee_vault.same_as(&ctx.protocol_config.data.fee_vault) {
        return Err(ShadeError::InvalidAccount);
    }
    if !ctx.authorization.data.is_active {
        return Err(ShadeError::AuthorizationInactive);
    }
    if now >= ctx.authorization.data.expires_at {
        return Err(ShadeError::AuthorizationExpired);
    }
    if ctx.authorization.data.amount_spent > ctx.authorization.data.spending_cap {
        return Err(ShadeError::Overflow);
    }
    let remaining: u64 = ctx.authorization.data.spending_cap - ctx.authorization.data.amount_spent;
    if amount > remaining {
        return Err(ShadeError::ExceedsSpendingCap);
    }
    let wide_fee: u128 = calculate_fee(amount, ctx.protocol_config.data.fee_basis_points);
    if wide_fee > amount as u128 {
        return Err(ShadeError::Overflow);
    }
    let fee: u64 = wide_fee as u64;
    let net_amount: u64 = amount - fee;
    let total_spent = match ctx.fog_pool.data.total_spent.checked_add(amount) {
        Some(v) => v,
        None => return Err(ShadeError::Overflow),
    };
    let total_fees_generated = match ctx.fog_pool.data.total_fees_generated.checked_add(fee) {
        Some(v) => v,
        None => return Err(ShadeError::Overflow),
    };
    let total_fees_collected = match ctx.protocol_config.data.total_fees_collected.checked_add(fee) {
        Some(v) => v,
        None => return Err(ShadeError::Overflow),
    };

    let mut transfers: Vec<TokenTransfer> = Vec::new();
    transfers.push(
        TokenTransfer {
            from: ctx.vault,
            to: ctx.recipient_token_account,
            authority: TransferAuthority::FogPool,
            amount: net_amount,
        },
    );
    if fee > 0 {
        transfers.push(
            TokenTransfer {
                from: ctx.vault,
                to: ctx.fee_vault,
                authority: TransferAuthority::FogPool,
                amount: fee,
            },
        );
    }
    ctx.authorization.data.amount_spent = ctx.authorization.data.amount_spent + amount;
    ctx.fog_pool.data.total_spent = total_spent;
    ctx.fog_pool.data.total_fees_generated = total_fees_generated;
    ctx.protocol_config.data.total_fees_collected = total_fees_collected;
    proof {
        assert(transfers@ =~= old(ctx).spend_transfers(amount));
    }
    let event = SpendExecuted {
        authorization: ctx.authorization.key,
        fog_pool: ctx.fog_pool.key,
        spender: ctx.spender,
        recipient: ctx.recipient_token_account,
        amount,
        fee,
        net_amount,
        remaining: ctx.authorization.data.spending_cap - ctx.authorization.data.amount_spent,
    };
    Ok((transfers, event))
}

// ---------------------------------------------------------------------------
// create_authorization
// ---------------------------------------------------------------------------

/// The accounts that issuing an authorization reads and writes.
pub struct CreateAuthorization {
    /// Address of the new authorization record.
    pub authorization: Pubkey,
    pub fog_pool: Account<FogPool>,
    pub protocol_config: Account<ProtocolConfig>,
    /// The spender's staking record, where there is one.
    pub staker: Option<Account<Staker>>,
    pub spender: Pubkey,
    /// The caller.
    pub issuer: Pubkey,
    pub bump: u8,
}

impl CreateAuthorization {
    /// The tier the cap is bounded by: the spender's, or 0 without a record.
    pub open spec fn spender_tier(self) -> u8 {
        match self.staker {
            Some(s) => s.data.tier,
            None => 0,
        }
    }

    /// Why issuing fails, if it does.
    pub open spec fn create_error(
        self,
        spending_cap: u64,
        expires_at: i64,
        purpose: Seq<char>,
        now: i64,
    ) -> Option<ShadeError> {
        if self.issuer != self.fog_pool.data.authority {
            Some(ShadeError::Unauthorized)
        } else if spending_cap == 0 {
            Some(ShadeError::InvalidAmount)
        } else if utf8_len(purpose) > MAX_PURPOSE_LEN {
            Some(ShadeError::PurposeTooLong)
        } else if expires_at <= now {
            Some(ShadeError::InvalidExpiry)
        } else if spending_cap > self.protocol_config.data.max_cap(self.spender_tier()) {
            Some(ShadeError::ExceedsTierLimit)
        } else if self.fog_pool.data.active_authorizations == u64::MAX {
            Some(ShadeError::Overflow)
        } else {
            None
        }
    }

    /// The accounts after a successful issue: one more live authorization.
    pub open spec fn after_create(self) -> CreateAuthorization {
        CreateAuthorization {
            fog_pool: Account {
                data: FogPool {
                    active_authorizations: (self.fog_pool.data.active_authorizations
                        + 1) as u64,
                    ..self.fog_pool.data
                },
                ..self.fog_pool
            },
            ..self
        }
    }
}

/// Issues an authorization for `spender` to spend up to `spending_cap` from
/// the pool until `expires_at`, at time `now`.
///
/// Only the pool's authority may issue. The cap must be positive and within
/// the limit of the spender's tier; a spender without a staking record is
/// held to the limit of tier 0, half the base cap. The purpose is at most
/// 64 bytes, and the expiry strictly after `now`. Returns the new record,
/// active and with nothing spent.
pub fn create_authorization(
    ctx: &mut CreateAuthorization,
    spending_cap: u64,
    expires_at: i64,
    purpose: String,
    now: i64,
) -> (r: Result<(Authorization, AuthorizationCreated), ShadeError>)
    ensures
        match r {
            Ok((auth, event)) => {
                &&& old(ctx).create_error(spending_cap, expires_at, purpose@, now) is None
                &&& *final(ctx) == old(ctx).after_create()
                &&& auth == (Authorization {
                    fog_pool: old(ctx).fog_pool.key,
                    authorized_spender: old(ctx).spender,
                    issuer: old(ctx).issuer,
                    spending_cap,
                    amount_spent: 0,
                    created_at: now,
                    expires_at,
                    purpose,
                    is_active: true,
                    bump: old(ctx).bump,
                })
                &&& event == (AuthorizationCreated {
                    authorization: old(ctx).authorization,
                    fog_pool: old(ctx).fog_pool.key,
                    spender: old(ctx).spender,
                    issuer: old(ctx).issuer,
                    spending_cap,
                    expires_at,
                    purpose,
                })
            },
            Err(e) => {
                &&& old(ctx).create_error(spending_cap, expires_at, purpose@, now) == Some(e)
                &&& *final(ctx) == *old(ctx)
            },
        },
{
    if !ctx.issuer.same_as(&ctx.fog_pool.data.authority) {
        return Err(ShadeError::Unauthorized);
    }
    if spending_cap == 0 {
        return Err(ShadeError::InvalidAmount);
    }
    if purpose.as_str().len() > MAX_PURPOSE_LEN {
        return Err(ShadeError::PurposeTooLong);
    }
    if expires_at <= now {
        return Err(ShadeError::InvalidExpiry);
    }
    let tier: u8 = match &ctx.staker {
        Some(s) => s.data.tier,
        None => 0,
    };
    let max_cap = get_max_cap_for_tier(tier, &ctx.protocol_config.data);
    if spending_cap > max_cap {
        return Err(ShadeError::ExceedsTierLimit);
    }
    let active = match ctx.fog_pool.data.active_authorizations.checked_add(1) {
        Some(v) => v,
        None => return Err(ShadeError::Overflow),
    };
    ctx.fog_pool.data.active_authorizations = active;
    let auth = Authorization {
        fog_pool: ctx.fog_pool.key,
        authorized_spender: ctx.spender,
        issuer: ctx.issuer,
        spending_cap,
        amount_spent: 0,
        created_at: now,
        expires_at,
        purpose: purpose.clone(),
        is_active: true,
        bump: ctx.bump,
    };
    let event = AuthorizationCreated {
        authorization: ctx.authorization,
        fog_pool: ctx.fog_pool.key,
        spender: ctx.spender,
        issuer: ctx.issuer,
        spending_cap,
        expires_at,
        purpose,
    };
    Ok((auth, event))
}

// ---------------------------------------------------------------------------
// revoke_authorization
// ---------------------------------------------------------------------------

/// The accounts that revoking reads and writes.
pub struct RevokeAuthorization {
    pub authorization: Account<Authorization>,
    pub fog_pool: Account<FogPool>,
    /// The caller.
    pub issuer: Pubkey,
}

impl RevokeAuthorization {
    /// Why revoking fails, if it does.
    pub open spec fn revoke_error(self) -> Option<ShadeError> {
        if self.authorization.data.issuer != self.issuer {
            Some(ShadeError::Unauthorized)
        } else if !self.authorization.data.is_active {
            Some(ShadeError::AuthorizationInactive)
        } else {
            None
        }
    }

    /// The accounts after a successful revoke: inactive for good, and one
    /// live authorization fewer, floored at zero.
    pub open spec fn after_revoke(self) -> RevokeAuthorization {
        let n = self.fog_pool.data.active_authorizations;
        RevokeAuthorization {
            authorization: Account {
                data: Authorization { is_active: false, ..self.authorization.data },
                ..self.authorization
            },
            fog_pool: Account {
                data: FogPool {
                    active_authorizations: if n == 0 { 0 } else { (n - 1) as u64 },
                    ..self.fog_pool.data
                },
                ..self.fog_pool
            },
            ..self
        }
    }
}

/// Revokes an authorization for good. Only its issuer may revoke, and only
/// while it is active.
pub fn revoke_authorization(ctx: &mut RevokeAuthorization) -> (r: Result<
    AuthorizationRevoked,
    ShadeError,
>)
    ensures
        match r {
            Ok(event) => {
                &&& old(ctx).revoke_error() is None
                &&& *final(ctx) == old(ctx).after_revoke()
                &&& event == (AuthorizationRevoked {
                    authorization: old(ctx).authorization.key,
                    fog_pool: old(ctx).fog_pool.key,
                    revoked_by: old(ctx).issuer,
                })
            },
            Err(e) => {
                &&& old(ctx).revoke_error() == Some(e)
                &&& *final(ctx) == *old(ctx)
            },
        },
{
    if !ctx.authorization.data.issuer.same_as(&ctx.issuer) {
        return Err(ShadeError::Unauthorized);
    }
    if !ctx.authorization.data.is_active {
        return Err(ShadeError::AuthorizationInactive);
    }
    ctx.authorization.data.is_active = false;
    ctx.fog_pool.data.active_authorizations = ctx.fog_pool.data.active_authorizations.saturating_sub(
        1,
    );
    Ok(
        AuthorizationRevoked {
            authorization: ctx.authorization.key,
            fog_pool: ctx.fog_pool.key,
            revoked_by: ctx.issuer,
        },
    )
}

} // verus!
