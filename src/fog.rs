use vstd::prelude::*;
use crate::effects::{DepositMade, FogPoolCreated, TokenTransfer, TransferAuthority};
use crate::error::ShadeError;
use crate::pubkey::Pubkey;
use crate::state::{Account, FogPool};

verus! {

/// The accounts that create a pool.
pub struct InitializeFogPool {
    /// Address of the new pool record.
    pub fog_pool: Pubkey,
    /// The token account that will hold the pool's funds.
    pub vault: Pubkey,
    /// The caller, who controls the pool.
    pub authority: Pubkey,
    pub bump: u8,
}

/// Creates an empty pool bound to its vault and to `pool_seed`, controlled
/// by the caller.
pub fn initialize_fog_pool(ctx: &InitializeFogPool, pool_seed: [u8; 32]) -> (r: (
    FogPool,
    FogPoolCreated,
))
    ensures
        r.0 == (FogPool {
            authority: ctx.authority,
            vault: ctx.vault,
            total_deposited: 0,
            total_spent: 0,
            total_fees_generated: 0,
            active_authorizations: 0,
            pool_seed,
            bump: ctx.bump,
        }),
        r.1 == (FogPoolCreated { pool: ctx.fog_pool, authority: ctx.authority, vault: ctx.vault }),
{
    let pool = FogPool {
        authority: ctx.authority,
        vault: ctx.vault,
        total_deposited: 0,
        total_spent: 0,
        total_fees_generated: 0,
        active_authorizations: 0,
        pool_seed,
        bump: ctx.bump,
    };
    (pool, FogPoolCreated { pool: ctx.fog_pool, authority: ctx.authority, vault: ctx.vault })
}

/// The accounts that a deposit reads and writes.
pub struct DepositToFog {
    pub fog_pool: Account<FogPool>,
    pub vault: Pubkey,
    /// The depositor's token account, which pays.
    pub depositor_token_account: Pubkey,
    /// The caller.
    pub depositor: Pubkey,
}

impl DepositToFog {
    /// Why depositing `amount` fails, if it does.
    pub open spec fn deposit_error(self, amount: u64) -> Option<ShadeError> {
        if self.vault != self.fog_pool.data.vault {
            Some(ShadeError::InvalidAccount)
        } else if amount == 0 {
            Some(ShadeError::InvalidAmount)
        } else if self.fog_pool.data.total_deposited + amount > u64::MAX {
            Some(ShadeError::Overflow)
        } else {
            None
        }
    }
}

/// Deposits `amount` from the depositor's account into the pool's vault.
pub fn deposit_to_fog(ctx: &mut DepositToFog, amount: u64) -> (r: Result<
    (TokenTransfer, DepositMade),
    ShadeError,
>)
    ensures
        match r {
            Ok((transfer, event)) => {
                &&& old(ctx).deposit_error(amount) is None
                &&& *final(ctx) == (DepositToFog {
                    fog_pool: Account {
                        data: FogPool {
                            total_deposited: (old(ctx).fog_pool.data.total_deposited
                                + amount) as u64,
                            ..old(ctx).fog_pool.data
                        },
                        ..old(ctx).fog_pool
                    },
                    ..*old(ctx)
                })
                &&& transfer == (TokenTransfer {
                    from: old(ctx).depositor_token_account,
                    to: old(ctx).vault,
                    authority: TransferAuthority::Wallet(old(ctx).depositor),
                    amount,
                })
                &&& event == (DepositMade {
                    pool: old(ctx).fog_pool.key,
                    depositor: old(ctx).depositor,
                    amount,
                })
            },
            Err(e) => {
                &&& old(ctx).deposit_error(amount) == Some(e)
                &&& *final(ctx) == *old(ctx)
            },
        },
{
    if !ctx.vault.same_as(&ctx.fog_pool.data.vault) {
        return Err(ShadeError::InvalidAccount);
    }
    if amount == 0 {
        return Err(ShadeError::InvalidAmount);
    }
    let total = match ctx.fog_pool.data.total_deposited.checked_add(amount) {
        Some(v) => v,
        None => return Err(ShadeError::Overflow),
    };
    ctx.fog_pool.data.total_deposited = total;
    let transfer = TokenTransfer {
        from: ctx.depositor_token_account,
        to: ctx.vault,
        authority: TransferAuthority::Wallet(ctx.depositor),
        amount,
    };
    Ok((transfer, DepositMade { pool: ctx.fog_pool.key, depositor: ctx.depositor, amount }))
}

} // verus!
