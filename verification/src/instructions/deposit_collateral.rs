use vstd::prelude::*;

use crate::errors::TradestarsArenaError;
use crate::events::CollateralDeposited;
use crate::keys::{is_default_key, key_eq, key_is_default, Key};
use crate::state::{PlatformConfig, UserAccount};
use crate::utils::{is_token_2022, require_minting_authority, require_token_2022};

verus! {

/// The accounts a mirrored deposit reads and writes. The replay marker for
/// `(base_tx_hash, log_index)` is created when the accounts are loaded, which
/// fails if the deposit was already processed.
#[derive(Clone, Copy, Debug, PartialEq, Eq)]
pub struct DepositCollateral {
    pub platform_config: PlatformConfig,
    /// The wallet that receives the mirrored tokens.
    pub user: Key,
    /// The user's account; all zero when it is created by this deposit.
    pub user_account: UserAccount,
    /// Bump of the user account address.
    pub user_account_bump: u8,
    /// The signer, who must be the minting authority.
    pub submitter: Key,
    pub token_program: Key,
}

/// The user account as the deposit finds it: set up for the user when new.
pub open spec fn account_for(account: UserAccount, owner: Key, bump: u8) -> UserAccount {
    if is_default_key(account.owner) {
        UserAccount { owner: owner, total_balance: 0, in_play_debt: 0, last_nonce: 0, bump: bump }
    } else {
        account
    }
}

/// Why the deposit is refused, if it is.
pub open spec fn deposit_collateral_error(ctx: DepositCollateral, amount: u64) -> Option<
    TradestarsArenaError,
> {
    let account = account_for(ctx.user_account, ctx.user, ctx.user_account_bump);
    if amount == 0 {
        Some(TradestarsArenaError::AmountTooSmall)
    } else if !is_token_2022(ctx.token_program) {
        Some(TradestarsArenaError::InvalidTokenProgram)
    } else if ctx.platform_config.deposits_paused {
        Some(TradestarsArenaError::DepositsPaused)
    } else if ctx.submitter != ctx.platform_config.minting_authority {
        Some(TradestarsArenaError::InvalidMintingAuthority)
    } else if account.owner != ctx.user {
        Some(TradestarsArenaError::InvalidUserAccount)
    } else if account.total_balance + amount > u64::MAX {
        Some(TradestarsArenaError::MathOverflow)
    } else {
        None
    }
}

/// The user account after the deposit: the amount joins the balance.
pub open spec fn deposited_account(ctx: DepositCollateral, amount: u64) -> UserAccount {
    let account = account_for(ctx.user_account, ctx.user, ctx.user_account_bump);
    UserAccount {
        total_balance: (account.total_balance + amount) as u64,
        bump: ctx.user_account_bump,
        ..account
    }
}

/// Credits a mirrored deposit to the user; the caller mints the event's
/// `amount` of mirrored tokens to the user. On an error nothing changes.
pub fn handler(
    ctx: &mut DepositCollateral,
    amount: u64,
    base_tx_hash: Key,
    log_index: u32,
    now: i64,
) -> (r: Result<CollateralDeposited, TradestarsArenaError>)
    ensures
        match deposit_collateral_error(*old(ctx), amount) {
            Some(e) => r == Err::<CollateralDeposited, TradestarsArenaError>(e) && *final(ctx)
                == *old(ctx),
            None => {
                &&& *final(ctx) == (DepositCollateral {
                    user_account: deposited_account(*old(ctx), amount),
                    ..*old(ctx)
                })
                &&& r == Ok::<CollateralDeposited, TradestarsArenaError>(
                    CollateralDeposited {
                        user: old(ctx).user,
                        amount,
                        base_tx_hash,
                        log_index,
                        new_total_balance: deposited_account(*old(ctx), amount).total_balance,
                        timestamp: now,
                    },
                )
            },
        },
{
    if amount == 0 {
        return Err(TradestarsArenaError::AmountTooSmall);
    }
    match require_token_2022(&ctx.token_program) {
        Ok(()) => {},
        Err(e) => return Err(e),
    }
    if ctx.platform_config.deposits_paused {
        return Err(TradestarsArenaError::DepositsPaused);
    }
    match require_minting_authority(&ctx.platform_config, &ctx.submitter) {
        Ok(()) => {},
        Err(e) => return Err(e),
    }
    let mut account = ctx.user_account;
    if key_is_default(&account.owner) {
        account = UserAccount {
            owner: ctx.user,
            total_balance: 0,
            in_play_debt: 0,
            last_nonce: 0,
            bump: ctx.user_account_bump,
        };
    }
    if !key_eq(&account.owner, &ctx.user) {
        return Err(TradestarsArenaError::InvalidUserAccount);
    }
    let total_balance = match account.total_balance.checked_add(amount) {
        Some(v) => v,
        None => return Err(TradestarsArenaError::MathOverflow),
    };
    account.bump = ctx.user_account_bump;
    account.total_balance = total_balance;
    ctx.user_account = account;
    Ok(
        CollateralDeposited {
            user: ctx.user,
            amount,
            base_tx_hash,
            log_index,
            new_total_balance: total_balance,
            timestamp: now,
        },
    )
}

} // verus!
