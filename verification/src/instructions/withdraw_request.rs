use vstd::prelude::*;

use crate::errors::TradestarsArenaError;
use crate::events::WithdrawRequested;
use crate::keys::{key_eq, Key};
use crate::state::UserAccount;
use crate::utils::{is_token_2022, require_token_2022};

verus! {

/// The accounts a withdrawal request reads and writes.
#[derive(Clone, Copy, Debug, PartialEq, Eq)]
pub struct WithdrawRequest {
    /// The withdrawing user, who signs.
    pub user: Key,
    pub user_account: UserAccount,
    pub token_program: Key,
}

/// Why the withdrawal is refused, if it is: the nonce must follow the last
/// one used, and the amount must be free of arena commitments.
pub open spec fn withdraw_request_error(ctx: WithdrawRequest, amount: u64, nonce: u64) -> Option<
    TradestarsArenaError,
> {
    let account = ctx.user_account;
    if amount == 0 {
        Some(TradestarsArenaError::AmountTooSmall)
    } else if !is_token_2022(ctx.token_program) {
        Some(TradestarsArenaError::InvalidTokenProgram)
    } else if account.owner != ctx.user {
        Some(TradestarsArenaError::InvalidUserAccount)
    } else if account.last_nonce + 1 > u64::MAX {
        Some(TradestarsArenaError::MathOverflow)
    } else if account.last_nonce + 1 != nonce {
        Some(TradestarsArenaError::InvalidNonce)
    } else if !account.solvent() {
        Some(TradestarsArenaError::MathOverflow)
    } else if amount > account.total_balance - account.in_play_debt {
        Some(TradestarsArenaError::InsufficientAvailableBalance)
    } else {
        None
    }
}

/// The user account after the withdrawal: the amount leaves the balance and
/// the nonce is recorded.
pub open spec fn withdrawn_account(account: UserAccount, amount: u64, nonce: u64) -> UserAccount {
    UserAccount {
        total_balance: (account.total_balance - amount) as u64,
        last_nonce: nonce,
        ..account
    }
}

/// Burns `amount` of the user's free balance for release on the source chain;
/// the caller burns the event's `amount` from the user's token account.
/// On an error nothing changes.
pub fn handler(ctx: &mut WithdrawRequest, amount: u64, nonce: u64, now: i64) -> (r: Result<
    WithdrawRequested,
    TradestarsArenaError,
>)
    ensures
        match withdraw_request_error(*old(ctx), amount, nonce) {
            Some(e) => r == Err::<WithdrawRequested, TradestarsArenaError>(e) && *final(ctx)
                == *old(ctx),
            None => {
                let account = withdrawn_account(old(ctx).user_account, amount, nonce);
                &&& *final(ctx) == (WithdrawRequest { user_account: account, ..*old(ctx) })
                &&& r == Ok::<WithdrawRequested, TradestarsArenaError>(
                    WithdrawRequested {
                        user: old(ctx).user,
                        amount,
                        nonce,
                        remaining_total_balance: account.total_balance,
                        available_to_withdraw: (account.total_balance
                            - account.in_play_debt) as u64,
                        timestamp: now,
                    },
                )
            },
        },
{
    if amount == 0 {
        return Err(TradestarsArenaError::AmountTooSmall);
    }
    match require_token_2022(&ctx.token_program) {
        Ok(()) => {},
        Err(e) => return Err(e),
    }
    if !key_eq(&ctx.user_account.owner, &ctx.user) {
        return Err(TradestarsArenaError::InvalidUserAccount);
    }
    let expected_nonce = match ctx.user_account.last_nonce.checked_add(1) {
        Some(v) => v,
        None => return Err(TradestarsArenaError::MathOverflow),
    };
    if expected_nonce != nonce {
        return Err(TradestarsArenaError::InvalidNonce);
    }
    let available = match ctx.user_account.available_to_withdraw() {
        Ok(v) => v,
        Err(e) => return Err(e),
    };
    if amount > available {
        return Err(TradestarsArenaError::InsufficientAvailableBalance);
    }
    ctx.user_account.total_balance = ctx.user_account.total_balance - amount;
    ctx.user_account.last_nonce = nonce;
    let available_after = match ctx.user_account.available_to_withdraw() {
        Ok(v) => v,
        Err(e) => return Err(e),
    };
    Ok(
        WithdrawRequested {
            user: ctx.user,
            amount,
            nonce,
            remaining_total_balance: ctx.user_account.total_balance,
            available_to_withdraw: available_after,
            timestamp: now,
        },
    )
}

} // verus!
