use vstd::prelude::*;

use crate::errors::TradestarsArenaError;
use crate::events::ArenaRefunded;
use crate::keys::Key;
use crate::state::{ArenaAccount, ArenaPosition, ArenaStatus, UserAccount};
use crate::utils::{
    apply_refund, arena_with_resolved, is_token_2022, refund_error, released_user,
    require_token_2022, resolved_position,
};

verus! {

/// The accounts a user's own refund from a cancelled arena reads and writes.
#[derive(Clone, Copy, Debug, PartialEq, Eq)]
pub struct ClaimRefund {
    /// Address of the arena account.
    pub arena_key: Key,
    pub arena: ArenaAccount,
    pub user_account: UserAccount,
    pub position: ArenaPosition,
    /// The refunded user, who signs.
    pub user: Key,
    pub token_program: Key,
}

/// Why the refund is refused, if it is.
pub open spec fn claim_refund_error(ctx: ClaimRefund) -> Option<TradestarsArenaError> {
    if !is_token_2022(ctx.token_program) {
        Some(TradestarsArenaError::InvalidTokenProgram)
    } else if ctx.arena.status != ArenaStatus::Cancelled {
        Some(TradestarsArenaError::ArenaNotCancelled)
    } else {
        refund_error(ctx.arena, ctx.user_account, ctx.position, ctx.user)
    }
}

/// Refunds the user's whole stake in a cancelled arena; the caller mints the
/// event's `unlocked_amount` back to the user when it is not zero.
/// On an error nothing changes.
pub fn handler(ctx: &mut ClaimRefund, now: i64) -> (r: Result<ArenaRefunded, TradestarsArenaError>)
    ensures
        match claim_refund_error(*old(ctx)) {
            Some(e) => r == Err::<ArenaRefunded, TradestarsArenaError>(e) && *final(ctx) == *old(ctx),
            None => {
                let account = released_user(old(ctx).user_account, old(ctx).position.locked_amount);
                &&& *final(ctx) == (ClaimRefund {
                    arena: arena_with_resolved(old(ctx).arena),
                    user_account: account,
                    position: resolved_position(old(ctx).position),
                    ..*old(ctx)
                })
                &&& r == Ok::<ArenaRefunded, TradestarsArenaError>(
                    ArenaRefunded {
                        arena: old(ctx).arena_key,
                        user: old(ctx).user,
                        refunded_by: old(ctx).user,
                        unlocked_amount: old(ctx).position.locked_amount,
                        new_in_play_debt: account.in_play_debt,
                        timestamp: now,
                    },
                )
            },
        },
{
    match require_token_2022(&ctx.token_program) {
        Ok(()) => {},
        Err(e) => return Err(e),
    }
    if ctx.arena.status != ArenaStatus::Cancelled {
        return Err(TradestarsArenaError::ArenaNotCancelled);
    }
    let user = ctx.user;
    let refunded_amount = match apply_refund(
        &mut ctx.arena,
        &mut ctx.user_account,
        &mut ctx.position,
        &user,
    ) {
        Ok(v) => v,
        Err(e) => return Err(e),
    };
    Ok(
        ArenaRefunded {
            arena: ctx.arena_key,
            user: ctx.user,
            refunded_by: ctx.user,
            unlocked_amount: refunded_amount,
            new_in_play_debt: ctx.user_account.in_play_debt,
            timestamp: now,
        },
    )
}

} // verus!
