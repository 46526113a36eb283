use vstd::prelude::*;

use crate::errors::TradestarsArenaError;
use crate::events::ArenaCancelled;
use crate::keys::Key;
use crate::state::{ArenaAccount, ArenaStatus, PlatformConfig};
use crate::utils::require_arena_operator;

verus! {

/// The accounts an operator's cancellation reads and writes.
#[derive(Clone, Copy, Debug, PartialEq, Eq)]
pub struct CancelArena {
    pub platform_config: PlatformConfig,
    /// Address of the arena account.
    pub arena_key: Key,
    pub arena: ArenaAccount,
    /// The signer, who must be the arena operator.
    pub authority: Key,
}

/// The outcome of an operator's cancellation at time `now`: a created arena
/// is cancelled before its start, an already cancelled one is left as it is
/// (no event), and any other is refused.
pub open spec fn cancel_arena_outcome(ctx: CancelArena, now: i64) -> Result<
    (CancelArena, Option<ArenaCancelled>),
    TradestarsArenaError,
> {
    if ctx.authority != ctx.platform_config.arena_operator {
        Err(TradestarsArenaError::InvalidArenaOperator)
    } else if ctx.arena.status == ArenaStatus::Cancelled {
        Ok((ctx, None))
    } else if ctx.arena.status != ArenaStatus::Created {
        Err(TradestarsArenaError::InvalidStatusTransition)
    } else if now >= ctx.arena.start_time {
        Err(TradestarsArenaError::InvalidTime)
    } else {
        Ok(
            (
                CancelArena {
                    arena: ArenaAccount { status: ArenaStatus::Cancelled, ..ctx.arena },
                    ..ctx
                },
                Some(
                    ArenaCancelled {
                        arena: ctx.arena_key,
                        creator: ctx.arena.creator,
                        cancelled_by: ctx.authority,
                        timestamp: now,
                    },
                ),
            ),
        )
    }
}

/// Cancels an arena before it starts. On an error nothing changes.
pub fn handler(ctx: &mut CancelArena, now: i64) -> (r: Result<
    Option<ArenaCancelled>,
    TradestarsArenaError,
>)
    ensures
        match cancel_arena_outcome(*old(ctx), now) {
            Ok((post, event)) => r == Ok::<Option<ArenaCancelled>, TradestarsArenaError>(event)
                && *final(ctx) == post,
            Err(e) => r == Err::<Option<ArenaCancelled>, TradestarsArenaError>(e) && *final(ctx)
                == *old(ctx),
        },
{
    match require_arena_operator(&ctx.platform_config, &ctx.authority) {
        Ok(()) => {},
        Err(e) => return Err(e),
    }
    match ctx.arena.status {
        ArenaStatus::Cancelled => return Ok(None),
        ArenaStatus::Created => {},
        _ => return Err(TradestarsArenaError::InvalidStatusTransition),
    }
    if !(now < ctx.arena.start_time) {
        return Err(TradestarsArenaError::InvalidTime);
    }
    ctx.arena.status = ArenaStatus::Cancelled;
    Ok(
        Some(
            ArenaCancelled {
                arena: ctx.arena_key,
                creator: ctx.arena.creator,
                cancelled_by: ctx.authority,
                timestamp: now,
            },
        ),
    )
}

} // verus!
