use vstd::prelude::*;

use crate::errors::TradestarsArenaError;
use crate::events::ArenaCancelled;
use crate::keys::Key;
use crate::state::{ArenaAccount, ArenaStatus, PlatformConfig};

verus! {

/// The accounts a stale cancellation reads and writes.
#[derive(Clone, Copy, Debug, PartialEq, Eq)]
pub struct CancelStaleArena {
    pub platform_config: PlatformConfig,
    /// Address of the arena account.
    pub arena_key: Key,
    pub arena: ArenaAccount,
    /// Whoever asks for the cancellation.
    pub caller: Key,
}

/// Why a stale cancellation at time `now` is refused, if it is: the arena
/// must still await its root `settlement_grace_period_seconds` after its end.
pub open spec fn cancel_stale_arena_error(ctx: CancelStaleArena, now: i64) -> Option<
    TradestarsArenaError,
> {
    let grace = ctx.platform_config.settlement_grace_period_seconds;
    if ctx.arena.status != ArenaStatus::Created {
        Some(TradestarsArenaError::ArenaNotCreated)
    } else if grace > i64::MAX {
        Some(TradestarsArenaError::InvalidCooldown)
    } else if ctx.arena.end_time + grace > i64::MAX {
        Some(TradestarsArenaError::MathOverflow)
    } else if now < ctx.arena.end_time + grace {
        Some(TradestarsArenaError::ArenaNotStale)
    } else {
        None
    }
}

/// The outcome of a stale cancellation: the cancelled arena and the event, or the error.
pub open spec fn cancel_stale_arena_outcome(ctx: CancelStaleArena, now: i64) -> Result<
    (CancelStaleArena, ArenaCancelled),
    TradestarsArenaError,
> {
    match cancel_stale_arena_error(ctx, now) {
        Some(e) => Err(e),
        None => Ok(
            (
                CancelStaleArena {
                    arena: ArenaAccount { status: ArenaStatus::Cancelled, ..ctx.arena },
                    ..ctx
                },
                ArenaCancelled {
                    arena: ctx.arena_key,
                    creator: ctx.arena.creator,
                    cancelled_by: ctx.caller,
                    timestamp: now,
                },
            ),
        ),
    }
}

/// Cancels an arena whose root was never posted within the grace period.
/// On an error nothing changes.
pub fn handler(ctx: &mut CancelStaleArena, now: i64) -> (r: Result<ArenaCancelled, TradestarsArenaError>)
    ensures
        match cancel_stale_arena_outcome(*old(ctx), now) {
            Ok((post, event)) => r == Ok::<ArenaCancelled, TradestarsArenaError>(event) && *final(ctx) == post,
            Err(e) => r == Err::<ArenaCancelled, TradestarsArenaError>(e) && *final(ctx) == *old(ctx),
        },
{
    if ctx.arena.status != ArenaStatus::Created {
        return Err(TradestarsArenaError::ArenaNotCreated);
    }
    let grace = ctx.platform_config.settlement_grace_period_seconds;
    if grace > i64::MAX as u64 {
        return Err(TradestarsArenaError::InvalidCooldown);
    }
    let stale_cutoff = match ctx.arena.end_time.checked_add(grace as i64) {
        Some(v) => v,
        None => return Err(TradestarsArenaError::MathOverflow),
    };
    if !(now >= stale_cutoff) {
        return Err(TradestarsArenaError::ArenaNotStale);
    }
    ctx.arena.status = ArenaStatus::Cancelled;
    Ok(
        ArenaCancelled {
            arena: ctx.arena_key,
            creator: ctx.arena.creator,
            cancelled_by: ctx.caller,
            timestamp: now,
        },
    )
}

} // verus!
