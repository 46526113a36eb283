use vstd::prelude::*;

use crate::errors::TradestarsArenaError;
use crate::events::ArenaCancelled;
use crate::keys::Key;
use crate::state::{ArenaAccount, ArenaStatus};

verus! {

/// The accounts the cancellation of a disputed arena reads and writes.
#[derive(Clone, Copy, Debug, PartialEq, Eq)]
pub struct CancelDisputedArena {
    /// Address of the arena account.
    pub arena_key: Key,
    pub arena: ArenaAccount,
    /// Whoever asks for the cancellation.
    pub caller: Key,
}

/// The outcome of cancelling a disputed arena: only a `Disputed` arena is
/// cancelled; any other is refused with `ArenaNotDisputed`.
pub open spec fn cancel_disputed_arena_outcome(ctx: CancelDisputedArena, now: i64) -> Result<
    (CancelDisputedArena, ArenaCancelled),
    TradestarsArenaError,
> {
    if ctx.arena.status != ArenaStatus::Disputed {
        Err(TradestarsArenaError::ArenaNotDisputed)
    } else {
        Ok(
            (
                CancelDisputedArena {
                    arena: ArenaAccount { status: ArenaStatus::Cancelled, ..ctx.arena },
                    ..ctx
                },
                ArenaCancelled {
                    arena: ctx.arena_key,
                    creator: ctx.arena.creator,
                    cancelled_by: ctx.caller,
                    timestamp: now,
                },
            ),
        )
    }
}

/// Cancels a disputed arena so that it refunds. On an error nothing changes.
pub fn handler(ctx: &mut CancelDisputedArena, now: i64) -> (r: Result<
    ArenaCancelled,
    TradestarsArenaError,
>)
    ensures
        match cancel_disputed_arena_outcome(*old(ctx), now) {
            Ok((post, event)) => r == Ok::<ArenaCancelled, TradestarsArenaError>(event) && *final(ctx) == post,
            Err(e) => r == Err::<ArenaCancelled, TradestarsArenaError>(e) && *final(ctx) == *old(ctx),
        },
{
    if ctx.arena.status != ArenaStatus::Disputed {
        return Err(TradestarsArenaError::ArenaNotDisputed);
    }
    ctx.arena.status = ArenaStatus::Cancelled;
    Ok(
        ArenaCancelled {
            arena: ctx.arena_key,
            creator: ctx.arena.creator,
            cancelled_by: ctx.caller,
            timestamp: now,
        },
    )
}

} // verus!
