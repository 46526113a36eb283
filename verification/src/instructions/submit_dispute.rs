use vstd::prelude::*;

use crate::errors::TradestarsArenaError;
use crate::events::ArenaDisputed;
use crate::keys::{key_eq, Key};
use crate::state::{ArenaAccount, ArenaPosition, ArenaStatus, DISPUTE_THRESHOLD_BPS};
use crate::utils::{dispute_threshold_reached, spec_dispute_threshold_reached};

verus! {

/// The accounts a participant's dispute reads and writes.
#[derive(Clone, Copy, Debug, PartialEq, Eq)]
pub struct SubmitDispute {
    /// Address of the arena account.
    pub arena_key: Key,
    pub arena: ArenaAccount,
    /// The disputing user's position in the arena.
    pub position: ArenaPosition,
    /// The disputing user, who signs.
    pub user: Key,
}

/// Why a dispute at time `now` is refused, if it is.
pub open spec fn submit_dispute_error(ctx: SubmitDispute, now: i64) -> Option<TradestarsArenaError> {
    if ctx.arena.status != ArenaStatus::SettledPendingClaim {
        Some(TradestarsArenaError::ArenaNotSettled)
    } else if ctx.position.user != ctx.user || ctx.position.arena != ctx.arena_key {
        Some(TradestarsArenaError::InvalidArenaPosition)
    } else if !(ctx.position.entry_count > 0 && !ctx.position.resolved) {
        Some(TradestarsArenaError::NotArenaParticipant)
    } else if ctx.position.last_disputed_settlement_version == ctx.arena.settlement_version {
        Some(TradestarsArenaError::AlreadyDisputed)
    } else if now >= ctx.arena.claimable_at {
        Some(TradestarsArenaError::InvalidStatusTransition)
    } else if ctx.arena.dispute_count + 1 > u32::MAX {
        Some(TradestarsArenaError::MathOverflow)
    } else {
        None
    }
}

/// Whether this dispute brings the arena to the threshold.
pub open spec fn dispute_tips_arena(ctx: SubmitDispute) -> bool {
    spec_dispute_threshold_reached(
        (ctx.arena.dispute_count + 1) as u32,
        ctx.arena.participant_count,
    )
}

/// The accounts after an accepted dispute: the position records the
/// settlement version it disputed, the count grows, and the arena becomes
/// `Disputed` once the threshold is reached.
pub open spec fn submit_dispute_post(ctx: SubmitDispute) -> SubmitDispute {
    SubmitDispute {
        position: ArenaPosition {
            last_disputed_settlement_version: ctx.arena.settlement_version,
            ..ctx.position
        },
        arena: ArenaAccount {
            dispute_count: (ctx.arena.dispute_count + 1) as u32,
            status: if dispute_tips_arena(ctx) {
                ArenaStatus::Disputed
            } else {
                ctx.arena.status
            },
            ..ctx.arena
        },
        ..ctx
    }
}

/// The outcome of a dispute: the accounts after it and its event, or the error.
pub open spec fn submit_dispute_outcome(ctx: SubmitDispute, now: i64) -> Result<
    (SubmitDispute, ArenaDisputed),
    TradestarsArenaError,
> {
    match submit_dispute_error(ctx, now) {
        Some(e) => Err(e),
        None => {
            let post = submit_dispute_post(ctx);
            Ok(
                (
                    post,
                    ArenaDisputed {
                        arena: ctx.arena_key,
                        user: ctx.user,
                        settlement_version: ctx.arena.settlement_version,
                        dispute_count: post.arena.dispute_count,
                        participant_count: ctx.arena.participant_count,
                        threshold_bps: DISPUTE_THRESHOLD_BPS,
                        disputed: dispute_tips_arena(ctx),
                        timestamp: now,
                    },
                ),
            )
        },
    }
}

/// Records a participant's dispute of the current settlement while its
/// dispute window is open. On an error nothing changes.
pub fn handler(ctx: &mut SubmitDispute, now: i64) -> (r: Result<ArenaDisputed, TradestarsArenaError>)
    ensures
        match submit_dispute_outcome(*old(ctx), now) {
            Ok((post, event)) => r == Ok::<ArenaDisputed, TradestarsArenaError>(event) && *final(ctx) == post,
            Err(e) => r == Err::<ArenaDisputed, TradestarsArenaError>(e) && *final(ctx) == *old(ctx),
        },
{
    if ctx.arena.status != ArenaStatus::SettledPendingClaim {
        return Err(TradestarsArenaError::ArenaNotSettled);
    }
    if !(key_eq(&ctx.position.user, &ctx.user) && key_eq(&ctx.position.arena, &ctx.arena_key)) {
        return Err(TradestarsArenaError::InvalidArenaPosition);
    }
    if !(ctx.position.entry_count > 0 && !ctx.position.resolved) {
        return Err(TradestarsArenaError::NotArenaParticipant);
    }
    if ctx.position.last_disputed_settlement_version == ctx.arena.settlement_version {
        return Err(TradestarsArenaError::AlreadyDisputed);
    }
    if !(now < ctx.arena.claimable_at) {
        return Err(TradestarsArenaError::InvalidStatusTransition);
    }
    let dispute_count = match ctx.arena.dispute_count.checked_add(1) {
        Some(v) => v,
        None => return Err(TradestarsArenaError::MathOverflow),
    };
    let disputed = match dispute_threshold_reached(dispute_count, ctx.arena.participant_count) {
        Ok(v) => v,
        Err(e) => return Err(e),
    };
    ctx.position.last_disputed_settlement_version = ctx.arena.settlement_version;
    ctx.arena.dispute_count = dispute_count;
    if disputed {
        ctx.arena.status = ArenaStatus::Disputed;
    }
    Ok(
        ArenaDisputed {
            arena: ctx.arena_key,
            user: ctx.user,
            settlement_version: ctx.arena.settlement_version,
            dispute_count,
            participant_count: ctx.arena.participant_count,
            threshold_bps: DISPUTE_THRESHOLD_BPS,
            disputed,
            timestamp: now,
        },
    )
}

} // verus!
