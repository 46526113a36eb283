use vstd::prelude::*;

use crate::errors::TradestarsArenaError;
use crate::events::SettlementRootPosted;
use crate::keys::Key;
use crate::state::{ArenaAccount, ArenaStatus, PlatformConfig};
use crate::utils::require_arena_operator;

verus! {

/// The accounts the posting of a settlement root reads and writes.
#[derive(Clone, Copy, Debug, PartialEq, Eq)]
pub struct PostSettlementRoot {
    pub platform_config: PlatformConfig,
    /// Address of the arena account.
    pub arena_key: Key,
    pub arena: ArenaAccount,
    /// The signer, who must be the arena operator.
    pub authority: Key,
}

/// Why posting a root at time `now` is refused, if it is.
pub open spec fn post_settlement_root_error(ctx: PostSettlementRoot, now: i64) -> Option<
    TradestarsArenaError,
> {
    let window = ctx.platform_config.dispute_window_seconds;
    if ctx.authority != ctx.platform_config.arena_operator {
        Some(TradestarsArenaError::InvalidArenaOperator)
    } else if ctx.arena.status != ArenaStatus::Created {
        Some(TradestarsArenaError::ArenaNotCreated)
    } else if now < ctx.arena.end_time {
        Some(TradestarsArenaError::InvalidTime)
    } else if window > i64::MAX {
        Some(TradestarsArenaError::InvalidCooldown)
    } else if ctx.arena.settlement_version + 1 > u32::MAX || now + window > i64::MAX {
        Some(TradestarsArenaError::MathOverflow)
    } else {
        None
    }
}

/// The arena once the root is posted: a new settlement version opens its
/// dispute window, which closes `dispute_window_seconds` after `now`.
pub open spec fn post_settlement_root_post(
    ctx: PostSettlementRoot,
    merkle_root: Key,
    now: i64,
) -> PostSettlementRoot {
    PostSettlementRoot {
        arena: ArenaAccount {
            merkle_root: merkle_root,
            settlement_timestamp: now,
            claimable_at: (now + ctx.platform_config.dispute_window_seconds) as i64,
            dispute_count: 0,
            settlement_version: (ctx.arena.settlement_version + 1) as u32,
            status: ArenaStatus::SettledPendingClaim,
            ..ctx.arena
        },
        ..ctx
    }
}

/// The outcome of posting a root: the accounts after it and its event, or the error.
pub open spec fn post_settlement_root_outcome(
    ctx: PostSettlementRoot,
    merkle_root: Key,
    now: i64,
) -> Result<(PostSettlementRoot, SettlementRootPosted), TradestarsArenaError> {
    match post_settlement_root_error(ctx, now) {
        Some(e) => Err(e),
        None => {
            let post = post_settlement_root_post(ctx, merkle_root, now);
            Ok(
                (
                    post,
                    SettlementRootPosted {
                        arena: ctx.arena_key,
                        settlement_version: post.arena.settlement_version,
                        merkle_root: merkle_root,
                        settlement_timestamp: now,
                        claimable_at: post.arena.claimable_at,
                    },
                ),
            )
        },
    }
}

/// Posts the settlement root of an arena whose play ended. On an error
/// nothing changes.
pub fn handler(ctx: &mut PostSettlementRoot, merkle_root: Key, now: i64) -> (r: Result<
    SettlementRootPosted,
    TradestarsArenaError,
>)
    ensures
        match post_settlement_root_outcome(*old(ctx), merkle_root, now) {
            Ok((post, event)) => r == Ok::<SettlementRootPosted, TradestarsArenaError>(event)
                && *final(ctx) == post,
            Err(e) => r == Err::<SettlementRootPosted, TradestarsArenaError>(e) && *final(ctx)
                == *old(ctx),
        },
{
    match require_arena_operator(&ctx.platform_config, &ctx.authority) {
        Ok(()) => {},
        Err(e) => return Err(e),
    }
    if ctx.arena.status != ArenaStatus::Created {
        return Err(TradestarsArenaError::ArenaNotCreated);
    }
    if !(now >= ctx.arena.end_time) {
        return Err(TradestarsArenaError::InvalidTime);
    }
    let window = ctx.platform_config.dispute_window_seconds;
    if window > i64::MAX as u64 {
        return Err(TradestarsArenaError::InvalidCooldown);
    }
    let cooldown = window as i64;
    let next_version = match ctx.arena.settlement_version.checked_add(1) {
        Some(v) => v,
        None => return Err(TradestarsArenaError::MathOverflow),
    };
    let claimable_at = match now.checked_add(cooldown) {
        Some(v) => v,
        None => return Err(TradestarsArenaError::MathOverflow),
    };
    ctx.arena.merkle_root = merkle_root;
    ctx.arena.settlement_timestamp = now;
    ctx.arena.claimable_at = claimable_at;
    ctx.arena.dispute_count = 0;
    ctx.arena.settlement_version = next_version;
    ctx.arena.status = ArenaStatus::SettledPendingClaim;
    Ok(
        SettlementRootPosted {
            arena: ctx.arena_key,
            settlement_version: next_version,
            merkle_root,
            settlement_timestamp: now,
            claimable_at,
        },
    )
}

} // verus!
