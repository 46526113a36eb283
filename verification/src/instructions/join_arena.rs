use vstd::prelude::*;

use crate::errors::TradestarsArenaError;
use crate::events::ArenaJoined;
use crate::keys::{is_default_key, key_eq, key_is_default, Key};
use crate::state::{ArenaAccount, ArenaPosition, ArenaStatus, UserAccount, MAX_ENTRIES_PER_USER};
use crate::utils::{fee_amount, is_token_2022, require_token_2022, spec_fee_amount};

verus! {

broadcast use vstd::array::group_array_axioms;

/// The accounts a user's entry into an arena reads and writes.
#[derive(Clone, Copy, Debug, PartialEq, Eq)]
pub struct JoinArena {
    /// The entering user, who signs.
    pub user: Key,
    pub user_account: UserAccount,
    /// Address of the arena account.
    pub arena_key: Key,
    pub arena: ArenaAccount,
    /// The user's position in the arena; all zero before the first entry.
    pub position: ArenaPosition,
    /// Bump of the position address, recorded on the first entry.
    pub position_bump: u8,
    pub token_program: Key,
}

/// Whether this is the user's first entry: the position is not yet set up.
pub open spec fn is_first_entry(ctx: JoinArena) -> bool {
    is_default_key(ctx.position.user)
}

/// The position as the entry finds it: freshly set up on the first entry.
pub open spec fn entry_base_position(ctx: JoinArena) -> ArenaPosition {
    if is_first_entry(ctx) {
        ArenaPosition {
            user: ctx.user,
            arena: ctx.arena_key,
            entry_count: 0,
            locked_amount: 0,
            resolved: false,
            last_disputed_settlement_version: 0,
            bump: ctx.position_bump,
        }
    } else {
        ctx.position
    }
}

/// Why the entry is refused at time `now`, if it is: the checks in order.
pub open spec fn join_arena_error(ctx: JoinArena, now: i64) -> Option<TradestarsArenaError> {
    let arena = ctx.arena;
    let account = ctx.user_account;
    let base = entry_base_position(ctx);
    let fee = spec_fee_amount(arena.entry_fee, arena.fee_bps);
    if !is_token_2022(ctx.token_program) {
        Some(TradestarsArenaError::InvalidTokenProgram)
    } else if arena.status != ArenaStatus::Created {
        Some(TradestarsArenaError::ArenaNotCreated)
    } else if now >= arena.entry_close_time {
        Some(TradestarsArenaError::InvalidTime)
    } else if account.owner != ctx.user {
        Some(TradestarsArenaError::InvalidUserAccount)
    } else if !account.solvent() {
        Some(TradestarsArenaError::MathOverflow)
    } else if account.total_balance - account.in_play_debt < arena.entry_fee {
        Some(TradestarsArenaError::InsufficientAvailableBalance)
    } else if is_first_entry(ctx) && arena.participant_count + 1 > u32::MAX {
        Some(TradestarsArenaError::MathOverflow)
    } else if !is_first_entry(ctx) && (ctx.position.user != ctx.user || ctx.position.arena
        != ctx.arena_key) {
        Some(TradestarsArenaError::InvalidArenaPosition)
    } else if !is_first_entry(ctx) && ctx.position.resolved {
        Some(TradestarsArenaError::PositionAlreadyResolved)
    } else if base.entry_count >= MAX_ENTRIES_PER_USER {
        Some(TradestarsArenaError::MaxEntriesReached)
    } else if arena.entry_fee * arena.fee_bps > u64::MAX || fee > arena.entry_fee
        || account.in_play_debt + arena.entry_fee > u64::MAX || base.locked_amount
        + arena.entry_fee > u64::MAX || arena.total_entry_fees_locked + arena.entry_fee
        > u64::MAX || arena.fee_accrued + fee > u64::MAX || arena.total_pool + (arena.entry_fee
        - fee) > u64::MAX {
        Some(TradestarsArenaError::MathOverflow)
    } else {
        None
    }
}

/// The accounts after an accepted entry: the full entry fee is committed to
/// the user's debt and position, the fee accrues, and only the rest joins the pool.
pub open spec fn join_arena_post(ctx: JoinArena) -> JoinArena {
    let arena = ctx.arena;
    let base = entry_base_position(ctx);
    let fee = spec_fee_amount(arena.entry_fee, arena.fee_bps);
    JoinArena {
        user_account: UserAccount {
            in_play_debt: (ctx.user_account.in_play_debt + arena.entry_fee) as u64,
            ..ctx.user_account
        },
        position: ArenaPosition {
            entry_count: (base.entry_count + 1) as u8,
            locked_amount: (base.locked_amount + arena.entry_fee) as u64,
            ..base
        },
        arena: ArenaAccount {
            participant_count: if is_first_entry(ctx) {
                (arena.participant_count + 1) as u32
            } else {
                arena.participant_count
            },
            total_entry_fees_locked: (arena.total_entry_fees_locked + arena.entry_fee) as u64,
            fee_accrued: (arena.fee_accrued + fee) as u64,
            total_pool: (arena.total_pool + (arena.entry_fee - fee)) as u64,
            ..arena
        },
        ..ctx
    }
}

/// The event of an accepted entry.
pub open spec fn join_arena_event(ctx: JoinArena, now: i64) -> ArenaJoined {
    let post = join_arena_post(ctx);
    let fee = spec_fee_amount(ctx.arena.entry_fee, ctx.arena.fee_bps);
    ArenaJoined {
        arena: ctx.arena_key,
        user: ctx.user,
        entry_fee: ctx.arena.entry_fee,
        fee_amount: fee as u64,
        net_entry_amount: (ctx.arena.entry_fee - fee) as u64,
        entry_count: post.position.entry_count,
        locked_amount: post.position.locked_amount,
        user_in_play_debt: post.user_account.in_play_debt,
        total_pool: post.arena.total_pool,
        timestamp: now,
    }
}

/// The outcome of an entry: the accounts after it and its event, or the error.
pub open spec fn join_arena_outcome(ctx: JoinArena, now: i64) -> Result<
    (JoinArena, ArenaJoined),
    TradestarsArenaError,
> {
    match join_arena_error(ctx, now) {
        Some(e) => Err(e),
        None => Ok((join_arena_post(ctx), join_arena_event(ctx, now))),
    }
}

/// Enters the user into the arena at time `now`. The caller burns the event's
/// `entry_fee` from the user's token account. On an error nothing changes.
pub fn handler(ctx: &mut JoinArena, now: i64) -> (r: Result<ArenaJoined, TradestarsArenaError>)
    ensures
        match join_arena_outcome(*old(ctx), now) {
            Ok((post, event)) => r == Ok::<ArenaJoined, TradestarsArenaError>(event) && *final(ctx)
                == post,
            Err(e) => r == Err::<ArenaJoined, TradestarsArenaError>(e) && *final(ctx) == *old(ctx),
        },
{
    match require_token_2022(&ctx.token_program) {
        Ok(()) => {},
        Err(e) => return Err(e),
    }
    if ctx.arena.status != ArenaStatus::Created {
        return Err(TradestarsArenaError::ArenaNotCreated);
    }
    if !(now < ctx.arena.entry_close_time) {
        return Err(TradestarsArenaError::InvalidTime);
    }
    if !key_eq(&ctx.user_account.owner, &ctx.user) {
        return Err(TradestarsArenaError::InvalidUserAccount);
    }
    let available = match ctx.user_account.available_to_withdraw() {
        Ok(v) => v,
        Err(e) => return Err(e),
    };
    if available < ctx.arena.entry_fee {
        return Err(TradestarsArenaError::InsufficientAvailableBalance);
    }
    let is_first_entry = key_is_default(&ctx.position.user);
    let mut position = ctx.position;
    let mut participant_count = ctx.arena.participant_count;
    if is_first_entry {
        position = ArenaPosition {
            user: ctx.user,
            arena: ctx.arena_key,
            entry_count: 0,
            locked_amount: 0,
            resolved: false,
            last_disputed_settlement_version: 0,
            bump: ctx.position_bump,
        };
        participant_count = match ctx.arena.participant_count.checked_add(1) {
            Some(v) => v,
            None => return Err(TradestarsArenaError::MathOverflow),
        };
    } else {
        if !(key_eq(&ctx.position.user, &ctx.user) && key_eq(&ctx.position.arena, &ctx.arena_key)) {
            return Err(TradestarsArenaError::InvalidArenaPosition);
        }
        if ctx.position.resolved {
            return Err(TradestarsArenaError::PositionAlreadyResolved);
        }
    }
    if !(position.entry_count < MAX_ENTRIES_PER_USER) {
        return Err(TradestarsArenaError::MaxEntriesReached);
    }
    let entry_fee = ctx.arena.entry_fee;
    let fee = match fee_amount(entry_fee, ctx.arena.fee_bps) {
        Ok(v) => v,
        Err(e) => return Err(e),
    };
    let net_entry_amount = match entry_fee.checked_sub(fee) {
        Some(v) => v,
        None => return Err(TradestarsArenaError::MathOverflow),
    };
    let in_play_debt = match ctx.user_account.in_play_debt.checked_add(entry_fee) {
        Some(v) => v,
        None => return Err(TradestarsArenaError::MathOverflow),
    };
    let entry_count = position.entry_count + 1;
    let locked_amount = match position.locked_amount.checked_add(entry_fee) {
        Some(v) => v,
        None => return Err(TradestarsArenaError::MathOverflow),
    };
    let total_entry_fees_locked = match ctx.arena.total_entry_fees_locked.checked_add(entry_fee) {
        Some(v) => v,
        None => return Err(TradestarsArenaError::MathOverflow),
    };
    let fee_accrued = match ctx.arena.fee_accrued.checked_add(fee) {
        Some(v) => v,
        None => return Err(TradestarsArenaError::MathOverflow),
    };
    let total_pool = match ctx.arena.total_pool.checked_add(net_entry_amount) {
        Some(v) => v,
        None => return Err(TradestarsArenaError::MathOverflow),
    };

    position.entry_count = entry_count;
    position.locked_amount = locked_amount;
    ctx.position = position;
    ctx.user_account.in_play_debt = in_play_debt;
    ctx.arena.participant_count = participant_count;
    ctx.arena.total_entry_fees_locked = total_entry_fees_locked;
    ctx.arena.fee_accrued = fee_accrued;
    ctx.arena.total_pool = total_pool;

    Ok(
        ArenaJoined {
            arena: ctx.arena_key,
            user: ctx.user,
            entry_fee,
            fee_amount: fee,
            net_entry_amount,
            entry_count,
            locked_amount,
            user_in_play_debt: in_play_debt,
            total_pool,
            timestamp: now,
        },
    )
}

} // verus!
