use vstd::prelude::*;

use crate::errors::TradestarsArenaError;
use crate::events::ArenaFinalized;
use crate::keys::{key_eq, Key};
use crate::state::{ArenaAccount, ArenaStatus, UserAccount};
use crate::utils::{
    guaranteed_prize_used, is_token_2022, require_token_2022, spec_guaranteed_prize_used,
    spec_unused_guarantee, unused_guarantee,
};

verus! {

/// The accounts an arena's finalization reads and writes. The creator and
/// treasury wallet are checked against the arena and the configuration when
/// the accounts are loaded.
#[derive(Clone, Copy, Debug, PartialEq, Eq)]
pub struct FinalizeArena {
    /// Address of the arena account.
    pub arena_key: Key,
    pub arena: ArenaAccount,
    /// The arena's creator.
    pub creator: Key,
    pub creator_account: UserAccount,
    /// The configured treasury wallet.
    pub treasury_wallet: Key,
    pub treasury_account: UserAccount,
    pub token_program: Key,
}

/// Whether the arena was settled (rather than cancelled).
pub open spec fn finalizes_settled(ctx: FinalizeArena) -> bool {
    ctx.arena.status == ArenaStatus::SettledPendingClaim
}

/// The guarantee that payouts used: none for a cancelled arena.
pub open spec fn finalize_guarantee_used(ctx: FinalizeArena) -> int {
    if finalizes_settled(ctx) {
        spec_guaranteed_prize_used(ctx.arena)
    } else {
        0
    }
}

/// The guarantee handed back to the creator: all of it for a cancelled arena.
pub open spec fn finalize_unused_guarantee(ctx: FinalizeArena) -> int {
    if finalizes_settled(ctx) {
        spec_unused_guarantee(ctx.arena)
    } else {
        ctx.arena.guaranteed_prize_reserved as int
    }
}

/// The fees minted to the treasury: the accrued fees of a settled arena, none
/// of a cancelled one.
pub open spec fn finalize_fees(ctx: FinalizeArena) -> int {
    if finalizes_settled(ctx) {
        ctx.arena.fee_accrued as int
    } else {
        0
    }
}

/// Why the finalization is refused, if it is.
pub open spec fn finalize_arena_error(ctx: FinalizeArena) -> Option<TradestarsArenaError> {
    if !is_token_2022(ctx.token_program) {
        Some(TradestarsArenaError::InvalidTokenProgram)
    } else if ctx.arena.status != ArenaStatus::SettledPendingClaim && ctx.arena.status
        != ArenaStatus::Cancelled {
        Some(TradestarsArenaError::InvalidStatusTransition)
    } else if ctx.arena.resolved_count != ctx.arena.participant_count {
        Some(TradestarsArenaError::ArenaNotReadyToFinalize)
    } else if ctx.creator_account.owner != ctx.creator || ctx.treasury_account.owner
        != ctx.treasury_wallet {
        Some(TradestarsArenaError::InvalidUserAccount)
    } else if (finalizes_settled(ctx) && (ctx.arena.fee_accrued > ctx.arena.total_entry_fees_locked
        || spec_unused_guarantee(ctx.arena) < 0)) || ctx.creator_account.in_play_debt
        < ctx.arena.guaranteed_prize_reserved || ctx.creator_account.total_balance
        < finalize_guarantee_used(ctx) || ctx.treasury_account.total_balance + finalize_fees(ctx)
        > u64::MAX {
        Some(TradestarsArenaError::MathOverflow)
    } else {
        None
    }
}

/// The accounts after finalization: the creator's guarantee leaves its debt
/// and the part used for payouts leaves its balance, the treasury is credited
/// the fees, and the arena is finalized.
pub open spec fn finalize_arena_post(ctx: FinalizeArena) -> FinalizeArena {
    FinalizeArena {
        arena: ArenaAccount { status: ArenaStatus::Finalized, ..ctx.arena },
        creator_account: UserAccount {
            in_play_debt: (ctx.creator_account.in_play_debt
                - ctx.arena.guaranteed_prize_reserved) as u64,
            total_balance: (ctx.creator_account.total_balance - finalize_guarantee_used(ctx)) as u64,
            ..ctx.creator_account
        },
        treasury_account: UserAccount {
            total_balance: (ctx.treasury_account.total_balance + finalize_fees(ctx)) as u64,
            ..ctx.treasury_account
        },
        ..ctx
    }
}

/// Finalizes an arena whose positions are all resolved; the caller mints the
/// event's `unused_guarantee` to the creator and `fees_minted` to the
/// treasury, each when not zero. On an error nothing changes.
pub fn handler(ctx: &mut FinalizeArena, now: i64) -> (r: Result<ArenaFinalized, TradestarsArenaError>)
    ensures
        match finalize_arena_error(*old(ctx)) {
            Some(e) => r == Err::<ArenaFinalized, TradestarsArenaError>(e) && *final(ctx) == *old(ctx),
            None => {
                &&& *final(ctx) == finalize_arena_post(*old(ctx))
                &&& r == Ok::<ArenaFinalized, TradestarsArenaError>(
                    ArenaFinalized {
                        arena: old(ctx).arena_key,
                        creator: old(ctx).arena.creator,
                        unused_guarantee: finalize_unused_guarantee(*old(ctx)) as u64,
                        fees_minted: finalize_fees(*old(ctx)) as u64,
                        timestamp: now,
                    },
                )
            },
        },
{
    match require_token_2022(&ctx.token_program) {
        Ok(()) => {},
        Err(e) => return Err(e),
    }
    if !(ctx.arena.status == ArenaStatus::SettledPendingClaim || ctx.arena.status
        == ArenaStatus::Cancelled) {
        return Err(TradestarsArenaError::InvalidStatusTransition);
    }
    if ctx.arena.resolved_count != ctx.arena.participant_count {
        return Err(TradestarsArenaError::ArenaNotReadyToFinalize);
    }
    if !key_eq(&ctx.creator_account.owner, &ctx.creator) {
        return Err(TradestarsArenaError::InvalidUserAccount);
    }
    if !key_eq(&ctx.treasury_account.owner, &ctx.treasury_wallet) {
        return Err(TradestarsArenaError::InvalidUserAccount);
    }
    let guaranteed_used: u64;
    let unused_guarantee_amount: u64;
    let fees_to_mint: u64;
    if ctx.arena.status == ArenaStatus::Cancelled {
        guaranteed_used = 0;
        unused_guarantee_amount = ctx.arena.guaranteed_prize_reserved;
        fees_to_mint = 0;
    } else {
        guaranteed_used = match guaranteed_prize_used(&ctx.arena) {
            Ok(v) => v,
            Err(e) => return Err(e),
        };
        unused_guarantee_amount = match unused_guarantee(&ctx.arena) {
            Ok(v) => v,
            Err(e) => return Err(e),
        };
        fees_to_mint = ctx.arena.fee_accrued;
    }
    let creator_debt = match ctx.creator_account.in_play_debt.checked_sub(
        ctx.arena.guaranteed_prize_reserved,
    ) {
        Some(v) => v,
        None => return Err(TradestarsArenaError::MathOverflow),
    };
    let mut creator_balance = ctx.creator_account.total_balance;
    if guaranteed_used > 0 {
        creator_balance = match creator_balance.checked_sub(guaranteed_used) {
            Some(v) => v,
            None => return Err(TradestarsArenaError::MathOverflow),
        };
    }
    let mut treasury_balance = ctx.treasury_account.total_balance;
    if fees_to_mint > 0 {
        treasury_balance = match treasury_balance.checked_add(fees_to_mint) {
            Some(v) => v,
            None => return Err(TradestarsArenaError::MathOverflow),
        };
    }
    ctx.creator_account.in_play_debt = creator_debt;
    ctx.creator_account.total_balance = creator_balance;
    ctx.treasury_account.total_balance = treasury_balance;
    ctx.arena.status = ArenaStatus::Finalized;
    Ok(
        ArenaFinalized {
            arena: ctx.arena_key,
            creator: ctx.arena.creator,
            unused_guarantee: unused_guarantee_amount,
            fees_minted: fees_to_mint,
            timestamp: now,
        },
    )
}

} // verus!
