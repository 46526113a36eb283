use vstd::prelude::*;

use crate::errors::TradestarsArenaError;
use crate::events::ArenaCreated;
use crate::instructions::deposit_collateral::account_for;
use crate::keys::{key_eq, key_is_default, Key};
use crate::state::{ArenaAccount, ArenaStatus, CreateArenaParams, PlatformConfig, UserAccount};
use crate::utils::require_arena_operator;

verus! {

/// The accounts an arena's creation reads and writes.
#[derive(Clone, Copy, Debug, PartialEq, Eq)]
pub struct CreateArena {
    pub platform_config: PlatformConfig,
    /// The signing operator.
    pub authority: Key,
    /// The co-signing creator, who funds the guaranteed prize.
    pub creator: Key,
    /// The creator's account; all zero when it is created here.
    pub creator_user_account: UserAccount,
    /// Bump of the creator's account address.
    pub creator_user_account_bump: u8,
    /// Address of the new arena account.
    pub arena_key: Key,
    /// The new arena account, written by the creation.
    pub arena: ArenaAccount,
    /// Bump of the arena address.
    pub arena_bump: u8,
}

/// Why the creation at time `now` is refused, if it is: the times must run
/// `now < start_time <= entry_close_time < end_time`, and a guaranteed prize
/// must be covered by the creator's free balance.
pub open spec fn create_arena_error(ctx: CreateArena, params: CreateArenaParams, now: i64) -> Option<
    TradestarsArenaError,
> {
    let account = account_for(ctx.creator_user_account, ctx.creator, ctx.creator_user_account_bump);
    let target = params.guaranteed_prize_target;
    if ctx.authority != ctx.platform_config.arena_operator {
        Some(TradestarsArenaError::InvalidArenaOperator)
    } else if params.creator != ctx.creator {
        Some(TradestarsArenaError::InvalidCreator)
    } else if params.entry_fee == 0 {
        Some(TradestarsArenaError::AmountTooSmall)
    } else if params.fee_bps > 10_000 {
        Some(TradestarsArenaError::InvalidFeeBps)
    } else if params.start_time <= now || params.entry_close_time < params.start_time
        || params.end_time <= params.entry_close_time {
        Some(TradestarsArenaError::InvalidTime)
    } else if account.owner != ctx.creator {
        Some(TradestarsArenaError::InvalidUserAccount)
    } else if target > 0 && !account.solvent() {
        Some(TradestarsArenaError::MathOverflow)
    } else if target > 0 && account.total_balance - account.in_play_debt < target {
        Some(TradestarsArenaError::InsufficientAvailableBalance)
    } else if target > 0 && account.in_play_debt + target > u64::MAX {
        Some(TradestarsArenaError::MathOverflow)
    } else {
        None
    }
}

/// The new arena: created, its pool holding only the locked guarantee.
pub open spec fn new_arena(ctx: CreateArena, arena_id: Key, params: CreateArenaParams) -> ArenaAccount {
    ArenaAccount {
        arena_id: arena_id,
        creator: params.creator,
        status: ArenaStatus::Created,
        entry_fee: params.entry_fee,
        fee_bps: params.fee_bps,
        guaranteed_prize_target: params.guaranteed_prize_target,
        guaranteed_prize_reserved: params.guaranteed_prize_target,
        total_entry_fees_locked: 0,
        fee_accrued: 0,
        total_pool: params.guaranteed_prize_target,
        total_claimed_payout: 0,
        start_time: params.start_time,
        entry_close_time: params.entry_close_time,
        end_time: params.end_time,
        merkle_root: vstd::array::spec_array_fill_for_copy_type::<u8, 32>(0u8),
        settlement_timestamp: 0,
        claimable_at: 0,
        participant_count: 0,
        resolved_count: 0,
        dispute_count: 0,
        settlement_version: 0,
        metadata_hash: params.metadata_hash,
        bump: ctx.arena_bump,
    }
}

/// The creator's account after the creation: the guarantee joins its debt.
pub open spec fn creator_after(ctx: CreateArena, params: CreateArenaParams) -> UserAccount {
    let account = account_for(ctx.creator_user_account, ctx.creator, ctx.creator_user_account_bump);
    UserAccount {
        in_play_debt: (account.in_play_debt + params.guaranteed_prize_target) as u64,
        ..account
    }
}

/// Creates an arena and locks the creator's guaranteed prize; the caller
/// burns the event's `guaranteed_prize_target` from the creator's token
/// account when it is not zero. On an error nothing changes.
pub fn handler(ctx: &mut CreateArena, arena_id: Key, params: CreateArenaParams, now: i64) -> (r:
    Result<ArenaCreated, TradestarsArenaError>)
    ensures
        match create_arena_error(*old(ctx), params, now) {
            Some(e) => r == Err::<ArenaCreated, TradestarsArenaError>(e) && *final(ctx) == *old(ctx),
            None => {
                &&& *final(ctx) == (CreateArena {
                    creator_user_account: creator_after(*old(ctx), params),
                    arena: new_arena(*old(ctx), arena_id, params),
                    ..*old(ctx)
                })
                &&& r == Ok::<ArenaCreated, TradestarsArenaError>(
                    ArenaCreated {
                        arena: old(ctx).arena_key,
                        creator: params.creator,
                        entry_fee: params.entry_fee,
                        fee_bps: params.fee_bps,
                        guaranteed_prize_target: params.guaranteed_prize_target,
                        guaranteed_prize_reserved: params.guaranteed_prize_target,
                        start_time: params.start_time,
                        entry_close_time: params.entry_close_time,
                        end_time: params.end_time,
                        metadata_hash: params.metadata_hash,
                        timestamp: now,
                    },
                )
            },
        },
{
    match require_arena_operator(&ctx.platform_config, &ctx.authority) {
        Ok(()) => {},
        Err(e) => return Err(e),
    }
    if !key_eq(&params.creator, &ctx.creator) {
        return Err(TradestarsArenaError::InvalidCreator);
    }
    if params.entry_fee == 0 {
        return Err(TradestarsArenaError::AmountTooSmall);
    }
    if params.fee_bps > 10_000 {
        return Err(TradestarsArenaError::InvalidFeeBps);
    }
    if !(params.start_time > now) {
        return Err(TradestarsArenaError::InvalidTime);
    }
    if !(params.entry_close_time >= params.start_time) {
        return Err(TradestarsArenaError::InvalidTime);
    }
    if !(params.end_time > params.entry_close_time) {
        return Err(TradestarsArenaError::InvalidTime);
    }
    let mut account = ctx.creator_user_account;
    if key_is_default(&account.owner) {
        account = UserAccount {
            owner: ctx.creator,
            total_balance: 0,
            in_play_debt: 0,
            last_nonce: 0,
            bump: ctx.creator_user_account_bump,
        };
    }
    if !key_eq(&account.owner, &ctx.creator) {
        return Err(TradestarsArenaError::InvalidUserAccount);
    }
    let target = params.guaranteed_prize_target;
    if target > 0 {
        let available = match account.available_to_withdraw() {
            Ok(v) => v,
            Err(e) => return Err(e),
        };
        if available < target {
            return Err(TradestarsArenaError::InsufficientAvailableBalance);
        }
        account.in_play_debt = match account.in_play_debt.checked_add(target) {
            Some(v) => v,
            None => return Err(TradestarsArenaError::MathOverflow),
        };
    }
    ctx.creator_user_account = account;
    ctx.arena = ArenaAccount {
        arena_id,
        creator: params.creator,
        status: ArenaStatus::Created,
        entry_fee: params.entry_fee,
        fee_bps: params.fee_bps,
        guaranteed_prize_target: target,
        guaranteed_prize_reserved: target,
        total_entry_fees_locked: 0,
        fee_accrued: 0,
        total_pool: target,
        total_claimed_payout: 0,
        start_time: params.start_time,
        entry_close_time: params.entry_close_time,
        end_time: params.end_time,
        merkle_root: [0u8; 32],
        settlement_timestamp: 0,
        claimable_at: 0,
        participant_count: 0,
        resolved_count: 0,
        dispute_count: 0,
        settlement_version: 0,
        metadata_hash: params.metadata_hash,
        bump: ctx.arena_bump,
    };
    Ok(
        ArenaCreated {
            arena: ctx.arena_key,
            creator: params.creator,
            entry_fee: params.entry_fee,
            fee_bps: params.fee_bps,
            guaranteed_prize_target: target,
            guaranteed_prize_reserved: target,
            start_time: params.start_time,
            entry_close_time: params.entry_close_time,
            end_time: params.end_time,
            metadata_hash: params.metadata_hash,
            timestamp: now,
        },
    )
}

} // verus!
