use vstd::prelude::*;

use crate::errors::TradestarsArenaError;
use crate::events::ArenaPositionSettled;
use crate::external::keccak256;
use crate::keys::Key;
use crate::state::{ArenaAccount, ArenaPosition, UserAccount};
use crate::utils::{
    apply_settlement, ensure_settlement_claimable, is_token_2022, merkle_fold, merkle_leaf,
    merkle_leaf_preimage, require_token_2022, resolved_position, settled_arena, settled_user,
    settlement_claimable_error, settlement_error, verify_merkle_proof,
};

verus! {

/// The accounts a user's own claim of a settled outcome reads and writes.
#[derive(Clone, Copy, Debug, PartialEq, Eq)]
pub struct ClaimWinnings {
    /// Address of the arena account.
    pub arena_key: Key,
    pub arena: ArenaAccount,
    pub user_account: UserAccount,
    pub position: ArenaPosition,
    /// The claiming user, who signs.
    pub user: Key,
    pub token_program: Key,
}

/// Whether the proof shows that this outcome is in the arena's settlement root.
pub open spec fn outcome_in_root(
    arena: ArenaAccount,
    user: Key,
    locked_amount: u64,
    payout_amount: u64,
    proof: Seq<Key>,
) -> bool {
    merkle_fold(
        keccak256(
            merkle_leaf_preimage(
                arena.arena_id@,
                arena.settlement_version,
                user@,
                locked_amount,
                payout_amount,
            ),
        ),
        proof,
    ) == arena.merkle_root@
}

/// Why the claim at time `now` is refused, if it is.
pub open spec fn claim_winnings_error(
    ctx: ClaimWinnings,
    locked_amount: u64,
    payout_amount: u64,
    proof: Seq<Key>,
    now: i64,
) -> Option<TradestarsArenaError> {
    if !is_token_2022(ctx.token_program) {
        Some(TradestarsArenaError::InvalidTokenProgram)
    } else if settlement_claimable_error(ctx.arena, now) is Some {
        settlement_claimable_error(ctx.arena, now)
    } else if !outcome_in_root(ctx.arena, ctx.user, locked_amount, payout_amount, proof) {
        Some(TradestarsArenaError::InvalidMerkleProof)
    } else {
        settlement_error(
            ctx.arena,
            ctx.user_account,
            ctx.position,
            ctx.user,
            locked_amount,
            payout_amount,
        )
    }
}

/// Pays out the user's settled outcome after verifying it against the
/// settlement root; the caller mints the event's `payout_amount` to the user
/// when it is not zero. On an error nothing changes.
pub fn handler(
    ctx: &mut ClaimWinnings,
    locked_amount: u64,
    payout_amount: u64,
    proof: &Vec<Key>,
    now: i64,
) -> (r: Result<ArenaPositionSettled, TradestarsArenaError>)
    ensures
        match claim_winnings_error(*old(ctx), locked_amount, payout_amount, proof@, now) {
            Some(e) => r == Err::<ArenaPositionSettled, TradestarsArenaError>(e) && *final(ctx)
                == *old(ctx),
            None => {
                let arena = settled_arena(old(ctx).arena, payout_amount);
                let account = settled_user(old(ctx).user_account, locked_amount, payout_amount);
                &&& *final(ctx) == (ClaimWinnings {
                    arena: arena,
                    user_account: account,
                    position: resolved_position(old(ctx).position),
                    ..*old(ctx)
                })
                &&& r == Ok::<ArenaPositionSettled, TradestarsArenaError>(
                    ArenaPositionSettled {
                        arena: old(ctx).arena_key,
                        user: old(ctx).user,
                        settled_by: old(ctx).user,
                        locked_amount,
                        payout_amount,
                        new_total_balance: account.total_balance,
                        new_in_play_debt: account.in_play_debt,
                        total_claimed_payout: arena.total_claimed_payout,
                        timestamp: now,
                    },
                )
            },
        },
{
    match require_token_2022(&ctx.token_program) {
        Ok(()) => {},
        Err(e) => return Err(e),
    }
    match ensure_settlement_claimable(&ctx.arena, now) {
        Ok(()) => {},
        Err(e) => return Err(e),
    }
    let leaf = merkle_leaf(
        &ctx.arena.arena_id,
        ctx.arena.settlement_version,
        &ctx.user,
        locked_amount,
        payout_amount,
    );
    if !verify_merkle_proof(leaf, proof.as_slice(), ctx.arena.merkle_root) {
        return Err(TradestarsArenaError::InvalidMerkleProof);
    }
    let user = ctx.user;
    match apply_settlement(
        &mut ctx.arena,
        &mut ctx.user_account,
        &mut ctx.position,
        &user,
        locked_amount,
        payout_amount,
    ) {
        Ok(()) => {},
        Err(e) => return Err(e),
    }
    Ok(
        ArenaPositionSettled {
            arena: ctx.arena_key,
            user: ctx.user,
            settled_by: ctx.user,
            locked_amount,
            payout_amount,
            new_total_balance: ctx.user_account.total_balance,
            new_in_play_debt: ctx.user_account.in_play_debt,
            total_claimed_payout: ctx.arena.total_claimed_payout,
            timestamp: now,
        },
    )
}

} // verus!
