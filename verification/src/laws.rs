//! What holds of the program across its instructions: the pool accounting
//! every arena keeps, the solvency of every user account, the arena
//! lifecycle, and the one-time nature of roots, disputes, resolutions and
//! withdrawal nonces.

use vstd::prelude::*;

use crate::instructions::cancel_arena::{cancel_arena_outcome, CancelArena};
use crate::instructions::cancel_disputed_arena::{cancel_disputed_arena_outcome, CancelDisputedArena};
use crate::instructions::cancel_stale_arena::{cancel_stale_arena_outcome, CancelStaleArena};
use crate::instructions::claim_refund::{claim_refund_error, ClaimRefund};
use crate::instructions::claim_winnings::{claim_winnings_error, outcome_in_root, ClaimWinnings};
use crate::instructions::create_arena::{create_arena_error, creator_after, new_arena, CreateArena};
use crate::instructions::deposit_collateral::{deposit_collateral_error, deposited_account, DepositCollateral};
use crate::instructions::finalize_arena::{
    finalize_arena_error, finalize_arena_post, finalize_fees, finalize_unused_guarantee,
    FinalizeArena,
};
use crate::instructions::join_arena::{
    entry_base_position, is_first_entry, join_arena_outcome, JoinArena,
};
use crate::instructions::post_settlement_root::{post_settlement_root_outcome, PostSettlementRoot};
use crate::instructions::refund_arena_batch::{
    refund_arena_batch_outcome, refund_batch_prefix, BatchUserAccounts, RefundArenaBatch,
};
use crate::instructions::settle_arena_batch::{
    settle_arena_batch_outcome, settle_batch_prefix, SettleArenaBatch,
};
use crate::instructions::submit_dispute::{submit_dispute_outcome, SubmitDispute};
use crate::instructions::withdraw_request::{withdraw_request_error, withdrawn_account, WithdrawRequest};
use crate::keys::Key;
use crate::state::{
    ArenaAccount, ArenaPosition, ArenaStatus, CreateArenaParams, SettlementEntry, UserAccount,
    MAX_ENTRIES_PER_USER,
};
use crate::utils::{
    arena_with_resolved, refund_error, released_user, settled_arena,
    settled_user, settlement_error, spec_dispute_threshold_reached, spec_fee_amount,
    spec_guaranteed_prize_used,
};

verus! {

/// The arena lifecycle: an arena keeps its status or moves along one of
///   Created -> SettledPendingClaim | Cancelled,
///   SettledPendingClaim -> Disputed | Finalized,
///   Disputed -> Cancelled,
///   Cancelled -> Finalized.
pub open spec fn lifecycle_allows(from: ArenaStatus, to: ArenaStatus) -> bool {
    ||| from == to
    ||| from == ArenaStatus::Created && to == ArenaStatus::SettledPendingClaim
    ||| from == ArenaStatus::Created && to == ArenaStatus::Cancelled
    ||| from == ArenaStatus::SettledPendingClaim && to == ArenaStatus::Disputed
    ||| from == ArenaStatus::SettledPendingClaim && to == ArenaStatus::Finalized
    ||| from == ArenaStatus::Disputed && to == ArenaStatus::Cancelled
    ||| from == ArenaStatus::Cancelled && to == ArenaStatus::Finalized
}

/// The fee on an entry never exceeds the entry fee when the fee rate is at
/// most 100%.
pub proof fn lemma_fee_within_entry(entry_fee: u64, fee_bps: u16)
    requires
        fee_bps <= 10_000,
    ensures
        0 <= spec_fee_amount(entry_fee, fee_bps) <= entry_fee,
{
    assert(entry_fee * fee_bps <= entry_fee * 10_000) by (nonlinear_arith)
        requires
            fee_bps <= 10_000,
    ;
    assert(0 <= entry_fee * fee_bps) by (nonlinear_arith);
}

/// Once the disputes reach the threshold, more disputes keep it reached.
pub proof fn lemma_dispute_threshold_monotone(fewer: u32, more: u32, participant_count: u32)
    requires
        fewer <= more,
        spec_dispute_threshold_reached(fewer, participant_count),
    ensures
        spec_dispute_threshold_reached(more, participant_count),
{
}

/// With at least three participants, one or two disputes never reach the
/// threshold, and with at most three, all participants must dispute.
pub proof fn lemma_dispute_threshold_floor(dispute_count: u32, participant_count: u32)
    ensures
        participant_count >= 3 && dispute_count < 3 ==> !spec_dispute_threshold_reached(
            dispute_count,
            participant_count,
        ),
        1 <= participant_count <= 3 ==> (spec_dispute_threshold_reached(
            dispute_count,
            participant_count,
        ) <==> dispute_count >= participant_count),
{
    if 1 <= participant_count <= 3 {
        assert((participant_count * 2_000 + 9_999) / 10_000 == 1) by (nonlinear_arith)
            requires
                1 <= participant_count <= 3,
        ;
    }
}

/// A new arena starts in `Created` with consistent accounting: its pool is
/// exactly the locked guarantee and nothing is paid out.
pub proof fn lemma_create_arena_establishes_accounting(
    ctx: CreateArena,
    arena_id: Key,
    params: CreateArenaParams,
    now: i64,
)
    requires
        create_arena_error(ctx, params, now) is None,
        ctx.creator_user_account.solvent(),
    ensures
        new_arena(ctx, arena_id, params).accounting_ok(),
        new_arena(ctx, arena_id, params).status == ArenaStatus::Created,
        creator_after(ctx, params).solvent(),
        now < params.start_time <= params.entry_close_time < params.end_time,
{
}

/// An accepted entry keeps the arena's accounting and the user's solvency,
/// leaves the status alone, happens before entries close, and never brings a
/// position past the entry limit.
pub proof fn lemma_join_arena_invariants(ctx: JoinArena, now: i64)
    requires
        ctx.arena.accounting_ok(),
        ctx.user_account.solvent(),
    ensures
        join_arena_outcome(ctx, now) matches Ok((post, event)) ==> {
            &&& post.arena.accounting_ok()
            &&& post.user_account.solvent()
            &&& post.arena.status == ctx.arena.status
            &&& now < ctx.arena.entry_close_time
            &&& post.position.entry_count <= MAX_ENTRIES_PER_USER
            &&& post.position.entry_count == entry_base_position(ctx).entry_count + 1
            &&& event.fee_amount + event.net_entry_amount == event.entry_fee
        },
        ctx.arena.status == ArenaStatus::Disputed ==> join_arena_outcome(ctx, now) is Err,
{
}

/// A user who already holds the maximum number of entries cannot enter again.
pub proof fn lemma_join_arena_entry_limit(ctx: JoinArena, now: i64)
    requires
        !is_first_entry(ctx),
        ctx.position.entry_count >= MAX_ENTRIES_PER_USER,
    ensures
        join_arena_outcome(ctx, now) is Err,
{
}

/// A settlement root is posted only after the arena's end, and only once:
/// any later attempt on the posted arena is refused.
pub proof fn lemma_post_settlement_root_once(
    ctx: PostSettlementRoot,
    merkle_root: Key,
    now: i64,
    later_root: Key,
    later: i64,
)
    ensures
        post_settlement_root_outcome(ctx, merkle_root, now) matches Ok((post, _)) ==> {
            &&& now >= ctx.arena.end_time
            &&& post.arena.status == ArenaStatus::SettledPendingClaim
            &&& lifecycle_allows(ctx.arena.status, post.arena.status)
            &&& (ctx.arena.accounting_ok() ==> post.arena.accounting_ok())
            &&& post_settlement_root_outcome(post, later_root, later) is Err
        },
        ctx.arena.status == ArenaStatus::Disputed ==> post_settlement_root_outcome(
            ctx,
            merkle_root,
            now,
        ) is Err,
{
}

/// A participant disputes a settlement version at most once, the dispute
/// moves the arena only to `Disputed`, and a disputed arena takes no more
/// disputes.
pub proof fn lemma_submit_dispute_once(ctx: SubmitDispute, now: i64, later: i64)
    ensures
        submit_dispute_outcome(ctx, now) matches Ok((post, _)) ==> {
            &&& lifecycle_allows(ctx.arena.status, post.arena.status)
            &&& (ctx.arena.accounting_ok() ==> post.arena.accounting_ok())
            &&& submit_dispute_outcome(post, later) is Err
        },
        ctx.arena.status == ArenaStatus::Disputed ==> submit_dispute_outcome(ctx, now) is Err,
{
}

/// A stale cancellation only cancels a created arena, past its grace period.
pub proof fn lemma_cancel_stale_arena_lifecycle(ctx: CancelStaleArena, now: i64)
    ensures
        cancel_stale_arena_outcome(ctx, now) matches Ok((post, _)) ==> {
            &&& ctx.arena.status == ArenaStatus::Created
            &&& post.arena.status == ArenaStatus::Cancelled
            &&& now >= ctx.arena.end_time + ctx.platform_config.settlement_grace_period_seconds
            &&& (ctx.arena.accounting_ok() ==> post.arena.accounting_ok())
        },
        ctx.arena.status == ArenaStatus::Disputed ==> cancel_stale_arena_outcome(ctx, now) is Err,
{
}

/// Cancelling a disputed arena is the one way out of `Disputed`, and it
/// leads to `Cancelled`.
pub proof fn lemma_cancel_disputed_arena_lifecycle(ctx: CancelDisputedArena, now: i64)
    ensures
        cancel_disputed_arena_outcome(ctx, now) matches Ok((post, _)) ==> {
            &&& ctx.arena.status == ArenaStatus::Disputed
            &&& post.arena.status == ArenaStatus::Cancelled
            &&& (ctx.arena.accounting_ok() ==> post.arena.accounting_ok())
        },
{
}

/// The operator cancels only before the arena starts, and never a disputed arena.
pub proof fn lemma_cancel_arena_lifecycle(ctx: CancelArena, now: i64)
    ensures
        cancel_arena_outcome(ctx, now) matches Ok((post, event)) ==> {
            &&& lifecycle_allows(ctx.arena.status, post.arena.status)
            &&& (event is Some ==> now < ctx.arena.start_time && post.arena.status
                == ArenaStatus::Cancelled)
            &&& (ctx.arena.accounting_ok() ==> post.arena.accounting_ok())
        },
        ctx.arena.status == ArenaStatus::Disputed ==> cancel_arena_outcome(ctx, now) is Err,
{
}

/// Applying a settlement keeps the arena's accounting, so that total payouts
/// stay within `max(guaranteed_prize_reserved, net_entry_pool)`, and keeps the
/// user solvent.
pub proof fn lemma_settlement_invariants(
    arena: ArenaAccount,
    user_account: UserAccount,
    position: ArenaPosition,
    user: Key,
    locked_amount: u64,
    payout_amount: u64,
)
    requires
        arena.accounting_ok(),
        user_account.solvent(),
        settlement_error(arena, user_account, position, user, locked_amount, payout_amount) is None,
    ensures
        settled_arena(arena, payout_amount).accounting_ok(),
        settled_arena(arena, payout_amount).status == arena.status,
        settled_user(user_account, locked_amount, payout_amount).solvent(),
        settled_arena(arena, payout_amount).total_claimed_payout == arena.total_claimed_payout
            + payout_amount,
{
}

/// Refunding a position keeps the arena's accounting and the user solvent,
/// and releases exactly the position's locked stake.
pub proof fn lemma_refund_invariants(
    arena: ArenaAccount,
    user_account: UserAccount,
    position: ArenaPosition,
    user: Key,
)
    requires
        arena.accounting_ok(),
        user_account.solvent(),
        refund_error(arena, user_account, position, user) is None,
    ensures
        arena_with_resolved(arena).accounting_ok(),
        arena_with_resolved(arena).status == arena.status,
        released_user(user_account, position.locked_amount).solvent(),
        released_user(user_account, position.locked_amount).in_play_debt == user_account.in_play_debt
            - position.locked_amount,
{
}

/// A resolved position is never paid or refunded again.
pub proof fn lemma_resolved_position_is_final(
    arena: ArenaAccount,
    user_account: UserAccount,
    position: ArenaPosition,
    user: Key,
    locked_amount: u64,
    payout_amount: u64,
)
    requires
        position.resolved,
    ensures
        settlement_error(arena, user_account, position, user, locked_amount, payout_amount) is Some,
        refund_error(arena, user_account, position, user) is Some,
{
}

/// A user's own claim pays only an outcome proven to be in the posted
/// settlement root, only from a settled arena whose dispute window closed,
/// and keeps the accounting and the user's solvency.
pub proof fn lemma_claim_winnings_invariants(
    ctx: ClaimWinnings,
    locked_amount: u64,
    payout_amount: u64,
    proof: Seq<Key>,
    now: i64,
)
    requires
        ctx.arena.accounting_ok(),
        ctx.user_account.solvent(),
        claim_winnings_error(ctx, locked_amount, payout_amount, proof, now) is None,
    ensures
        outcome_in_root(ctx.arena, ctx.user, locked_amount, payout_amount, proof),
        ctx.arena.status == ArenaStatus::SettledPendingClaim,
        now >= ctx.arena.claimable_at,
        settled_arena(ctx.arena, payout_amount).accounting_ok(),
        settled_user(ctx.user_account, locked_amount, payout_amount).solvent(),
{
    lemma_settlement_invariants(
        ctx.arena,
        ctx.user_account,
        ctx.position,
        ctx.user,
        locked_amount,
        payout_amount,
    );
}

/// A disputed arena pays out nothing and refunds nothing until it is cancelled.
pub proof fn lemma_disputed_arena_pays_nothing(
    claim: ClaimWinnings,
    locked_amount: u64,
    payout_amount: u64,
    proof: Seq<Key>,
    refund: ClaimRefund,
    now: i64,
)
    requires
        claim.arena.status == ArenaStatus::Disputed,
        refund.arena.status == ArenaStatus::Disputed,
    ensures
        claim_winnings_error(claim, locked_amount, payout_amount, proof, now) is Some,
        claim_refund_error(refund) is Some,
{
}

/// A user's own refund comes only from a cancelled arena and returns the
/// whole locked stake.
pub proof fn lemma_claim_refund_invariants(ctx: ClaimRefund)
    requires
        ctx.arena.accounting_ok(),
        ctx.user_account.solvent(),
        claim_refund_error(ctx) is None,
    ensures
        ctx.arena.status == ArenaStatus::Cancelled,
        arena_with_resolved(ctx.arena).accounting_ok(),
        released_user(ctx.user_account, ctx.position.locked_amount).solvent(),
{
}

/// Settling the first `n` entries of a batch keeps the arena's accounting and status.
pub proof fn lemma_settle_batch_prefix_invariants(
    ctx: SettleArenaBatch,
    entries: Seq<SettlementEntry>,
    items: Seq<BatchUserAccounts>,
    n: nat,
    now: i64,
)
    requires
        ctx.arena.accounting_ok(),
        n <= items.len(),
        n <= entries.len(),
        forall|i: int| 0 <= i < items.len() ==> (#[trigger] items[i]).user_account.solvent(),
    ensures
        settle_batch_prefix(ctx, entries, items, n, now) matches Ok((arena, done, events)) ==> {
            &&& arena.accounting_ok()
            &&& arena.status == ctx.arena.status
            &&& done.len() == n
            &&& forall|i: int| 0 <= i < n ==> (#[trigger] done[i]).user_account.solvent()
        },
    decreases n,
{
    if n > 0 {
        lemma_settle_batch_prefix_invariants(ctx, entries, items, (n - 1) as nat, now);
        if let Ok((arena, done, events)) = settle_batch_prefix(
            ctx,
            entries,
            items,
            (n - 1) as nat,
            now,
        ) {
            let item = items[n - 1];
            let entry = entries[n - 1];
            if settlement_error(
                arena,
                item.user_account,
                item.position,
                item.user_account.owner,
                entry.locked_amount,
                entry.payout_amount,
            ) is None {
                lemma_settlement_invariants(
                    arena,
                    item.user_account,
                    item.position,
                    item.user_account.owner,
                    entry.locked_amount,
                    entry.payout_amount,
                );
            }
        }
    }
}

/// An operator's settlement batch keeps the arena's accounting and status
/// and every user in it solvent.
pub proof fn lemma_settle_arena_batch_invariants(
    ctx: SettleArenaBatch,
    entries: Seq<SettlementEntry>,
    items: Seq<BatchUserAccounts>,
    now: i64,
)
    requires
        ctx.arena.accounting_ok(),
        items.len() == ctx.remaining_accounts_len / 3,
        forall|i: int| 0 <= i < items.len() ==> (#[trigger] items[i]).user_account.solvent(),
    ensures
        settle_arena_batch_outcome(ctx, entries, items, now) matches Ok((arena, done, events)) ==> {
            &&& arena.accounting_ok()
            &&& arena.status == ArenaStatus::SettledPendingClaim
            &&& now >= ctx.arena.claimable_at
            &&& forall|i: int| 0 <= i < done.len() ==> (#[trigger] done[i]).user_account.solvent()
        },
        ctx.arena.status == ArenaStatus::Disputed ==> settle_arena_batch_outcome(
            ctx,
            entries,
            items,
            now,
        ) is Err,
{
    if settle_arena_batch_outcome(ctx, entries, items, now) is Ok {
        lemma_settle_batch_prefix_invariants(ctx, entries, items, items.len(), now);
    }
}

/// Refunding the first `n` entries of a batch keeps the arena's accounting and status.
pub proof fn lemma_refund_batch_prefix_invariants(
    ctx: RefundArenaBatch,
    items: Seq<BatchUserAccounts>,
    n: nat,
    now: i64,
)
    requires
        ctx.arena.accounting_ok(),
        n <= items.len(),
        forall|i: int| 0 <= i < items.len() ==> (#[trigger] items[i]).user_account.solvent(),
    ensures
        refund_batch_prefix(ctx, items, n, now) matches Ok((arena, done, events)) ==> {
            &&& arena.accounting_ok()
            &&& arena.status == ctx.arena.status
            &&& done.len() == n
            &&& forall|i: int| 0 <= i < n ==> (#[trigger] done[i]).user_account.solvent()
        },
    decreases n,
{
    if n > 0 {
        lemma_refund_batch_prefix_invariants(ctx, items, (n - 1) as nat, now);
        if let Ok((arena, done, events)) = refund_batch_prefix(ctx, items, (n - 1) as nat, now) {
            let item = items[n - 1];
            if refund_error(arena, item.user_account, item.position, item.user_account.owner) is None {
                lemma_refund_invariants(
                    arena,
                    item.user_account,
                    item.position,
                    item.user_account.owner,
                );
            }
        }
    }
}

/// An operator's refund batch acts only on a cancelled arena and keeps its
/// accounting and every user in it solvent.
pub proof fn lemma_refund_arena_batch_invariants(
    ctx: RefundArenaBatch,
    items: Seq<BatchUserAccounts>,
    now: i64,
)
    requires
        ctx.arena.accounting_ok(),
        forall|i: int| 0 <= i < items.len() ==> (#[trigger] items[i]).user_account.solvent(),
    ensures
        refund_arena_batch_outcome(ctx, items, now) matches Ok((arena, done, events)) ==> {
            &&& arena.accounting_ok()
            &&& arena.status == ArenaStatus::Cancelled
            &&& forall|i: int| 0 <= i < done.len() ==> (#[trigger] done[i]).user_account.solvent()
        },
        ctx.arena.status == ArenaStatus::Disputed ==> refund_arena_batch_outcome(ctx, items, now) is Err,
{
    if refund_arena_batch_outcome(ctx, items, now) is Ok {
        lemma_refund_batch_prefix_invariants(ctx, items, items.len(), now);
    }
}

/// Finalization closes a settled or cancelled arena whose positions are all
/// resolved. A settled arena mints its accrued fees to the treasury and hands
/// the unused guarantee back; a cancelled one hands back the whole guarantee
/// and mints no fees. The creator and the treasury stay solvent.
pub proof fn lemma_finalize_arena_invariants(ctx: FinalizeArena)
    requires
        ctx.arena.accounting_ok(),
        ctx.creator_account.solvent(),
        ctx.treasury_account.solvent(),
        finalize_arena_error(ctx) is None,
    ensures
        lifecycle_allows(ctx.arena.status, finalize_arena_post(ctx).arena.status),
        finalize_arena_post(ctx).arena.status == ArenaStatus::Finalized,
        ctx.arena.resolved_count == ctx.arena.participant_count,
        finalize_arena_post(ctx).creator_account.solvent(),
        finalize_arena_post(ctx).treasury_account.solvent(),
        ctx.arena.status == ArenaStatus::Cancelled ==> finalize_fees(ctx) == 0
            && finalize_unused_guarantee(ctx) == ctx.arena.guaranteed_prize_reserved,
        ctx.arena.status == ArenaStatus::SettledPendingClaim ==> finalize_fees(ctx)
            == ctx.arena.fee_accrued && finalize_unused_guarantee(ctx)
            == ctx.arena.guaranteed_prize_reserved - spec_guaranteed_prize_used(ctx.arena),
        0 <= finalize_unused_guarantee(ctx) <= ctx.arena.guaranteed_prize_reserved,
{
}

/// A finalized or disputed arena cannot be finalized.
pub proof fn lemma_finalize_arena_refuses(ctx: FinalizeArena)
    requires
        ctx.arena.status == ArenaStatus::Finalized || ctx.arena.status == ArenaStatus::Disputed,
    ensures
        finalize_arena_error(ctx) is Some,
{
}

/// A deposit credits exactly its amount and keeps the user solvent.
pub proof fn lemma_deposit_collateral_invariants(ctx: DepositCollateral, amount: u64)
    requires
        ctx.user_account.solvent(),
        deposit_collateral_error(ctx, amount) is None,
    ensures
        deposited_account(ctx, amount).solvent(),
        deposited_account(ctx, amount).owner == ctx.user,
        ctx.submitter == ctx.platform_config.minting_authority,
        !ctx.platform_config.deposits_paused,
{
}

/// A withdrawal takes only free balance, keeps the user solvent, and its
/// nonce cannot be used again.
pub proof fn lemma_withdraw_request_invariants(
    ctx: WithdrawRequest,
    amount: u64,
    nonce: u64,
    later_amount: u64,
)
    requires
        withdraw_request_error(ctx, amount, nonce) is None,
    ensures
        withdrawn_account(ctx.user_account, amount, nonce).solvent(),
        amount <= ctx.user_account.total_balance - ctx.user_account.in_play_debt,
        withdraw_request_error(
            WithdrawRequest {
                user_account: withdrawn_account(ctx.user_account, amount, nonce),
                ..ctx
            },
            later_amount,
            nonce,
        ) is Some,
{
}

} // verus!
