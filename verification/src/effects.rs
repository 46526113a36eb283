//! What each accepted instruction changes, stated over its inputs: the
//! amounts that move between balances, debts, pools and events, and what
//! stays as it was.

use vstd::prelude::*;

use crate::events::ArenaPositionSettled;
use crate::external::keccak256;
use crate::instructions::cancel_arena::{cancel_arena_outcome, CancelArena};
use crate::instructions::cancel_disputed_arena::{
    cancel_disputed_arena_outcome, CancelDisputedArena,
};
use crate::instructions::cancel_stale_arena::{cancel_stale_arena_outcome, CancelStaleArena};
use crate::instructions::create_arena::{create_arena_error, creator_after, new_arena, CreateArena};
use crate::instructions::deposit_collateral::{
    deposit_collateral_error, deposited_account, DepositCollateral,
};
use crate::instructions::finalize_arena::{
    finalize_arena_error, finalize_arena_post, finalize_fees, finalize_unused_guarantee,
    FinalizeArena,
};
use crate::instructions::join_arena::{join_arena_error, join_arena_outcome, JoinArena};
use crate::instructions::post_settlement_root::{post_settlement_root_outcome, PostSettlementRoot};
use crate::instructions::refund_arena_batch::{
    refund_arena_batch_outcome, refund_batch_prefix, BatchUserAccounts, RefundArenaBatch,
};
use crate::instructions::settle_arena_batch::{
    settle_arena_batch_outcome, settle_batch_prefix, SettleArenaBatch,
};
use crate::instructions::submit_dispute::{submit_dispute_outcome, SubmitDispute};
use crate::instructions::withdraw_request::{
    withdraw_request_error, withdrawn_account, WithdrawRequest,
};
use crate::keys::{bytes_le, is_default_key, Key};
use crate::state::{
    ArenaAccount, ArenaPosition, ArenaStatus, CreateArenaParams, SettlementEntry, UserAccount,
    MAX_ENTRIES_PER_USER,
};
use crate::utils::{
    arena_with_resolved, is_token_2022, merkle_parent, refund_error, released_user,
    resolved_position, settled_arena, settled_user, settlement_error,
    spec_dispute_threshold_reached,
};

verus! {

/// The total paid out by a sequence of settlement events.
pub open spec fn settled_payout_total(events: Seq<ArenaPositionSettled>) -> int
    decreases events.len(),
{
    if events.len() == 0 {
        0
    } else {
        settled_payout_total(events.drop_last()) + events.last().payout_amount
    }
}

/// An accepted settlement releases exactly the locked stake from the user's
/// debt, replaces it in the balance by the payout, counts exactly the payout
/// against the arena and resolves the position; nothing else changes.
pub proof fn lemma_settlement_moves_exact_amounts(
    arena: ArenaAccount,
    user_account: UserAccount,
    position: ArenaPosition,
    user: Key,
    locked_amount: u64,
    payout_amount: u64,
)
    requires
        settlement_error(arena, user_account, position, user, locked_amount, payout_amount) is None,
    ensures
        ({
            let after = settled_user(user_account, locked_amount, payout_amount);
            &&& after.in_play_debt == user_account.in_play_debt - locked_amount
            &&& after.total_balance == user_account.total_balance - locked_amount + payout_amount
            &&& after.total_balance - after.in_play_debt == user_account.total_balance
                - user_account.in_play_debt + payout_amount
            &&& after.owner == user_account.owner
            &&& after.last_nonce == user_account.last_nonce
            &&& after.bump == user_account.bump
        }),
        ({
            let after = settled_arena(arena, payout_amount);
            &&& after.total_claimed_payout == arena.total_claimed_payout + payout_amount
            &&& after.resolved_count == arena.resolved_count + 1
            &&& (ArenaAccount {
                total_claimed_payout: arena.total_claimed_payout,
                resolved_count: arena.resolved_count,
                ..after
            }) == arena
        }),
        ({
            let after = resolved_position(position);
            &&& after.resolved
            &&& !position.resolved
            &&& (ArenaPosition { resolved: position.resolved, ..after }) == position
        }),
        position.locked_amount == locked_amount,
        user_account.owner == user,
{
}

/// An accepted refund releases exactly the position's locked stake from the
/// user's debt, leaves the balance alone, and only counts one more resolved
/// position in the arena.
pub proof fn lemma_refund_moves_exact_amounts(
    arena: ArenaAccount,
    user_account: UserAccount,
    position: ArenaPosition,
    user: Key,
)
    requires
        refund_error(arena, user_account, position, user) is None,
    ensures
        ({
            let after = released_user(user_account, position.locked_amount);
            &&& after.in_play_debt == user_account.in_play_debt - position.locked_amount
            &&& (UserAccount { in_play_debt: user_account.in_play_debt, ..after }) == user_account
        }),
        ({
            let after = arena_with_resolved(arena);
            &&& after.resolved_count == arena.resolved_count + 1
            &&& (ArenaAccount { resolved_count: arena.resolved_count, ..after }) == arena
        }),
{
}

/// A withdrawal takes exactly the amount from the balance, leaves the debt
/// alone, records the nonce, and so lowers the free balance by the amount.
pub proof fn lemma_withdraw_moves_exact_amount(ctx: WithdrawRequest, amount: u64, nonce: u64)
    requires
        withdraw_request_error(ctx, amount, nonce) is None,
    ensures
        ({
            let before = ctx.user_account;
            let after = withdrawn_account(before, amount, nonce);
            &&& after.total_balance == before.total_balance - amount
            &&& after.in_play_debt == before.in_play_debt
            &&& after.total_balance - after.in_play_debt == before.total_balance
                - before.in_play_debt - amount
            &&& after.last_nonce == nonce
            &&& nonce == before.last_nonce + 1
            &&& after.owner == before.owner
            &&& after.bump == before.bump
        }),
{
}

/// Finalization lowers the creator's debt by exactly the arena's guarantee.
/// A settled arena charges the creator's balance the part of the payouts
/// that the net entry pool did not cover, hands the rest of the guarantee
/// back, and credits the treasury the accrued fees; a cancelled arena
/// charges nothing, hands the whole guarantee back and credits no fees.
/// What is charged plus what is handed back is the whole guarantee.
pub proof fn lemma_finalize_moves_exact_amounts(ctx: FinalizeArena)
    requires
        finalize_arena_error(ctx) is None,
    ensures
        ({
            let post = finalize_arena_post(ctx);
            let arena = ctx.arena;
            let net = arena.total_entry_fees_locked - arena.fee_accrued;
            let charged = if arena.status == ArenaStatus::SettledPendingClaim
                && arena.total_claimed_payout >= net {
                arena.total_claimed_payout - net
            } else {
                0
            };
            &&& post.creator_account.in_play_debt == ctx.creator_account.in_play_debt
                - arena.guaranteed_prize_reserved
            &&& post.creator_account.total_balance == ctx.creator_account.total_balance - charged
            &&& finalize_unused_guarantee(ctx) == arena.guaranteed_prize_reserved - charged
            &&& finalize_unused_guarantee(ctx) + (ctx.creator_account.total_balance
                - post.creator_account.total_balance) == arena.guaranteed_prize_reserved
            &&& finalize_fees(ctx) == (if arena.status == ArenaStatus::SettledPendingClaim {
                arena.fee_accrued as int
            } else {
                0
            })
            &&& post.treasury_account.total_balance == ctx.treasury_account.total_balance
                + finalize_fees(ctx)
            &&& post.treasury_account.in_play_debt == ctx.treasury_account.in_play_debt
            &&& post.creator_account.owner == ctx.creator_account.owner
            &&& post.creator_account.last_nonce == ctx.creator_account.last_nonce
            &&& post.treasury_account.owner == ctx.treasury_account.owner
            &&& post.arena.status == ArenaStatus::Finalized
            &&& (ArenaAccount { status: arena.status, ..post.arena }) == arena
        }),
{
}

/// Settling the first `n` entries of a batch: the `i`-th event is about the
/// `i`-th user and carries exactly the `i`-th entry's amounts, each user's
/// debt drops by its locked stake and its balance moves from stake to
/// payout, and the arena's payout total grows by exactly the sum of the
/// events' payouts.
pub proof fn lemma_settle_batch_prefix_pays_each_entry(
    ctx: SettleArenaBatch,
    entries: Seq<SettlementEntry>,
    items: Seq<BatchUserAccounts>,
    n: nat,
    now: i64,
)
    requires
        n <= items.len(),
        n <= entries.len(),
    ensures
        settle_batch_prefix(ctx, entries, items, n, now) matches Ok((arena, done, events)) ==> {
            &&& events.len() == n
            &&& done.len() == n
            &&& forall|i: int|
                0 <= i < n ==> {
                    &&& (#[trigger] events[i]).payout_amount == entries[i].payout_amount
                    &&& events[i].locked_amount == entries[i].locked_amount
                    &&& events[i].user == items[i].user_account.owner
                    &&& events[i].arena == ctx.arena_key
                    &&& events[i].settled_by == ctx.authority
                    &&& events[i].timestamp == now
                    &&& done[i].user_account.in_play_debt == items[i].user_account.in_play_debt
                        - entries[i].locked_amount
                    &&& done[i].user_account.total_balance == items[i].user_account.total_balance
                        - entries[i].locked_amount + entries[i].payout_amount
                    &&& events[i].new_total_balance == done[i].user_account.total_balance
                    &&& events[i].new_in_play_debt == done[i].user_account.in_play_debt
                    &&& done[i].user_account.owner == items[i].user_account.owner
                    &&& done[i].position.resolved
                    &&& items[i].position.locked_amount == entries[i].locked_amount
                    &&& (ArenaPosition { resolved: items[i].position.resolved, ..done[i].position })
                        == items[i].position
                    &&& done[i].user_account_key == items[i].user_account_key
                    &&& done[i].user_tusdc_key == items[i].user_tusdc_key
                    &&& done[i].position_key == items[i].position_key
                }
            &&& arena.total_claimed_payout == ctx.arena.total_claimed_payout
                + settled_payout_total(events)
            &&& arena.resolved_count == ctx.arena.resolved_count + n
            &&& (ArenaAccount {
                total_claimed_payout: ctx.arena.total_claimed_payout,
                resolved_count: ctx.arena.resolved_count,
                ..arena
            }) == ctx.arena
            &&& n > 0 ==> events[n - 1].total_claimed_payout == arena.total_claimed_payout
        },
    decreases n,
{
    if n > 0 {
        lemma_settle_batch_prefix_pays_each_entry(ctx, entries, items, (n - 1) as nat, now);
        if let Ok((arena, done, events)) = settle_batch_prefix(
            ctx,
            entries,
            items,
            (n - 1) as nat,
            now,
        ) {
            let item = items[n - 1];
            let entry = entries[n - 1];
            if let Ok((next_arena, next_item, event)) = crate::instructions::settle_arena_batch::settle_batch_step(
                ctx,
                arena,
                items.take(n - 1),
                item,
                entry,
                now,
            ) {
                lemma_settlement_moves_exact_amounts(
                    arena,
                    item.user_account,
                    item.position,
                    item.user_account.owner,
                    entry.locked_amount,
                    entry.payout_amount,
                );
                let all = events.push(event);
                assert(all.drop_last() =~= events);
                let done_all = done.push(next_item);
                assert forall|i: int| 0 <= i < n - 1 implies all[i] == events[i] && done_all[i]
                    == done[i] by {}
            }
        }
    }
}

/// An operator's settlement batch: one event per entry, in order, each for
/// its own user and carrying exactly its own entry's payout, so the tokens
/// minted from the events sum to the growth of the arena's payout total.
pub proof fn lemma_settle_arena_batch_pays_each_entry(
    ctx: SettleArenaBatch,
    entries: Seq<SettlementEntry>,
    items: Seq<BatchUserAccounts>,
    now: i64,
)
    requires
        items.len() == ctx.remaining_accounts_len / 3,
    ensures
        settle_arena_batch_outcome(ctx, entries, items, now) matches Ok((arena, done, events)) ==> {
            &&& events.len() == entries.len()
            &&& events.len() == items.len()
            &&& forall|i: int|
                0 <= i < events.len() ==> {
                    &&& (#[trigger] events[i]).payout_amount == entries[i].payout_amount
                    &&& events[i].locked_amount == entries[i].locked_amount
                    &&& events[i].user == items[i].user_account.owner
                    &&& done[i].user_account.in_play_debt == items[i].user_account.in_play_debt
                        - entries[i].locked_amount
                    &&& done[i].user_account.total_balance == items[i].user_account.total_balance
                        - entries[i].locked_amount + entries[i].payout_amount
                }
            &&& arena.total_claimed_payout == ctx.arena.total_claimed_payout
                + settled_payout_total(events)
        },
{
    if settle_arena_batch_outcome(ctx, entries, items, now) is Ok {
        lemma_settle_batch_prefix_pays_each_entry(ctx, entries, items, items.len(), now);
    }
}

/// Refunding the first `n` entries of a batch: the `i`-th event is about the
/// `i`-th user and hands back exactly that user's locked stake, which is
/// exactly what leaves that user's debt; balances stay as they were.
pub proof fn lemma_refund_batch_prefix_refunds_each_stake(
    ctx: RefundArenaBatch,
    items: Seq<BatchUserAccounts>,
    n: nat,
    now: i64,
)
    requires
        n <= items.len(),
    ensures
        refund_batch_prefix(ctx, items, n, now) matches Ok((arena, done, events)) ==> {
            &&& events.len() == n
            &&& done.len() == n
            &&& forall|i: int|
                0 <= i < n ==> {
                    &&& (#[trigger] events[i]).unlocked_amount == items[i].position.locked_amount
                    &&& events[i].user == items[i].user_account.owner
                    &&& events[i].arena == ctx.arena_key
                    &&& events[i].refunded_by == ctx.authority
                    &&& events[i].timestamp == now
                    &&& done[i].user_account.in_play_debt == items[i].user_account.in_play_debt
                        - items[i].position.locked_amount
                    &&& events[i].new_in_play_debt == done[i].user_account.in_play_debt
                    &&& (UserAccount {
                        in_play_debt: items[i].user_account.in_play_debt,
                        ..done[i].user_account
                    }) == items[i].user_account
                    &&& done[i].position.resolved
                    &&& (ArenaPosition { resolved: items[i].position.resolved, ..done[i].position })
                        == items[i].position
                    &&& done[i].user_account_key == items[i].user_account_key
                    &&& done[i].user_tusdc_key == items[i].user_tusdc_key
                    &&& done[i].position_key == items[i].position_key
                }
            &&& arena.resolved_count == ctx.arena.resolved_count + n
            &&& (ArenaAccount { resolved_count: ctx.arena.resolved_count, ..arena }) == ctx.arena
        },
    decreases n,
{
    if n > 0 {
        lemma_refund_batch_prefix_refunds_each_stake(ctx, items, (n - 1) as nat, now);
        if let Ok((arena, done, events)) = refund_batch_prefix(ctx, items, (n - 1) as nat, now) {
            let item = items[n - 1];
            if let Ok((next_arena, next_item, event)) = crate::instructions::refund_arena_batch::refund_batch_step(
                ctx,
                arena,
                items.take(n - 1),
                item,
                now,
            ) {
                lemma_refund_moves_exact_amounts(
                    arena,
                    item.user_account,
                    item.position,
                    item.user_account.owner,
                );
                let all = events.push(event);
                let done_all = done.push(next_item);
                assert forall|i: int| 0 <= i < n - 1 implies all[i] == events[i] && done_all[i]
                    == done[i] by {}
            }
        }
    }
}

/// An operator's refund batch: one event per user, in order, each handing
/// back exactly that user's locked stake in this arena, which is exactly
/// the debt released from that user's account.
pub proof fn lemma_refund_arena_batch_refunds_each_stake(
    ctx: RefundArenaBatch,
    items: Seq<BatchUserAccounts>,
    now: i64,
)
    ensures
        refund_arena_batch_outcome(ctx, items, now) matches Ok((arena, done, events)) ==> {
            &&& events.len() == items.len()
            &&& forall|i: int|
                0 <= i < events.len() ==> {
                    &&& (#[trigger] events[i]).unlocked_amount == items[i].position.locked_amount
                    &&& events[i].user == items[i].user_account.owner
                    &&& done[i].user_account.in_play_debt == items[i].user_account.in_play_debt
                        - events[i].unlocked_amount
                    &&& done[i].user_account.total_balance == items[i].user_account.total_balance
                }
        },
{
    if refund_arena_batch_outcome(ctx, items, now) is Ok {
        lemma_refund_batch_prefix_refunds_each_stake(ctx, items, items.len(), now);
    }
}

/// An accepted entry commits exactly the entry fee: it joins the user's
/// debt and the position's stake (which starts from nothing on the first
/// entry), the fee `floor(entry_fee * fee_bps / 10_000)` accrues, the rest
/// joins the pool, and a user counts as a new participant only on the
/// first entry. The balance stays, so the free balance drops by the fee.
pub proof fn lemma_join_moves_exact_amounts(ctx: JoinArena, now: i64)
    ensures
        join_arena_outcome(ctx, now) matches Ok((post, event)) ==> {
            let arena = ctx.arena;
            let fee = (arena.entry_fee * arena.fee_bps) / 10_000;
            let first = is_default_key(ctx.position.user);
            let count_before = if first { 0 } else { ctx.position.entry_count as int };
            let locked_before = if first { 0 } else { ctx.position.locked_amount as int };
            &&& 0 <= fee <= arena.entry_fee
            &&& post.user_account.in_play_debt == ctx.user_account.in_play_debt + arena.entry_fee
            &&& (UserAccount { in_play_debt: ctx.user_account.in_play_debt, ..post.user_account })
                == ctx.user_account
            &&& post.user_account.total_balance - post.user_account.in_play_debt
                == ctx.user_account.total_balance - ctx.user_account.in_play_debt - arena.entry_fee
            &&& post.position.locked_amount == locked_before + arena.entry_fee
            &&& post.position.entry_count == count_before + 1
            &&& post.position.user == ctx.user
            &&& post.position.arena == ctx.arena_key
            &&& !post.position.resolved
            &&& (first ==> post.position.last_disputed_settlement_version == 0
                && post.position.bump == ctx.position_bump)
            &&& (!first ==> (ArenaPosition {
                entry_count: ctx.position.entry_count,
                locked_amount: ctx.position.locked_amount,
                ..post.position
            }) == ctx.position)
            &&& post.arena.total_entry_fees_locked == arena.total_entry_fees_locked
                + arena.entry_fee
            &&& post.arena.fee_accrued == arena.fee_accrued + fee
            &&& post.arena.total_pool == arena.total_pool + arena.entry_fee - fee
            &&& post.arena.participant_count == arena.participant_count + (if first {
                1int
            } else {
                0int
            })
            &&& (ArenaAccount {
                participant_count: arena.participant_count,
                total_entry_fees_locked: arena.total_entry_fees_locked,
                fee_accrued: arena.fee_accrued,
                total_pool: arena.total_pool,
                ..post.arena
            }) == arena
            &&& post.user == ctx.user
            &&& post.arena_key == ctx.arena_key
            &&& event.arena == ctx.arena_key
            &&& event.user == ctx.user
            &&& event.entry_fee == arena.entry_fee
            &&& event.fee_amount == fee
            &&& event.net_entry_amount == arena.entry_fee - fee
            &&& event.entry_count == post.position.entry_count
            &&& event.locked_amount == post.position.locked_amount
            &&& event.user_in_play_debt == post.user_account.in_play_debt
            &&& event.total_pool == post.arena.total_pool
            &&& event.timestamp == now
        },
{
    let arena = ctx.arena;
    if join_arena_outcome(ctx, now) is Ok {
        let fee = (arena.entry_fee * arena.fee_bps) / 10_000;
        assert(0 <= fee) by (nonlinear_arith)
            requires
                fee == (arena.entry_fee * arena.fee_bps) / 10_000,
        ;
    }
}

/// A deposit credits exactly its amount to the user's balance: a new
/// account starts with the amount alone, an existing one keeps its debt
/// and nonce, so the free balance grows by exactly the amount.
pub proof fn lemma_deposit_credits_exact_amount(ctx: DepositCollateral, amount: u64)
    requires
        deposit_collateral_error(ctx, amount) is None,
    ensures
        ({
            let before = ctx.user_account;
            let after = deposited_account(ctx, amount);
            &&& amount > 0
            &&& after.owner == ctx.user
            &&& after.bump == ctx.user_account_bump
            &&& (is_default_key(before.owner) ==> after.total_balance == amount
                && after.in_play_debt == 0 && after.last_nonce == 0)
            &&& (!is_default_key(before.owner) ==> {
                &&& before.owner == ctx.user
                &&& after.total_balance == before.total_balance + amount
                &&& after.in_play_debt == before.in_play_debt
                &&& after.last_nonce == before.last_nonce
                &&& after.total_balance - after.in_play_debt == before.total_balance
                    - before.in_play_debt + amount
            })
        }),
{
}

/// Creating an arena locks exactly the guaranteed prize: it joins the
/// creator's debt (an account set up here starts from nothing), the
/// creator's balance stays, and the new arena starts `Created` with the
/// given terms, the guarantee as its whole pool, and every counter at zero.
pub proof fn lemma_create_arena_locks_exact_guarantee(
    ctx: CreateArena,
    arena_id: Key,
    params: CreateArenaParams,
    now: i64,
)
    requires
        create_arena_error(ctx, params, now) is None,
    ensures
        ({
            let before = ctx.creator_user_account;
            let fresh = is_default_key(before.owner);
            let debt_before = if fresh { 0 } else { before.in_play_debt as int };
            let balance_before = if fresh { 0 } else { before.total_balance as int };
            let creator = creator_after(ctx, params);
            let target = params.guaranteed_prize_target;
            &&& creator.owner == ctx.creator
            &&& creator.in_play_debt == debt_before + target
            &&& creator.total_balance == balance_before
            &&& (!fresh ==> creator.last_nonce == before.last_nonce)
            &&& target > 0 ==> creator.total_balance - creator.in_play_debt >= 0
        }),
        ({
            let arena = new_arena(ctx, arena_id, params);
            &&& arena.arena_id == arena_id
            &&& arena.creator == ctx.creator
            &&& arena.status == ArenaStatus::Created
            &&& arena.entry_fee == params.entry_fee
            &&& arena.entry_fee > 0
            &&& arena.fee_bps == params.fee_bps
            &&& arena.fee_bps <= 10_000
            &&& arena.guaranteed_prize_target == params.guaranteed_prize_target
            &&& arena.guaranteed_prize_reserved == params.guaranteed_prize_target
            &&& arena.total_pool == params.guaranteed_prize_target
            &&& arena.total_entry_fees_locked == 0
            &&& arena.fee_accrued == 0
            &&& arena.total_claimed_payout == 0
            &&& arena.participant_count == 0
            &&& arena.resolved_count == 0
            &&& arena.dispute_count == 0
            &&& arena.settlement_version == 0
            &&& arena.settlement_timestamp == 0
            &&& arena.claimable_at == 0
            &&& arena.start_time == params.start_time
            &&& arena.entry_close_time == params.entry_close_time
            &&& arena.end_time == params.end_time
            &&& now < arena.start_time <= arena.entry_close_time < arena.end_time
            &&& arena.metadata_hash == params.metadata_hash
            &&& arena.bump == ctx.arena_bump
        }),
{
}

/// Posting a root opens exactly one new settlement version: the arena takes
/// the root, records `now`, becomes claimable `dispute_window_seconds` after
/// `now`, starts counting disputes afresh and is settled; nothing else in it
/// changes, and the event reports those values.
pub proof fn lemma_post_settlement_root_opens_window(
    ctx: PostSettlementRoot,
    merkle_root: Key,
    now: i64,
)
    ensures
        post_settlement_root_outcome(ctx, merkle_root, now) matches Ok((post, event)) ==> {
            let arena = ctx.arena;
            &&& post.arena.merkle_root == merkle_root
            &&& post.arena.settlement_timestamp == now
            &&& post.arena.claimable_at == now + ctx.platform_config.dispute_window_seconds
            &&& post.arena.dispute_count == 0
            &&& post.arena.settlement_version == arena.settlement_version + 1
            &&& post.arena.status == ArenaStatus::SettledPendingClaim
            &&& (ArenaAccount {
                merkle_root: arena.merkle_root,
                settlement_timestamp: arena.settlement_timestamp,
                claimable_at: arena.claimable_at,
                dispute_count: arena.dispute_count,
                settlement_version: arena.settlement_version,
                status: arena.status,
                ..post.arena
            }) == arena
            &&& post.platform_config == ctx.platform_config
            &&& post.arena_key == ctx.arena_key
            &&& event.arena == ctx.arena_key
            &&& event.settlement_version == arena.settlement_version + 1
            &&& event.merkle_root == merkle_root
            &&& event.settlement_timestamp == now
            &&& event.claimable_at == now + ctx.platform_config.dispute_window_seconds
        },
{
}

/// The dispute threshold: an arena with participants is disputed once the
/// disputes reach 20% of them (`5 * disputes >= participants`) and also
/// number at least three, or all participants where there are fewer than
/// three; an arena without participants never is.
pub proof fn lemma_dispute_threshold_exact(dispute_count: u32, participant_count: u32)
    ensures
        spec_dispute_threshold_reached(dispute_count, participant_count) <==> {
            &&& participant_count > 0
            &&& 5 * dispute_count >= participant_count
            &&& (dispute_count >= 3 || dispute_count >= participant_count)
        },
{
    let d = dispute_count as int;
    let p = participant_count as int;
    let percentage = (p * 2_000 + 9_999) / 10_000;
    assert(d >= percentage <==> 5 * d >= p) by (nonlinear_arith)
        requires
            percentage == (p * 2_000 + 9_999) / 10_000,
            d >= 0,
            p >= 0,
    ;
}

/// An accepted dispute records the disputed version on the position, counts
/// exactly one more dispute, and turns the arena `Disputed` exactly when the
/// new count reaches the threshold; nothing else changes.
pub proof fn lemma_submit_dispute_counts_one(ctx: SubmitDispute, now: i64)
    ensures
        submit_dispute_outcome(ctx, now) matches Ok((post, event)) ==> {
            let arena = ctx.arena;
            let count = arena.dispute_count + 1;
            let p = arena.participant_count;
            let reached = p > 0 && 5 * count >= p && (count >= 3 || count >= p);
            &&& now < arena.claimable_at
            &&& post.arena.dispute_count == count
            &&& post.arena.status == (if reached {
                ArenaStatus::Disputed
            } else {
                ArenaStatus::SettledPendingClaim
            })
            &&& (ArenaAccount {
                dispute_count: arena.dispute_count,
                status: arena.status,
                ..post.arena
            }) == arena
            &&& post.position.last_disputed_settlement_version == arena.settlement_version
            &&& ctx.position.last_disputed_settlement_version != arena.settlement_version
            &&& (ArenaPosition {
                last_disputed_settlement_version: ctx.position.last_disputed_settlement_version,
                ..post.position
            }) == ctx.position
            &&& event.dispute_count == count
            &&& event.disputed == reached
            &&& event.settlement_version == arena.settlement_version
            &&& event.participant_count == p
            &&& event.user == ctx.user
            &&& event.arena == ctx.arena_key
        },
{
    lemma_dispute_threshold_exact((ctx.arena.dispute_count + 1) as u32, ctx.arena.participant_count);
}

/// Every cancellation changes only the arena's status, to `Cancelled`, and
/// its event names the arena, its creator and who cancelled.
pub proof fn lemma_cancellations_change_only_status(
    op: CancelArena,
    stale: CancelStaleArena,
    disputed: CancelDisputedArena,
    now: i64,
)
    ensures
        cancel_arena_outcome(op, now) matches Ok((post, event)) ==> {
            &&& post.arena.status == ArenaStatus::Cancelled
            &&& (ArenaAccount { status: op.arena.status, ..post.arena }) == op.arena
            &&& post.platform_config == op.platform_config
            &&& (event matches Some(e) ==> e.arena == op.arena_key && e.creator
                == op.arena.creator && e.cancelled_by == op.authority && e.timestamp == now)
            &&& (event is None <==> op.arena.status == ArenaStatus::Cancelled)
        },
        cancel_stale_arena_outcome(stale, now) matches Ok((post, event)) ==> {
            &&& post.arena.status == ArenaStatus::Cancelled
            &&& (ArenaAccount { status: stale.arena.status, ..post.arena }) == stale.arena
            &&& event.arena == stale.arena_key
            &&& event.creator == stale.arena.creator
            &&& event.cancelled_by == stale.caller
        },
        cancel_disputed_arena_outcome(disputed, now) matches Ok((post, event)) ==> {
            &&& post.arena.status == ArenaStatus::Cancelled
            &&& (ArenaAccount { status: disputed.arena.status, ..post.arena }) == disputed.arena
            &&& event.arena == disputed.arena_key
            &&& event.creator == disputed.arena.creator
            &&& event.cancelled_by == disputed.caller
        },
{
}

/// A withdrawal is accepted exactly when it is made through the token
/// program by the account's owner, with the next nonce, for a positive amount
/// that the free balance covers.
pub proof fn lemma_withdraw_accepted_exactly(ctx: WithdrawRequest, amount: u64, nonce: u64)
    ensures
        withdraw_request_error(ctx, amount, nonce) is None <==> {
            &&& amount > 0
            &&& is_token_2022(ctx.token_program)
            &&& ctx.user_account.owner == ctx.user
            &&& nonce == ctx.user_account.last_nonce + 1
            &&& ctx.user_account.in_play_debt + amount <= ctx.user_account.total_balance
        },
{
}

/// A settlement is applied exactly when the account and the position are the
/// user's, the position is open with exactly the claimed stake, the payouts
/// stay within `max(guaranteed_prize_reserved, total_entry_fees_locked -
/// fee_accrued)`, and the user's debt and balance hold the stake, with room
/// left for the new balance and the resolved count.
pub proof fn lemma_settlement_accepted_exactly(
    arena: ArenaAccount,
    user_account: UserAccount,
    position: ArenaPosition,
    user: Key,
    locked_amount: u64,
    payout_amount: u64,
)
    ensures
        settlement_error(arena, user_account, position, user, locked_amount, payout_amount) is None
            <==> {
            let net = arena.total_entry_fees_locked - arena.fee_accrued;
            let cap = if arena.guaranteed_prize_reserved >= net {
                arena.guaranteed_prize_reserved as int
            } else {
                net
            };
            &&& user_account.owner == user
            &&& position.user == user
            &&& !position.resolved
            &&& position.locked_amount == locked_amount
            &&& arena.fee_accrued <= arena.total_entry_fees_locked
            &&& arena.total_claimed_payout + payout_amount <= cap
            &&& locked_amount <= user_account.in_play_debt
            &&& locked_amount <= user_account.total_balance
            &&& user_account.total_balance - locked_amount + payout_amount <= u64::MAX
            &&& arena.resolved_count < u32::MAX
        },
{
}

/// A refund is applied exactly when the account and the position are the
/// user's, the position is open, the user's debt holds its stake, and the
/// resolved count has room.
pub proof fn lemma_refund_accepted_exactly(
    arena: ArenaAccount,
    user_account: UserAccount,
    position: ArenaPosition,
    user: Key,
)
    ensures
        refund_error(arena, user_account, position, user) is None <==> {
            &&& user_account.owner == user
            &&& position.user == user
            &&& !position.resolved
            &&& position.locked_amount <= user_account.in_play_debt
            &&& arena.resolved_count < u32::MAX
        },
{
}

/// Two equal-length byte strings that are each ordered before the other are equal.
proof fn lemma_bytes_le_antisymmetric(a: Seq<u8>, b: Seq<u8>)
    requires
        a.len() == b.len(),
        bytes_le(a, b),
        bytes_le(b, a),
    ensures
        a == b,
{
    if exists|i: int| 0 <= i < a.len() && a[i] != b[i] {
        let i = choose|i: int| 0 <= i < a.len() && a[i] != b[i];
        lemma_first_difference(a, b, i);
        let k = choose|k: int|
            0 <= k <= i && a[k] != b[k] && forall|j: int| 0 <= j < k ==> a[j] == b[j];
        assert(a[k] < b[k]);
        assert(b[k] < a[k]);
    }
    assert(a =~= b);
}

/// Where two equal-length byte strings differ, they differ first somewhere.
proof fn lemma_first_difference(a: Seq<u8>, b: Seq<u8>, i: int)
    requires
        a.len() == b.len(),
        0 <= i < a.len(),
        a[i] != b[i],
    ensures
        exists|k: int| 0 <= k <= i && a[k] != b[k] && forall|j: int| 0 <= j < k ==> a[j] == b[j],
    decreases i,
{
    if exists|j: int| 0 <= j < i && a[j] != b[j] {
        let j = choose|j: int| 0 <= j < i && a[j] != b[j];
        lemma_first_difference(a, b, j);
    } else {
        assert(0 <= i <= i && a[i] != b[i] && forall|j: int| 0 <= j < i ==> a[j] == b[j]);
    }
}

/// A node of the settlement tree does not depend on the order in which its
/// two children are given: the digest always covers the smaller node first.
pub proof fn lemma_merkle_parent_symmetric(a: Seq<u8>, b: Seq<u8>)
    requires
        a.len() == b.len(),
    ensures
        merkle_parent(a, b) == merkle_parent(b, a),
        merkle_parent(a, b) == (if bytes_le(a, b) {
            keccak256(a + b)
        } else {
            keccak256(b + a)
        }),
{
    if bytes_le(a, b) && bytes_le(b, a) {
        lemma_bytes_le_antisymmetric(a, b);
    } else if !bytes_le(a, b) && !bytes_le(b, a) {
        let k1 = choose|k: int|
            #![trigger a[k], b[k]]
            !(0 <= k < a.len() && a[k] != b[k] && (forall|j: int| 0 <= j < k ==> a[j] == b[j])
                ==> a[k] < b[k]);
        let k2 = choose|k: int|
            #![trigger b[k], a[k]]
            !(0 <= k < b.len() && b[k] != a[k] && (forall|j: int| 0 <= j < k ==> b[j] == a[j])
                ==> b[k] < a[k]);
        if k1 < k2 {
            assert(a[k1] == b[k1]);
        } else if k2 < k1 {
            assert(b[k2] == a[k2]);
        }
    }
}

/// Finalization is accepted exactly for a settled or cancelled arena whose
/// positions are all resolved, with the creator's and the treasury's own
/// accounts, when the creator's debt holds the whole guarantee and, for a
/// settled arena, the payouts beyond the net entry pool stay within the
/// guarantee and the creator's balance covers them, and the treasury's
/// balance has room for the fees.
pub proof fn lemma_finalize_accepted_exactly(ctx: FinalizeArena)
    ensures
        finalize_arena_error(ctx) is None <==> {
            let arena = ctx.arena;
            let settled = arena.status == ArenaStatus::SettledPendingClaim;
            let net = arena.total_entry_fees_locked - arena.fee_accrued;
            let charged = if settled && arena.total_claimed_payout >= net {
                arena.total_claimed_payout - net
            } else {
                0
            };
            let fees = if settled { arena.fee_accrued as int } else { 0 };
            &&& is_token_2022(ctx.token_program)
            &&& (settled || arena.status == ArenaStatus::Cancelled)
            &&& arena.resolved_count == arena.participant_count
            &&& ctx.creator_account.owner == ctx.creator
            &&& ctx.treasury_account.owner == ctx.treasury_wallet
            &&& (settled ==> arena.fee_accrued <= arena.total_entry_fees_locked)
            &&& charged <= arena.guaranteed_prize_reserved
            &&& arena.guaranteed_prize_reserved <= ctx.creator_account.in_play_debt
            &&& charged <= ctx.creator_account.total_balance
            &&& ctx.treasury_account.total_balance + fees <= u64::MAX
        },
{
}

/// An entry is accepted exactly when it is made through the token program
/// into a created arena before entries close, by the account's owner whose
/// free balance covers the entry fee, on a fresh position or the user's own
/// open one below the entry limit, and when every counter it raises has room.
pub proof fn lemma_join_accepted_exactly(ctx: JoinArena, now: i64)
    ensures
        join_arena_error(ctx, now) is None <==> {
            let arena = ctx.arena;
            let account = ctx.user_account;
            let first = is_default_key(ctx.position.user);
            let count_before = if first { 0 } else { ctx.position.entry_count as int };
            let locked_before = if first { 0 } else { ctx.position.locked_amount as int };
            let fee = (arena.entry_fee * arena.fee_bps) / 10_000;
            &&& is_token_2022(ctx.token_program)
            &&& arena.status == ArenaStatus::Created
            &&& now < arena.entry_close_time
            &&& account.owner == ctx.user
            &&& account.in_play_debt + arena.entry_fee <= account.total_balance
            &&& (first ==> arena.participant_count < u32::MAX)
            &&& (!first ==> ctx.position.user == ctx.user && ctx.position.arena == ctx.arena_key
                && !ctx.position.resolved)
            &&& count_before < MAX_ENTRIES_PER_USER
            &&& arena.entry_fee * arena.fee_bps <= u64::MAX
            &&& fee <= arena.entry_fee
            &&& locked_before + arena.entry_fee <= u64::MAX
            &&& arena.total_entry_fees_locked + arena.entry_fee <= u64::MAX
            &&& arena.fee_accrued + fee <= u64::MAX
            &&& arena.total_pool + arena.entry_fee - fee <= u64::MAX
        },
{
}

} // verus!
