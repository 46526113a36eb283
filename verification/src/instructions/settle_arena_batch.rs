use vstd::prelude::*;

use crate::errors::TradestarsArenaError;
use crate::events::ArenaPositionSettled;
use crate::instructions::claim_winnings::outcome_in_root;
use crate::instructions::refund_arena_batch::{
    batch_accounts_error, check_batch_accounts, owner_among, owner_seen, BatchUserAccounts,
};
use crate::keys::Key;
use crate::state::{ArenaAccount, PlatformConfig, SettlementEntry};
use crate::utils::{
    apply_settlement, ensure_settlement_claimable, is_token_2022, merkle_leaf,
    require_arena_operator, require_token_2022, resolved_position, settled_arena, settled_user,
    settlement_claimable_error, settlement_error, verify_merkle_proof,
};

verus! {

/// The accounts an operator's settlement batch reads and writes, besides the
/// per-user accounts.
#[derive(Clone, Copy, Debug, PartialEq, Eq)]
pub struct SettleArenaBatch {
    pub platform_config: PlatformConfig,
    /// Address of the arena account.
    pub arena_key: Key,
    pub arena: ArenaAccount,
    /// The signer, who must be the arena operator.
    pub authority: Key,
    /// Address of the mirrored-token mint.
    pub tusdc_mint: Key,
    pub token_program: Key,
    /// This program's id, from which account addresses are derived.
    pub program_id: Key,
    /// How many per-user accounts the instruction was handed.
    pub remaining_accounts_len: usize,
}

/// Settling one user's entry of the batch, given the arena as the earlier
/// entries left it: the arena, the user's updated accounts and the event, or
/// the error that fails the whole batch.
pub open spec fn settle_batch_step(
    ctx: SettleArenaBatch,
    arena: ArenaAccount,
    earlier: Seq<BatchUserAccounts>,
    item: BatchUserAccounts,
    entry: SettlementEntry,
    now: i64,
) -> Result<(ArenaAccount, BatchUserAccounts, ArenaPositionSettled), TradestarsArenaError> {
    let user = item.user_account.owner;
    match batch_accounts_error(ctx.program_id, ctx.arena_key, ctx.tusdc_mint, ctx.token_program, item) {
        Some(e) => Err(e),
        None => if !outcome_in_root(
            arena,
            user,
            entry.locked_amount,
            entry.payout_amount,
            entry.proof@,
        ) {
            Err(TradestarsArenaError::InvalidMerkleProof)
        } else if owner_seen(earlier, user) {
            Err(TradestarsArenaError::PositionAlreadyResolved)
        } else {
            match settlement_error(
                arena,
                item.user_account,
                item.position,
                user,
                entry.locked_amount,
                entry.payout_amount,
            ) {
                Some(e) => Err(e),
                None => {
                    let next_arena = settled_arena(arena, entry.payout_amount);
                    let account = settled_user(
                        item.user_account,
                        entry.locked_amount,
                        entry.payout_amount,
                    );
                    Ok(
                        (
                            next_arena,
                            BatchUserAccounts {
                                user_account: account,
                                position: resolved_position(item.position),
                                ..item
                            },
                            ArenaPositionSettled {
                                arena: ctx.arena_key,
                                user: user,
                                settled_by: ctx.authority,
                                locked_amount: entry.locked_amount,
                                payout_amount: entry.payout_amount,
                                new_total_balance: account.total_balance,
                                new_in_play_debt: account.in_play_debt,
                                total_claimed_payout: next_arena.total_claimed_payout,
                                timestamp: now,
                            },
                        ),
                    )
                },
            }
        },
    }
}

/// Settling the first `n` entries of the batch in order.
pub open spec fn settle_batch_prefix(
    ctx: SettleArenaBatch,
    entries: Seq<SettlementEntry>,
    items: Seq<BatchUserAccounts>,
    n: nat,
    now: i64,
) -> Result<(ArenaAccount, Seq<BatchUserAccounts>, Seq<ArenaPositionSettled>), TradestarsArenaError>
    decreases n,
{
    if n == 0 {
        Ok((ctx.arena, seq![], seq![]))
    } else {
        match settle_batch_prefix(ctx, entries, items, (n - 1) as nat, now) {
            Err(e) => Err(e),
            Ok((arena, done, events)) => match settle_batch_step(
                ctx,
                arena,
                items.take(n - 1),
                items[n - 1],
                entries[n - 1],
                now,
            ) {
                Err(e) => Err(e),
                Ok((next_arena, item, event)) => Ok((next_arena, done.push(item), events.push(event))),
            },
        }
    }
}

/// Once an entry of the batch fails, the whole batch fails with its error.
pub proof fn lemma_settle_batch_failure_persists(
    ctx: SettleArenaBatch,
    entries: Seq<SettlementEntry>,
    items: Seq<BatchUserAccounts>,
    n: nat,
    m: nat,
    now: i64,
)
    requires
        n <= m,
        settle_batch_prefix(ctx, entries, items, n, now) is Err,
    ensures
        settle_batch_prefix(ctx, entries, items, m, now) == settle_batch_prefix(
            ctx,
            entries,
            items,
            n,
            now,
        ),
    decreases m - n,
{
    if m > n {
        lemma_settle_batch_failure_persists(ctx, entries, items, n, (m - 1) as nat, now);
    }
}

/// Why the batch is refused at time `now` before any entry is looked at, if it is.
pub open spec fn settle_arena_batch_error(ctx: SettleArenaBatch, entry_count: nat, now: i64) -> Option<
    TradestarsArenaError,
> {
    if !is_token_2022(ctx.token_program) {
        Some(TradestarsArenaError::InvalidTokenProgram)
    } else if ctx.authority != ctx.platform_config.arena_operator {
        Some(TradestarsArenaError::InvalidArenaOperator)
    } else if settlement_claimable_error(ctx.arena, now) is Some {
        settlement_claimable_error(ctx.arena, now)
    } else if entry_count * 3 > usize::MAX {
        Some(TradestarsArenaError::MathOverflow)
    } else if ctx.remaining_accounts_len != entry_count * 3 {
        Some(TradestarsArenaError::InvalidBatchAccounts)
    } else {
        None
    }
}

/// The outcome of the batch: the arena, the users' updated accounts and the
/// events, or the first error.
pub open spec fn settle_arena_batch_outcome(
    ctx: SettleArenaBatch,
    entries: Seq<SettlementEntry>,
    items: Seq<BatchUserAccounts>,
    now: i64,
) -> Result<(ArenaAccount, Seq<BatchUserAccounts>, Seq<ArenaPositionSettled>), TradestarsArenaError> {
    match settle_arena_batch_error(ctx, entries.len(), now) {
        Some(e) => Err(e),
        None => settle_batch_prefix(ctx, entries, items, items.len(), now),
    }
}

/// Pays out a batch of settled outcomes, entry `i` of `entries` for the user
/// whose accounts are `items[i]`, each verified against the settlement root;
/// the caller mints each event's `payout_amount` to that user when it is not
/// zero and writes the updated accounts back. On an error nothing changes.
pub fn handler(
    ctx: &mut SettleArenaBatch,
    entries: &Vec<SettlementEntry>,
    items: &mut Vec<BatchUserAccounts>,
    now: i64,
) -> (r: Result<Vec<ArenaPositionSettled>, TradestarsArenaError>)
    requires
        old(items).len() == old(ctx).remaining_accounts_len / 3,
    ensures
        match settle_arena_batch_outcome(*old(ctx), entries@, old(items)@, now) {
            Err(e) => {
                &&& r == Err::<Vec<ArenaPositionSettled>, TradestarsArenaError>(e)
                &&& *final(ctx) == *old(ctx)
                &&& final(items)@ == old(items)@
            },
            Ok((arena, done, events)) => {
                &&& r matches Ok(v) && v@ == events
                &&& *final(ctx) == (SettleArenaBatch { arena: arena, ..*old(ctx) })
                &&& final(items)@ == done
            },
        },
{
    match require_token_2022(&ctx.token_program) {
        Ok(()) => {},
        Err(e) => return Err(e),
    }
    match require_arena_operator(&ctx.platform_config, &ctx.authority) {
        Ok(()) => {},
        Err(e) => return Err(e),
    }
    match ensure_settlement_claimable(&ctx.arena, now) {
        Ok(()) => {},
        Err(e) => return Err(e),
    }
    let expected_len = match entries.len().checked_mul(3) {
        Some(v) => v,
        None => return Err(TradestarsArenaError::MathOverflow),
    };
    if ctx.remaining_accounts_len != expected_len {
        return Err(TradestarsArenaError::InvalidBatchAccounts);
    }
    let ghost start = *ctx;
    let mut arena = ctx.arena;
    let mut done: Vec<BatchUserAccounts> = Vec::new();
    let mut events: Vec<ArenaPositionSettled> = Vec::new();
    let mut i: usize = 0;
    while i < items.len()
        invariant
            0 <= i <= items.len(),
            items.len() == entries.len(),
            start == *ctx,
            settle_arena_batch_error(start, entries@.len(), now) is None,
            arena.arena_id == start.arena.arena_id,
            arena.settlement_version == start.arena.settlement_version,
            arena.merkle_root == start.arena.merkle_root,
            settle_batch_prefix(start, entries@, items@, i as nat, now) == Ok::<
                (ArenaAccount, Seq<BatchUserAccounts>, Seq<ArenaPositionSettled>),
                TradestarsArenaError,
            >((arena, done@, events@)),
        decreases items.len() - i,
    {
        let item = items[i];
        let entry = &entries[i];
        let user = item.user_account.owner;
        match check_batch_accounts(
            &ctx.program_id,
            &ctx.arena_key,
            &ctx.tusdc_mint,
            &ctx.token_program,
            &item,
        ) {
            Ok(()) => {},
            Err(e) => {
                proof {
                    lemma_settle_batch_failure_persists(
                        start,
                        entries@,
                        items@,
                        (i + 1) as nat,
                        items@.len(),
                        now,
                    );
                }
                return Err(e);
            },
        }
        let leaf = merkle_leaf(
            &arena.arena_id,
            arena.settlement_version,
            &user,
            entry.locked_amount,
            entry.payout_amount,
        );
        if !verify_merkle_proof(leaf, entry.proof.as_slice(), arena.merkle_root) {
            proof {
                lemma_settle_batch_failure_persists(
                    start,
                    entries@,
                    items@,
                    (i + 1) as nat,
                    items@.len(),
                    now,
                );
            }
            return Err(TradestarsArenaError::InvalidMerkleProof);
        }
        if owner_among(items, i, &user) {
            proof {
                lemma_settle_batch_failure_persists(
                    start,
                    entries@,
                    items@,
                    (i + 1) as nat,
                    items@.len(),
                    now,
                );
            }
            return Err(TradestarsArenaError::PositionAlreadyResolved);
        }
        let mut account = item.user_account;
        let mut position = item.position;
        let ghost arena_before = arena;
        match apply_settlement(
            &mut arena,
            &mut account,
            &mut position,
            &user,
            entry.locked_amount,
            entry.payout_amount,
        ) {
            Ok(()) => {},
            Err(e) => {
                proof {
                    assert(settle_batch_step(
                        start,
                        arena_before,
                        items@.take(i as int),
                        items@[i as int],
                        entries@[i as int],
                        now,
                    ) == Err::<
                        (ArenaAccount, BatchUserAccounts, ArenaPositionSettled),
                        TradestarsArenaError,
                    >(e));
                    lemma_settle_batch_failure_persists(
                        start,
                        entries@,
                        items@,
                        (i + 1) as nat,
                        items@.len(),
                        now,
                    );
                }
                return Err(e);
            },
        }
        done.push(BatchUserAccounts { user_account: account, position, ..item });
        events.push(
            ArenaPositionSettled {
                arena: ctx.arena_key,
                user,
                settled_by: ctx.authority,
                locked_amount: entry.locked_amount,
                payout_amount: entry.payout_amount,
                new_total_balance: account.total_balance,
                new_in_play_debt: account.in_play_debt,
                total_claimed_payout: arena.total_claimed_payout,
                timestamp: now,
            },
        );
        proof {
            assert(items@.take(i + 1).take(i as int) =~= items@.take(i as int));
        }
        i += 1;
    }
    assert(items@.take(items@.len() as int) =~= items@);
    ctx.arena = arena;
    *items = done;
    Ok(events)
}

} // verus!
