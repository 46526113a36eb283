use vstd::prelude::*;

use crate::errors::TradestarsArenaError;
use crate::events::ArenaRefunded;
use crate::external::{associated_token_address, get_associated_token_address};
use crate::keys::{key_eq, Key};
use crate::state::{ArenaAccount, ArenaPosition, ArenaStatus, PlatformConfig, UserAccount};
use crate::utils::{
    apply_refund, arena_with_resolved, is_token_2022, position_address, refund_error,
    released_user, require_arena_operator, require_token_2022, resolved_position,
    spec_position_address, spec_user_account_address, user_account_address,
};

verus! {

broadcast use vstd::array::group_array_axioms;

/// The accounts an operator's refund batch reads and writes, besides the
/// per-user accounts.
#[derive(Clone, Copy, Debug, PartialEq, Eq)]
pub struct RefundArenaBatch {
    pub platform_config: PlatformConfig,
    /// Address of the arena account.
    pub arena_key: Key,
    pub arena: ArenaAccount,
    /// The signer, who must be the arena operator.
    pub authority: Key,
    /// Address of the mirrored-token mint.
    pub tusdc_mint: Key,
    pub token_program: Key,
    /// This program's id, from which account addresses are derived.
    pub program_id: Key,
    /// How many per-user accounts the instruction was handed.
    pub remaining_accounts_len: usize,
}

/// One user's accounts in a batch, in the order handed over: the user
/// account, the user's mirrored-token account, and the user's position.
#[derive(Clone, Copy, Debug, PartialEq, Eq)]
pub struct BatchUserAccounts {
    pub user_account_key: Key,
    pub user_account: UserAccount,
    pub user_tusdc_key: Key,
    pub user_tusdc_owner: Key,
    pub user_tusdc_mint: Key,
    pub position_key: Key,
    pub position: ArenaPosition,
}

/// Why a user's accounts are not the canonical ones for this arena, if they
/// are not: the user account and position must sit at their derived
/// addresses, and the token account must be the user's associated account
/// of the mirrored token.
pub open spec fn batch_accounts_error(
    program_id: Key,
    arena_key: Key,
    mint: Key,
    token_program: Key,
    item: BatchUserAccounts,
) -> Option<TradestarsArenaError> {
    let user = item.user_account.owner;
    if item.user_account_key@ != spec_user_account_address(user, program_id) {
        Some(TradestarsArenaError::InvalidUserAccount)
    } else if item.user_tusdc_key@ != associated_token_address(user@, mint@, token_program@)
        || item.user_tusdc_owner != user || item.user_tusdc_mint != mint {
        Some(TradestarsArenaError::InvalidTokenAccount)
    } else if item.position_key@ != spec_position_address(arena_key, user, program_id) {
        Some(TradestarsArenaError::InvalidArenaPosition)
    } else if item.position.user != user || item.position.arena != arena_key {
        Some(TradestarsArenaError::InvalidArenaPosition)
    } else {
        None
    }
}

/// Checks that a user's accounts are the canonical ones for this arena.
pub fn check_batch_accounts(
    program_id: &Key,
    arena_key: &Key,
    mint: &Key,
    token_program: &Key,
    item: &BatchUserAccounts,
) -> (r: Result<(), TradestarsArenaError>)
    ensures
        r == (match batch_accounts_error(*program_id, *arena_key, *mint, *token_program, *item) {
            Some(e) => Err(e),
            None => Ok(()),
        }),
{
    let user = item.user_account.owner;
    let expected_user = user_account_address(&user, program_id);
    let expected_position = position_address(arena_key, &user, program_id);
    let expected_tusdc = get_associated_token_address(&user, mint, token_program);
    if !key_eq(&item.user_account_key, &expected_user) {
        proof {
            if item.user_account_key@ == expected_user@ {
                assert(item.user_account_key =~= expected_user);
            }
        }
        return Err(TradestarsArenaError::InvalidUserAccount);
    }
    if !key_eq(&item.user_tusdc_key, &expected_tusdc) {
        proof {
            if item.user_tusdc_key@ == expected_tusdc@ {
                assert(item.user_tusdc_key =~= expected_tusdc);
            }
        }
        return Err(TradestarsArenaError::InvalidTokenAccount);
    }
    if !key_eq(&item.user_tusdc_owner, &user) {
        return Err(TradestarsArenaError::InvalidTokenAccount);
    }
    if !key_eq(&item.user_tusdc_mint, mint) {
        return Err(TradestarsArenaError::InvalidTokenAccount);
    }
    if !key_eq(&item.position_key, &expected_position) {
        proof {
            if item.position_key@ == expected_position@ {
                assert(item.position_key =~= expected_position);
            }
        }
        return Err(TradestarsArenaError::InvalidArenaPosition);
    }
    if !(key_eq(&item.position.user, &user) && key_eq(&item.position.arena, arena_key)) {
        return Err(TradestarsArenaError::InvalidArenaPosition);
    }
    Ok(())
}

/// Whether an earlier entry of the batch belongs to this user; by then the
/// user's position is resolved, so the program sees it as resolved.
pub open spec fn owner_seen(earlier: Seq<BatchUserAccounts>, user: Key) -> bool {
    exists|j: int| 0 <= j < earlier.len() && (#[trigger] earlier[j]).user_account.owner == user
}

/// Whether one of the first `end` entries belongs to this user.
pub fn owner_among(items: &Vec<BatchUserAccounts>, end: usize, user: &Key) -> (r: bool)
    requires
        end <= items.len(),
    ensures
        r == owner_seen(items@.take(end as int), *user),
{
    let mut j: usize = 0;
    while j < end
        invariant
            0 <= j <= end <= items.len(),
            forall|k: int| 0 <= k < j ==> (#[trigger] items@[k]).user_account.owner != *user,
        decreases end - j,
    {
        if key_eq(&items[j].user_account.owner, user) {
            assert(items@.take(end as int)[j as int] == items@[j as int]);
            return true;
        }
        j += 1;
    }
    assert forall|k: int| 0 <= k < end implies (#[trigger] items@.take(end as int)[k]).user_account.owner
        != *user by {
        assert(items@.take(end as int)[k] == items@[k]);
    }
    false
}

/// Refunding one user's entry of the batch, given the arena as the earlier
/// entries left it: the refunded arena, the user's updated accounts and the
/// event, or the error that fails the whole batch.
pub open spec fn refund_batch_step(
    ctx: RefundArenaBatch,
    arena: ArenaAccount,
    earlier: Seq<BatchUserAccounts>,
    item: BatchUserAccounts,
    now: i64,
) -> Result<(ArenaAccount, BatchUserAccounts, ArenaRefunded), TradestarsArenaError> {
    let user = item.user_account.owner;
    match batch_accounts_error(ctx.program_id, ctx.arena_key, ctx.tusdc_mint, ctx.token_program, item) {
        Some(e) => Err(e),
        None => if owner_seen(earlier, user) {
            Err(TradestarsArenaError::PositionAlreadyResolved)
        } else {
            match refund_error(arena, item.user_account, item.position, user) {
                Some(e) => Err(e),
                None => {
                    let account = released_user(item.user_account, item.position.locked_amount);
                    Ok(
                        (
                            arena_with_resolved(arena),
                            BatchUserAccounts {
                                user_account: account,
                                position: resolved_position(item.position),
                                ..item
                            },
                            ArenaRefunded {
                                arena: ctx.arena_key,
                                user: user,
                                refunded_by: ctx.authority,
                                unlocked_amount: item.position.locked_amount,
                                new_in_play_debt: account.in_play_debt,
                                timestamp: now,
                            },
                        ),
                    )
                },
            }
        },
    }
}

/// Refunding the first `n` entries of the batch in order.
pub open spec fn refund_batch_prefix(
    ctx: RefundArenaBatch,
    items: Seq<BatchUserAccounts>,
    n: nat,
    now: i64,
) -> Result<(ArenaAccount, Seq<BatchUserAccounts>, Seq<ArenaRefunded>), TradestarsArenaError>
    decreases n,
{
    if n == 0 {
        Ok((ctx.arena, seq![], seq![]))
    } else {
        match refund_batch_prefix(ctx, items, (n - 1) as nat, now) {
            Err(e) => Err(e),
            Ok((arena, done, events)) => match refund_batch_step(
                ctx,
                arena,
                items.take(n - 1),
                items[n - 1],
                now,
            ) {
                Err(e) => Err(e),
                Ok((next_arena, item, event)) => Ok((next_arena, done.push(item), events.push(event))),
            },
        }
    }
}

/// Once an entry of the batch fails, the whole batch fails with its error.
pub proof fn lemma_refund_batch_failure_persists(
    ctx: RefundArenaBatch,
    items: Seq<BatchUserAccounts>,
    n: nat,
    m: nat,
    now: i64,
)
    requires
        n <= m,
        refund_batch_prefix(ctx, items, n, now) is Err,
    ensures
        refund_batch_prefix(ctx, items, m, now) == refund_batch_prefix(ctx, items, n, now),
    decreases m - n,
{
    if m > n {
        lemma_refund_batch_failure_persists(ctx, items, n, (m - 1) as nat, now);
    }
}

/// Why the batch is refused before any entry is looked at, if it is.
pub open spec fn refund_arena_batch_error(ctx: RefundArenaBatch) -> Option<TradestarsArenaError> {
    if !is_token_2022(ctx.token_program) {
        Some(TradestarsArenaError::InvalidTokenProgram)
    } else if ctx.authority != ctx.platform_config.arena_operator {
        Some(TradestarsArenaError::InvalidArenaOperator)
    } else if ctx.arena.status != ArenaStatus::Cancelled {
        Some(TradestarsArenaError::ArenaNotCancelled)
    } else if ctx.remaining_accounts_len % 3 != 0 {
        Some(TradestarsArenaError::InvalidBatchAccounts)
    } else {
        None
    }
}

/// The outcome of the batch: the arena, the users' updated accounts and the
/// events, or the first error.
pub open spec fn refund_arena_batch_outcome(
    ctx: RefundArenaBatch,
    items: Seq<BatchUserAccounts>,
    now: i64,
) -> Result<(ArenaAccount, Seq<BatchUserAccounts>, Seq<ArenaRefunded>), TradestarsArenaError> {
    match refund_arena_batch_error(ctx) {
        Some(e) => Err(e),
        None => refund_batch_prefix(ctx, items, items.len(), now),
    }
}

/// Refunds a batch of users of a cancelled arena, one entry of `items` per
/// three accounts handed over; the caller mints each event's
/// `unlocked_amount` to that user when it is not zero and writes the updated
/// accounts back. On an error nothing changes.
pub fn handler(ctx: &mut RefundArenaBatch, items: &mut Vec<BatchUserAccounts>, now: i64) -> (r:
    Result<Vec<ArenaRefunded>, TradestarsArenaError>)
    requires
        old(items).len() == old(ctx).remaining_accounts_len / 3,
    ensures
        match refund_arena_batch_outcome(*old(ctx), old(items)@, now) {
            Err(e) => {
                &&& r == Err::<Vec<ArenaRefunded>, TradestarsArenaError>(e)
                &&& *final(ctx) == *old(ctx)
                &&& final(items)@ == old(items)@
            },
            Ok((arena, done, events)) => {
                &&& r matches Ok(v) && v@ == events
                &&& *final(ctx) == (RefundArenaBatch { arena: arena, ..*old(ctx) })
                &&& final(items)@ == done
            },
        },
{
    match require_token_2022(&ctx.token_program) {
        Ok(()) => {},
        Err(e) => return Err(e),
    }
    match require_arena_operator(&ctx.platform_config, &ctx.authority) {
        Ok(()) => {},
        Err(e) => return Err(e),
    }
    if ctx.arena.status != ArenaStatus::Cancelled {
        return Err(TradestarsArenaError::ArenaNotCancelled);
    }
    if ctx.remaining_accounts_len % 3 != 0 {
        return Err(TradestarsArenaError::InvalidBatchAccounts);
    }
    let ghost start = *ctx;
    let mut arena = ctx.arena;
    let mut done: Vec<BatchUserAccounts> = Vec::new();
    let mut events: Vec<ArenaRefunded> = Vec::new();
    let mut i: usize = 0;
    while i < items.len()
        invariant
            0 <= i <= items.len(),
            start == *ctx,
            refund_arena_batch_error(start) is None,
            refund_batch_prefix(start, items@, i as nat, now) == Ok::<
                (ArenaAccount, Seq<BatchUserAccounts>, Seq<ArenaRefunded>),
                TradestarsArenaError,
            >((arena, done@, events@)),
        decreases items.len() - i,
    {
        let item = items[i];
        let user = item.user_account.owner;
        match check_batch_accounts(
            &ctx.program_id,
            &ctx.arena_key,
            &ctx.tusdc_mint,
            &ctx.token_program,
            &item,
        ) {
            Ok(()) => {},
            Err(e) => {
                proof {
                    lemma_refund_batch_failure_persists(start, items@, (i + 1) as nat, items@.len(), now);
                }
                return Err(e);
            },
        }
        if owner_among(items, i, &user) {
            proof {
                lemma_refund_batch_failure_persists(start, items@, (i + 1) as nat, items@.len(), now);
            }
            return Err(TradestarsArenaError::PositionAlreadyResolved);
        }
        let mut account = item.user_account;
        let mut position = item.position;
        let ghost arena_before = arena;
        let refunded_amount = match apply_refund(&mut arena, &mut account, &mut position, &user) {
            Ok(v) => v,
            Err(e) => {
                proof {
                    assert(refund_batch_step(start, arena_before, items@.take(i as int), items@[i as int], now) == Err::<(ArenaAccount, BatchUserAccounts, ArenaRefunded), TradestarsArenaError>(e));
                    lemma_refund_batch_failure_persists(start, items@, (i + 1) as nat, items@.len(), now);
                }
                return Err(e);
            },
        };
        done.push(BatchUserAccounts { user_account: account, position, ..item });
        events.push(
            ArenaRefunded {
                arena: ctx.arena_key,
                user,
                refunded_by: ctx.authority,
                unlocked_amount: refunded_amount,
                new_in_play_debt: account.in_play_debt,
                timestamp: now,
            },
        );
        proof {
            assert(items@.take(i + 1).take(i as int) =~= items@.take(i as int));
        }
        i += 1;
    }
    assert(items@.take(items@.len() as int) =~= items@);
    ctx.arena = arena;
    *items = done;
    Ok(events)
}

} // verus!
