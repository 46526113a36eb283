use tradestars_arena::errors::TradestarsArenaError;
use tradestars_arena::instructions::cancel_arena::{self, CancelArena};
use tradestars_arena::instructions::cancel_disputed_arena::{self, CancelDisputedArena};
use tradestars_arena::instructions::cancel_stale_arena::{self, CancelStaleArena};
use tradestars_arena::instructions::claim_refund::{self, ClaimRefund};
use tradestars_arena::instructions::claim_winnings::{self, ClaimWinnings};
use tradestars_arena::instructions::create_arena::{self, CreateArena};
use tradestars_arena::instructions::finalize_arena::{self, FinalizeArena};
use tradestars_arena::instructions::join_arena::{self, JoinArena};
use tradestars_arena::instructions::post_settlement_root::{self, PostSettlementRoot};
use tradestars_arena::instructions::submit_dispute::{self, SubmitDispute};
use tradestars_arena::state::{
    ArenaAccount, ArenaPosition, ArenaStatus, CreateArenaParams, PlatformConfig, UserAccount,
};
use tradestars_arena::utils::merkle_leaf;

const OPERATOR: u8 = 3;
const CREATOR: u8 = 2;
const TREASURY: u8 = 4;
const ARENA: u8 = 50;

fn key(b: u8) -> [u8; 32] {
    [b; 32]
}

fn token_2022() -> [u8; 32] {
    spl_token_2022::ID.to_bytes()
}

fn config() -> PlatformConfig {
    PlatformConfig {
        authority: key(1),
        arena_operator: key(OPERATOR),
        treasury_wallet: key(TREASURY),
        minting_authority: key(5),
        dispute_window_seconds: 60,
        settlement_grace_period_seconds: 120,
        deposits_paused: false,
        bump: 254,
    }
}

fn account(owner: u8, total_balance: u64) -> UserAccount {
    UserAccount { owner: key(owner), total_balance, in_play_debt: 0, last_nonce: 0, bump: 250 }
}

fn empty_position() -> ArenaPosition {
    ArenaPosition {
        user: [0; 32],
        arena: [0; 32],
        entry_count: 0,
        locked_amount: 0,
        resolved: false,
        last_disputed_settlement_version: 0,
        bump: 0,
    }
}

fn empty_arena() -> ArenaAccount {
    ArenaAccount {
        arena_id: [0; 32],
        creator: [0; 32],
        status: ArenaStatus::Created,
        entry_fee: 0,
        fee_bps: 0,
        guaranteed_prize_target: 0,
        guaranteed_prize_reserved: 0,
        total_entry_fees_locked: 0,
        fee_accrued: 0,
        total_pool: 0,
        total_claimed_payout: 0,
        start_time: 0,
        entry_close_time: 0,
        end_time: 0,
        merkle_root: [0; 32],
        settlement_timestamp: 0,
        claimable_at: 0,
        participant_count: 0,
        resolved_count: 0,
        dispute_count: 0,
        settlement_version: 0,
        metadata_hash: [0; 32],
        bump: 0,
    }
}

fn params(guarantee: u64) -> CreateArenaParams {
    CreateArenaParams {
        creator: key(CREATOR),
        entry_fee: 100,
        fee_bps: 1_000,
        guaranteed_prize_target: guarantee,
        start_time: 100,
        entry_close_time: 200,
        end_time: 300,
        metadata_hash: key(9),
    }
}

fn create(guarantee: u64, creator_balance: u64) -> (ArenaAccount, UserAccount) {
    let mut ctx = CreateArena {
        platform_config: config(),
        authority: key(OPERATOR),
        creator: key(CREATOR),
        creator_user_account: account(CREATOR, creator_balance),
        creator_user_account_bump: 250,
        arena_key: key(ARENA),
        arena: empty_arena(),
        arena_bump: 251,
    };
    let event = create_arena::handler(&mut ctx, key(7), params(guarantee), 10).unwrap();
    assert_eq!(event.guaranteed_prize_reserved, guarantee);
    (ctx.arena, ctx.creator_user_account)
}

fn join(arena: &mut ArenaAccount, user: &mut UserAccount, position: &mut ArenaPosition, now: i64) -> Result<u64, TradestarsArenaError> {
    let mut ctx = JoinArena {
        user: user.owner,
        user_account: *user,
        arena_key: key(ARENA),
        arena: *arena,
        position: *position,
        position_bump: 249,
        token_program: token_2022(),
    };
    let event = join_arena::handler(&mut ctx, now)?;
    *arena = ctx.arena;
    *user = ctx.user_account;
    *position = ctx.position;
    Ok(event.fee_amount)
}

fn post_root(arena: &mut ArenaAccount, root: [u8; 32], now: i64) -> Result<(), TradestarsArenaError> {
    let mut ctx = PostSettlementRoot {
        platform_config: config(),
        arena_key: key(ARENA),
        arena: *arena,
        authority: key(OPERATOR),
    };
    post_settlement_root::handler(&mut ctx, root, now)?;
    *arena = ctx.arena;
    Ok(())
}

fn hash_pair(a: &[u8; 32], b: &[u8; 32]) -> [u8; 32] {
    if a <= b {
        solana_keccak_hasher::hashv(&[a, b]).0
    } else {
        solana_keccak_hasher::hashv(&[b, a]).0
    }
}

#[test]
fn create_arena_locks_the_guarantee() {
    let (arena, creator) = create(500, 800);
    assert_eq!(arena.status, ArenaStatus::Created);
    assert_eq!(arena.total_pool, 500);
    assert_eq!(arena.guaranteed_prize_reserved, 500);
    assert_eq!(creator.in_play_debt, 500);
    assert_eq!(creator.total_balance, 800);
    assert_eq!(creator.available_to_withdraw(), Ok(300));
}

#[test]
fn create_arena_refusals() {
    let base = CreateArena {
        platform_config: config(),
        authority: key(OPERATOR),
        creator: key(CREATOR),
        creator_user_account: account(CREATOR, 100),
        creator_user_account_bump: 250,
        arena_key: key(ARENA),
        arena: empty_arena(),
        arena_bump: 251,
    };
    let mut ctx = CreateArena { authority: key(1), ..base };
    assert_eq!(create_arena::handler(&mut ctx, key(7), params(0), 10), Err(TradestarsArenaError::InvalidArenaOperator));
    let mut ctx = base;
    let p = CreateArenaParams { creator: key(77), ..params(0) };
    assert_eq!(create_arena::handler(&mut ctx, key(7), p, 10), Err(TradestarsArenaError::InvalidCreator));
    let p = CreateArenaParams { entry_fee: 0, ..params(0) };
    assert_eq!(create_arena::handler(&mut ctx, key(7), p, 10), Err(TradestarsArenaError::AmountTooSmall));
    let p = CreateArenaParams { fee_bps: 10_001, ..params(0) };
    assert_eq!(create_arena::handler(&mut ctx, key(7), p, 10), Err(TradestarsArenaError::InvalidFeeBps));
    assert_eq!(create_arena::handler(&mut ctx, key(7), params(0), 100), Err(TradestarsArenaError::InvalidTime));
    let p = CreateArenaParams { entry_close_time: 99, ..params(0) };
    assert_eq!(create_arena::handler(&mut ctx, key(7), p, 10), Err(TradestarsArenaError::InvalidTime));
    let p = CreateArenaParams { end_time: 200, ..params(0) };
    assert_eq!(create_arena::handler(&mut ctx, key(7), p, 10), Err(TradestarsArenaError::InvalidTime));
    assert_eq!(create_arena::handler(&mut ctx, key(7), params(101), 10), Err(TradestarsArenaError::InsufficientAvailableBalance));
    let mut ctx = CreateArena { creator_user_account: account(66, 1_000), ..base };
    assert_eq!(create_arena::handler(&mut ctx, key(7), params(0), 10), Err(TradestarsArenaError::InvalidUserAccount));
    let mut ctx = CreateArena { creator_user_account: UserAccount { in_play_debt: 200, ..account(CREATOR, 100) }, ..base };
    assert_eq!(create_arena::handler(&mut ctx, key(7), params(1), 10), Err(TradestarsArenaError::MathOverflow));
    assert_eq!(ctx, CreateArena { creator_user_account: UserAccount { in_play_debt: 200, ..account(CREATOR, 100) }, ..base });
}

#[test]
fn create_arena_sets_up_a_new_creator_account() {
    let mut ctx = CreateArena {
        platform_config: config(),
        authority: key(OPERATOR),
        creator: key(CREATOR),
        creator_user_account: UserAccount { owner: [0; 32], total_balance: 0, in_play_debt: 0, last_nonce: 0, bump: 0 },
        creator_user_account_bump: 250,
        arena_key: key(ARENA),
        arena: empty_arena(),
        arena_bump: 251,
    };
    create_arena::handler(&mut ctx, key(7), params(0), 10).unwrap();
    assert_eq!(ctx.creator_user_account, account(CREATOR, 0));
    assert_eq!(ctx.arena.arena_id, key(7));
    assert_eq!(ctx.arena.bump, 251);
    assert_eq!(ctx.arena.total_pool, 0);
}

#[test]
fn join_arena_burns_fee_and_accrues() {
    let (mut arena, _) = create(500, 800);
    let mut user = account(20, 1_000);
    let mut position = empty_position();
    assert_eq!(join(&mut arena, &mut user, &mut position, 150), Ok(10));
    assert_eq!(user.in_play_debt, 100);
    assert_eq!(position.entry_count, 1);
    assert_eq!(position.locked_amount, 100);
    assert_eq!(position.user, key(20));
    assert_eq!(position.arena, key(ARENA));
    assert_eq!(position.bump, 249);
    assert_eq!(arena.participant_count, 1);
    assert_eq!(arena.total_entry_fees_locked, 100);
    assert_eq!(arena.fee_accrued, 10);
    assert_eq!(arena.total_pool, 590);
    assert_eq!(join(&mut arena, &mut user, &mut position, 199), Ok(10));
    assert_eq!(arena.participant_count, 1);
    assert_eq!(position.entry_count, 2);
    assert_eq!(arena.total_pool, 680);
    assert_eq!(
        arena.total_pool,
        arena.guaranteed_prize_reserved + arena.total_entry_fees_locked - arena.fee_accrued
    );
}

#[test]
fn join_arena_refusals() {
    let (mut arena, _) = create(0, 0);
    let mut user = account(20, 150);
    let mut position = empty_position();
    assert_eq!(join(&mut arena, &mut user, &mut position, 200), Err(TradestarsArenaError::InvalidTime));
    let mut poor = account(21, 99);
    assert_eq!(join(&mut arena, &mut poor, &mut position, 150), Err(TradestarsArenaError::InsufficientAvailableBalance));
    assert_eq!(join(&mut arena, &mut user, &mut position, 150), Ok(10));
    assert_eq!(join(&mut arena, &mut user, &mut position, 150), Err(TradestarsArenaError::InsufficientAvailableBalance));
    let mut other = account(22, 1_000);
    assert_eq!(join(&mut arena, &mut other, &mut position, 150), Err(TradestarsArenaError::InvalidArenaPosition));
    let mut ctx = JoinArena {
        user: key(23),
        user_account: account(24, 1_000),
        arena_key: key(ARENA),
        arena,
        position: empty_position(),
        position_bump: 0,
        token_program: token_2022(),
    };
    assert_eq!(join_arena::handler(&mut ctx, 150), Err(TradestarsArenaError::InvalidUserAccount));
    let mut ctx = JoinArena { user: key(24), token_program: key(99), ..ctx };
    assert_eq!(join_arena::handler(&mut ctx, 150), Err(TradestarsArenaError::InvalidTokenProgram));
    let mut cancelled = ArenaAccount { status: ArenaStatus::Cancelled, ..arena };
    assert_eq!(join(&mut cancelled, &mut user, &mut position, 150), Err(TradestarsArenaError::ArenaNotCreated));
    let mut resolved = ArenaPosition { resolved: true, ..position };
    let mut rich = UserAccount { total_balance: 1_000, ..user };
    assert_eq!(join(&mut arena, &mut rich, &mut resolved, 150), Err(TradestarsArenaError::PositionAlreadyResolved));
    let mut indebted = UserAccount { in_play_debt: 2_000, ..rich };
    assert_eq!(join(&mut arena, &mut indebted, &mut position, 150), Err(TradestarsArenaError::MathOverflow));
}

#[test]
fn join_arena_allows_ten_entries() {
    let (mut arena, _) = create(0, 0);
    let mut user = account(20, 10_000);
    let mut position = empty_position();
    for _ in 0..10 {
        assert_eq!(join(&mut arena, &mut user, &mut position, 150), Ok(10));
    }
    assert_eq!(position.entry_count, 10);
    assert_eq!(position.locked_amount, 1_000);
    assert_eq!(join(&mut arena, &mut user, &mut position, 150), Err(TradestarsArenaError::MaxEntriesReached));
    assert_eq!(user.in_play_debt, 1_000);
}

#[test]
fn settlement_root_is_posted_once_after_end() {
    let (mut arena, _) = create(0, 0);
    assert_eq!(post_root(&mut arena, key(11), 299), Err(TradestarsArenaError::InvalidTime));
    assert_eq!(post_root(&mut arena, key(11), 300), Ok(()));
    assert_eq!(arena.status, ArenaStatus::SettledPendingClaim);
    assert_eq!(arena.settlement_version, 1);
    assert_eq!(arena.claimable_at, 360);
    assert_eq!(arena.settlement_timestamp, 300);
    assert_eq!(arena.merkle_root, key(11));
    assert_eq!(post_root(&mut arena, key(12), 400), Err(TradestarsArenaError::ArenaNotCreated));
    let mut ctx = PostSettlementRoot { platform_config: config(), arena_key: key(ARENA), arena, authority: key(1) };
    assert_eq!(post_settlement_root::handler(&mut ctx, key(12), 400), Err(TradestarsArenaError::InvalidArenaOperator));
}

#[test]
fn settlement_root_cooldown_must_fit_a_timestamp() {
    let (arena, _) = create(0, 0);
    let cfg = PlatformConfig { dispute_window_seconds: u64::MAX, ..config() };
    let mut ctx = PostSettlementRoot { platform_config: cfg, arena_key: key(ARENA), arena, authority: key(OPERATOR) };
    assert_eq!(post_settlement_root::handler(&mut ctx, key(1), 300), Err(TradestarsArenaError::InvalidCooldown));
    let cfg = PlatformConfig { dispute_window_seconds: i64::MAX as u64, ..config() };
    let mut ctx = PostSettlementRoot { platform_config: cfg, ..ctx };
    assert_eq!(post_settlement_root::handler(&mut ctx, key(1), 300), Err(TradestarsArenaError::MathOverflow));
}

fn dispute(arena: &mut ArenaAccount, position: &mut ArenaPosition, user: u8, now: i64) -> Result<bool, TradestarsArenaError> {
    let mut ctx = SubmitDispute { arena_key: key(ARENA), arena: *arena, position: *position, user: key(user) };
    let event = submit_dispute::handler(&mut ctx, now)?;
    *arena = ctx.arena;
    *position = ctx.position;
    Ok(event.disputed)
}

#[test]
fn disputes_move_arena_to_disputed_then_cancel_and_refund() {
    let (mut arena, _) = create(0, 0);
    let mut users = Vec::new();
    for i in 0..10u8 {
        let mut user = account(20 + i, 1_000);
        let mut position = empty_position();
        join(&mut arena, &mut user, &mut position, 150).unwrap();
        users.push((user, position));
    }
    assert_eq!(arena.participant_count, 10);
    post_root(&mut arena, key(11), 300).unwrap();
    let (_, ref mut p0) = users[0];
    assert_eq!(dispute(&mut arena, p0, 20, 310), Ok(false));
    assert_eq!(dispute(&mut arena, p0, 20, 311), Err(TradestarsArenaError::AlreadyDisputed));
    let (_, ref mut p1) = users[1];
    assert_eq!(dispute(&mut arena, p1, 21, 360), Err(TradestarsArenaError::InvalidStatusTransition));
    assert_eq!(dispute(&mut arena, p1, 22, 320), Err(TradestarsArenaError::InvalidArenaPosition));
    assert_eq!(dispute(&mut arena, p1, 21, 320), Ok(false));
    let (_, ref mut p2) = users[2];
    assert_eq!(dispute(&mut arena, p2, 22, 330), Ok(true));
    assert_eq!(arena.status, ArenaStatus::Disputed);
    assert_eq!(arena.dispute_count, 3);
    let (_, ref mut p3) = users[3];
    assert_eq!(dispute(&mut arena, p3, 23, 330), Err(TradestarsArenaError::ArenaNotSettled));
    assert_eq!(post_root(&mut arena, key(13), 340), Err(TradestarsArenaError::ArenaNotCreated));

    let mut ctx = ClaimRefund {
        arena_key: key(ARENA),
        arena,
        user_account: users[0].0,
        position: users[0].1,
        user: key(20),
        token_program: token_2022(),
    };
    assert_eq!(claim_refund::handler(&mut ctx, 350), Err(TradestarsArenaError::ArenaNotCancelled));

    let mut cancel = CancelDisputedArena { arena_key: key(ARENA), arena, caller: key(99) };
    let event = cancel_disputed_arena::handler(&mut cancel, 400).unwrap();
    assert_eq!(event.cancelled_by, key(99));
    assert_eq!(event.creator, key(CREATOR));
    arena = cancel.arena;
    assert_eq!(arena.status, ArenaStatus::Cancelled);
    let mut again = CancelDisputedArena { arena_key: key(ARENA), arena, caller: key(99) };
    assert_eq!(cancel_disputed_arena::handler(&mut again, 401), Err(TradestarsArenaError::ArenaNotDisputed));

    for i in 0..10usize {
        let (user, position) = users[i];
        let mut ctx = ClaimRefund {
            arena_key: key(ARENA),
            arena,
            user_account: user,
            position,
            user: key(20 + i as u8),
            token_program: token_2022(),
        };
        let event = claim_refund::handler(&mut ctx, 410).unwrap();
        assert_eq!(event.unlocked_amount, 100);
        assert_eq!(event.new_in_play_debt, 0);
        assert_eq!(ctx.user_account.total_balance, 1_000);
        assert!(ctx.position.resolved);
        arena = ctx.arena;
        let mut twice = ClaimRefund { arena, ..ctx };
        assert_eq!(claim_refund::handler(&mut twice, 411), Err(TradestarsArenaError::PositionAlreadyResolved));
    }
    assert_eq!(arena.resolved_count, 10);
}

#[test]
fn winners_claim_against_the_root_and_arena_finalizes() {
    let (mut arena, creator) = create(500, 800);
    let mut alice = account(20, 1_000);
    let mut alice_pos = empty_position();
    let mut bob = account(21, 1_000);
    let mut bob_pos = empty_position();
    join(&mut arena, &mut alice, &mut alice_pos, 150).unwrap();
    join(&mut arena, &mut bob, &mut bob_pos, 150).unwrap();
    assert_eq!(arena.total_pool, 680);

    let alice_leaf = merkle_leaf(&key(7), 1, &key(20), 100, 500);
    let bob_leaf = merkle_leaf(&key(7), 1, &key(21), 100, 0);
    let root = hash_pair(&alice_leaf, &bob_leaf);
    post_root(&mut arena, root, 300).unwrap();

    let mut ctx = ClaimWinnings {
        arena_key: key(ARENA),
        arena,
        user_account: alice,
        position: alice_pos,
        user: key(20),
        token_program: token_2022(),
    };
    assert_eq!(claim_winnings::handler(&mut ctx, 100, 500, &vec![bob_leaf], 359), Err(TradestarsArenaError::ClaimCooldownActive));
    assert_eq!(claim_winnings::handler(&mut ctx, 100, 501, &vec![bob_leaf], 360), Err(TradestarsArenaError::InvalidMerkleProof));
    let event = claim_winnings::handler(&mut ctx, 100, 500, &vec![bob_leaf], 360).unwrap();
    assert_eq!(event.payout_amount, 500);
    assert_eq!(event.new_total_balance, 1_400);
    assert_eq!(event.new_in_play_debt, 0);
    assert_eq!(event.total_claimed_payout, 500);
    arena = ctx.arena;
    assert_eq!(claim_winnings::handler(&mut ctx, 100, 500, &vec![bob_leaf], 361), Err(TradestarsArenaError::PositionAlreadyResolved));

    let mut ctx = ClaimWinnings {
        arena_key: key(ARENA),
        arena,
        user_account: bob,
        position: bob_pos,
        user: key(21),
        token_program: token_2022(),
    };
    let event = claim_winnings::handler(&mut ctx, 100, 0, &vec![alice_leaf], 370).unwrap();
    assert_eq!(event.new_total_balance, 900);
    arena = ctx.arena;
    assert_eq!(arena.resolved_count, 2);

    let mut fin = FinalizeArena {
        arena_key: key(ARENA),
        arena,
        creator: key(CREATOR),
        creator_account: creator,
        treasury_wallet: key(TREASURY),
        treasury_account: account(TREASURY, 0),
        token_program: token_2022(),
    };
    let event = finalize_arena::handler(&mut fin, 400).unwrap();
    // Net entries 180 cover part of the 500 payout; the guarantee pays 320.
    assert_eq!(event.unused_guarantee, 180);
    assert_eq!(event.fees_minted, 20);
    assert_eq!(fin.creator_account.in_play_debt, 0);
    assert_eq!(fin.creator_account.total_balance, 480);
    assert_eq!(fin.treasury_account.total_balance, 20);
    assert_eq!(fin.arena.status, ArenaStatus::Finalized);
    let mut again = fin;
    assert_eq!(finalize_arena::handler(&mut again, 401), Err(TradestarsArenaError::InvalidStatusTransition));
}

#[test]
fn payouts_are_capped_by_the_larger_of_guarantee_and_net_entries() {
    let (mut arena, _) = create(500, 800);
    let mut alice = account(20, 1_000);
    let mut alice_pos = empty_position();
    join(&mut arena, &mut alice, &mut alice_pos, 150).unwrap();
    let leaf = merkle_leaf(&key(7), 1, &key(20), 100, 501);
    post_root(&mut arena, leaf, 300).unwrap();
    let mut ctx = ClaimWinnings {
        arena_key: key(ARENA),
        arena,
        user_account: alice,
        position: alice_pos,
        user: key(20),
        token_program: token_2022(),
    };
    assert_eq!(claim_winnings::handler(&mut ctx, 100, 501, &vec![], 400), Err(TradestarsArenaError::ArenaPoolExceeded));
    let leaf = merkle_leaf(&key(7), 1, &key(20), 90, 500);
    let mut ctx = ClaimWinnings { arena: ArenaAccount { merkle_root: leaf, ..arena }, ..ctx };
    assert_eq!(claim_winnings::handler(&mut ctx, 90, 500, &vec![], 400), Err(TradestarsArenaError::LockedAmountMismatch));
}

#[test]
fn finalize_cancelled_arena_returns_full_guarantee() {
    let (arena, creator) = create(500, 800);
    let mut cancel = CancelArena { platform_config: config(), arena_key: key(ARENA), arena, authority: key(OPERATOR) };
    let event = cancel_arena::handler(&mut cancel, 50).unwrap();
    assert_eq!(event.map(|e| e.cancelled_by), Some(key(OPERATOR)));
    assert_eq!(cancel.arena.status, ArenaStatus::Cancelled);
    assert_eq!(cancel_arena::handler(&mut cancel, 60), Ok(None));
    let mut fin = FinalizeArena {
        arena_key: key(ARENA),
        arena: cancel.arena,
        creator: key(CREATOR),
        creator_account: creator,
        treasury_wallet: key(TREASURY),
        treasury_account: account(TREASURY, 0),
        token_program: token_2022(),
    };
    let event = finalize_arena::handler(&mut fin, 400).unwrap();
    assert_eq!(event.unused_guarantee, 500);
    assert_eq!(event.fees_minted, 0);
    assert_eq!(fin.creator_account.total_balance, 800);
    assert_eq!(fin.creator_account.in_play_debt, 0);
    assert_eq!(fin.treasury_account.total_balance, 0);
}

#[test]
fn operator_cancellation_only_before_start() {
    let (arena, _) = create(0, 0);
    let mut cancel = CancelArena { platform_config: config(), arena_key: key(ARENA), arena, authority: key(OPERATOR) };
    assert_eq!(cancel_arena::handler(&mut cancel, 100), Err(TradestarsArenaError::InvalidTime));
    let mut wrong = CancelArena { authority: key(1), ..cancel };
    assert_eq!(cancel_arena::handler(&mut wrong, 50), Err(TradestarsArenaError::InvalidArenaOperator));
    let mut settled = CancelArena { arena: ArenaAccount { status: ArenaStatus::Disputed, ..arena }, ..cancel };
    assert_eq!(cancel_arena::handler(&mut settled, 50), Err(TradestarsArenaError::InvalidStatusTransition));
}

#[test]
fn stale_arena_cancels_after_grace_period() {
    let (arena, _) = create(0, 0);
    let mut ctx = CancelStaleArena { platform_config: config(), arena_key: key(ARENA), arena, caller: key(77) };
    assert_eq!(cancel_stale_arena::handler(&mut ctx, 419), Err(TradestarsArenaError::ArenaNotStale));
    let event = cancel_stale_arena::handler(&mut ctx, 420).unwrap();
    assert_eq!(event.cancelled_by, key(77));
    assert_eq!(ctx.arena.status, ArenaStatus::Cancelled);
    assert_eq!(cancel_stale_arena::handler(&mut ctx, 500), Err(TradestarsArenaError::ArenaNotCreated));
    let cfg = PlatformConfig { settlement_grace_period_seconds: u64::MAX, ..config() };
    let mut ctx = CancelStaleArena { platform_config: cfg, arena_key: key(ARENA), arena, caller: key(77) };
    assert_eq!(cancel_stale_arena::handler(&mut ctx, 500), Err(TradestarsArenaError::InvalidCooldown));
}

#[test]
fn finalize_waits_for_every_position() {
    let (mut arena, creator) = create(0, 0);
    let mut user = account(20, 1_000);
    let mut position = empty_position();
    join(&mut arena, &mut user, &mut position, 150).unwrap();
    post_root(&mut arena, key(1), 300).unwrap();
    let base = FinalizeArena {
        arena_key: key(ARENA),
        arena,
        creator: key(CREATOR),
        creator_account: creator,
        treasury_wallet: key(TREASURY),
        treasury_account: account(TREASURY, 0),
        token_program: token_2022(),
    };
    let mut fin = base;
    assert_eq!(finalize_arena::handler(&mut fin, 400), Err(TradestarsArenaError::ArenaNotReadyToFinalize));
    let done = ArenaAccount { resolved_count: 1, ..arena };
    let mut fin = FinalizeArena { arena: done, treasury_account: account(66, 0), ..base };
    assert_eq!(finalize_arena::handler(&mut fin, 400), Err(TradestarsArenaError::InvalidUserAccount));
    let mut fin = FinalizeArena { arena: done, token_program: key(1), ..base };
    assert_eq!(finalize_arena::handler(&mut fin, 400), Err(TradestarsArenaError::InvalidTokenProgram));
    let mut fin = FinalizeArena { arena: done, ..base };
    let event = finalize_arena::handler(&mut fin, 400).unwrap();
    assert_eq!(event.fees_minted, 10);
    assert_eq!(event.unused_guarantee, 0);
}
