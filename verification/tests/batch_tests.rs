use anchor_lang::prelude::Pubkey;
use tradestars_arena::errors::TradestarsArenaError;
use tradestars_arena::instructions::refund_arena_batch::{self, BatchUserAccounts, RefundArenaBatch};
use tradestars_arena::instructions::settle_arena_batch::{self, SettleArenaBatch};
use tradestars_arena::state::{
    ArenaAccount, ArenaPosition, ArenaStatus, PlatformConfig, SettlementEntry, UserAccount,
};
use tradestars_arena::utils::merkle_leaf;

const ARENA: u8 = 50;
const MINT: u8 = 60;
const PROGRAM: u8 = 42;

fn key(b: u8) -> [u8; 32] {
    [b; 32]
}

fn token_2022() -> [u8; 32] {
    spl_token_2022::ID.to_bytes()
}

fn config() -> PlatformConfig {
    PlatformConfig {
        authority: key(1),
        arena_operator: key(3),
        treasury_wallet: key(4),
        minting_authority: key(5),
        dispute_window_seconds: 60,
        settlement_grace_period_seconds: 120,
        deposits_paused: false,
        bump: 254,
    }
}

fn arena(status: ArenaStatus, participants: u32) -> ArenaAccount {
    ArenaAccount {
        arena_id: key(7),
        creator: key(2),
        status,
        entry_fee: 100,
        fee_bps: 1_000,
        guaranteed_prize_target: 0,
        guaranteed_prize_reserved: 0,
        total_entry_fees_locked: 100 * participants as u64,
        fee_accrued: 10 * participants as u64,
        total_pool: 90 * participants as u64,
        total_claimed_payout: 0,
        start_time: 100,
        entry_close_time: 200,
        end_time: 300,
        merkle_root: [0; 32],
        settlement_timestamp: 300,
        claimable_at: 360,
        participant_count: participants,
        resolved_count: 0,
        dispute_count: 0,
        settlement_version: 1,
        metadata_hash: key(9),
        bump: 1,
    }
}

fn canonical(user: u8) -> BatchUserAccounts {
    let program = Pubkey::new_from_array(key(PROGRAM));
    let user_key = Pubkey::new_from_array(key(user));
    let arena_key = Pubkey::new_from_array(key(ARENA));
    let mint = Pubkey::new_from_array(key(MINT));
    let (user_pda, _) = Pubkey::find_program_address(&[b"user", user_key.as_ref()], &program);
    let (position_pda, _) =
        Pubkey::find_program_address(&[b"position", arena_key.as_ref(), user_key.as_ref()], &program);
    let ata = anchor_spl::associated_token::get_associated_token_address_with_program_id(
        &user_key,
        &mint,
        &spl_token_2022::ID,
    );
    BatchUserAccounts {
        user_account_key: user_pda.to_bytes(),
        user_account: UserAccount { owner: key(user), total_balance: 1_000, in_play_debt: 100, last_nonce: 0, bump: 1 },
        user_tusdc_key: ata.to_bytes(),
        user_tusdc_owner: key(user),
        user_tusdc_mint: key(MINT),
        position_key: position_pda.to_bytes(),
        position: ArenaPosition {
            user: key(user),
            arena: key(ARENA),
            entry_count: 1,
            locked_amount: 100,
            resolved: false,
            last_disputed_settlement_version: 0,
            bump: 1,
        },
    }
}

fn refund_ctx(status: ArenaStatus, accounts: usize) -> RefundArenaBatch {
    RefundArenaBatch {
        platform_config: config(),
        arena_key: key(ARENA),
        arena: arena(status, 3),
        authority: key(3),
        tusdc_mint: key(MINT),
        token_program: token_2022(),
        program_id: key(PROGRAM),
        remaining_accounts_len: accounts,
    }
}

#[test]
fn refund_batch_refunds_each_user() {
    let mut ctx = refund_ctx(ArenaStatus::Cancelled, 6);
    let mut items = vec![canonical(20), canonical(21)];
    let events = refund_arena_batch::handler(&mut ctx, &mut items, 500).unwrap();
    assert_eq!(events.len(), 2);
    assert_eq!(events[0].user, key(20));
    assert_eq!(events[1].user, key(21));
    assert_eq!(events[0].unlocked_amount, 100);
    assert_eq!(events[0].refunded_by, key(3));
    assert_eq!(ctx.arena.resolved_count, 2);
    assert!(items.iter().all(|i| i.position.resolved && i.user_account.in_play_debt == 0));
}

#[test]
fn refund_batch_rejects_repeated_user() {
    let mut ctx = refund_ctx(ArenaStatus::Cancelled, 6);
    let mut items = vec![canonical(20), canonical(20)];
    assert_eq!(
        refund_arena_batch::handler(&mut ctx, &mut items, 500),
        Err(TradestarsArenaError::PositionAlreadyResolved)
    );
    assert_eq!(items, vec![canonical(20), canonical(20)]);
    assert_eq!(ctx.arena.resolved_count, 0);
}

#[test]
fn refund_batch_refusals() {
    let mut ctx = refund_ctx(ArenaStatus::Disputed, 3);
    let mut items = vec![canonical(20)];
    assert_eq!(refund_arena_batch::handler(&mut ctx, &mut items, 500), Err(TradestarsArenaError::ArenaNotCancelled));
    let mut ctx = refund_ctx(ArenaStatus::Cancelled, 4);
    assert_eq!(refund_arena_batch::handler(&mut ctx, &mut items, 500), Err(TradestarsArenaError::InvalidBatchAccounts));
    let mut ctx = RefundArenaBatch { authority: key(1), ..refund_ctx(ArenaStatus::Cancelled, 3) };
    assert_eq!(refund_arena_batch::handler(&mut ctx, &mut items, 500), Err(TradestarsArenaError::InvalidArenaOperator));
    let mut ctx = refund_ctx(ArenaStatus::Cancelled, 3);
    let mut bad = vec![BatchUserAccounts { user_account_key: key(99), ..canonical(20) }];
    assert_eq!(refund_arena_batch::handler(&mut ctx, &mut bad, 500), Err(TradestarsArenaError::InvalidUserAccount));
    let mut bad = vec![BatchUserAccounts { user_tusdc_key: key(99), ..canonical(20) }];
    assert_eq!(refund_arena_batch::handler(&mut ctx, &mut bad, 500), Err(TradestarsArenaError::InvalidTokenAccount));
    let mut bad = vec![BatchUserAccounts { user_tusdc_mint: key(99), ..canonical(20) }];
    assert_eq!(refund_arena_batch::handler(&mut ctx, &mut bad, 500), Err(TradestarsArenaError::InvalidTokenAccount));
    let mut bad = vec![BatchUserAccounts { position_key: key(99), ..canonical(20) }];
    assert_eq!(refund_arena_batch::handler(&mut ctx, &mut bad, 500), Err(TradestarsArenaError::InvalidArenaPosition));
    let item = canonical(20);
    let mut bad = vec![BatchUserAccounts { position: ArenaPosition { arena: key(98), ..item.position }, ..item }];
    assert_eq!(refund_arena_batch::handler(&mut ctx, &mut bad, 500), Err(TradestarsArenaError::InvalidArenaPosition));
}

fn settle_ctx(root: [u8; 32], accounts: usize) -> SettleArenaBatch {
    SettleArenaBatch {
        platform_config: config(),
        arena_key: key(ARENA),
        arena: ArenaAccount { merkle_root: root, ..arena(ArenaStatus::SettledPendingClaim, 2) },
        authority: key(3),
        tusdc_mint: key(MINT),
        token_program: token_2022(),
        program_id: key(PROGRAM),
        remaining_accounts_len: accounts,
    }
}

fn hash_pair(a: &[u8; 32], b: &[u8; 32]) -> [u8; 32] {
    if a <= b {
        solana_keccak_hasher::hashv(&[a, b]).0
    } else {
        solana_keccak_hasher::hashv(&[b, a]).0
    }
}

#[test]
fn settle_batch_pays_verified_outcomes() {
    let a = merkle_leaf(&key(7), 1, &key(20), 100, 150);
    let b = merkle_leaf(&key(7), 1, &key(21), 100, 30);
    let root = hash_pair(&a, &b);
    let mut ctx = settle_ctx(root, 6);
    let entries = vec![
        SettlementEntry { locked_amount: 100, payout_amount: 150, proof: vec![b] },
        SettlementEntry { locked_amount: 100, payout_amount: 30, proof: vec![a] },
    ];
    let mut items = vec![canonical(20), canonical(21)];
    assert_eq!(settle_arena_batch::handler(&mut ctx, &entries, &mut items, 359), Err(TradestarsArenaError::ClaimCooldownActive));
    let events = settle_arena_batch::handler(&mut ctx, &entries, &mut items, 360).unwrap();
    assert_eq!(events.len(), 2);
    assert_eq!(events[0].new_total_balance, 1_050);
    assert_eq!(events[1].new_total_balance, 930);
    assert_eq!(events[1].total_claimed_payout, 180);
    assert_eq!(events[0].settled_by, key(3));
    assert_eq!(ctx.arena.total_claimed_payout, 180);
    assert_eq!(ctx.arena.resolved_count, 2);
    assert!(items.iter().all(|i| i.position.resolved));
}

#[test]
fn settle_batch_refusals() {
    let a = merkle_leaf(&key(7), 1, &key(20), 100, 150);
    let mut ctx = settle_ctx(a, 3);
    let good = vec![SettlementEntry { locked_amount: 100, payout_amount: 150, proof: vec![] }];
    let forged = vec![SettlementEntry { locked_amount: 100, payout_amount: 170, proof: vec![] }];
    let mut items = vec![canonical(20)];
    assert_eq!(settle_arena_batch::handler(&mut ctx, &forged, &mut items, 400), Err(TradestarsArenaError::InvalidMerkleProof));
    let mut ctx2 = settle_ctx(a, 4);
    assert_eq!(settle_arena_batch::handler(&mut ctx2, &good, &mut items, 400), Err(TradestarsArenaError::InvalidBatchAccounts));
    let mut ctx3 = SettleArenaBatch { arena: ArenaAccount { status: ArenaStatus::Disputed, ..ctx.arena }, ..ctx };
    assert_eq!(settle_arena_batch::handler(&mut ctx3, &good, &mut items, 400), Err(TradestarsArenaError::ArenaNotSettled));
    let mut ctx4 = SettleArenaBatch { token_program: key(1), ..ctx };
    assert_eq!(settle_arena_batch::handler(&mut ctx4, &good, &mut items, 400), Err(TradestarsArenaError::InvalidTokenProgram));
    let mut two = vec![canonical(20), canonical(20)];
    let twice = vec![good[0].clone(), good[0].clone()];
    let mut ctx5 = settle_ctx(a, 6);
    assert_eq!(settle_arena_batch::handler(&mut ctx5, &twice, &mut two, 400), Err(TradestarsArenaError::PositionAlreadyResolved));
    assert_eq!(ctx5.arena.total_claimed_payout, 0);
    let events = settle_arena_batch::handler(&mut ctx, &good, &mut items, 400).unwrap();
    assert_eq!(events[0].payout_amount, 150);
}
