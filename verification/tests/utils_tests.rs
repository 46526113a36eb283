use anchor_lang::prelude::Pubkey;
use tradestars_arena::errors::TradestarsArenaError;
use tradestars_arena::keys::{key_eq, key_is_default, key_le};
use tradestars_arena::state::{ArenaAccount, ArenaStatus, PlatformConfig, UserAccount};
use tradestars_arena::utils::{
    dispute_threshold_reached, ensure_settlement_claimable, fee_amount, guaranteed_prize_used,
    merkle_leaf, net_entry_pool, position_address, require_arena_operator, require_authority,
    require_minting_authority, require_token_2022, settlement_payout_cap, tusdc_mint_space,
    unused_guarantee, user_account_address, verify_merkle_proof, POSITION_SEED, USER_SEED,
};

fn key(b: u8) -> [u8; 32] {
    [b; 32]
}

fn arena() -> ArenaAccount {
    ArenaAccount {
        arena_id: key(7),
        creator: key(2),
        status: ArenaStatus::Created,
        entry_fee: 100,
        fee_bps: 1_000,
        guaranteed_prize_target: 500,
        guaranteed_prize_reserved: 500,
        total_entry_fees_locked: 0,
        fee_accrued: 0,
        total_pool: 500,
        total_claimed_payout: 0,
        start_time: 100,
        entry_close_time: 200,
        end_time: 300,
        merkle_root: [0; 32],
        settlement_timestamp: 0,
        claimable_at: 0,
        participant_count: 0,
        resolved_count: 0,
        dispute_count: 0,
        settlement_version: 0,
        metadata_hash: key(9),
        bump: 1,
    }
}

fn config() -> PlatformConfig {
    PlatformConfig {
        authority: key(1),
        arena_operator: key(3),
        treasury_wallet: key(4),
        minting_authority: key(5),
        dispute_window_seconds: 60,
        settlement_grace_period_seconds: 120,
        deposits_paused: false,
        bump: 254,
    }
}

fn hash_pair(a: &[u8; 32], b: &[u8; 32]) -> [u8; 32] {
    solana_keccak_hasher::hashv(&[a, b]).0
}

#[test]
fn available_to_withdraw_is_balance_minus_debt() {
    let account = UserAccount { owner: key(1), total_balance: 1_000, in_play_debt: 300, last_nonce: 0, bump: 0 };
    assert_eq!(account.available_to_withdraw(), Ok(700));
    let indebted = UserAccount { in_play_debt: 1_001, ..account };
    assert_eq!(indebted.available_to_withdraw(), Err(TradestarsArenaError::MathOverflow));
}

#[test]
fn fee_amount_floors_basis_points() {
    assert_eq!(fee_amount(1_000_000, 250), Ok(25_000));
    assert_eq!(fee_amount(999, 1_000), Ok(99));
    assert_eq!(fee_amount(100, 0), Ok(0));
    assert_eq!(fee_amount(100, 10_000), Ok(100));
    assert_eq!(fee_amount(u64::MAX, 2), Err(TradestarsArenaError::MathOverflow));
}

#[test]
fn dispute_threshold_takes_twenty_percent_and_at_least_three() {
    assert_eq!(dispute_threshold_reached(0, 0), Ok(false));
    assert_eq!(dispute_threshold_reached(5, 0), Ok(false));
    assert_eq!(dispute_threshold_reached(1, 1), Ok(true));
    assert_eq!(dispute_threshold_reached(1, 2), Ok(false));
    assert_eq!(dispute_threshold_reached(2, 2), Ok(true));
    assert_eq!(dispute_threshold_reached(2, 10), Ok(false));
    assert_eq!(dispute_threshold_reached(3, 10), Ok(true));
    assert_eq!(dispute_threshold_reached(3, 20), Ok(false));
    assert_eq!(dispute_threshold_reached(4, 20), Ok(true));
    assert_eq!(dispute_threshold_reached(4, 16), Ok(true));
    assert_eq!(dispute_threshold_reached(3, 16), Ok(false));
    assert_eq!(dispute_threshold_reached(19, 100), Ok(false));
    assert_eq!(dispute_threshold_reached(20, 100), Ok(true));
    assert_eq!(dispute_threshold_reached(u32::MAX, u32::MAX), Ok(true));
}

#[test]
fn pool_accounting_helpers() {
    let mut a = arena();
    a.total_entry_fees_locked = 1_000;
    a.fee_accrued = 100;
    assert_eq!(net_entry_pool(&a), Ok(900));
    assert_eq!(settlement_payout_cap(&a), Ok(900));
    a.total_claimed_payout = 700;
    assert_eq!(guaranteed_prize_used(&a), Ok(0));
    assert_eq!(unused_guarantee(&a), Ok(500));
    a.guaranteed_prize_reserved = 1_200;
    assert_eq!(settlement_payout_cap(&a), Ok(1_200));
    a.total_claimed_payout = 1_150;
    assert_eq!(guaranteed_prize_used(&a), Ok(250));
    assert_eq!(unused_guarantee(&a), Ok(950));
    a.fee_accrued = 1_001;
    assert_eq!(net_entry_pool(&a), Err(TradestarsArenaError::MathOverflow));
    assert_eq!(guaranteed_prize_used(&a), Err(TradestarsArenaError::MathOverflow));
    assert_eq!(unused_guarantee(&a), Err(TradestarsArenaError::MathOverflow));
    assert_eq!(settlement_payout_cap(&a), Err(TradestarsArenaError::MathOverflow));
}

#[test]
fn unused_guarantee_underflow_is_an_error() {
    let mut a = arena();
    a.guaranteed_prize_reserved = 10;
    a.total_claimed_payout = 50;
    assert_eq!(guaranteed_prize_used(&a), Ok(50));
    assert_eq!(unused_guarantee(&a), Err(TradestarsArenaError::MathOverflow));
}

#[test]
fn settlement_claimable_checks_status_then_cooldown() {
    let mut a = arena();
    assert_eq!(ensure_settlement_claimable(&a, 1_000), Err(TradestarsArenaError::ArenaNotSettled));
    a.status = ArenaStatus::SettledPendingClaim;
    a.claimable_at = 500;
    assert_eq!(ensure_settlement_claimable(&a, 499), Err(TradestarsArenaError::ClaimCooldownActive));
    assert_eq!(ensure_settlement_claimable(&a, 500), Ok(()));
}

#[test]
fn role_checks() {
    let c = config();
    assert_eq!(require_authority(&c, &key(1)), Ok(()));
    assert_eq!(require_authority(&c, &key(3)), Err(TradestarsArenaError::Unauthorized));
    assert_eq!(require_arena_operator(&c, &key(3)), Ok(()));
    assert_eq!(require_arena_operator(&c, &key(1)), Err(TradestarsArenaError::InvalidArenaOperator));
    assert_eq!(require_minting_authority(&c, &key(5)), Ok(()));
    assert_eq!(require_minting_authority(&c, &key(3)), Err(TradestarsArenaError::InvalidMintingAuthority));
}

#[test]
fn token_program_must_be_token_2022() {
    assert_eq!(require_token_2022(&spl_token_2022::ID.to_bytes()), Ok(()));
    assert_eq!(
        require_token_2022(&anchor_spl::token::ID.to_bytes()),
        Err(TradestarsArenaError::InvalidTokenProgram)
    );
}

#[test]
fn mint_space_is_non_transferable_mint_size() {
    assert_eq!(tusdc_mint_space(), Ok(170));
}

#[test]
fn key_helpers() {
    assert!(key_eq(&key(4), &key(4)));
    assert!(!key_eq(&key(4), &key(5)));
    assert!(key_is_default(&[0; 32]));
    assert!(!key_is_default(&key(1)));
    let mut a = [0u8; 32];
    let mut b = [0u8; 32];
    a[3] = 1;
    b[3] = 2;
    b[10] = 0;
    a[10] = 9;
    assert!(key_le(&a, &b));
    assert!(!key_le(&b, &a));
    assert!(key_le(&a, &a));
}

#[test]
fn merkle_leaf_hashes_the_settled_outcome() {
    let arena_id = key(7);
    let user = key(8);
    let expected = solana_keccak_hasher::hashv(&[
        &arena_id,
        &3u32.to_le_bytes(),
        &user,
        &40u64.to_le_bytes(),
        &90u64.to_le_bytes(),
    ])
    .0;
    assert_eq!(merkle_leaf(&arena_id, 3, &user, 40, 90), expected);
    assert_ne!(merkle_leaf(&arena_id, 3, &user, 40, 91), expected);
}

#[test]
fn merkle_proof_sorts_pairs() {
    let leaf = key(8);
    assert!(verify_merkle_proof(leaf, &[], leaf));
    assert!(!verify_merkle_proof(leaf, &[], key(9)));
    let low = key(1);
    let high = key(200);
    let root_low = hash_pair(&low, &leaf);
    assert!(verify_merkle_proof(leaf, &[low], root_low));
    let root_two = hash_pair(&root_low, &high);
    let root_two = if root_low <= high { root_two } else { hash_pair(&high, &root_low) };
    assert!(verify_merkle_proof(leaf, &[low, high], root_two));
    assert!(!verify_merkle_proof(leaf, &[high, low], root_two));
    let root_high = hash_pair(&leaf, &high);
    assert!(verify_merkle_proof(leaf, &[high], root_high));
}

#[test]
fn canonical_addresses_match_program_derivation() {
    let program = Pubkey::new_from_array(key(42));
    let user = Pubkey::new_from_array(key(8));
    let arena = Pubkey::new_from_array(key(7));
    let (expected_user, _) = Pubkey::find_program_address(&[&USER_SEED, user.as_ref()], &program);
    assert_eq!(user_account_address(&user.to_bytes(), &program.to_bytes()), expected_user.to_bytes());
    let (expected_position, _) =
        Pubkey::find_program_address(&[&POSITION_SEED, arena.as_ref(), user.as_ref()], &program);
    assert_eq!(
        position_address(&arena.to_bytes(), &user.to_bytes(), &program.to_bytes()),
        expected_position.to_bytes()
    );
    assert_eq!(&USER_SEED, b"user");
    assert_eq!(&POSITION_SEED, b"position");
}
