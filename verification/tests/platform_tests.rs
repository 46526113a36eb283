use tradestars_arena::errors::TradestarsArenaError;
use tradestars_arena::instructions::deposit_collateral::{self, DepositCollateral};
use tradestars_arena::instructions::initialize_platform::{self, InitializePlatform};
use tradestars_arena::instructions::set_deposits_paused::{self, SetDepositsPaused};
use tradestars_arena::instructions::update_platform_config::{self, UpdatePlatformConfig};
use tradestars_arena::instructions::withdraw_request::{self, WithdrawRequest};
use tradestars_arena::state::{PlatformConfig, UserAccount};

fn key(b: u8) -> [u8; 32] {
    [b; 32]
}

fn token_2022() -> [u8; 32] {
    spl_token_2022::ID.to_bytes()
}

fn config() -> PlatformConfig {
    PlatformConfig {
        authority: key(1),
        arena_operator: key(3),
        treasury_wallet: key(4),
        minting_authority: key(5),
        dispute_window_seconds: 60,
        settlement_grace_period_seconds: 120,
        deposits_paused: false,
        bump: 254,
    }
}

fn blank_account() -> UserAccount {
    UserAccount { owner: [0; 32], total_balance: 0, in_play_debt: 0, last_nonce: 0, bump: 0 }
}

#[test]
fn initialize_platform_sets_roles() {
    let ctx = InitializePlatform { authority: key(1), token_program: token_2022(), platform_config_bump: 254 };
    let setup = initialize_platform::handler(&ctx, key(3), key(4), key(5), 60, 120).unwrap();
    assert_eq!(setup.config, config());
    assert_eq!(setup.mint_space, 170);
}

#[test]
fn initialize_platform_refusals() {
    let ctx = InitializePlatform { authority: key(1), token_program: token_2022(), platform_config_bump: 254 };
    assert_eq!(initialize_platform::handler(&ctx, [0; 32], key(4), key(5), 60, 120), Err(TradestarsArenaError::InvalidRoleKey));
    assert_eq!(initialize_platform::handler(&ctx, key(3), key(4), key(5), 0, 120), Err(TradestarsArenaError::InvalidCooldown));
    assert_eq!(initialize_platform::handler(&ctx, key(3), key(4), key(5), 60, 0), Err(TradestarsArenaError::InvalidCooldown));
    assert_eq!(initialize_platform::handler(&ctx, key(3), [0; 32], key(5), 60, 120), Err(TradestarsArenaError::InvalidTreasuryWallet));
    assert_eq!(initialize_platform::handler(&ctx, key(3), key(4), [0; 32], 60, 120), Err(TradestarsArenaError::InvalidRoleKey));
    let wrong = InitializePlatform { token_program: anchor_spl::token::ID.to_bytes(), ..ctx };
    assert_eq!(initialize_platform::handler(&wrong, key(3), key(4), key(5), 60, 120), Err(TradestarsArenaError::InvalidTokenProgram));
}

#[test]
fn update_platform_config_replaces_given_fields() {
    let mut ctx = UpdatePlatformConfig { platform_config: config() };
    update_platform_config::handler(&mut ctx, None, Some(key(30)), None, None, Some(90), None).unwrap();
    assert_eq!(ctx.platform_config, PlatformConfig { arena_operator: key(30), dispute_window_seconds: 90, ..config() });
    update_platform_config::handler(&mut ctx, Some(key(10)), None, Some(key(40)), Some(key(50)), None, Some(7)).unwrap();
    assert_eq!(ctx.platform_config.authority, key(10));
    assert_eq!(ctx.platform_config.treasury_wallet, key(40));
    assert_eq!(ctx.platform_config.minting_authority, key(50));
    assert_eq!(ctx.platform_config.settlement_grace_period_seconds, 7);
}

#[test]
fn update_platform_config_is_all_or_nothing() {
    let mut ctx = UpdatePlatformConfig { platform_config: config() };
    assert_eq!(
        update_platform_config::handler(&mut ctx, Some(key(10)), None, None, None, Some(0), None),
        Err(TradestarsArenaError::InvalidCooldown)
    );
    assert_eq!(ctx.platform_config, config());
    assert_eq!(
        update_platform_config::handler(&mut ctx, Some([0; 32]), None, None, None, None, None),
        Err(TradestarsArenaError::InvalidRoleKey)
    );
    assert_eq!(
        update_platform_config::handler(&mut ctx, None, None, Some([0; 32]), None, None, None),
        Err(TradestarsArenaError::InvalidTreasuryWallet)
    );
    assert_eq!(
        update_platform_config::handler(&mut ctx, None, None, None, Some([0; 32]), None, None),
        Err(TradestarsArenaError::InvalidRoleKey)
    );
    assert_eq!(ctx.platform_config, config());
}

#[test]
fn only_authority_pauses_deposits() {
    let mut ctx = SetDepositsPaused { platform_config: config(), authority: key(3) };
    assert_eq!(set_deposits_paused::handler(&mut ctx, true, 5), Err(TradestarsArenaError::Unauthorized));
    assert!(!ctx.platform_config.deposits_paused);
    let mut ctx = SetDepositsPaused { authority: key(1), ..ctx };
    let event = set_deposits_paused::handler(&mut ctx, true, 5).unwrap();
    assert!(event.paused);
    assert_eq!(event.authority, key(1));
    assert!(ctx.platform_config.deposits_paused);
}

fn deposit_ctx(account: UserAccount) -> DepositCollateral {
    DepositCollateral {
        platform_config: config(),
        user: key(20),
        user_account: account,
        user_account_bump: 253,
        submitter: key(5),
        token_program: token_2022(),
    }
}

#[test]
fn deposit_creates_and_credits_account() {
    let mut ctx = deposit_ctx(blank_account());
    let event = deposit_collateral::handler(&mut ctx, 1_000, key(77), 3, 9).unwrap();
    assert_eq!(event.new_total_balance, 1_000);
    assert_eq!(event.base_tx_hash, key(77));
    assert_eq!(event.log_index, 3);
    assert_eq!(ctx.user_account, UserAccount { owner: key(20), total_balance: 1_000, in_play_debt: 0, last_nonce: 0, bump: 253 });
    deposit_collateral::handler(&mut ctx, 500, key(78), 0, 10).unwrap();
    assert_eq!(ctx.user_account.total_balance, 1_500);
}

#[test]
fn deposit_refusals() {
    let mut ctx = deposit_ctx(blank_account());
    assert_eq!(deposit_collateral::handler(&mut ctx, 0, key(77), 3, 9), Err(TradestarsArenaError::AmountTooSmall));
    let mut paused = DepositCollateral { platform_config: PlatformConfig { deposits_paused: true, ..config() }, ..ctx };
    assert_eq!(deposit_collateral::handler(&mut paused, 1, key(77), 3, 9), Err(TradestarsArenaError::DepositsPaused));
    let mut stranger = DepositCollateral { submitter: key(3), ..ctx };
    assert_eq!(deposit_collateral::handler(&mut stranger, 1, key(77), 3, 9), Err(TradestarsArenaError::InvalidMintingAuthority));
    let mut other = deposit_ctx(UserAccount { owner: key(21), ..blank_account() });
    assert_eq!(deposit_collateral::handler(&mut other, 1, key(77), 3, 9), Err(TradestarsArenaError::InvalidUserAccount));
    let mut full = deposit_ctx(UserAccount { owner: key(20), total_balance: u64::MAX, ..blank_account() });
    assert_eq!(deposit_collateral::handler(&mut full, 1, key(77), 3, 9), Err(TradestarsArenaError::MathOverflow));
    let mut wrong = DepositCollateral { token_program: key(6), ..ctx };
    assert_eq!(deposit_collateral::handler(&mut wrong, 1, key(77), 3, 9), Err(TradestarsArenaError::InvalidTokenProgram));
    assert_eq!(ctx.user_account, blank_account());
}

fn withdraw_ctx(account: UserAccount) -> WithdrawRequest {
    WithdrawRequest { user: key(20), user_account: account, token_program: token_2022() }
}

#[test]
fn withdraw_takes_free_balance_with_next_nonce() {
    let account = UserAccount { owner: key(20), total_balance: 1_000, in_play_debt: 300, last_nonce: 4, bump: 1 };
    let mut ctx = withdraw_ctx(account);
    assert_eq!(withdraw_request::handler(&mut ctx, 701, 5, 9), Err(TradestarsArenaError::InsufficientAvailableBalance));
    assert_eq!(withdraw_request::handler(&mut ctx, 100, 4, 9), Err(TradestarsArenaError::InvalidNonce));
    assert_eq!(withdraw_request::handler(&mut ctx, 100, 6, 9), Err(TradestarsArenaError::InvalidNonce));
    let event = withdraw_request::handler(&mut ctx, 700, 5, 9).unwrap();
    assert_eq!(event.remaining_total_balance, 300);
    assert_eq!(event.available_to_withdraw, 0);
    assert_eq!(event.nonce, 5);
    assert_eq!(ctx.user_account.last_nonce, 5);
    assert_eq!(withdraw_request::handler(&mut ctx, 1, 5, 10), Err(TradestarsArenaError::InvalidNonce));
}

#[test]
fn withdraw_refusals() {
    let account = UserAccount { owner: key(20), total_balance: 1_000, in_play_debt: 0, last_nonce: 0, bump: 1 };
    let mut ctx = withdraw_ctx(account);
    assert_eq!(withdraw_request::handler(&mut ctx, 0, 1, 9), Err(TradestarsArenaError::AmountTooSmall));
    let mut other = WithdrawRequest { user: key(21), ..ctx };
    assert_eq!(withdraw_request::handler(&mut other, 1, 1, 9), Err(TradestarsArenaError::InvalidUserAccount));
    let mut maxed = withdraw_ctx(UserAccount { last_nonce: u64::MAX, ..account });
    assert_eq!(withdraw_request::handler(&mut maxed, 1, 0, 9), Err(TradestarsArenaError::MathOverflow));
    let mut indebted = withdraw_ctx(UserAccount { in_play_debt: 2_000, ..account });
    assert_eq!(withdraw_request::handler(&mut indebted, 1, 1, 9), Err(TradestarsArenaError::MathOverflow));
    let mut wrong = WithdrawRequest { token_program: key(7), ..ctx };
    assert_eq!(withdraw_request::handler(&mut wrong, 1, 1, 9), Err(TradestarsArenaError::InvalidTokenProgram));
    assert_eq!(ctx.user_account, account);
}
