//! One module per instruction: the accounts each instruction reads and
//! writes, and the verified handler that decides the instruction's outcome.

pub mod cancel_arena;
pub mod cancel_disputed_arena;
pub mod cancel_stale_arena;
pub mod join_arena;
pub mod post_settlement_root;
pub mod set_deposits_paused;
pub mod submit_dispute;
pub mod deposit_collateral;
pub mod initialize_platform;
pub mod update_platform_config;
pub mod withdraw_request;
pub mod create_arena;
pub mod claim_refund;
pub mod claim_winnings;
pub mod finalize_arena;
pub mod refund_arena_batch;
pub mod settle_arena_batch;
