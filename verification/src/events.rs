use vstd::prelude::*;

use crate::keys::Key;

verus! {

/// Emitted when mirrored collateral is credited to a user.
#[derive(Clone, Copy, Debug, PartialEq, Eq)]
pub struct CollateralDeposited {
    pub user: Key,
    pub amount: u64,
    pub base_tx_hash: Key,
    pub log_index: u32,
    pub new_total_balance: u64,
    pub timestamp: i64,
}

/// Emitted when an arena is created.
#[derive(Clone, Copy, Debug, PartialEq, Eq)]
pub struct ArenaCreated {
    pub arena: Key,
    pub creator: Key,
    pub entry_fee: u64,
    pub fee_bps: u16,
    pub guaranteed_prize_target: u64,
    pub guaranteed_prize_reserved: u64,
    pub start_time: i64,
    pub entry_close_time: i64,
    pub end_time: i64,
    pub metadata_hash: Key,
    pub timestamp: i64,
}

/// Emitted when a user enters an arena.
#[derive(Clone, Copy, Debug, PartialEq, Eq)]
pub struct ArenaJoined {
    pub arena: Key,
    pub user: Key,
    pub entry_fee: u64,
    pub fee_amount: u64,
    pub net_entry_amount: u64,
    pub entry_count: u8,
    pub locked_amount: u64,
    pub user_in_play_debt: u64,
    pub total_pool: u64,
    pub timestamp: i64,
}

/// Emitted when the operator posts a settlement root.
#[derive(Clone, Copy, Debug, PartialEq, Eq)]
pub struct SettlementRootPosted {
    pub arena: Key,
    pub settlement_version: u32,
    pub merkle_root: Key,
    pub settlement_timestamp: i64,
    pub claimable_at: i64,
}

/// Emitted for each dispute submitted.
#[derive(Clone, Copy, Debug, PartialEq, Eq)]
pub struct ArenaDisputed {
    pub arena: Key,
    pub user: Key,
    pub settlement_version: u32,
    pub dispute_count: u32,
    pub participant_count: u32,
    pub threshold_bps: u16,
    pub disputed: bool,
    pub timestamp: i64,
}

/// Emitted when a position is paid out from a settlement.
#[derive(Clone, Copy, Debug, PartialEq, Eq)]
pub struct ArenaPositionSettled {
    pub arena: Key,
    pub user: Key,
    pub settled_by: Key,
    pub locked_amount: u64,
    pub payout_amount: u64,
    pub new_total_balance: u64,
    pub new_in_play_debt: u64,
    pub total_claimed_payout: u64,
    pub timestamp: i64,
}

/// Emitted when a position of a cancelled arena is refunded.
#[derive(Clone, Copy, Debug, PartialEq, Eq)]
pub struct ArenaRefunded {
    pub arena: Key,
    pub user: Key,
    pub refunded_by: Key,
    pub unlocked_amount: u64,
    pub new_in_play_debt: u64,
    pub timestamp: i64,
}

/// Emitted when an arena is cancelled.
#[derive(Clone, Copy, Debug, PartialEq, Eq)]
pub struct ArenaCancelled {
    pub arena: Key,
    pub creator: Key,
    pub cancelled_by: Key,
    pub timestamp: i64,
}

/// Emitted when deposits are paused or resumed.
#[derive(Clone, Copy, Debug, PartialEq, Eq)]
pub struct DepositsPauseUpdated {
    pub paused: bool,
    pub authority: Key,
    pub timestamp: i64,
}

/// Emitted when an arena is finalized.
#[derive(Clone, Copy, Debug, PartialEq, Eq)]
pub struct ArenaFinalized {
    pub arena: Key,
    pub creator: Key,
    pub unused_guarantee: u64,
    pub fees_minted: u64,
    pub timestamp: i64,
}

/// Emitted when a user burns mirrored tokens to withdraw on the source chain.
#[derive(Clone, Copy, Debug, PartialEq, Eq)]
pub struct WithdrawRequested {
    pub user: Key,
    pub amount: u64,
    pub nonce: u64,
    pub remaining_total_balance: u64,
    pub available_to_withdraw: u64,
    pub timestamp: i64,
}

} // verus!
