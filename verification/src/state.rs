use vstd::prelude::*;

use crate::errors::TradestarsArenaError;
use crate::keys::Key;

verus! {

/// How many times one user may enter the same arena.
pub const MAX_ENTRIES_PER_USER: u8 = 10;

/// Share of unique participants, in basis points, whose disputes move an arena to `Disputed`.
pub const DISPUTE_THRESHOLD_BPS: u16 = 2_000;

/// The least number of disputes needed in an arena with at least this many participants.
pub const DISPUTE_MIN_PARTICIPANTS: u32 = 3;

/// Where an arena stands in its lifecycle.
#[derive(Clone, Copy, Debug, PartialEq, Eq, Structural)]
pub enum ArenaStatus {
    Created,
    SettledPendingClaim,
    Disputed,
    Finalized,
    Cancelled,
}

/// The platform's roles and timing configuration.
#[derive(Clone, Copy, Debug, PartialEq, Eq)]
pub struct PlatformConfig {
    pub authority: Key,
    pub arena_operator: Key,
    pub treasury_wallet: Key,
    pub minting_authority: Key,
    pub dispute_window_seconds: u64,
    pub settlement_grace_period_seconds: u64,
    pub deposits_paused: bool,
    pub bump: u8,
}

impl PlatformConfig {
    /// Size of the account data, discriminator included.
    pub const LEN: usize = 8 + (32 * 4) + 8 + 8 + 1 + 1;
}

/// A user's mirrored balance and the part of it committed to arenas.
#[derive(Clone, Copy, Debug, PartialEq, Eq)]
pub struct UserAccount {
    pub owner: Key,
    pub total_balance: u64,
    pub in_play_debt: u64,
    pub last_nonce: u64,
    pub bump: u8,
}

impl UserAccount {
    /// Size of the account data, discriminator included.
    pub const LEN: usize = 8 + 32 + 8 + 8 + 8 + 1;

    /// The balance is at least what is committed to arenas.
    pub open spec fn solvent(self) -> bool {
        self.in_play_debt <= self.total_balance
    }

    /// The part of the balance that is not committed to any arena:
    /// `total_balance - in_play_debt`, or `MathOverflow` when the debt is larger.
    pub fn available_to_withdraw(&self) -> (r: Result<u64, TradestarsArenaError>)
        ensures
            self.solvent() ==> r == Ok::<u64, TradestarsArenaError>(
                (self.total_balance - self.in_play_debt) as u64,
            ),
            !self.solvent() ==> r == Err::<u64, TradestarsArenaError>(
                TradestarsArenaError::MathOverflow,
            ),
    {
        match self.total_balance.checked_sub(self.in_play_debt) {
            Some(v) => Ok(v),
            None => Err(TradestarsArenaError::MathOverflow),
        }
    }
}

/// One arena: its parameters, its pool accounting and its settlement state.
#[derive(Clone, Copy, Debug, PartialEq, Eq)]
pub struct ArenaAccount {
    pub arena_id: Key,
    pub creator: Key,
    pub status: ArenaStatus,
    pub entry_fee: u64,
    pub fee_bps: u16,
    pub guaranteed_prize_target: u64,
    pub guaranteed_prize_reserved: u64,
    pub total_entry_fees_locked: u64,
    pub fee_accrued: u64,
    pub total_pool: u64,
    pub total_claimed_payout: u64,
    pub start_time: i64,
    pub entry_close_time: i64,
    pub end_time: i64,
    pub merkle_root: Key,
    pub settlement_timestamp: i64,
    pub claimable_at: i64,
    pub participant_count: u32,
    pub resolved_count: u32,
    pub dispute_count: u32,
    pub settlement_version: u32,
    pub metadata_hash: Key,
    pub bump: u8,
}

impl ArenaAccount {
    /// Size of the account data, discriminator included.
    pub const LEN: usize = 8 + 32 + 32 + 1 + 8 + 2 + (8 * 6) + (8 * 5) + 32 + (4 * 4) + 32 + 1;

    /// Entry fees that stay in the pool once fees are taken out.
    pub open spec fn spec_net_entry_pool(self) -> int {
        self.total_entry_fees_locked - self.fee_accrued
    }

    /// The most that settlement may pay out in total:
    /// `max(guaranteed_prize_reserved, total_entry_fees_locked - fee_accrued)`.
    pub open spec fn spec_payout_cap(self) -> int {
        if self.guaranteed_prize_reserved >= self.spec_net_entry_pool() {
            self.guaranteed_prize_reserved as int
        } else {
            self.spec_net_entry_pool()
        }
    }

    /// The accounting that every arena keeps:
    /// fees never exceed the entry fees they come from,
    /// `total_pool = guaranteed_prize_reserved + (total_entry_fees_locked - fee_accrued)`,
    /// and the payouts made stay within the payout cap.
    pub open spec fn accounting_ok(self) -> bool {
        &&& self.fee_accrued <= self.total_entry_fees_locked
        &&& self.total_pool == self.guaranteed_prize_reserved + self.spec_net_entry_pool()
        &&& self.total_claimed_payout <= self.spec_payout_cap()
    }
}

/// One user's stake in one arena.
#[derive(Clone, Copy, Debug, PartialEq, Eq)]
pub struct ArenaPosition {
    pub user: Key,
    pub arena: Key,
    pub entry_count: u8,
    pub locked_amount: u64,
    pub resolved: bool,
    pub last_disputed_settlement_version: u32,
    pub bump: u8,
}

impl ArenaPosition {
    /// Size of the account data, discriminator included.
    pub const LEN: usize = 8 + 32 + 32 + 1 + 8 + 1 + 4 + 1;
}

/// The replay marker whose existence records that a deposit was processed.
#[derive(Clone, Copy, Debug, PartialEq, Eq)]
pub struct Marker {
    pub bump: u8,
}

impl Marker {
    /// Size of the account data, discriminator included.
    pub const LEN: usize = 8 + 1;
}

/// What the operator supplies when creating an arena.
#[derive(Clone, Copy, Debug, PartialEq, Eq)]
pub struct CreateArenaParams {
    pub creator: Key,
    pub entry_fee: u64,
    pub fee_bps: u16,
    pub guaranteed_prize_target: u64,
    pub start_time: i64,
    pub entry_close_time: i64,
    pub end_time: i64,
    pub metadata_hash: Key,
}

/// One user's settled outcome, with the proof that it is in the settlement root.
#[derive(Clone, Debug, PartialEq, Eq)]
pub struct SettlementEntry {
    pub locked_amount: u64,
    pub payout_amount: u64,
    pub proof: Vec<Key>,
}

} // verus!
