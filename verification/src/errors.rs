use vstd::prelude::*;

verus! {

/// The errors the program answers a refused instruction with.
#[derive(Clone, Copy, Debug, PartialEq, Eq, Structural)]
pub enum TradestarsArenaError {
    Unauthorized,
    InvalidArenaOperator,
    InvalidDepositAttestation,
    InvalidBaseSource,
    InvalidStatusTransition,
    AmountTooSmall,
    MathOverflow,
    InvalidFeeBps,
    InvalidCooldown,
    InvalidTime,
    InvalidAccount,
    InvalidUserAccount,
    InvalidCreator,
    InvalidTreasuryWallet,
    InvalidRoleKey,
    InvalidArenaPosition,
    PositionAlreadyResolved,
    ArenaNotSettled,
    ArenaNotDisputed,
    ArenaNotCancelled,
    ClaimCooldownActive,
    LockedAmountMismatch,
    InvalidBatchAccounts,
    InvalidMerkleProof,
    InsufficientAvailableBalance,
    InsufficientGuaranteedPrize,
    MaxEntriesReached,
    ArenaPoolExceeded,
    ClaimsAlreadyStarted,
    InvalidNonce,
    InvalidTokenProgram,
    InvalidTokenAccount,
    NotArenaParticipant,
    ArenaNotCreated,
    ArenaNotReadyToFinalize,
    AlreadyDisputed,
    DepositsPaused,
    ArenaNotStale,
    /// The signer is not the configured minting authority.
    InvalidMintingAuthority,
    /// The token program could not size the mirrored-token mint account.
    InvalidMintLayout,
}

} // verus!
