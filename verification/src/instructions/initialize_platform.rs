use vstd::prelude::*;

use crate::errors::TradestarsArenaError;
use crate::keys::{is_default_key, key_is_default, Key};
use crate::state::PlatformConfig;
use crate::utils::{is_token_2022, require_token_2022, tusdc_mint_space};

verus! {

/// The accounts the platform's initialization reads.
#[derive(Clone, Copy, Debug, PartialEq, Eq)]
pub struct InitializePlatform {
    /// The signer, who becomes the platform authority.
    pub authority: Key,
    pub token_program: Key,
    /// Bump of the configuration address.
    pub platform_config_bump: u8,
}

/// What initialization sets up: the configuration and the size of the
/// mirrored-token mint account to create.
#[derive(Clone, Copy, Debug, PartialEq, Eq)]
pub struct PlatformSetup {
    pub config: PlatformConfig,
    pub mint_space: usize,
}

/// Why initialization is refused, if it is.
pub open spec fn initialize_platform_error(
    ctx: InitializePlatform,
    arena_operator: Key,
    treasury_wallet: Key,
    minting_authority: Key,
    dispute_window_seconds: u64,
    settlement_grace_period_seconds: u64,
) -> Option<TradestarsArenaError> {
    if !is_token_2022(ctx.token_program) {
        Some(TradestarsArenaError::InvalidTokenProgram)
    } else if is_default_key(arena_operator) {
        Some(TradestarsArenaError::InvalidRoleKey)
    } else if dispute_window_seconds == 0 || settlement_grace_period_seconds == 0 {
        Some(TradestarsArenaError::InvalidCooldown)
    } else if is_default_key(treasury_wallet) {
        Some(TradestarsArenaError::InvalidTreasuryWallet)
    } else if is_default_key(minting_authority) {
        Some(TradestarsArenaError::InvalidRoleKey)
    } else {
        None
    }
}

/// Sets the platform up with the signer as authority and deposits running.
pub fn handler(
    ctx: &InitializePlatform,
    arena_operator: Key,
    treasury_wallet: Key,
    minting_authority: Key,
    dispute_window_seconds: u64,
    settlement_grace_period_seconds: u64,
) -> (r: Result<PlatformSetup, TradestarsArenaError>)
    ensures
        match initialize_platform_error(
            *ctx,
            arena_operator,
            treasury_wallet,
            minting_authority,
            dispute_window_seconds,
            settlement_grace_period_seconds,
        ) {
            Some(e) => r == Err::<PlatformSetup, TradestarsArenaError>(e),
            None => r == Ok::<PlatformSetup, TradestarsArenaError>(
                PlatformSetup {
                    config: PlatformConfig {
                        authority: ctx.authority,
                        arena_operator,
                        treasury_wallet,
                        minting_authority,
                        dispute_window_seconds,
                        settlement_grace_period_seconds,
                        deposits_paused: false,
                        bump: ctx.platform_config_bump,
                    },
                    mint_space: 170,
                },
            ),
        },
{
    match require_token_2022(&ctx.token_program) {
        Ok(()) => {},
        Err(e) => return Err(e),
    }
    if key_is_default(&arena_operator) {
        return Err(TradestarsArenaError::InvalidRoleKey);
    }
    if dispute_window_seconds == 0 {
        return Err(TradestarsArenaError::InvalidCooldown);
    }
    if settlement_grace_period_seconds == 0 {
        return Err(TradestarsArenaError::InvalidCooldown);
    }
    if key_is_default(&treasury_wallet) {
        return Err(TradestarsArenaError::InvalidTreasuryWallet);
    }
    if key_is_default(&minting_authority) {
        return Err(TradestarsArenaError::InvalidRoleKey);
    }
    let mint_space = match tusdc_mint_space() {
        Ok(v) => v,
        Err(e) => return Err(e),
    };
    Ok(
        PlatformSetup {
            config: PlatformConfig {
                authority: ctx.authority,
                arena_operator,
                treasury_wallet,
                minting_authority,
                dispute_window_seconds,
                settlement_grace_period_seconds,
                deposits_paused: false,
                bump: ctx.platform_config_bump,
            },
            mint_space,
        },
    )
}

} // verus!
