use vstd::prelude::*;

use crate::errors::TradestarsArenaError;
use crate::keys::{is_default_key, key_is_default, Key};
use crate::state::PlatformConfig;

verus! {

/// The account a configuration update writes. The signer is checked to be
/// the configured authority when the accounts are loaded.
#[derive(Clone, Copy, Debug, PartialEq, Eq)]
pub struct UpdatePlatformConfig {
    pub platform_config: PlatformConfig,
}

/// A role key that may be replaced: it must not be the all-zero key.
pub open spec fn bad_role(new_key: Option<Key>) -> bool {
    new_key matches Some(k) && is_default_key(k)
}

/// A period that may be replaced: it must not be zero.
pub open spec fn bad_period(new_seconds: Option<u64>) -> bool {
    new_seconds matches Some(s) && s == 0
}

/// Why the update is refused, if it is: the fields are checked in order.
pub open spec fn update_platform_config_error(
    new_authority: Option<Key>,
    new_arena_operator: Option<Key>,
    new_treasury_wallet: Option<Key>,
    new_minting_authority: Option<Key>,
    new_dispute_window_seconds: Option<u64>,
    new_settlement_grace_period_seconds: Option<u64>,
) -> Option<TradestarsArenaError> {
    if bad_role(new_authority) || bad_role(new_arena_operator) {
        Some(TradestarsArenaError::InvalidRoleKey)
    } else if bad_role(new_treasury_wallet) {
        Some(TradestarsArenaError::InvalidTreasuryWallet)
    } else if bad_role(new_minting_authority) {
        Some(TradestarsArenaError::InvalidRoleKey)
    } else if bad_period(new_dispute_window_seconds) || bad_period(
        new_settlement_grace_period_seconds,
    ) {
        Some(TradestarsArenaError::InvalidCooldown)
    } else {
        None
    }
}

/// The value that stays unless a new one is given.
pub open spec fn or_keep<T>(new_value: Option<T>, current: T) -> T {
    match new_value {
        Some(v) => v,
        None => current,
    }
}

/// Replaces each configuration field for which a new value is given; a role
/// may not become the all-zero key and a period may not become zero.
/// On an error nothing changes.
pub fn handler(
    ctx: &mut UpdatePlatformConfig,
    new_authority: Option<Key>,
    new_arena_operator: Option<Key>,
    new_treasury_wallet: Option<Key>,
    new_minting_authority: Option<Key>,
    new_dispute_window_seconds: Option<u64>,
    new_settlement_grace_period_seconds: Option<u64>,
) -> (r: Result<(), TradestarsArenaError>)
    ensures
        match update_platform_config_error(
            new_authority,
            new_arena_operator,
            new_treasury_wallet,
            new_minting_authority,
            new_dispute_window_seconds,
            new_settlement_grace_period_seconds,
        ) {
            Some(e) => r == Err::<(), TradestarsArenaError>(e) && *final(ctx) == *old(ctx),
            None => r == Ok::<(), TradestarsArenaError>(()) && final(ctx).platform_config == (
            PlatformConfig {
                authority: or_keep(new_authority, old(ctx).platform_config.authority),
                arena_operator: or_keep(new_arena_operator, old(ctx).platform_config.arena_operator),
                treasury_wallet: or_keep(
                    new_treasury_wallet,
                    old(ctx).platform_config.treasury_wallet,
                ),
                minting_authority: or_keep(
                    new_minting_authority,
                    old(ctx).platform_config.minting_authority,
                ),
                dispute_window_seconds: or_keep(
                    new_dispute_window_seconds,
                    old(ctx).platform_config.dispute_window_seconds,
                ),
                settlement_grace_period_seconds: or_keep(
                    new_settlement_grace_period_seconds,
                    old(ctx).platform_config.settlement_grace_period_seconds,
                ),
                ..old(ctx).platform_config
            }),
        },
{
    let mut config = ctx.platform_config;
    if let Some(authority) = new_authority {
        if key_is_default(&authority) {
            return Err(TradestarsArenaError::InvalidRoleKey);
        }
        config.authority = authority;
    }
    if let Some(arena_operator) = new_arena_operator {
        if key_is_default(&arena_operator) {
            return Err(TradestarsArenaError::InvalidRoleKey);
        }
        config.arena_operator = arena_operator;
    }
    if let Some(treasury_wallet) = new_treasury_wallet {
        if key_is_default(&treasury_wallet) {
            return Err(TradestarsArenaError::InvalidTreasuryWallet);
        }
        config.treasury_wallet = treasury_wallet;
    }
    if let Some(minting_authority) = new_minting_authority {
        if key_is_default(&minting_authority) {
            return Err(TradestarsArenaError::InvalidRoleKey);
        }
        config.minting_authority = minting_authority;
    }
    if let Some(dispute_window_seconds) = new_dispute_window_seconds {
        if dispute_window_seconds == 0 {
            return Err(TradestarsArenaError::InvalidCooldown);
        }
        config.dispute_window_seconds = dispute_window_seconds;
    }
    if let Some(settlement_grace_period_seconds) = new_settlement_grace_period_seconds {
        if settlement_grace_period_seconds == 0 {
            return Err(TradestarsArenaError::InvalidCooldown);
        }
        config.settlement_grace_period_seconds = settlement_grace_period_seconds;
    }
    ctx.platform_config = config;
    Ok(())
}

} // verus!
