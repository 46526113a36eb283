use vstd::prelude::*;

use crate::errors::TradestarsArenaError;
use crate::events::DepositsPauseUpdated;
use crate::keys::Key;
use crate::state::PlatformConfig;
use crate::utils::require_authority;

verus! {

/// The accounts pausing or resuming deposits reads and writes.
#[derive(Clone, Copy, Debug, PartialEq, Eq)]
pub struct SetDepositsPaused {
    pub platform_config: PlatformConfig,
    /// The signer, who must be the platform authority.
    pub authority: Key,
}

/// Sets whether deposits are paused; only the platform authority may.
/// On an error nothing changes.
pub fn handler(ctx: &mut SetDepositsPaused, paused: bool, now: i64) -> (r: Result<
    DepositsPauseUpdated,
    TradestarsArenaError,
>)
    ensures
        old(ctx).authority != old(ctx).platform_config.authority ==> r == Err::<
            DepositsPauseUpdated,
            TradestarsArenaError,
        >(TradestarsArenaError::Unauthorized) && *final(ctx) == *old(ctx),
        old(ctx).authority == old(ctx).platform_config.authority ==> r == Ok::<
            DepositsPauseUpdated,
            TradestarsArenaError,
        >(DepositsPauseUpdated { paused, authority: old(ctx).authority, timestamp: now })
            && *final(ctx) == (SetDepositsPaused {
            platform_config: PlatformConfig { deposits_paused: paused, ..old(ctx).platform_config },
            ..*old(ctx)
        }),
{
    match require_authority(&ctx.platform_config, &ctx.authority) {
        Ok(()) => {},
        Err(e) => return Err(e),
    }
    ctx.platform_config.deposits_paused = paused;
    Ok(DepositsPauseUpdated { paused, authority: ctx.authority, timestamp: now })
}

} // verus!
