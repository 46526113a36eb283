//! Verified core of the TradeStars arena program: mirrored balances, arena
//! commitments, settlement, disputes, refunds and finalization, modelled as
//! state transitions over plain account data.

pub mod errors;
pub mod effects;
pub mod events;
pub mod external;
pub mod instructions;
pub mod keys;
pub mod laws;
pub mod state;
pub mod utils;
