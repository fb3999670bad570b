//! The state transitions of the protocol.

pub mod mint_amusd;
pub mod redeem_amusd;
pub mod mint_asol;
pub mod redeem_asol;
pub mod initialize;
pub mod sync_exchange_rate;
