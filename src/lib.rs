//! A two-party token-swap escrow: the wire codec of its requests, the
//! persisted escrow record, the derived custody authority, and the state
//! machine that opens and settles a trade.

pub mod address;
pub mod error;
pub mod instruction;
pub mod state;
pub mod processor;
