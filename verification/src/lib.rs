//! Governance with time-locked voting power.
//!
//! Token holders lock tokens in an escrow for a chosen duration and receive
//! voting power that scales with the remaining lock time. That power backs
//! weighted votes on proposals managed by a governor, and an optional
//! redeemer lets a holder exit a lock early at a configured rate, with a
//! blacklist preventing a second redemption of the same escrow.
//!
//! Token custody, signature verification and durable storage are the hosting
//! environment's concern: every operation here is a pure state transition on
//! the records it is handed, evaluated against an externally supplied
//! current-time value.

pub mod govern;
pub mod locker;
pub mod power;
pub mod pubkey;
pub mod redeem;
pub mod tally;
