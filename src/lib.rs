//! Asset identity and execution-fee logic for cross-chain transfers: a
//! resolver between local currency identifiers and hierarchical locations, a
//! fee schedule in exact integer arithmetic, and an ordered chain of fee
//! traders.
pub mod convert;
pub mod fees;
pub mod location;
pub mod parachains;
pub mod registry;
pub mod tokens;
pub mod trader;
