//! The clients of the single APIs. Each builds the requests of its API from
//! the configuration store that it shares with the others.

pub mod accounts;
pub mod funds;
pub mod holdings;
