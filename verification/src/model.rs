//! The values that requests are built from, one module for each API.

pub mod accounts;
