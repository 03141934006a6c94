//! Client-side request layer for the [OP API](https://op-developer.fi), a
//! banking REST API.
//!
//! The crate holds the parts of a client that decide what goes on the wire.
//!
//! # Options
//!
//! Every call needs an API key, and production access needs an OAuth2 token
//! besides. [`options::Options`] is the store of these settings: one object
//! that all clients share and that may be changed at any time.
//!
//! # Requests
//!
//! [`client::Client`] builds the requests of all APIs; the clients of the
//! single APIs are in [`apis`]. A [`requests::Request`] holds the URL, the
//! headers and the query parameters of one authenticated `GET`. Sending it
//! and decoding the answer are left to the caller.
//!
//! # Model
//!
//! [`model`] holds the values that requests are built from: the filters of
//! a transaction query, with times as [`timestamp::Timestamp`]. [`query`]
//! writes them as a query string.
//!
//! # Paging
//!
//! [`paging`] holds the rules of walking through the pages of a collection
//! by the server's paging tokens.

pub mod apis;
pub mod client;
pub mod model;
pub mod options;
pub mod paging;
pub mod query;
pub mod requests;
pub mod timestamp;

pub use crate::model::accounts;
