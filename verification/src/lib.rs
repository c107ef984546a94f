//! Client-side core for a multi-tier swap aggregator API.
//!
//! The crate turns a swap intent into the requests the aggregator expects,
//! classifies its failures, and normalises its quote variants into one
//! family of types. Everything here is plain computation with a proved
//! contract; sending bytes over the network is left to the caller.
//!
//! A round trip has two halves. `JupiterClient::prepare_*` says what to
//! send; the caller sends it and records what came back in an
//! [`exchange::HttpReply`]; `JupiterClient::get_*` says what that reply
//! amounts to. A swap is two such round trips with a decision between them,
//! which [`swap`] makes.
//!
//! - [`jupiter_client`]: the client, its constructors and its operations.
//! - [`profile`]: the model of a client and the headers that follow from it.
//! - [`headers`]: header maps and header values.
//! - [`exchange`]: requests, replies and routes.
//! - [`error`]: failures and the classification of failure statuses.
//! - [`quote`]: from a quote as it came to a quote with its numbers read.
//! - [`swap`]: the execution of a swap.
//! - [`numeric`]: amounts and exact decimals.
//! - [`types`]: the records shared with the trading system.

pub mod error;
pub mod exchange;
pub mod headers;
pub mod jupiter_client;
pub mod numeric;
pub mod profile;
pub mod quote;
pub mod swap;
pub mod types;
