//! A client for a swap-quoting and transaction-building HTTP service.
//!
//! The library holds what the client decides: the endpoint paths it derives
//! from a base path, the transport settings it asks for, how a quote request
//! is split into its core fields and its pass-through query parameters, and
//! how a response is classified into a decoded value or an error.
pub mod client;
pub mod quote;
pub mod response;

pub use client::{Endpoint, HttpMethod, JupiterSwapApiClient, TransportConfig};
pub use quote::QuoteRequest;
pub use response::{ClientError, ResponseStep};
