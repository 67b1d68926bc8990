//! Typed client for a public cryptocurrency market-data REST API.
//!
//! The crate builds correctly encoded HTTP GET request URLs for a fixed set
//! of documented endpoints, optionally attaching an API-key query parameter,
//! and classifies the outcome of a request into the two failure kinds the
//! API surface exposes. The construction of every query string is verified
//! against an exact specification of the wire format.

use vstd::prelude::*;

pub mod client;
pub mod dates;
pub mod outcome;
pub mod params;
pub mod query;

pub use client::CoinGeckoClient;

verus! {

} // verus!
