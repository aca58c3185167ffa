//! A library for checking the validity of links.
//!
//! Given a collection of URIs, the checker decides for each whether the
//! referenced resource is reachable and classifies the outcome into a small,
//! serializable status taxonomy. The heart of the library is the configurable
//! [`client::Client`]: it filters URIs in and out of scope, routes each URI to
//! the right probe (web, mail, or a provider API), applies per-host request
//! rewrites, and drives a bounded retry policy with exponential backoff.
//!
//! All decision logic lives here with machine-checked contracts; the network
//! transport itself is supplied by the embedding application, which feeds
//! probe outcomes back into the verified state machine.

pub mod client;
pub mod error;
pub mod filter;
pub mod ip;
pub mod pattern;
pub mod quirks;
pub mod stats;
pub mod status;
pub mod strutil;
pub mod types;
pub mod uri;
