//! Core of a filtering DNS forwarding proxy.
//!
//! The proxy accepts UDP DNS queries, blocks queries matching a domain
//! blocklist or reserved locally-served zones, forwards everything else to
//! an upstream resolver unmodified, and asynchronously records every
//! request/response pair to a durable sink.
//!
//! This crate holds the verified decision logic: blocklist matching and the
//! bounded verdict cache ([`blocklist`], [`cache`]), reserved-zone
//! interception ([`zones`]), EDNS negotiation, response synthesis and the
//! request state machine ([`message`], [`handler`]), audit records and
//! their persisted form ([`audit`], [`encode`], [`sinks`]), the batch
//! upload worker's schedule ([`worker`]), storage keys ([`keys`], [`stamp`])
//! and the bearer-token cache of the HTTP-volume backend ([`token`]).
//! Sockets, channels, clocks and uploads live with the embedding program.

use vstd::prelude::*;

pub mod audit;
pub mod blocklist;
pub mod cache;
pub mod handler;
pub mod metrics;
pub mod message;
pub mod sinks;
pub mod stamp;
pub mod token;
pub mod worker;
pub mod keys;
pub mod zones;
pub mod domain;
pub mod encode;

verus! {

} // verus!
