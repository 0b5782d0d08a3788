//! Request-handling core of an edge device's workload API.
//!
//! Co-located modules ask a device-level security daemon for identity
//! artifacts over a local HTTP endpoint. This crate holds the logic that sits
//! between the transport and the certificate, key and module-runtime
//! services: routing, caller authorization, certificate request validation
//! and the refresh-or-issue hand-off. Every function here carries a
//! contract. Verus proves it of all but the few that stand for a call into
//! another crate; those say what they take on trust.

pub mod alias;
pub mod auth;
pub mod cert;
pub mod dispatch;
pub mod ip;
pub mod label;
pub mod modules;
pub mod percent;
pub mod response;
pub mod restart;
pub mod route;
pub mod runtime;
pub mod session;
pub mod text;
pub mod time;
pub mod trust_bundle;
