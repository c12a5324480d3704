//! Verified core of a service that describes a creature in Shakespearean English.
//!
//! The service composes two upstream HTTP services: a lookup service that
//! holds factual descriptions of creatures, and a rewriting service that
//! rephrases a text in an archaic register. This crate holds every decision
//! of that pipeline (which URL to ask next, how a reply is read, which
//! description is chosen, what is cached, how a failure is reported) as
//! functions from plain values to plain values. The network transport and
//! the HTTP server stay outside: they hand replies in and take requests out.

pub mod cache;
pub mod describe;
pub mod error;
pub mod json;
pub mod laws;
pub mod pipeline;
pub mod response;
pub mod shakespeare;
pub mod status;
pub mod text;
pub mod upstream;
