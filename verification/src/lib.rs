//! Core of a multi-platform live-chat aggregator with a moderated feed.
//!
//! Raw chat events from external streaming platforms are normalized into
//! messages, stored, and fanned out immediately to a moderator audience;
//! a separate public audience only receives a message after a moderator
//! has approved it (the one-way pending-to-published transition).
//!
//! The crate holds the verified core: the message store with its pagination
//! and publish rules, the listener registry with its at-most-one-task-per-key
//! discipline, the two bounded drop-oldest broadcast feeds, the ingestion
//! step, and the request-level decision logic. Network transport, the
//! database file, and the platform adapters live outside this crate.

pub mod api;
pub mod hub;
mod ids;
pub mod ingest;
pub mod parse;
pub mod publish;
pub mod registry;
pub mod store;
pub mod types;
