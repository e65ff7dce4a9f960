//! Verified core of an NFT-marketplace event indexer.
//!
//! The library decodes contract events extracted from a transaction stream,
//! drives the listing lifecycle state machine, and reconciles the results into
//! a store model: a live current-state side (listings, price ledger) and an
//! append-only, deduplicated raw-event log. The message hash of the event's
//! originating message is the deduplication key on both paths, which makes
//! every persistence operation idempotent under at-least-once delivery.
//!
//! I/O (the transaction stream, the SQL store) lives outside this crate; the
//! functions here work on plain values and on the store model, and their
//! contracts state exactly which rows each operation adds or replaces.

pub mod state;

pub mod types;

pub mod numeric;

pub mod timestamp;

pub mod store;

pub mod decode;

pub mod consumer;
