//! Checkpoint ingestion pipeline for an on-chain derivatives protocol.
//!
//! The library classifies protocol events by their type tag, decodes their
//! binary payloads, maps them to storage rows, persists them under per-kind
//! conflict policies, and reconstructs "currently open" projections by
//! anti-joins over the append-only event tables.
use vstd::prelude::*;

pub mod callbacks;
pub mod codec;
pub mod config;
pub mod db;
pub mod events;
pub mod handlers;
pub mod relay;
pub mod text;
pub mod worker;

verus! {

/// A payload did not match the expected binary schema for its event kind.
#[derive(Debug, Clone, Copy, PartialEq, Eq, Structural)]
pub struct DecodeError;

/// A decoded field could not be converted to its storage type.
#[derive(Debug, Clone, Copy, PartialEq, Eq, Structural)]
pub struct MappingError;

/// The checkpoint timestamp lies outside the representable date range;
/// the offending millisecond value is carried for reporting.
#[derive(Debug, Clone, Copy, PartialEq, Eq, Structural)]
pub struct TimestampError {
    pub timestamp_ms: u64,
}

/// A store insert violated a primary-key constraint of a kind that allows
/// no conflict resolution.
#[derive(Debug, Clone, Copy, PartialEq, Eq, Structural)]
pub enum StoreError {
    DuplicateKey,
}

} // verus!
