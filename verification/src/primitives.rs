//! The chain's plain values: hashes and event logs.

use vstd::prelude::*;

verus! {

/// A 32-byte hash: of a transaction, or a log's topic.
#[derive(Debug, Clone, Copy, PartialEq, Eq)]
pub struct Hash256 {
    pub bytes: [u8; 32],
}

/// What the feed reads of an event log.
#[derive(Debug, PartialEq, Eq)]
pub struct LogEntry {
    pub topics: Vec<Hash256>,
    pub data: Vec<u8>,
}

} // verus!
