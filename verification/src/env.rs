//! The settings of a polling service.

use vstd::prelude::*;

verus! {

/// The settings that a polling service is made from.
#[derive(Debug, Clone, PartialEq, Eq)]
pub struct Env {
    /// The endpoints of the chain node.
    pub endpoints: Vec<String>,
    /// The time that each request may take, in milliseconds.
    pub timeout: u64,
    /// How often a failed call is made again.
    pub retry: u8,
    /// The number of heights fetched as one batch.
    pub batch_blocks: u16,
    /// The pause between two cycles at the chain's head, in milliseconds.
    pub block_time: u64,
    /// The confirmation depth: how far behind the head a block may still be
    /// reorganized.
    pub confirms: u64,
    /// Where the cursor is persisted.
    pub ptr_file: String,
}

} // verus!
