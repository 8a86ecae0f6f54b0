//! Blocks and transactions as the remote node reports them.

use vstd::prelude::*;
use crate::u256::U256;

verus! {

/// One transaction, keyed by its identifier.
#[derive(Debug, Clone, PartialEq, Eq)]
pub struct Transaction {
    /// The transaction's identifier.
    pub id: String,
    /// The transaction's payload, as the node reports it.
    pub data: String,
}

/// What a [`Transaction`] holds.
pub struct TransactionView {
    pub id: Seq<char>,
    pub data: Seq<char>,
}

impl View for Transaction {
    type V = TransactionView;

    open spec fn view(&self) -> TransactionView {
        TransactionView { id: self.id@, data: self.data@ }
    }
}

/// A block as the node reports it: its transactions by identifier only.
#[derive(Debug, Clone, PartialEq, Eq)]
pub struct Block {
    /// The block's height.
    pub height: u64,
    /// The block's identifier.
    pub hash: String,
    /// The identifier of the block before it.
    pub parent_hash: String,
    /// The chain work up to and including this block.
    pub cumulative_diff: U256,
    /// The identifiers of the block's transactions, in the block's order.
    pub transactions: Vec<String>,
}

/// What a [`Block`] holds.
pub struct BlockView {
    pub height: u64,
    pub hash: Seq<char>,
    pub parent_hash: Seq<char>,
    pub cumulative_diff: nat,
    pub transactions: Seq<Seq<char>>,
}

/// The texts that a sequence of strings holds.
pub open spec fn texts(v: Seq<String>) -> Seq<Seq<char>> {
    Seq::new(v.len(), |i: int| v[i]@)
}

/// What a sequence of transactions holds.
pub open spec fn transaction_views(v: Seq<Transaction>) -> Seq<TransactionView> {
    Seq::new(v.len(), |i: int| v[i]@)
}

/// The identifiers of a sequence of transactions.
pub open spec fn transaction_ids(v: Seq<TransactionView>) -> Seq<Seq<char>> {
    Seq::new(v.len(), |i: int| v[i].id)
}

impl View for Block {
    type V = BlockView;

    open spec fn view(&self) -> BlockView {
        BlockView {
            height: self.height,
            hash: self.hash@,
            parent_hash: self.parent_hash@,
            cumulative_diff: self.cumulative_diff@,
            transactions: texts(self.transactions@),
        }
    }
}

/// A block with every transaction in full, in the block's order: the unit
/// that is encoded and emitted.
#[derive(Debug, Clone, PartialEq, Eq)]
pub struct FirehoseBlock {
    /// The block's height.
    pub height: u64,
    /// The block's identifier.
    pub hash: String,
    /// The identifier of the block before it.
    pub parent_hash: String,
    /// The chain work up to and including this block.
    pub cumulative_diff: U256,
    /// The block's transactions, in the block's order.
    pub transactions: Vec<Transaction>,
}

/// What a [`FirehoseBlock`] holds.
pub struct FirehoseBlockView {
    pub height: u64,
    pub hash: Seq<char>,
    pub parent_hash: Seq<char>,
    pub cumulative_diff: nat,
    pub transactions: Seq<TransactionView>,
}

impl View for FirehoseBlock {
    type V = FirehoseBlockView;

    open spec fn view(&self) -> FirehoseBlockView {
        FirehoseBlockView {
            height: self.height,
            hash: self.hash@,
            parent_hash: self.parent_hash@,
            cumulative_diff: self.cumulative_diff@,
            transactions: transaction_views(self.transactions@),
        }
    }
}

/// What a sequence of blocks holds.
pub open spec fn block_views(v: Seq<FirehoseBlock>) -> Seq<FirehoseBlockView> {
    Seq::new(v.len(), |i: int| v[i]@)
}

/// The heights of a sequence of blocks.
pub open spec fn block_heights(v: Seq<FirehoseBlockView>) -> Seq<u64> {
    Seq::new(v.len(), |i: int| v[i].height)
}

impl BlockView {
    /// The block with the given transactions in place of their identifiers.
    pub open spec fn with_transactions(self, txs: Seq<TransactionView>) -> FirehoseBlockView {
        FirehoseBlockView {
            height: self.height,
            hash: self.hash,
            parent_hash: self.parent_hash,
            cumulative_diff: self.cumulative_diff,
            transactions: txs,
        }
    }
}

impl Block {
    /// Puts the transactions in place of their identifiers.
    pub fn with_transactions(self, txs: Vec<Transaction>) -> (b: FirehoseBlock)
        ensures
            b@ == self@.with_transactions(transaction_views(txs@)),
    {
        FirehoseBlock {
            height: self.height,
            hash: self.hash,
            parent_hash: self.parent_hash,
            cumulative_diff: self.cumulative_diff,
            transactions: txs,
        }
    }
}

} // verus!
