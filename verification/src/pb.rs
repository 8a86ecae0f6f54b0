//! The canonical binary record of a block: a Protocol Buffers message.
//!
//! ```text
//! message Transaction { string id = 1; string data = 2; }
//! message Block {
//!   uint64 height = 1;
//!   string hash = 2;
//!   string parent_hash = 3;
//!   repeated Transaction transactions = 4;
//! }
//! ```
//!
//! As in every proto3 message, a scalar field that holds its default (zero,
//! the empty string) is left out of the record.

use vstd::prelude::*;
use vstd::utf8::*;
use crate::types::{FirehoseBlock, FirehoseBlockView, Transaction, TransactionView};

verus! {

/// The LEB128 encoding of `v`: seven bits a byte, least significant group
/// first, the high bit set on every byte but the last.
pub open spec fn varint(v: nat) -> Seq<u8>
    decreases v,
{
    if v < 128 {
        seq![v as u8]
    } else {
        seq![(v % 128 + 128) as u8] + varint(v / 128)
    }
}

/// The key of a field: its tag and wire type in one varint.
pub open spec fn field_key(tag: u32, wire_type: nat) -> Seq<u8> {
    varint(tag as nat * 8 + wire_type)
}

/// A `uint64` field: its key with wire type 0, then the value as a varint.
pub open spec fn uint64_field(tag: u32, value: u64) -> Seq<u8> {
    field_key(tag, 0) + varint(value as nat)
}

/// A length-delimited field: its key with wire type 2, the payload's length
/// as a varint, then the payload.
pub open spec fn bytes_field(tag: u32, payload: Seq<u8>) -> Seq<u8> {
    field_key(tag, 2) + varint(payload.len()) + payload
}

/// A `string` field: the text's UTF-8 bytes, length-delimited.
pub open spec fn string_field(tag: u32, value: Seq<char>) -> Seq<u8> {
    bytes_field(tag, encode_utf8(value))
}

/// Whether `tag` is a field number that Protocol Buffers allow.
pub open spec fn valid_tag(tag: u32) -> bool {
    1 <= tag < 0x2000_0000
}

/// Appends a `uint64` field to `buf` with `prost::encoding::uint64::encode`.
/// Trusted: the key and the value are appended as varints, as that function
/// and its `encode_key` and `encode_varint` do; the tag is kept in the range
/// outside of which `encode_key` asserts.
#[verifier::external_body]
fn put_uint64(tag: u32, value: u64, buf: &mut Vec<u8>)
    requires
        valid_tag(tag),
    ensures
        final(buf)@ == old(buf)@ + uint64_field(tag, value),
{
    prost::encoding::uint64::encode(tag, &value, buf)
}

/// Appends a `string` field to `buf` with `prost::encoding::string::encode`.
/// Trusted: the key, the byte length of the text and its UTF-8 bytes are
/// appended, as that function does.
#[verifier::external_body]
fn put_string(tag: u32, value: &String, buf: &mut Vec<u8>)
    requires
        valid_tag(tag),
    ensures
        final(buf)@ == old(buf)@ + string_field(tag, value@),
{
    prost::encoding::string::encode(tag, value, buf)
}

/// Appends a length-delimited field to `buf` with
/// `prost::encoding::bytes::encode`. Trusted: the key, the payload's length
/// and the payload are appended, as that function does for a `Vec<u8>`.
#[verifier::external_body]
fn put_bytes(tag: u32, payload: &Vec<u8>, buf: &mut Vec<u8>)
    requires
        valid_tag(tag),
    ensures
        final(buf)@ == old(buf)@ + bytes_field(tag, payload@),
{
    prost::encoding::bytes::encode(tag, payload, buf)
}

/// A `string` field, or nothing where the text is empty.
pub open spec fn optional_string_field(tag: u32, value: Seq<char>) -> Seq<u8> {
    if value.len() == 0 {
        Seq::empty()
    } else {
        string_field(tag, value)
    }
}

/// A `uint64` field, or nothing where the value is zero.
pub open spec fn optional_uint64_field(tag: u32, value: u64) -> Seq<u8> {
    if value == 0 {
        Seq::empty()
    } else {
        uint64_field(tag, value)
    }
}

/// The record of one transaction.
pub open spec fn transaction_record(t: TransactionView) -> Seq<u8> {
    optional_string_field(1, t.id) + optional_string_field(2, t.data)
}

/// The transactions of a block, each as one length-delimited field 4, in
/// the block's order.
pub open spec fn transactions_record(txs: Seq<TransactionView>) -> Seq<u8>
    decreases txs.len(),
{
    if txs.len() == 0 {
        Seq::empty()
    } else {
        transactions_record(txs.drop_last()) + bytes_field(4, transaction_record(txs.last()))
    }
}

/// The canonical record of a block.
pub open spec fn block_record(b: FirehoseBlockView) -> Seq<u8> {
    optional_uint64_field(1, b.height) + optional_string_field(2, b.hash) + optional_string_field(
        3,
        b.parent_hash,
    ) + transactions_record(b.transactions)
}

/// Appends a `string` field unless the text is empty.
fn put_optional_string(tag: u32, value: &String, buf: &mut Vec<u8>)
    requires
        valid_tag(tag),
    ensures
        final(buf)@ == old(buf)@ + optional_string_field(tag, value@),
{
    if !value.as_str().is_empty() {
        put_string(tag, value, buf);
    } else {
        assert(buf@ =~= old(buf)@ + Seq::<u8>::empty());
    }
}

/// Encodes one transaction.
pub fn encode_transaction(t: &Transaction) -> (r: Vec<u8>)
    ensures
        r@ == transaction_record(t@),
{
    let mut buf: Vec<u8> = Vec::new();
    put_optional_string(1, &t.id, &mut buf);
    put_optional_string(2, &t.data, &mut buf);
    assert(buf@ =~= transaction_record(t@));
    buf
}

/// Encodes a block into its canonical record.
pub fn encode_block(b: &FirehoseBlock) -> (r: Vec<u8>)
    ensures
        r@ == block_record(b@),
{
    let mut buf: Vec<u8> = Vec::new();
    if b.height != 0 {
        put_uint64(1, b.height, &mut buf);
    }
    put_optional_string(2, &b.hash, &mut buf);
    put_optional_string(3, &b.parent_hash, &mut buf);
    let ghost head = buf@;
    assert(head =~= optional_uint64_field(1, b.height) + optional_string_field(2, b.hash@)
        + optional_string_field(3, b.parent_hash@));
    let mut i: usize = 0;
    while i < b.transactions.len()
        invariant
            i <= b.transactions.len(),
            buf@ == head + transactions_record(b@.transactions.take(i as int)),
        decreases b.transactions.len() - i,
    {
        let inner = encode_transaction(&b.transactions[i]);
        put_bytes(4, &inner, &mut buf);
        proof {
            let t = b@.transactions.take(i + 1);
            assert(t.drop_last() =~= b@.transactions.take(i as int));
            assert(t.last() == b.transactions[i as int]@);
            assert(buf@ =~= head + transactions_record(t));
        }
        i += 1;
    }
    proof {
        assert(b@.transactions.take(i as int) =~= b@.transactions);
    }
    buf
}

/// A varint is never empty.
pub proof fn varint_nonempty(v: nat)
    ensures
        varint(v).len() >= 1,
    decreases v,
{
    if v >= 128 {
        varint_nonempty(v / 128);
    }
}

/// A record is empty exactly where the block holds nothing but defaults:
/// height zero, no identifiers and no transactions.
pub proof fn block_record_empty(b: FirehoseBlockView)
    ensures
        block_record(b).len() == 0 <==> (b.height == 0 && b.hash.len() == 0 && b.parent_hash.len()
            == 0 && b.transactions.len() == 0),
{
    varint_nonempty(1 * 8 + 0);
    varint_nonempty(2 * 8 + 2);
    varint_nonempty(3 * 8 + 2);
    varint_nonempty(4 * 8 + 2);
    if b.transactions.len() > 0 {
        assert(transactions_record(b.transactions).len() >= bytes_field(
            4,
            transaction_record(b.transactions.last()),
        ).len());
    }
}

} // verus!
