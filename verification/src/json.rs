//! JSON-RPC framing: request bodies, and the blocks, heights and
//! transactions that responses carry.
//!
//! JSON itself is read and written by `serde_json`; what a response must
//! hold to be a block, and which error each defect gives, is decided here.

use vstd::prelude::*;
use vstd::string::*;
use crate::result::Error;
use crate::text::{decimal_digits, decimal_text, height_of_text, parse_height};
use crate::types::{Block, BlockView, Transaction, TransactionView};
use crate::u256::{difficulty_of_text, U256};
use crate::vecs::reversed;

verus! {

/// A JSON value of `serde_json`; nothing of it is visible but through the
/// functions below.
#[verifier::external_type_specification]
#[verifier::external_body]
pub struct ExValue(serde_json::Value);

/// The value that `serde_json::from_str` reads from a text, if it reads one.
pub uninterp spec fn json_document(text: Seq<char>) -> Option<serde_json::Value>;

/// The member of an object under a key, as `serde_json::Value::get` finds it.
pub uninterp spec fn json_member(v: serde_json::Value, key: Seq<char>) -> Option<serde_json::Value>;

/// The text of a JSON string, as `serde_json::Value::as_str` gives it.
pub uninterp spec fn json_text(v: serde_json::Value) -> Option<Seq<char>>;

/// The elements of a JSON array, as `serde_json::Value::as_array` gives them.
pub uninterp spec fn json_items(v: serde_json::Value) -> Option<Seq<serde_json::Value>>;

/// A text as a JSON string literal, quoted and escaped, as `serde_json`
/// writes a `Value::String`.
pub uninterp spec fn json_quoted(s: Seq<char>) -> Seq<char>;

/// Reads a JSON text with `serde_json::from_str`; its error, which says
/// where the text stops being JSON, is dropped. Trusted: whether a value
/// comes back, and which, depends on the text alone.
#[verifier::external_body]
fn read_document(text: &str) -> (r: Option<serde_json::Value>)
    ensures
        r == json_document(text@),
{
    serde_json::from_str::<serde_json::Value>(text).ok()
}

/// Looks a key up with `serde_json::Value::get`. Trusted: what comes back
/// depends on the value and the key alone.
#[verifier::external_body]
fn member<'a>(v: &'a serde_json::Value, key: &str) -> (r: Option<&'a serde_json::Value>)
    ensures
        r is Some <==> json_member(*v, key@) is Some,
        r matches Some(m) ==> json_member(*v, key@) == Some(*m),
{
    v.get(key)
}

/// The text of a string value, with `serde_json::Value::as_str`. Trusted:
/// what comes back depends on the value alone.
#[verifier::external_body]
fn text_of<'a>(v: &'a serde_json::Value) -> (r: Option<&'a str>)
    ensures
        r is Some <==> json_text(*v) is Some,
        r matches Some(t) ==> json_text(*v) == Some(t@),
{
    v.as_str()
}

/// The elements of an array value, with `serde_json::Value::as_array`.
/// Trusted: what comes back depends on the value alone.
#[verifier::external_body]
fn items_of<'a>(v: &'a serde_json::Value) -> (r: Option<&'a Vec<serde_json::Value>>)
    ensures
        r is Some <==> json_items(*v) is Some,
        r matches Some(items) ==> json_items(*v) == Some(items@),
{
    v.as_array()
}

/// Writes a text as a JSON string literal: a `serde_json::Value::String`
/// printed by its `Display`. Trusted: the literal depends on the text alone.
#[verifier::external_body]
fn quote(s: &str) -> (r: String)
    ensures
        r@ == json_quoted(s@),
{
    serde_json::Value::String(s.to_owned()).to_string()
}

/// The text of the string member under `key`, if `v` has one.
pub open spec fn string_member(v: serde_json::Value, key: Seq<char>) -> Option<Seq<char>> {
    match json_member(v, key) {
        Some(m) => json_text(m),
        None => None,
    }
}

/// The identifier that an entry of a block's transaction list stands for:
/// the entry itself where it is a string, else its member `hash`.
pub open spec fn transaction_id_of(entry: serde_json::Value) -> Option<Seq<char>> {
    match json_text(entry) {
        Some(t) => Some(t),
        None => string_member(entry, "hash"@),
    }
}

/// What a response says of a block, member by member, before any of it is
/// judged.
#[derive(Debug, Clone, PartialEq, Eq)]
pub struct BlockFields {
    /// The text under `number`, if there is one.
    pub number: Option<String>,
    /// The text under `hash`, if there is one.
    pub hash: Option<String>,
    /// The text under `parentHash`, if there is one.
    pub parent_hash: Option<String>,
    /// What stands under `totalDifficulty`: nothing, something that is no
    /// text, or a text.
    pub total_difficulty: Option<Option<String>>,
    /// The entries under `transactions`, if it is a list: for each entry the
    /// identifier it stands for, if it stands for one.
    pub transactions: Option<Vec<Option<String>>>,
}

/// What a [`BlockFields`] holds.
pub struct BlockFieldsView {
    pub number: Option<Seq<char>>,
    pub hash: Option<Seq<char>>,
    pub parent_hash: Option<Seq<char>>,
    pub total_difficulty: Option<Option<Seq<char>>>,
    pub transactions: Option<Seq<Option<Seq<char>>>>,
}

/// The text that an optional string holds.
pub open spec fn optional_text(o: Option<String>) -> Option<Seq<char>> {
    match o {
        Some(s) => Some(s@),
        None => None,
    }
}

/// The texts that a list of optional strings holds.
pub open spec fn optional_texts(v: Seq<Option<String>>) -> Seq<Option<Seq<char>>> {
    Seq::new(v.len(), |i: int| optional_text(v[i]))
}

impl View for BlockFields {
    type V = BlockFieldsView;

    open spec fn view(&self) -> BlockFieldsView {
        BlockFieldsView {
            number: optional_text(self.number),
            hash: optional_text(self.hash),
            parent_hash: optional_text(self.parent_hash),
            total_difficulty: match self.total_difficulty {
                None => None,
                Some(d) => Some(optional_text(d)),
            },
            transactions: match self.transactions {
                None => None,
                Some(entries) => Some(optional_texts(entries@)),
            },
        }
    }
}

/// What a response says of a transaction, member by member.
#[derive(Debug, Clone, PartialEq, Eq)]
pub struct TransactionFields {
    /// The text under `hash`, if there is one.
    pub hash: Option<String>,
    /// The text under `input`, if there is one.
    pub input: Option<String>,
}

/// What a [`TransactionFields`] holds.
pub struct TransactionFieldsView {
    pub hash: Option<Seq<char>>,
    pub input: Option<Seq<char>>,
}

impl View for TransactionFields {
    type V = TransactionFieldsView;

    open spec fn view(&self) -> TransactionFieldsView {
        TransactionFieldsView { hash: optional_text(self.hash), input: optional_text(self.input) }
    }
}

/// The identifiers of a transaction list, if every entry stands for one.
pub open spec fn all_identifiers(entries: Seq<Option<Seq<char>>>) -> Option<Seq<Seq<char>>> {
    if forall|i: int| 0 <= i < entries.len() ==> (#[trigger] entries[i]) is Some {
        Some(Seq::new(entries.len(), |i: int| entries[i].unwrap()))
    } else {
        None
    }
}

/// The cumulative difficulty that a block reports: zero where it reports
/// none, `None` where what it reports is no numeral below 2^256.
pub open spec fn difficulty_of_field(field: Option<Option<Seq<char>>>) -> Option<nat> {
    match field {
        None => Some(0),
        Some(None) => None,
        Some(Some(t)) => difficulty_of_text(t),
    }
}

/// The block that the members of a response describe. The height, both
/// identifiers and the transaction list are required. A response without a
/// height text gives `ParseBlockFailed`; a height text that is no numeral
/// of 64 bits gives `ParseInt`; every other defect gives
/// `ParseBlockFailed`.
pub open spec fn block_of_fields(f: BlockFieldsView) -> Result<BlockView, Error> {
    match f.number {
        None => Err(Error::ParseBlockFailed),
        Some(number) => match height_of_text(number) {
            None => Err(Error::ParseInt),
            Some(height) => match (
                f.hash,
                f.parent_hash,
                difficulty_of_field(f.total_difficulty),
                f.transactions,
            ) {
                (Some(hash), Some(parent_hash), Some(cumulative_diff), Some(entries)) => match all_identifiers(
                    entries,
                ) {
                    None => Err(Error::ParseBlockFailed),
                    Some(transactions) => Ok(
                        BlockView { height, hash, parent_hash, cumulative_diff, transactions },
                    ),
                },
                _ => Err(Error::ParseBlockFailed),
            },
        },
    }
}

/// The transaction that the members of a response describe: both the
/// identifier and the payload are required.
pub open spec fn transaction_of_fields(f: TransactionFieldsView) -> Result<TransactionView, Error> {
    match (f.hash, f.input) {
        (Some(id), Some(data)) => Ok(TransactionView { id, data }),
        _ => Err(Error::ParseBlockFailed),
    }
}

/// The height that a height text stands for: `ParseBlockFailed` where there
/// is no text, `ParseInt` where the text is no numeral of 64 bits.
pub open spec fn height_of_field(number: Option<Seq<char>>) -> Result<u64, Error> {
    match number {
        None => Err(Error::ParseBlockFailed),
        Some(t) => match height_of_text(t) {
            None => Err(Error::ParseInt),
            Some(h) => Ok(h),
        },
    }
}

/// The members that a JSON object has of a block.
pub open spec fn block_fields_of(v: serde_json::Value) -> BlockFieldsView {
    BlockFieldsView {
        number: string_member(v, "number"@),
        hash: string_member(v, "hash"@),
        parent_hash: string_member(v, "parentHash"@),
        total_difficulty: match json_member(v, "totalDifficulty"@) {
            None => None,
            Some(d) => Some(json_text(d)),
        },
        transactions: match json_member(v, "transactions"@) {
            None => None,
            Some(list) => match json_items(list) {
                None => None,
                Some(items) => Some(Seq::new(items.len(), |i: int| transaction_id_of(items[i]))),
            },
        },
    }
}

/// The members that a JSON object has of a transaction.
pub open spec fn transaction_fields_of(v: serde_json::Value) -> TransactionFieldsView {
    TransactionFieldsView { hash: string_member(v, "hash"@), input: string_member(v, "input"@) }
}

/// The member `result` of a response, if the text is JSON and has one.
pub open spec fn result_of_text(text: Seq<char>) -> Option<serde_json::Value> {
    match json_document(text) {
        None => None,
        Some(doc) => json_member(doc, "result"@),
    }
}

/// The block that a response carries.
pub open spec fn block_of_text(text: Seq<char>) -> Result<BlockView, Error> {
    match result_of_text(text) {
        None => Err(Error::ParseBlockFailed),
        Some(v) => block_of_fields(block_fields_of(v)),
    }
}

/// The height that a response carries: its result is either the height's
/// text or a block object with the height under `number`.
pub open spec fn height_of_response(text: Seq<char>) -> Result<u64, Error> {
    match result_of_text(text) {
        None => Err(Error::ParseBlockFailed),
        Some(v) => height_of_field(
            match json_text(v) {
                Some(t) => Some(t),
                None => string_member(v, "number"@),
            },
        ),
    }
}

/// The transaction that a response carries: an object with the identifier
/// under `hash` and the payload under `input`.
pub open spec fn transaction_of_text(text: Seq<char>) -> Result<TransactionView, Error> {
    match result_of_text(text) {
        None => Err(Error::ParseBlockFailed),
        Some(v) => transaction_of_fields(transaction_fields_of(v)),
    }
}

/// The frame of a request around the method's name, given as a JSON string
/// literal, and the parameters, given as the text of a JSON array:
/// `{"jsonrpc":"2.0","id":"1","method":<name>,"params":<array>}`.
pub open spec fn rpc_frame(name: Seq<char>, params: Seq<char>) -> Seq<char> {
    "{\"jsonrpc\":\"2.0\",\"id\":\"1\",\"method\":"@ + name + ",\"params\":"@ + params + "}"@
}

/// The body of a request: the frame around the method's name as a JSON
/// string and `params` as it stands.
pub open spec fn rpc_body(method: Seq<char>, params: Seq<char>) -> Seq<char> {
    rpc_frame(json_quoted(method), params)
}

/// The text of a JSON array with one item.
pub open spec fn list_of_one(item: Seq<char>) -> Seq<char> {
    "["@ + item + "]"@
}

/// The parameters of a block-by-number request: the height and `true` for
/// full detail.
pub open spec fn height_params(height: u64) -> Seq<char> {
    "["@ + decimal_digits(height as nat) + ", true]"@
}

/// The parameters of a request by identifier: the identifier alone.
pub open spec fn id_params(id: Seq<char>) -> Seq<char> {
    list_of_one(json_quoted(id))
}

/// The text of the string member under `key`.
fn get_string<'a>(v: &'a serde_json::Value, key: &str) -> (r: Option<&'a str>)
    ensures
        r is Some <==> string_member(*v, key@) is Some,
        r matches Some(t) ==> string_member(*v, key@) == Some(t@),
{
    match member(v, key) {
        None => None,
        Some(m) => text_of(m),
    }
}

/// The text of the string member under `key`, as a string of its own.
fn get_owned(v: &serde_json::Value, key: &str) -> (r: Option<String>)
    ensures
        optional_text(r) == string_member(*v, key@),
{
    match get_string(v, key) {
        None => None,
        Some(t) => Some(String::from_str(t)),
    }
}

/// Reads the entries of a transaction list.
fn read_entries(items: &Vec<serde_json::Value>) -> (r: Vec<Option<String>>)
    ensures
        optional_texts(r@) == Seq::new(items@.len(), |i: int| transaction_id_of(items@[i])),
{
    let mut entries: Vec<Option<String>> = Vec::new();
    let mut i: usize = 0;
    while i < items.len()
        invariant
            i <= items.len(),
            entries@.len() == i,
            forall|j: int|
                0 <= j < i ==> optional_text(#[trigger] entries@[j]) == transaction_id_of(
                    items@[j],
                ),
        decreases items.len() - i,
    {
        let entry = &items[i];
        let id = match text_of(entry) {
            Some(t) => Some(String::from_str(t)),
            None => get_owned(entry, "hash"),
        };
        entries.push(id);
        i += 1;
    }
    assert(optional_texts(entries@) =~= Seq::new(
        items@.len(),
        |i: int| transaction_id_of(items@[i]),
    ));
    entries
}

/// Reads the members of a block from a JSON object.
fn read_block_fields(v: &serde_json::Value) -> (r: BlockFields)
    ensures
        r@ == block_fields_of(*v),
{
    let total_difficulty = match member(v, "totalDifficulty") {
        None => None,
        Some(d) => match text_of(d) {
            None => Some(None),
            Some(t) => Some(Some(String::from_str(t))),
        },
    };
    let transactions = match member(v, "transactions") {
        None => None,
        Some(list) => match items_of(list) {
            None => None,
            Some(items) => Some(read_entries(items)),
        },
    };
    BlockFields {
        number: get_owned(v, "number"),
        hash: get_owned(v, "hash"),
        parent_hash: get_owned(v, "parentHash"),
        total_difficulty,
        transactions,
    }
}

/// Takes the identifiers out of the entries of a transaction list, if
/// every entry holds one.
fn identifiers(entries: Vec<Option<String>>) -> (r: Option<Vec<String>>)
    ensures
        match r {
            Some(ids) => all_identifiers(optional_texts(entries@)) == Some(crate::types::texts(ids@)),
            None => all_identifiers(optional_texts(entries@)) is None,
        },
{
    let ghost all = entries@;
    let n = entries.len();
    let mut rest = reversed(entries);
    let mut ids: Vec<String> = Vec::new();
    let mut i: usize = 0;
    while i < n
        invariant
            i <= n,
            n == all.len(),
            all == entries@,
            rest@.len() == n - i,
            forall|j: int| 0 <= j < n - i ==> rest@[j] == all[n - 1 - j],
            ids@.len() == i,
            forall|j: int| 0 <= j < i ==> all[j] == Some(#[trigger] ids@[j]),
        decreases n - i,
    {
        let entry = rest.pop().unwrap();
        assert(entry == all[i as int]);
        match entry {
            None => {
                assert(optional_texts(all)[i as int] is None);
                return None;
            },
            Some(id) => {
                ids.push(id);
            },
        }
        i += 1;
    }
    proof {
        assert forall|j: int| 0 <= j < n implies (#[trigger] optional_texts(all)[j]) is Some by {
            assert(all[j] == Some(ids@[j]));
        }
        assert(crate::types::texts(ids@) =~= all_identifiers(optional_texts(all)).unwrap()) by {
            assert forall|j: int| 0 <= j < n implies crate::types::texts(ids@)[j]
                == optional_texts(all)[j].unwrap() by {
                assert(all[j] == Some(ids@[j]));
            }
        }
    }
    Some(ids)
}

impl Block {
    /// The block that the members of a response describe, or what is wrong
    /// with them.
    pub fn from_fields(fields: BlockFields) -> (r: Result<Block, Error>)
        ensures
            match r {
                Ok(b) => block_of_fields(fields@) == Ok::<BlockView, Error>(b@),
                Err(e) => block_of_fields(fields@) == Err::<BlockView, Error>(e),
            },
    {
        let BlockFields { number, hash, parent_hash, total_difficulty, transactions } = fields;
        let height = match height_from_field(number) {
            Err(e) => {
                return Err(e);
            },
            Ok(h) => h,
        };
        let cumulative_diff = match total_difficulty {
            None => Some(U256::zero()),
            Some(None) => None,
            Some(Some(t)) => U256::parse(t.as_str()),
        };
        match (hash, parent_hash, cumulative_diff, transactions) {
            (Some(hash), Some(parent_hash), Some(cumulative_diff), Some(entries)) => {
                match identifiers(entries) {
                    None => Err(Error::ParseBlockFailed),
                    Some(transactions) => Ok(
                        Block { height, hash, parent_hash, cumulative_diff, transactions },
                    ),
                }
            },
            _ => Err(Error::ParseBlockFailed),
        }
    }
}

impl Transaction {
    /// The transaction that the members of a response describe, or what is
    /// wrong with them.
    pub fn from_fields(fields: TransactionFields) -> (r: Result<Transaction, Error>)
        ensures
            match r {
                Ok(t) => transaction_of_fields(fields@) == Ok::<TransactionView, Error>(t@),
                Err(e) => transaction_of_fields(fields@) == Err::<TransactionView, Error>(e),
            },
    {
        match (fields.hash, fields.input) {
            (Some(id), Some(data)) => Ok(Transaction { id, data }),
            _ => Err(Error::ParseBlockFailed),
        }
    }
}

/// The height that a height text stands for, or what is wrong with it.
pub fn height_from_field(number: Option<String>) -> (r: Result<u64, Error>)
    ensures
        r == height_of_field(optional_text(number)),
{
    match number {
        None => Err(Error::ParseBlockFailed),
        Some(t) => match parse_height(t.as_str()) {
            None => Err(Error::ParseInt),
            Some(h) => Ok(h),
        },
    }
}

/// Reads the block that a response carries.
pub fn parse_block(text: &str) -> (r: Result<Block, Error>)
    ensures
        match r {
            Ok(b) => block_of_text(text@) == Ok::<BlockView, Error>(b@),
            Err(e) => block_of_text(text@) == Err::<BlockView, Error>(e),
        },
{
    match read_document(text) {
        None => Err(Error::ParseBlockFailed),
        Some(doc) => match member(&doc, "result") {
            None => Err(Error::ParseBlockFailed),
            Some(v) => Block::from_fields(read_block_fields(v)),
        },
    }
}

/// Reads the height that a response to the current-height request carries.
pub fn parse_current_height(text: &str) -> (r: Result<u64, Error>)
    ensures
        r == height_of_response(text@),
{
    match read_document(text) {
        None => Err(Error::ParseBlockFailed),
        Some(doc) => match member(&doc, "result") {
            None => Err(Error::ParseBlockFailed),
            Some(v) => {
                let number = match text_of(v) {
                    Some(t) => Some(String::from_str(t)),
                    None => get_owned(v, "number"),
                };
                height_from_field(number)
            },
        },
    }
}

/// Reads the transaction that a response carries.
pub fn parse_transaction(text: &str) -> (r: Result<Transaction, Error>)
    ensures
        match r {
            Ok(t) => transaction_of_text(text@) == Ok::<TransactionView, Error>(t@),
            Err(e) => transaction_of_text(text@) == Err::<TransactionView, Error>(e),
        },
{
    match read_document(text) {
        None => Err(Error::ParseBlockFailed),
        Some(doc) => match member(&doc, "result") {
            None => Err(Error::ParseBlockFailed),
            Some(v) => Transaction::from_fields(
                TransactionFields { hash: get_owned(v, "hash"), input: get_owned(v, "input") },
            ),
        },
    }
}

/// Writes the frame of a request around the method's name, already a JSON
/// string literal, and the parameters, already the text of a JSON array.
pub fn frame_request(name: &str, params: &str) -> (r: String)
    ensures
        r@ == rpc_frame(name@, params@),
{
    let mut body = String::from_str("{\"jsonrpc\":\"2.0\",\"id\":\"1\",\"method\":");
    body.append(name);
    body.append(",\"params\":");
    body.append(params);
    body.append("}");
    body
}

/// Writes the text of a JSON array with one item, already JSON itself.
pub fn one_item_list(item: &str) -> (r: String)
    ensures
        r@ == list_of_one(item@),
{
    let mut list = String::from_str("[");
    list.append(item);
    list.append("]");
    list
}

/// Writes the body of a request for `method` with the given parameters,
/// which must be the text of a JSON array.
pub fn request_body(method: &str, params: &str) -> (r: String)
    ensures
        r@ == rpc_body(method@, params@),
{
    let name = quote(method);
    frame_request(name.as_str(), params)
}

/// Writes the parameters of a block-by-number request.
pub fn params_for_height(height: u64) -> (r: String)
    ensures
        r@ == height_params(height),
{
    let mut params = String::from_str("[");
    let number = decimal_text(height);
    params.append(number.as_str());
    params.append(", true]");
    params
}

/// Writes the parameters of a request by identifier.
pub fn params_for_id(id: &str) -> (r: String)
    ensures
        r@ == id_params(id@),
{
    let quoted = quote(id);
    one_item_list(quoted.as_str())
}

} // verus!
