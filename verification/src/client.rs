//! The client of a chain node: which request to send for each operation,
//! to which endpoint, whether to try again after a failure, and how the
//! answers of one batch are put together.
//!
//! The client sends nothing itself. An operation gives the request to make;
//! the caller makes it and hands the answer to the functions of
//! [`crate::json`] and to the assembling functions below.

use vstd::prelude::*;
use vstd::string::*;
use rand::Rng;
use std::time::Duration;
use crate::json::{
    height_params, id_params, params_for_height, params_for_id, request_body, rpc_body,
};
use crate::env::Env;
use crate::result::Error;
use crate::vecs::reversed;
use crate::types::{
    block_views, texts, transaction_views, Block, BlockView, FirehoseBlock, FirehoseBlockView,
    Transaction, TransactionView,
};

verus! {

/// The pause before a failed call is tried again, in milliseconds.
pub const RETRY_BACKOFF_MS: u64 = 1000;

/// A request to POST as `application/json`.
#[derive(Debug, Clone, PartialEq, Eq)]
pub struct HttpRequest {
    /// The endpoint that the request goes to.
    pub url: String,
    /// The request's body.
    pub body: String,
}

/// What to do after a call has failed.
#[derive(Debug, Clone, Copy, PartialEq, Eq, Structural)]
pub enum Retry {
    /// Wait for the given number of milliseconds, then make the call again.
    Again { backoff_ms: u64 },
    /// Report the error.
    GiveUp,
}

/// A uniformly drawn index below `n`, from `rand::Rng::gen_range` on the
/// thread's generator. Trusted: the index lies in the range asked for;
/// which one it is differs from call to call. `n` is positive, since
/// `gen_range` panics on an empty range.
#[verifier::external_body]
fn random_below(n: usize) -> (r: usize)
    requires
        n > 0,
    ensures
        r < n,
{
    rand::thread_rng().gen_range(0..n)
}

/// The time that a number of milliseconds is, as `Duration::from_millis`
/// gives it.
pub uninterp spec fn duration_of_millis(millis: u64) -> Duration;

/// A time in milliseconds as a `Duration`, with `Duration::from_millis`.
/// Trusted: the result depends on the number alone.
#[verifier::external_body]
pub(crate) fn millis(ms: u64) -> (d: Duration)
    ensures
        d == duration_of_millis(ms),
{
    Duration::from_millis(ms)
}

/// The defect of the first entry that has one, if any has.
pub open spec fn first_error(defects: Seq<Option<Error>>) -> Option<Error>
    decreases defects.len(),
{
    if defects.len() == 0 {
        None
    } else {
        match first_error(defects.drop_last()) {
            Some(e) => Some(e),
            None => defects.last(),
        }
    }
}

/// What a sequence of fetched transactions holds.
pub open spec fn transaction_results(v: Seq<Result<Transaction, Error>>) -> Seq<
    Result<TransactionView, Error>,
> {
    Seq::new(
        v.len(),
        |i: int|
            match v[i] {
                Ok(t) => Ok(t@),
                Err(e) => Err(e),
            },
    )
}

/// What a sequence of fetched blocks holds.
pub open spec fn block_results(v: Seq<Result<FirehoseBlock, Error>>) -> Seq<
    Result<FirehoseBlockView, Error>,
> {
    Seq::new(
        v.len(),
        |i: int|
            match v[i] {
                Ok(b) => Ok(b@),
                Err(e) => Err(e),
            },
    )
}

/// What is wrong with the answer to the fetch of transaction `id`: the
/// fetch's own error, or that another transaction came back.
pub open spec fn transaction_defect(id: Seq<char>, fetched: Result<TransactionView, Error>) -> Option<
    Error,
> {
    match fetched {
        Err(e) => Some(e),
        Ok(t) => if t.id == id {
            None
        } else {
            Some(Error::UnexpectedBlock)
        },
    }
}

/// What is wrong with the answer to the fetch of the block at `height`.
pub open spec fn block_defect(height: u64, fetched: Result<FirehoseBlockView, Error>) -> Option<
    Error,
> {
    match fetched {
        Err(e) => Some(e),
        Ok(b) => if b.height == height {
            None
        } else {
            Some(Error::UnexpectedBlock)
        },
    }
}

/// The defects of the answers to the fetches of a block's transactions.
pub open spec fn transaction_defects(
    ids: Seq<Seq<char>>,
    fetched: Seq<Result<TransactionView, Error>>,
) -> Seq<Option<Error>> {
    Seq::new(fetched.len(), |i: int| transaction_defect(ids[i], fetched[i]))
}

/// The defects of the answers to the fetches of a batch of heights.
pub open spec fn block_defects(
    heights: Seq<u64>,
    fetched: Seq<Result<FirehoseBlockView, Error>>,
) -> Seq<Option<Error>> {
    Seq::new(fetched.len(), |i: int| block_defect(heights[i], fetched[i]))
}

/// The block at `height` in full, from the block and the answers to the
/// fetches of its transactions, one per identifier and in the block's
/// order. Any defect fails the whole: the first one in the block's order
/// is the error.
pub open spec fn hydrated(
    height: u64,
    block: BlockView,
    fetched: Seq<Result<TransactionView, Error>>,
) -> Result<FirehoseBlockView, Error> {
    if block.height != height || fetched.len() != block.transactions.len() {
        Err(Error::UnexpectedBlock)
    } else {
        match first_error(transaction_defects(block.transactions, fetched)) {
            Some(e) => Err(e),
            None => Ok(
                block.with_transactions(Seq::new(fetched.len(), |i: int| fetched[i].unwrap())),
            ),
        }
    }
}

/// The blocks of a batch, from the answers to the fetches of its heights,
/// one per height and in the order of the heights. Any defect fails the
/// whole batch: the first one in that order is the error.
pub open spec fn polled(heights: Seq<u64>, fetched: Seq<Result<FirehoseBlockView, Error>>) -> Result<
    Seq<FirehoseBlockView>,
    Error,
> {
    if fetched.len() != heights.len() {
        Err(Error::UnexpectedBlock)
    } else {
        match first_error(block_defects(heights, fetched)) {
            Some(e) => Err(e),
            None => Ok(Seq::new(fetched.len(), |i: int| fetched[i].unwrap())),
        }
    }
}

/// The address of a transaction's raw payload at an endpoint.
pub open spec fn tx_data_url(endpoint: Seq<char>, id: Seq<char>) -> Seq<char> {
    endpoint + "/tx/"@ + id + "/data"@
}

/// The client's configuration: where to send requests, how long to wait
/// for an answer and how often to try again.
#[derive(Debug)]
pub struct Client {
    endpoints: Vec<String>,
    timeout: Duration,
    retry: u8,
}

impl Client {
    #[verifier::type_invariant]
    spec fn inv(self) -> bool {
        self.endpoints@.len() > 0
    }

    /// The endpoints, in the order given at construction; never empty.
    pub closed spec fn spec_endpoints(self) -> Seq<Seq<char>> {
        texts(self.endpoints@)
    }

    /// The time that each request may take.
    pub closed spec fn spec_timeout(self) -> Duration {
        self.timeout
    }

    /// How often a failed call is made again.
    pub closed spec fn spec_retry(self) -> u8 {
        self.retry
    }

    /// A client of the given endpoints. An empty list is refused with
    /// `EmptyEndpoints`; nothing else is.
    pub fn new(endpoints: Vec<String>, timeout: Duration, retry: u8) -> (r: Result<Client, Error>)
        ensures
            endpoints@.len() == 0 ==> r == Err::<Client, Error>(Error::EmptyEndpoints),
            endpoints@.len() > 0 ==> (r matches Ok(c) && c.spec_endpoints() == texts(endpoints@)
                && c.spec_timeout() == timeout && c.spec_retry() == retry),
    {
        if endpoints.len() == 0 {
            return Err(Error::EmptyEndpoints);
        }
        Ok(Client { endpoints, timeout, retry })
    }

    /// A client of the endpoints, the timeout and the retry budget of the
    /// settings. Fails with `EmptyEndpoints` where they name no endpoint,
    /// and only then.
    pub fn from_env(env: Env) -> (r: Result<Client, Error>)
        ensures
            env.endpoints@.len() == 0 ==> r == Err::<Client, Error>(Error::EmptyEndpoints),
            env.endpoints@.len() > 0 ==> (r matches Ok(c) && c.spec_endpoints() == texts(
                env.endpoints@,
            ) && c.spec_timeout() == duration_of_millis(env.timeout) && c.spec_retry()
                == env.retry),
    {
        Client::new(env.endpoints, millis(env.timeout), env.retry)
    }

    /// The endpoints, in the order given at construction.
    pub fn endpoints(&self) -> (r: &Vec<String>)
        ensures
            texts(r@) == self.spec_endpoints(),
            r@.len() > 0,
    {
        proof {
            use_type_invariant(self);
        }
        &self.endpoints
    }

    /// The time that each request may take.
    pub fn timeout(&self) -> (r: Duration)
        ensures
            r == self.spec_timeout(),
    {
        self.timeout
    }

    /// How often a failed call is made again.
    pub fn retry(&self) -> (r: u8)
        ensures
            r == self.spec_retry(),
    {
        self.retry
    }

    /// The endpoint that a random draw selects: the draw modulo the number
    /// of endpoints is its index.
    pub fn endpoint_for(&self, draw: usize) -> (r: &str)
        ensures
            self.spec_endpoints().len() > 0,
            r@ == self.spec_endpoints()[draw as int % self.spec_endpoints().len() as int],
    {
        proof {
            use_type_invariant(self);
        }
        self.endpoints[draw % self.endpoints.len()].as_str()
    }

    /// An endpoint drawn uniformly at random, anew for each call.
    pub fn next_endpoint(&self) -> (r: &str)
        ensures
            exists|i: int| 0 <= i < self.spec_endpoints().len() && r@ == self.spec_endpoints()[i],
    {
        proof {
            use_type_invariant(self);
        }
        let draw = random_below(self.endpoints.len());
        proof {
            vstd::arithmetic::div_mod::lemma_small_mod(draw as nat, self.endpoints@.len());
        }
        self.endpoint_for(draw)
    }

    /// The request for `method` with the given parameters, to the endpoint
    /// that `draw` selects.
    pub fn request_at(&self, draw: usize, method: &str, params: &str) -> (r: HttpRequest)
        ensures
            self.spec_endpoints().len() > 0,
            r.url@ == self.spec_endpoints()[draw as int % self.spec_endpoints().len() as int],
            r.body@ == rpc_body(method@, params@),
    {
        let url = String::from_str(self.endpoint_for(draw));
        HttpRequest { url, body: request_body(method, params) }
    }

    /// The request for `method` with the given parameters, to an endpoint
    /// drawn at random.
    pub fn get(&self, method: String, params: String) -> (r: HttpRequest)
        ensures
            exists|i: int|
                0 <= i < self.spec_endpoints().len() && r.url@ == self.spec_endpoints()[i],
            r.body@ == rpc_body(method@, params@),
    {
        let url = String::from_str(self.next_endpoint());
        HttpRequest { url, body: request_body(method.as_str(), params.as_str()) }
    }

    /// The request for the block at a height, with full detail.
    pub fn get_block_by_height(&self, height: u64) -> (r: HttpRequest)
        ensures
            exists|i: int|
                0 <= i < self.spec_endpoints().len() && r.url@ == self.spec_endpoints()[i],
            r.body@ == rpc_body("eth_getBlockByNumber"@, height_params(height)),
    {
        self.get(String::from_str("eth_getBlockByNumber"), params_for_height(height))
    }

    /// The request for the block with an identifier.
    pub fn get_block_by_hash(&self, hash: &str) -> (r: HttpRequest)
        ensures
            exists|i: int|
                0 <= i < self.spec_endpoints().len() && r.url@ == self.spec_endpoints()[i],
            r.body@ == rpc_body("eth_getBlockByHash"@, id_params(hash@)),
    {
        self.get(String::from_str("eth_getBlockByHash"), params_for_id(hash))
    }

    /// The request for the chain's current height.
    pub fn get_current_block(&self) -> (r: HttpRequest)
        ensures
            exists|i: int|
                0 <= i < self.spec_endpoints().len() && r.url@ == self.spec_endpoints()[i],
            r.body@ == rpc_body("eth_blockNumber"@, "[]"@),
    {
        self.get(String::from_str("eth_blockNumber"), String::from_str("[]"))
    }

    /// The request for the transaction with an identifier.
    pub fn get_tx_by_id(&self, id: &str) -> (r: HttpRequest)
        ensures
            exists|i: int|
                0 <= i < self.spec_endpoints().len() && r.url@ == self.spec_endpoints()[i],
            r.body@ == rpc_body("eth_getTransactionByHash"@, id_params(id@)),
    {
        self.get(String::from_str("eth_getTransactionByHash"), params_for_id(id))
    }

    /// The address to GET a transaction's raw payload from, at an endpoint
    /// drawn at random. This retrieval is outside the polling path and is
    /// made once: a failure of it is not tried again.
    pub fn get_tx_data_by_id(&self, id: &str) -> (r: String)
        ensures
            exists|i: int|
                0 <= i < self.spec_endpoints().len() && r@ == tx_data_url(
                    self.spec_endpoints()[i],
                    id@,
                ),
    {
        let mut url = String::from_str(self.next_endpoint());
        url.append("/tx/");
        url.append(id);
        url.append("/data");
        url
    }

    /// What to do after a call has failed for the `retried + 1`-th time:
    /// a transport error is tried again after a fixed pause while the retry
    /// budget lasts; every other error is reported at once.
    pub fn after_failure(&self, retried: u8, error: Error) -> (r: Retry)
        ensures
            r == if error.is_transient() && retried < self.spec_retry() {
                (Retry::Again { backoff_ms: RETRY_BACKOFF_MS })
            } else {
                Retry::GiveUp
            },
    {
        if error.is_transient() && retried < self.retry {
            Retry::Again { backoff_ms: RETRY_BACKOFF_MS }
        } else {
            Retry::GiveUp
        }
    }

    /// Puts a block together with its transactions, fetched one by one in
    /// the block's order. Fails as a whole on the first defect: no block
    /// with part of its transactions is returned.
    pub fn get_firehose_block_by_height(
        &self,
        height: u64,
        block: Block,
        fetched: Vec<Result<Transaction, Error>>,
    ) -> (r: Result<FirehoseBlock, Error>)
        ensures
            match r {
                Ok(b) => hydrated(height, block@, transaction_results(fetched@)) == Ok::<
                    FirehoseBlockView,
                    Error,
                >(b@),
                Err(e) => hydrated(height, block@, transaction_results(fetched@)) == Err::<
                    FirehoseBlockView,
                    Error,
                >(e),
            },
    {
        if block.height != height || fetched.len() != block.transactions.len() {
            return Err(Error::UnexpectedBlock);
        }
        let ghost results = transaction_results(fetched@);
        let ghost defects = transaction_defects(block@.transactions, results);
        let ghost all = fetched@;
        let n = fetched.len();
        let mut rest = reversed(fetched);
        let mut txs: Vec<Transaction> = Vec::new();
        let mut i: usize = 0;
        while i < n
            invariant
                i <= n,
                n == all.len(),
                rest@.len() == n - i,
                forall|j: int| 0 <= j < n - i ==> rest@[j] == all[n - 1 - j],
                all == fetched@,
                block.height == height,
                results == transaction_results(all),
                all.len() == block.transactions@.len(),
                defects == transaction_defects(block@.transactions, results),
                txs@.len() == i,
                first_error(defects.take(i as int)) is None,
                forall|j: int| 0 <= j < i ==> results[j] == Ok::<TransactionView, Error>(txs@[j]@),
            decreases n - i,
        {
            let item = rest.pop().unwrap();
            proof {
                let t = defects.take(i + 1);
                assert(t.drop_last() =~= defects.take(i as int));
                assert(t.last() == defects[i as int]);
                assert(item == all[i as int]);
            }
            let ghost k = i as int;
            match item {
                Err(e) => {
                    proof {
                        first_error_found(defects, k);
                    }
                    return Err(e);
                },
                Ok(t) => {
                    if t.id != block.transactions[i] {
                        proof {
                            first_error_found(defects, k);
                        }
                        return Err(Error::UnexpectedBlock);
                    }
                    txs.push(t);
                },
            }
            i += 1;
        }
        proof {
            assert(defects.take(i as int) =~= defects);
            assert(transaction_views(txs@) =~= Seq::new(
                results.len(),
                |j: int| results[j].unwrap(),
            ));
        }
        Ok(block.with_transactions(txs))
    }

    /// Puts the blocks of a batch together, fetched one by one in the order
    /// of `heights`. The blocks come back in that order, whichever fetch
    /// ended first. Fails as a whole on the first defect: no part of a batch
    /// is returned.
    pub fn poll(&self, heights: &Vec<u64>, fetched: Vec<Result<FirehoseBlock, Error>>) -> (r: Result<
        Vec<FirehoseBlock>,
        Error,
    >)
        ensures
            match r {
                Ok(blocks) => polled(heights@, block_results(fetched@)) == Ok::<
                    Seq<FirehoseBlockView>,
                    Error,
                >(block_views(blocks@)),
                Err(e) => polled(heights@, block_results(fetched@)) == Err::<
                    Seq<FirehoseBlockView>,
                    Error,
                >(e),
            },
    {
        if fetched.len() != heights.len() {
            return Err(Error::UnexpectedBlock);
        }
        let ghost results = block_results(fetched@);
        let ghost defects = block_defects(heights@, results);
        let ghost all = fetched@;
        let n = fetched.len();
        let mut rest = reversed(fetched);
        let mut blocks: Vec<FirehoseBlock> = Vec::new();
        let mut i: usize = 0;
        while i < n
            invariant
                i <= n,
                n == all.len(),
                rest@.len() == n - i,
                forall|j: int| 0 <= j < n - i ==> rest@[j] == all[n - 1 - j],
                all == fetched@,
                results == block_results(all),
                all.len() == heights@.len(),
                defects == block_defects(heights@, results),
                blocks@.len() == i,
                first_error(defects.take(i as int)) is None,
                forall|j: int|
                    0 <= j < i ==> results[j] == Ok::<FirehoseBlockView, Error>(blocks@[j]@),
            decreases n - i,
        {
            let item = rest.pop().unwrap();
            proof {
                let t = defects.take(i + 1);
                assert(t.drop_last() =~= defects.take(i as int));
                assert(t.last() == defects[i as int]);
                assert(item == all[i as int]);
            }
            let ghost k = i as int;
            match item {
                Err(e) => {
                    proof {
                        first_error_found(defects, k);
                    }
                    return Err(e);
                },
                Ok(b) => {
                    if b.height != heights[i] {
                        proof {
                            first_error_found(defects, k);
                        }
                        return Err(Error::UnexpectedBlock);
                    }
                    blocks.push(b);
                },
            }
            i += 1;
        }
        proof {
            assert(defects.take(i as int) =~= defects);
            assert(block_views(blocks@) =~= Seq::new(results.len(), |j: int| results[j].unwrap()));
        }
        Ok(blocks)
    }
}

/// Where the entries before `k` have no defect and entry `k` has one, that
/// one is the first error.
pub proof fn first_error_found(defects: Seq<Option<Error>>, k: int)
    requires
        0 <= k < defects.len(),
        first_error(defects.take(k)) is None,
        defects[k] is Some,
    ensures
        first_error(defects) == defects[k],
    decreases defects.len(),
{
    if k == defects.len() - 1 {
        assert(defects.drop_last() =~= defects.take(k));
    } else {
        assert(defects.drop_last().take(k) =~= defects.take(k));
        first_error_found(defects.drop_last(), k);
    }
}

/// Where there is no first error, no entry has a defect.
pub proof fn no_error_no_defect(defects: Seq<Option<Error>>)
    requires
        first_error(defects) is None,
    ensures
        forall|i: int| 0 <= i < defects.len() ==> (#[trigger] defects[i]) is None,
    decreases defects.len(),
{
    if defects.len() > 0 {
        no_error_no_defect(defects.drop_last());
        assert forall|i: int| 0 <= i < defects.len() implies (#[trigger] defects[i]) is None by {
            if i < defects.len() - 1 {
                assert(defects.drop_last()[i] == defects[i]);
            }
        }
    }
}

/// A batch gives its blocks in the order of the heights asked for, each at
/// its height and as it was fetched, whatever the order in which the
/// fetches ended; and it gives no block at all where any fetch failed.
pub proof fn polled_in_order_or_not_at_all(
    heights: Seq<u64>,
    fetched: Seq<Result<FirehoseBlockView, Error>>,
)
    ensures
        polled(heights, fetched) matches Ok(blocks) ==> blocks.len() == heights.len() && forall|
            i: int,
        |
            0 <= i < heights.len() ==> (#[trigger] blocks[i]).height == heights[i] && fetched[i]
                == Ok::<FirehoseBlockView, Error>(blocks[i]),
        (exists|i: int| 0 <= i < fetched.len() && (#[trigger] fetched[i]) is Err) ==> polled(
            heights,
            fetched,
        ) is Err,
{
    if fetched.len() == heights.len() {
        let defects = block_defects(heights, fetched);
        if first_error(defects) is None {
            no_error_no_defect(defects);
            assert forall|i: int| 0 <= i < fetched.len() implies (#[trigger] fetched[i]) is Ok by {
                assert(defects[i] is None);
            }
            if let Ok(blocks) = polled(heights, fetched) {
                assert forall|i: int| 0 <= i < heights.len() implies (#[trigger] blocks[i]).height
                    == heights[i] && fetched[i] == Ok::<FirehoseBlockView, Error>(blocks[i]) by {
                    assert(defects[i] is None);
                }
            }
        }
    }
}

/// A block in full has its transactions in the order of the block's
/// identifiers, each with its identifier and as it was fetched; and there
/// is no block in full where any fetch failed.
pub proof fn hydrated_in_order_or_not_at_all(
    height: u64,
    block: BlockView,
    fetched: Seq<Result<TransactionView, Error>>,
)
    ensures
        hydrated(height, block, fetched) matches Ok(b) ==> b.height == height
            && b.transactions.len() == block.transactions.len() && forall|i: int|
            0 <= i < block.transactions.len() ==> (#[trigger] b.transactions[i]).id
                == block.transactions[i] && fetched[i] == Ok::<TransactionView, Error>(
                b.transactions[i],
            ),
        (exists|i: int| 0 <= i < fetched.len() && (#[trigger] fetched[i]) is Err) ==> hydrated(
            height,
            block,
            fetched,
        ) is Err,
{
    if block.height == height && fetched.len() == block.transactions.len() {
        let defects = transaction_defects(block.transactions, fetched);
        if first_error(defects) is None {
            no_error_no_defect(defects);
            assert forall|i: int| 0 <= i < fetched.len() implies (#[trigger] fetched[i]) is Ok by {
                assert(defects[i] is None);
            }
            if let Ok(b) = hydrated(height, block, fetched) {
                assert forall|i: int| 0 <= i < block.transactions.len() implies (
                #[trigger] b.transactions[i]).id == block.transactions[i] && fetched[i] == Ok::<
                    TransactionView,
                    Error,
                >(b.transactions[i]) by {
                    assert(defects[i] is None);
                }
            }
        }
    }
}

} // verus!
