use std::time::Duration;
use thegarii::client::RETRY_BACKOFF_MS;
use thegarii::{
    Block, Client, Env, Error, ErrorKind, FirehoseBlock, Post, Retry, Transaction, U256,
};

fn client_of(endpoints: &[&str], retry: u8) -> Client {
    Client::new(
        endpoints.iter().map(|e| e.to_string()).collect(),
        Duration::from_millis(500),
        retry,
    )
    .unwrap()
}

fn raw_block(height: u64, txs: &[&str]) -> Block {
    Block {
        height,
        hash: format!("h{}", height),
        parent_hash: "p".to_string(),
        cumulative_diff: U256::from_u64(height),
        transactions: txs.iter().map(|t| t.to_string()).collect(),
    }
}

fn tx(id: &str) -> Transaction {
    Transaction { id: id.to_string(), data: format!("data of {}", id) }
}

fn full_block(height: u64) -> FirehoseBlock {
    FirehoseBlock {
        height,
        hash: format!("h{}", height),
        parent_hash: "p".to_string(),
        cumulative_diff: U256::zero(),
        transactions: vec![],
    }
}

#[test]
fn new_fails_on_empty_endpoints() {
    let r = Client::new(vec![], Duration::from_millis(500), 3);
    assert_eq!(r.err(), Some(Error::EmptyEndpoints));
    assert_eq!(Error::EmptyEndpoints.kind(), ErrorKind::Config);
}

#[test]
fn new_keeps_its_arguments() {
    let c = client_of(&["https://a", "https://b"], 3);
    assert_eq!(c.endpoints(), &vec!["https://a".to_string(), "https://b".to_string()]);
    assert_eq!(c.timeout(), Duration::from_millis(500));
    assert_eq!(c.retry(), 3);
}

#[test]
fn from_env_takes_the_settings() {
    let env = Env {
        endpoints: vec!["https://a".to_string()],
        timeout: 120000,
        retry: 10,
        batch_blocks: 20,
        block_time: 20000,
        confirms: 20,
        ptr_file: "thegarii.ptr".to_string(),
    };
    let c = Client::from_env(env.clone()).unwrap();
    assert_eq!(c.endpoints(), &vec!["https://a".to_string()]);
    assert_eq!(c.timeout(), Duration::from_millis(120000));
    assert_eq!(c.timeout(), Duration::from_secs(120));
    assert_eq!(c.retry(), 10);
    let mut empty = env;
    empty.endpoints = vec![];
    assert_eq!(Client::from_env(empty).err(), Some(Error::EmptyEndpoints));
}

#[test]
fn endpoint_for_maps_a_draw_to_an_index() {
    let c = client_of(&["https://a", "https://b", "https://c"], 0);
    assert_eq!(c.endpoint_for(0), "https://a");
    assert_eq!(c.endpoint_for(1), "https://b");
    assert_eq!(c.endpoint_for(2), "https://c");
    assert_eq!(c.endpoint_for(3), "https://a");
    assert_eq!(c.endpoint_for(usize::MAX), ["https://a", "https://b", "https://c"][usize::MAX % 3]);
}

#[test]
fn next_endpoint_draws_one_of_the_endpoints() {
    let names = ["https://a", "https://b", "https://c"];
    let c = client_of(&names, 0);
    let mut seen = [false; 3];
    for _ in 0..600 {
        let e = c.next_endpoint();
        let i = names.iter().position(|n| *n == e).unwrap();
        seen[i] = true;
    }
    assert_eq!(seen, [true, true, true]);
}

#[test]
fn next_endpoint_of_one_is_that_one() {
    let c = client_of(&["https://only"], 0);
    for _ in 0..20 {
        assert_eq!(c.next_endpoint(), "https://only");
    }
}

#[test]
fn request_at_goes_to_the_drawn_endpoint() {
    let c = client_of(&["https://a", "https://b"], 0);
    let r = c.request_at(5, "eth_blockNumber", "[]");
    assert_eq!(r.url, "https://b");
    assert_eq!(
        r.body,
        "{\"jsonrpc\":\"2.0\",\"id\":\"1\",\"method\":\"eth_blockNumber\",\"params\":[]}",
    );
}

#[test]
fn get_frames_method_and_params() {
    let c = client_of(&["https://a"], 0);
    let r = c.get("m".to_string(), "[1]".to_string());
    assert_eq!(r.url, "https://a");
    assert_eq!(r.body, "{\"jsonrpc\":\"2.0\",\"id\":\"1\",\"method\":\"m\",\"params\":[1]}");
}

#[test]
fn get_block_by_height_asks_by_number() {
    let c = client_of(&["https://a", "https://b"], 0);
    let r = c.get_block_by_height(269512);
    assert!(r.url == "https://a" || r.url == "https://b");
    assert_eq!(
        r.body,
        "{\"jsonrpc\":\"2.0\",\"id\":\"1\",\"method\":\"eth_getBlockByNumber\",\"params\":[269512, true]}",
    );
}

#[test]
fn get_block_by_hash_asks_by_identifier() {
    let c = client_of(&["https://a"], 0);
    let r = c.get_block_by_hash("0xabc");
    assert_eq!(
        r.body,
        "{\"jsonrpc\":\"2.0\",\"id\":\"1\",\"method\":\"eth_getBlockByHash\",\"params\":[\"0xabc\"]}",
    );
}

#[test]
fn get_current_block_asks_without_params() {
    let c = client_of(&["https://a"], 0);
    let r = c.get_current_block();
    assert_eq!(r.url, "https://a");
    assert_eq!(
        r.body,
        "{\"jsonrpc\":\"2.0\",\"id\":\"1\",\"method\":\"eth_blockNumber\",\"params\":[]}",
    );
}

#[test]
fn get_tx_by_id_asks_by_identifier() {
    let c = client_of(&["https://a"], 0);
    let r = c.get_tx_by_id("0x02");
    assert_eq!(
        r.body,
        "{\"jsonrpc\":\"2.0\",\"id\":\"1\",\"method\":\"eth_getTransactionByHash\",\"params\":[\"0x02\"]}",
    );
}

#[test]
fn get_tx_data_by_id_gives_the_address() {
    let c = client_of(&["https://arweave.net"], 0);
    assert_eq!(
        c.get_tx_data_by_id("BNttzDav3jHVnNiV7nYbQv-GY0HQ-4XXsdkE5K9ylHQ"),
        "https://arweave.net/tx/BNttzDav3jHVnNiV7nYbQv-GY0HQ-4XXsdkE5K9ylHQ/data",
    );
}

#[test]
fn post_asks_for_its_height() {
    let c = client_of(&["https://a"], 0);
    let r = Post { height: 77 }.exec(&c);
    assert_eq!(r.url, "https://a");
    assert_eq!(
        r.body,
        "{\"jsonrpc\":\"2.0\",\"id\":\"1\",\"method\":\"eth_getBlockByNumber\",\"params\":[77, true]}",
    );
}

#[test]
fn after_failure_retries_transport_errors_within_budget() {
    let c = client_of(&["https://a"], 2);
    assert_eq!(RETRY_BACKOFF_MS, 1000);
    assert_eq!(c.after_failure(0, Error::Transport), Retry::Again { backoff_ms: 1000 });
    assert_eq!(c.after_failure(1, Error::Transport), Retry::Again { backoff_ms: 1000 });
    assert_eq!(c.after_failure(2, Error::Transport), Retry::GiveUp);
    assert_eq!(c.after_failure(3, Error::Transport), Retry::GiveUp);
}

#[test]
fn after_failure_does_not_retry_other_errors() {
    let c = client_of(&["https://a"], 5);
    assert_eq!(c.after_failure(0, Error::ParseBlockFailed), Retry::GiveUp);
    assert_eq!(c.after_failure(0, Error::ParseInt), Retry::GiveUp);
    assert_eq!(c.after_failure(0, Error::UnexpectedBlock), Retry::GiveUp);
    assert_eq!(c.after_failure(0, Error::Persistence), Retry::GiveUp);
    assert_eq!(c.after_failure(0, Error::EmptyEndpoints), Retry::GiveUp);
    let none = client_of(&["https://a"], 0);
    assert_eq!(none.after_failure(0, Error::Transport), Retry::GiveUp);
}

#[test]
fn error_kinds_follow_the_taxonomy() {
    assert_eq!(Error::Transport.kind(), ErrorKind::Transport);
    assert_eq!(Error::ParseBlockFailed.kind(), ErrorKind::Parse);
    assert_eq!(Error::ParseInt.kind(), ErrorKind::Parse);
    assert_eq!(Error::UnexpectedBlock.kind(), ErrorKind::Parse);
    assert_eq!(Error::Persistence.kind(), ErrorKind::Persistence);
    assert!(Error::Transport.is_transient());
    assert!(!Error::Persistence.is_transient());
    assert!(!Error::ParseInt.is_transient());
}

#[test]
fn firehose_block_keeps_the_transaction_order() {
    let c = client_of(&["https://a"], 0);
    let b = raw_block(9, &["t3", "t1", "t2"]);
    let r = c
        .get_firehose_block_by_height(9, b, vec![Ok(tx("t3")), Ok(tx("t1")), Ok(tx("t2"))])
        .unwrap();
    assert_eq!(r.height, 9);
    assert_eq!(r.hash, "h9");
    assert_eq!(r.parent_hash, "p");
    assert_eq!(r.cumulative_diff, U256::from_u64(9));
    assert_eq!(r.transactions, vec![tx("t3"), tx("t1"), tx("t2")]);
}

#[test]
fn firehose_block_without_transactions() {
    let c = client_of(&["https://a"], 0);
    let r = c.get_firehose_block_by_height(4, raw_block(4, &[]), vec![]).unwrap();
    assert_eq!(r.transactions, vec![]);
    assert_eq!(r.height, 4);
}

#[test]
fn firehose_block_fails_on_the_first_failed_transaction() {
    let c = client_of(&["https://a"], 0);
    let r = c.get_firehose_block_by_height(
        107,
        raw_block(107, &["t1", "t2", "t3"]),
        vec![Ok(tx("t1")), Err(Error::Transport), Err(Error::ParseBlockFailed)],
    );
    assert_eq!(r, Err(Error::Transport));
    let r = c.get_firehose_block_by_height(
        107,
        raw_block(107, &["t1", "t2", "t3"]),
        vec![Err(Error::ParseBlockFailed), Ok(tx("t2")), Err(Error::Transport)],
    );
    assert_eq!(r, Err(Error::ParseBlockFailed));
}

#[test]
fn firehose_block_fails_on_an_unexpected_answer() {
    let c = client_of(&["https://a"], 0);
    let other_height = c.get_firehose_block_by_height(5, raw_block(6, &[]), vec![]);
    assert_eq!(other_height, Err(Error::UnexpectedBlock));
    let too_few = c.get_firehose_block_by_height(5, raw_block(5, &["t1", "t2"]), vec![Ok(tx("t1"))]);
    assert_eq!(too_few, Err(Error::UnexpectedBlock));
    let swapped = c.get_firehose_block_by_height(
        5,
        raw_block(5, &["t1", "t2"]),
        vec![Ok(tx("t2")), Ok(tx("t1"))],
    );
    assert_eq!(swapped, Err(Error::UnexpectedBlock));
    let swapped_then_failed = c.get_firehose_block_by_height(
        5,
        raw_block(5, &["t1", "t2"]),
        vec![Ok(tx("t2")), Err(Error::Transport)],
    );
    assert_eq!(swapped_then_failed, Err(Error::UnexpectedBlock));
}

#[test]
fn poll_keeps_the_order_of_the_heights() {
    let c = client_of(&["https://a"], 0);
    let heights = vec![269512, 269513, 269514];
    let r = c
        .poll(&heights, vec![Ok(full_block(269512)), Ok(full_block(269513)), Ok(full_block(269514))])
        .unwrap();
    assert_eq!(r.iter().map(|b| b.height).collect::<Vec<u64>>(), heights);
    assert_eq!(r, vec![full_block(269512), full_block(269513), full_block(269514)]);
}

#[test]
fn poll_of_heights_in_any_order_answers_in_that_order() {
    let c = client_of(&["https://a"], 0);
    let heights = vec![9, 3, 7];
    let r = c.poll(&heights, vec![Ok(full_block(9)), Ok(full_block(3)), Ok(full_block(7))]).unwrap();
    assert_eq!(r.iter().map(|b| b.height).collect::<Vec<u64>>(), heights);
}

#[test]
fn poll_of_nothing_is_nothing() {
    let c = client_of(&["https://a"], 0);
    assert_eq!(c.poll(&vec![], vec![]), Ok(vec![]));
}

#[test]
fn poll_fails_as_a_whole() {
    let c = client_of(&["https://a"], 0);
    let heights = vec![105, 106, 107];
    let r = c.poll(&heights, vec![Ok(full_block(105)), Ok(full_block(106)), Err(Error::Transport)]);
    assert_eq!(r, Err(Error::Transport));
    let r = c.poll(
        &heights,
        vec![Err(Error::ParseInt), Ok(full_block(106)), Err(Error::Transport)],
    );
    assert_eq!(r, Err(Error::ParseInt));
}

#[test]
fn poll_fails_on_blocks_out_of_place() {
    let c = client_of(&["https://a"], 0);
    let heights = vec![105, 106];
    let swapped = c.poll(&heights, vec![Ok(full_block(106)), Ok(full_block(105))]);
    assert_eq!(swapped, Err(Error::UnexpectedBlock));
    let too_few = c.poll(&heights, vec![Ok(full_block(105))]);
    assert_eq!(too_few, Err(Error::UnexpectedBlock));
    let too_many = c.poll(&vec![105], vec![Ok(full_block(105)), Ok(full_block(106))]);
    assert_eq!(too_many, Err(Error::UnexpectedBlock));
}
