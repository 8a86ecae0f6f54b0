use thegarii::pb::{encode_block, encode_transaction};
use thegarii::{Error, FirehoseBlock, Polling, Transaction, U256};

fn plain_block(height: u64, hash: &str, parent_hash: &str) -> FirehoseBlock {
    FirehoseBlock {
        height,
        hash: hash.to_string(),
        parent_hash: parent_hash.to_string(),
        cumulative_diff: U256::zero(),
        transactions: vec![],
    }
}

#[test]
fn encode_block_writes_height_as_varint() {
    assert_eq!(encode_block(&plain_block(1, "", "")), vec![0x08, 0x01]);
    assert_eq!(encode_block(&plain_block(127, "", "")), vec![0x08, 0x7f]);
    assert_eq!(encode_block(&plain_block(128, "", "")), vec![0x08, 0x80, 0x01]);
    assert_eq!(encode_block(&plain_block(300, "", "")), vec![0x08, 0xac, 0x02]);
    assert_eq!(
        encode_block(&plain_block(u64::MAX, "", "")),
        vec![0x08, 0xff, 0xff, 0xff, 0xff, 0xff, 0xff, 0xff, 0xff, 0xff, 0x01],
    );
}

#[test]
fn encode_block_writes_identifiers_as_strings() {
    assert_eq!(
        encode_block(&plain_block(300, "ab", "p")),
        vec![0x08, 0xac, 0x02, 0x12, 0x02, 0x61, 0x62, 0x1a, 0x01, 0x70],
    );
    assert_eq!(encode_block(&plain_block(0, "", "p")), vec![0x1a, 0x01, 0x70]);
    assert_eq!(
        encode_block(&plain_block(0, "é", "")),
        vec![0x12, 0x02, 0xc3, 0xa9],
    );
}

#[test]
fn encode_block_leaves_defaults_out() {
    assert_eq!(encode_block(&plain_block(0, "", "")), Vec::<u8>::new());
}

#[test]
fn encode_block_writes_transactions_in_order() {
    let mut b = plain_block(1, "", "");
    b.transactions = vec![
        Transaction { id: "t1".to_string(), data: "0x".to_string() },
        Transaction { id: "".to_string(), data: "".to_string() },
        Transaction { id: "t3".to_string(), data: "".to_string() },
    ];
    assert_eq!(
        encode_block(&b),
        vec![
            0x08, 0x01, 0x22, 0x08, 0x0a, 0x02, 0x74, 0x31, 0x12, 0x02, 0x30, 0x78, 0x22, 0x00,
            0x22, 0x04, 0x0a, 0x02, 0x74, 0x33,
        ],
    );
}

#[test]
fn encode_block_writes_long_fields_with_long_lengths() {
    let b = plain_block(0, &"a".repeat(200), "");
    let record = encode_block(&b);
    assert_eq!(&record[..3], &[0x12, 0xc8, 0x01]);
    assert_eq!(record.len(), 203);
    assert!(record[3..].iter().all(|c| *c == 0x61));
}

#[test]
fn encode_transaction_writes_both_fields() {
    let t = Transaction { id: "t1".to_string(), data: "0x".to_string() };
    assert_eq!(encode_transaction(&t), vec![0x0a, 0x02, 0x74, 0x31, 0x12, 0x02, 0x30, 0x78]);
    let only_data = Transaction { id: "".to_string(), data: "d".to_string() };
    assert_eq!(encode_transaction(&only_data), vec![0x12, 0x01, 0x64]);
}

#[test]
fn dm_log_writes_the_line() {
    assert_eq!(
        Polling::dm_log(&plain_block(300, "ab", "")),
        Ok("DMLOG BLOCK 300 08ac0212026162".to_string()),
    );
    assert_eq!(
        Polling::dm_log(&plain_block(100, "h100", "h99")),
        Ok("DMLOG BLOCK 100 08641204683130301a03683939".to_string()),
    );
    assert_eq!(
        Polling::dm_log(&plain_block(0, "x", "")),
        Ok("DMLOG BLOCK 0 120178".to_string()),
    );
}

#[test]
fn dm_log_fails_on_an_empty_record() {
    assert_eq!(Polling::dm_log(&plain_block(0, "", "")), Err(Error::ParseBlockFailed));
}

#[test]
fn dm_log_ignores_the_difficulty() {
    let mut b = plain_block(7, "h", "");
    let line = Polling::dm_log(&b);
    b.cumulative_diff = U256::from_u64(99);
    assert_eq!(Polling::dm_log(&b), line);
}
