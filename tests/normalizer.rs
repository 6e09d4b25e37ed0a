use blockchain_gateway::error::ErrorKind;
use blockchain_gateway::models::{Amount, Currency, PartialBlockchainTransaction};
use blockchain_gateway::normalize::{
    btc_fee, eth_response_to_partial_tx, partial_tx_to_tx, stq_response_to_partial_tx, topic_address,
};
use blockchain_gateway::responses::{StqResponseItem, TransactionReceiptResponse, TransactionResponse};

fn tx(value: &str, to: Option<&str>) -> TransactionResponse {
    TransactionResponse {
        block_number: "0xa".to_string(),
        hash: "0xabcd".to_string(),
        from: "0x1111111111111111111111111111111111111111".to_string(),
        to: to.map(|t| t.to_string()),
        value: value.to_string(),
        gas_price: "0x2".to_string(),
    }
}

fn padded(address: &str) -> String {
    format!("0x000000000000000000000000{}", address)
}

fn tx_hash() -> String {
    format!("0xdead{}beef", "0".repeat(56))
}

fn log() -> StqResponseItem {
    StqResponseItem {
        topics: vec![
            "0xddf252ad1be2c89b69c2b068fc378daa952ba7f163c4a11628f55a4df523b3ef".to_string(),
            padded(&"a".repeat(40)),
            padded(&"b".repeat(40)),
        ],
        data: "0x64".to_string(),
        block_number: "0xa".to_string(),
        transaction_hash: tx_hash(),
        log_index: "0x3".to_string(),
    }
}

fn receipt(gas_used: &str, block: &str) -> TransactionReceiptResponse {
    TransactionReceiptResponse { gas_used: gas_used.to_string(), block_number: block.to_string() }
}

#[test]
fn eth_normalization_strips_and_decodes() {
    let p = eth_response_to_partial_tx(&tx("0x5af3107a4000", Some("0x2222222222222222222222222222222222222222"))).unwrap();
    assert_eq!(p.hash, "abcd");
    assert_eq!(p.from, vec!["1111111111111111111111111111111111111111".to_string()]);
    assert_eq!(p.to.len(), 1);
    assert_eq!(p.to[0].address, "2222222222222222222222222222222222222222");
    assert_eq!(p.to[0].value, Amount(100000000000000));
    assert_eq!(p.block_number, 10);
    assert_eq!(p.currency, Currency::Eth);
    assert_eq!(p.gas_price, Amount(2));
}

#[test]
fn eth_contract_creation_goes_to_zero() {
    let p = eth_response_to_partial_tx(&tx("0x1", None)).unwrap();
    assert_eq!(p.to[0].address, "0");
}

#[test]
fn eth_normalization_errors() {
    assert_eq!(eth_response_to_partial_tx(&tx("0xzz", None)).unwrap_err(), ErrorKind::Hex);
    let mut genesis = tx("0x1", None);
    genesis.block_number = "0x0".to_string();
    assert_eq!(eth_response_to_partial_tx(&genesis).unwrap_err(), ErrorKind::Internal);
}

#[test]
fn eth_normalization_is_pure() {
    let a = eth_response_to_partial_tx(&tx("0x7", None)).unwrap();
    let b = eth_response_to_partial_tx(&tx("0x7", None)).unwrap();
    assert_eq!(a.hash, b.hash);
    assert_eq!(a.from, b.from);
    assert_eq!(a.to[0].address, b.to[0].address);
    assert_eq!(a.to[0].value, b.to[0].value);
    assert_eq!(a.gas_price, b.gas_price);
    assert_eq!(a.block_number, b.block_number);
}

#[test]
fn topic_address_takes_last_forty_characters() {
    let address = topic_address(&padded(&"a".repeat(40))).unwrap();
    assert_eq!(address.len(), 40);
    assert_eq!(address, "a".repeat(40));
    assert_eq!(topic_address("0x1234"), Err(ErrorKind::Topics));
    assert_eq!(topic_address(&format!("0x{}", "z".repeat(64))), Err(ErrorKind::Topics));
}

#[test]
fn stq_log_decoding() {
    let p = stq_response_to_partial_tx(&log(), Amount(1)).unwrap();
    let expected_hash = format!("dead{}beef:3", "0".repeat(56));
    assert_eq!(p.hash, expected_hash);
    assert_eq!(p.from, vec!["a".repeat(40)]);
    assert_eq!(p.to[0].address, "b".repeat(40));
    assert_eq!(p.to[0].value, Amount(100));
    assert_eq!(p.currency, Currency::Stq);
    let t = partial_tx_to_tx(p, &receipt("0x5208", "0xa"), 12).unwrap().unwrap();
    assert_eq!(t.hash, expected_hash);
    assert_eq!(t.fee, Amount(21000));
    assert_eq!(t.confirmations, 2);
}

#[test]
fn stq_hash_has_hex_colon_decimal_shape() {
    let mut l = log();
    l.log_index = "0x1f".to_string();
    let p = stq_response_to_partial_tx(&l, Amount(1)).unwrap();
    let (head, tail) = p.hash.split_once(':').unwrap();
    assert_eq!(head.len(), 64);
    assert!(head.chars().all(|c| c.is_ascii_digit() || ('a'..='f').contains(&c)));
    assert_eq!(tail, "31");
}

#[test]
fn stq_missing_topic_is_topics_error() {
    let mut l = log();
    l.topics.truncate(2);
    assert_eq!(stq_response_to_partial_tx(&l, Amount(1)).unwrap_err(), ErrorKind::Topics);
    let mut l = log();
    l.data = "0xq".to_string();
    assert_eq!(stq_response_to_partial_tx(&l, Amount(1)).unwrap_err(), ErrorKind::Hex);
}

fn partial(gas_price: u128) -> PartialBlockchainTransaction {
    let mut p = eth_response_to_partial_tx(&tx("0x1", None)).unwrap();
    p.gas_price = Amount(gas_price);
    p
}

#[test]
fn fee_is_gas_used_times_gas_price() {
    let t = partial_tx_to_tx(partial(3), &receipt("0x10", "0xa"), 10).unwrap().unwrap();
    assert_eq!(t.fee, Amount(48));
    assert_eq!(t.confirmations, 0);
    assert_eq!(t.block_number, 10);
}

#[test]
fn overflow_on_fee() {
    let two_pow_100 = format!("0x1{}", "0".repeat(25));
    let r = partial_tx_to_tx(partial(1u128 << 100), &receipt(&two_pow_100, "0xa"), 20);
    assert_eq!(r.unwrap_err(), ErrorKind::Overflow);
}

#[test]
fn receipt_beyond_tip_is_dropped() {
    assert!(partial_tx_to_tx(partial(1), &receipt("0x1", "0xa"), 9).unwrap().is_none());
    assert_eq!(partial_tx_to_tx(partial(1), &receipt("0x", "0xa"), 10).unwrap_err(), ErrorKind::Hex);
    assert_eq!(partial_tx_to_tx(partial(1), &receipt("5208", "0xa"), 10).unwrap_err(), ErrorKind::Hex);
}

#[test]
fn confirmations_count_from_the_receipt_block() {
    let t = partial_tx_to_tx(partial(1), &receipt("0x1", "0xb"), 20).unwrap().unwrap();
    assert_eq!(t.confirmations, 9);
    assert_eq!(t.fee, Amount(1));
    let t = partial_tx_to_tx(partial(1), &receipt("0x1", "0x9"), 20).unwrap().unwrap();
    assert_eq!(t.confirmations, 11);
    assert!(partial_tx_to_tx(partial(1), &receipt("0x1", "0xb"), 10).unwrap().is_none());
}

#[test]
fn addresses_are_written_in_lower_case() {
    let p = eth_response_to_partial_tx(&tx("0x1", Some("0xABCDEF0000000000000000000000000000000000"))).unwrap();
    assert_eq!(p.to[0].address, "abcdef0000000000000000000000000000000000");
    let mut upper = tx("0x1", None);
    upper.from = "0xAAAA".to_string();
    assert_eq!(eth_response_to_partial_tx(&upper).unwrap().from, vec!["aaaa".to_string()]);
    assert_eq!(topic_address(&padded(&"C".repeat(40))).unwrap(), "c".repeat(40));
}

#[test]
fn distinct_log_indexes_give_distinct_hashes() {
    let mut other = log();
    other.log_index = "0x4".to_string();
    let a = stq_response_to_partial_tx(&log(), Amount(1)).unwrap();
    let b = stq_response_to_partial_tx(&other, Amount(1)).unwrap();
    let c = stq_response_to_partial_tx(&log(), Amount(2)).unwrap();
    assert_ne!(a.hash, b.hash);
    assert_eq!(a.hash, c.hash);
}

#[test]
fn unprefixed_quantities_are_hex_errors() {
    assert_eq!(eth_response_to_partial_tx(&tx("64", None)).unwrap_err(), ErrorKind::Hex);
    let mut t = tx("0x1", None);
    t.block_number = "a".to_string();
    assert_eq!(eth_response_to_partial_tx(&t).unwrap_err(), ErrorKind::Hex);
    let mut t = tx("0x1", None);
    t.gas_price = "2".to_string();
    assert_eq!(eth_response_to_partial_tx(&t).unwrap_err(), ErrorKind::Hex);
}

#[test]
fn amount_checked_mul() {
    assert_eq!(Amount::new(6).checked_mul(Amount::new(7)), Some(Amount(42)));
    assert_eq!(Amount::new(u128::MAX).checked_mul(Amount::new(2)), None);
    assert_eq!(Amount::new(9).inner(), 9);
}

#[test]
fn error_status_codes() {
    assert_eq!(ErrorKind::BadRequest.http_status(), 400);
    assert_eq!(ErrorKind::Transport.http_status(), 502);
    assert_eq!(ErrorKind::Timeout.http_status(), 502);
    assert_eq!(ErrorKind::Broker.http_status(), 502);
    assert_eq!(ErrorKind::Internal.http_status(), 500);
}

#[test]
fn btc_fee_is_inputs_less_outputs() {
    assert_eq!(btc_fee(&vec![Amount(5000), Amount(3000)], &vec![Amount(7000)]), Ok(Amount(1000)));
    assert_eq!(btc_fee(&vec![], &vec![]), Ok(Amount(0)));
    assert_eq!(btc_fee(&vec![Amount(1)], &vec![Amount(2)]), Err(ErrorKind::Overflow));
    assert_eq!(btc_fee(&vec![Amount(u128::MAX), Amount(1)], &vec![]), Err(ErrorKind::Overflow));
}
