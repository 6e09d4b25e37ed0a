use blockchain_gateway::client::{hex_param, BitcoinClientImpl, EthereumClientImpl};
use blockchain_gateway::error::ErrorKind;
use blockchain_gateway::models::{BitcoinAddress, EthereumAddress, Mode};

fn client() -> EthereumClientImpl {
    EthereumClientImpl::new(Mode::Production, "key".to_string(), "0xc0ffee".to_string(), "0xddf2".to_string())
}

#[test]
fn infura_url_by_mode() {
    assert_eq!(client().infura_url, "https://mainnet.infura.io/key");
    let dev = EthereumClientImpl::new(Mode::Development, "k2".to_string(), "0x1".to_string(), "0x2".to_string());
    assert_eq!(dev.infura_url, "https://kovan.infura.io/k2");
}

#[test]
fn request_bodies() {
    let c = client();
    assert_eq!(c.block_number_request(), r#"{"jsonrpc":"2.0","id":1,"method":"eth_blockNumber","params":[]}"#);
    assert_eq!(
        c.block_by_number_request(255),
        r#"{"jsonrpc":"2.0","id":1,"method":"eth_getBlockByNumber","params":["0xff",true]}"#
    );
    assert_eq!(
        c.block_by_hash_request("abc1").unwrap(),
        r#"{"jsonrpc":"2.0","id":1,"method":"eth_getBlockByHash","params":["0xabc1",false]}"#
    );
    assert_eq!(
        c.transaction_by_hash_request("0xab").unwrap(),
        r#"{"jsonrpc":"2.0","id":1,"method":"eth_getTransactionByHash","params":["0xab"]}"#
    );
    assert_eq!(
        c.receipt_request("ab").unwrap(),
        r#"{"jsonrpc":"2.0","id":1,"method":"eth_getTransactionReceipt","params":["0xab"]}"#
    );
    assert_eq!(
        c.send_raw_tx_request("f86b").unwrap(),
        r#"{"jsonrpc":"2.0","id":1,"method":"eth_sendRawTransaction","params":["0xf86b"]}"#
    );
    assert_eq!(
        c.nonce_request(&EthereumAddress::from_str("0x12")).unwrap(),
        r#"{"jsonrpc":"2.0","id":1,"method":"eth_getTransactionCount","params":["0x12","latest"]}"#
    );
    assert_eq!(
        c.logs_in_range_request(8, 10).unwrap(),
        r#"{"jsonrpc":"2.0","id":1,"method":"eth_getLogs","params":[{"address":"0xc0ffee","topics":["0xddf2"],"fromBlock":"0x8","toBlock":"0xa"}]}"#
    );
    assert_eq!(
        c.logs_for_transaction_request("beef").unwrap(),
        r#"{"jsonrpc":"2.0","id":1,"method":"eth_getLogs","params":[{"address":"0xc0ffee","topics":["0xddf2"],"transactionHash":"0xbeef"}]}"#
    );
}

#[test]
fn request_parameters_must_be_hex() {
    let c = client();
    assert_eq!(c.receipt_request("ab\"]"), Err(ErrorKind::BadRequest));
    assert_eq!(c.block_by_hash_request("0x"), Err(ErrorKind::BadRequest));
    assert_eq!(hex_param("0xAb"), Ok("0xAb".to_string()));
    let bad = EthereumClientImpl::new(Mode::Production, "k".to_string(), "nothex".to_string(), "0x1".to_string());
    assert_eq!(bad.logs_in_range_request(1, 2), Err(ErrorKind::BadRequest));
}

#[test]
fn block_number_results() {
    assert_eq!(EthereumClientImpl::block_number_of("0x10"), Ok(16));
    assert_eq!(EthereumClientImpl::block_number_of("0xnope"), Err(ErrorKind::Hex));
}

#[test]
fn bitcoin_utxo_url() {
    let address = BitcoinAddress::from_str("1BoatSLRHtKNngkdXEeobR76b53LETtpyT");
    assert_eq!(address.to_string(), "1BoatSLRHtKNngkdXEeobR76b53LETtpyT");
    let prod = BitcoinClientImpl::new("SECRET-REDACTED".to_string(), Mode::Production);
    assert_eq!(prod.utxos_url(&address), "https://blockchain.info/unspent?active=1BoatSLRHtKNngkdXEeobR76b53LETtpyT");
    let dev = BitcoinClientImpl::new("t".to_string(), Mode::Development);
    assert_eq!(dev.utxos_url(&address), "https://testnet.blockchain.info/unspent?active=1BoatSLRHtKNngkdXEeobR76b53LETtpyT");
}
