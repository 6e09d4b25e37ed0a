use vstd::prelude::*;

use crate::error::ErrorKind;
use crate::hex::{
    all_hex, format_quantity, is_hex_text, is_u64_quantity, parse_hex_u64, quantity_repr,
    quantity_value, strip_0x, strip_hex_prefix,
};
use crate::models::{BitcoinAddress, EthereumAddress, Mode};

verus! {

/// The JSON-RPC 2.0 request body for `method` with the JSON array `params`.
pub open spec fn rpc_body(method: Seq<char>, params: Seq<char>) -> Seq<char> {
    "{\"jsonrpc\":\"2.0\",\"id\":1,\"method\":\""@ + method + "\",\"params\":"@ + params + "}"@
}

/// A JSON string holding `s`.
pub open spec fn json_str(s: Seq<char>) -> Seq<char> {
    "\""@ + s + "\""@
}

/// A hash or address that can stand in a request: hexadecimal digits, with or
/// without `0x`.
pub open spec fn is_hex_param(s: Seq<char>) -> bool {
    strip_0x(s).len() > 0 && all_hex(strip_0x(s))
}

/// The `0x`-prefixed form of a hexadecimal parameter.
pub open spec fn hex_param_of(s: Seq<char>) -> Seq<char> {
    seq!['0', 'x'] + strip_0x(s)
}

/// The log filter of the token's Transfer events.
pub open spec fn transfer_filter_of(contract: Seq<char>, topic: Seq<char>) -> Seq<char> {
    "{\"address\":"@ + json_str(hex_param_of(contract)) + ",\"topics\":["@ + json_str(
        hex_param_of(topic),
    ) + "]"@
}

pub open spec fn infura_url_of(mode: Mode, api_key: Seq<char>) -> Seq<char> {
    match mode {
        Mode::Production => "https://mainnet.infura.io/"@ + api_key,
        Mode::Development => "https://kovan.infura.io/"@ + api_key,
    }
}

pub open spec fn utxo_base_of(mode: Mode) -> Seq<char> {
    match mode {
        Mode::Production => "https://blockchain.info"@,
        Mode::Development => "https://testnet.blockchain.info"@,
    }
}

/// A hash or address in its `0x` form, ready for a request; other text is refused.
pub fn hex_param(s: &str) -> (r: Result<String, ErrorKind>)
    ensures
        r.is_ok() <==> is_hex_param(s@),
        r.is_ok() ==> r.unwrap()@ == hex_param_of(s@),
        r.is_err() ==> r == Err::<String, ErrorKind>(ErrorKind::BadRequest),
{
    let d = strip_hex_prefix(s);
    if d.unicode_len() == 0 || !is_hex_text(d) {
        return Err(ErrorKind::BadRequest);
    }
    let prefix = "0x";
    proof {
        reveal_strlit("0x");
    }
    let r = String::from_str(prefix).concat(d);
    assert(r@ =~= hex_param_of(s@));
    Ok(r)
}

/// Writes the JSON-RPC body. Every body has one fixed shape, and whatever goes
/// into it is a method name of this module, a quantity formatted here, or text
/// checked to be hexadecimal, so nothing needs escaping. Writing it here lets
/// each request builder state the exact text that is sent.
fn rpc_request(method: &str, params: &str) -> (r: String)
    ensures
        r@ == rpc_body(method@, params@),
{
    let r = String::from_str("{\"jsonrpc\":\"2.0\",\"id\":1,\"method\":\"").concat(method).concat(
        "\",\"params\":",
    ).concat(params).concat("}");
    assert(r@ =~= rpc_body(method@, params@));
    r
}

fn quoted(s: &str) -> (r: String)
    ensures
        r@ == json_str(s@),
{
    let r = String::from_str("\"").concat(s).concat("\"");
    assert(r@ =~= json_str(s@));
    r
}

/// Endpoint and token filter of the Ethereum-family JSON-RPC client.
#[derive(Clone, Debug)]
pub struct EthereumClientImpl {
    pub infura_url: String,
    pub stq_contract_address: String,
    pub stq_transfer_topic: String,
}

impl EthereumClientImpl {
    /// A client of the mainnet endpoint in production, of the test network otherwise.
    pub fn new(
        mode: Mode,
        api_key: String,
        stq_contract_address: String,
        stq_transfer_topic: String,
    ) -> (r: EthereumClientImpl)
        ensures
            r.infura_url@ == infura_url_of(mode, api_key@),
            r.stq_contract_address@ == stq_contract_address@,
            r.stq_transfer_topic@ == stq_transfer_topic@,
    {
        let base = match mode {
            Mode::Production => String::from_str("https://mainnet.infura.io/"),
            Mode::Development => String::from_str("https://kovan.infura.io/"),
        };
        let infura_url = base.concat(api_key.as_str());
        EthereumClientImpl { infura_url, stq_contract_address, stq_transfer_topic }
    }

    /// Body of `eth_blockNumber`.
    pub fn block_number_request(&self) -> (r: String)
        ensures
            r@ == rpc_body("eth_blockNumber"@, "[]"@),
    {
        rpc_request("eth_blockNumber", "[]")
    }

    /// Body of `eth_getBlockByNumber` for block `n`, with full transactions.
    pub fn block_by_number_request(&self, n: u64) -> (r: String)
        ensures
            r@ == rpc_body(
                "eth_getBlockByNumber"@,
                "["@ + json_str(quantity_repr(n as nat)) + ",true]"@,
            ),
    {
        let q = format_quantity(n as u128);
        let params = String::from_str("[").concat(quoted(q.as_str()).as_str()).concat(",true]");
        rpc_request("eth_getBlockByNumber", params.as_str())
    }

    /// Body of `eth_getBlockByHash` for block `hash`, without transactions.
    pub fn block_by_hash_request(&self, hash: &str) -> (r: Result<String, ErrorKind>)
        ensures
            r.is_ok() <==> is_hex_param(hash@),
            r.is_ok() ==> r.unwrap()@ == rpc_body(
                "eth_getBlockByHash"@,
                "["@ + json_str(hex_param_of(hash@)) + ",false]"@,
            ),
            r.is_err() ==> r == Err::<String, ErrorKind>(ErrorKind::BadRequest),
    {
        let h = hex_param(hash)?;
        let params = String::from_str("[").concat(quoted(h.as_str()).as_str()).concat(",false]");
        Ok(rpc_request("eth_getBlockByHash", params.as_str()))
    }

    /// Body of a call whose one parameter is the hash `hash`.
    fn by_hash_request(method: &str, hash: &str) -> (r: Result<String, ErrorKind>)
        ensures
            r.is_ok() <==> is_hex_param(hash@),
            r.is_ok() ==> r.unwrap()@ == rpc_body(method@, "["@ + json_str(hex_param_of(hash@)) + "]"@),
            r.is_err() ==> r == Err::<String, ErrorKind>(ErrorKind::BadRequest),
    {
        let h = hex_param(hash)?;
        let params = String::from_str("[").concat(quoted(h.as_str()).as_str()).concat("]");
        Ok(rpc_request(method, params.as_str()))
    }

    /// Body of `eth_getTransactionByHash`.
    pub fn transaction_by_hash_request(&self, hash: &str) -> (r: Result<String, ErrorKind>)
        ensures
            r.is_ok() <==> is_hex_param(hash@),
            r.is_ok() ==> r.unwrap()@ == rpc_body(
                "eth_getTransactionByHash"@,
                "["@ + json_str(hex_param_of(hash@)) + "]"@,
            ),
            r.is_err() ==> r == Err::<String, ErrorKind>(ErrorKind::BadRequest),
    {
        Self::by_hash_request("eth_getTransactionByHash", hash)
    }

    /// Body of `eth_getTransactionReceipt`.
    pub fn receipt_request(&self, hash: &str) -> (r: Result<String, ErrorKind>)
        ensures
            r.is_ok() <==> is_hex_param(hash@),
            r.is_ok() ==> r.unwrap()@ == rpc_body(
                "eth_getTransactionReceipt"@,
                "["@ + json_str(hex_param_of(hash@)) + "]"@,
            ),
            r.is_err() ==> r == Err::<String, ErrorKind>(ErrorKind::BadRequest),
    {
        Self::by_hash_request("eth_getTransactionReceipt", hash)
    }

    /// Body of `eth_sendRawTransaction` for a signed transaction in hex.
    pub fn send_raw_tx_request(&self, raw: &str) -> (r: Result<String, ErrorKind>)
        ensures
            r.is_ok() <==> is_hex_param(raw@),
            r.is_ok() ==> r.unwrap()@ == rpc_body(
                "eth_sendRawTransaction"@,
                "["@ + json_str(hex_param_of(raw@)) + "]"@,
            ),
            r.is_err() ==> r == Err::<String, ErrorKind>(ErrorKind::BadRequest),
    {
        Self::by_hash_request("eth_sendRawTransaction", raw)
    }

    /// Body of `eth_getTransactionCount` at the latest block, the account's nonce.
    pub fn nonce_request(&self, address: &EthereumAddress) -> (r: Result<String, ErrorKind>)
        ensures
            r.is_ok() <==> is_hex_param(address.0@),
            r.is_ok() ==> r.unwrap()@ == rpc_body(
                "eth_getTransactionCount"@,
                "["@ + json_str(hex_param_of(address.0@)) + ",\"latest\"]"@,
            ),
            r.is_err() ==> r == Err::<String, ErrorKind>(ErrorKind::BadRequest),
    {
        let a = hex_param(address.0.as_str())?;
        let params = String::from_str("[").concat(quoted(a.as_str()).as_str()).concat(
            ",\"latest\"]",
        );
        Ok(rpc_request("eth_getTransactionCount", params.as_str()))
    }

    /// The log filter `{address, topics}` of the token's Transfer events.
    fn transfer_filter(&self) -> (r: Result<String, ErrorKind>)
        ensures
            r.is_ok() <==> is_hex_param(self.stq_contract_address@) && is_hex_param(
                self.stq_transfer_topic@,
            ),
            r.is_ok() ==> r.unwrap()@ == transfer_filter_of(
                self.stq_contract_address@,
                self.stq_transfer_topic@,
            ),
            r.is_err() ==> r == Err::<String, ErrorKind>(ErrorKind::BadRequest),
    {
        let address = hex_param(self.stq_contract_address.as_str())?;
        let topic = hex_param(self.stq_transfer_topic.as_str())?;
        let r = String::from_str("{\"address\":").concat(quoted(address.as_str()).as_str()).concat(
            ",\"topics\":[",
        ).concat(quoted(topic.as_str()).as_str()).concat("]");
        Ok(r)
    }

    /// Body of the one `eth_getLogs` call that fetches the token's transfers in
    /// the inclusive block range.
    pub fn logs_in_range_request(&self, from_block: u64, to_block: u64) -> (r: Result<
        String,
        ErrorKind,
    >)
        ensures
            r.is_ok() <==> is_hex_param(self.stq_contract_address@) && is_hex_param(
                self.stq_transfer_topic@,
            ),
            r.is_ok() ==> r.unwrap()@ == rpc_body(
                "eth_getLogs"@,
                "["@ + transfer_filter_of(self.stq_contract_address@, self.stq_transfer_topic@)
                    + ",\"fromBlock\":"@ + json_str(quantity_repr(from_block as nat))
                    + ",\"toBlock\":"@ + json_str(quantity_repr(to_block as nat)) + "}]"@,
            ),
            r.is_err() ==> r == Err::<String, ErrorKind>(ErrorKind::BadRequest),
    {
        let filter = self.transfer_filter()?;
        let from = format_quantity(from_block as u128);
        let to = format_quantity(to_block as u128);
        let params = String::from_str("[").concat(filter.as_str()).concat(
            ",\"fromBlock\":",
        ).concat(quoted(from.as_str()).as_str()).concat(",\"toBlock\":").concat(
            quoted(to.as_str()).as_str(),
        ).concat("}]");
        assert(params@ =~= "["@ + filter@ + ",\"fromBlock\":"@ + json_str(
            quantity_repr(from_block as nat),
        ) + ",\"toBlock\":"@ + json_str(quantity_repr(to_block as nat)) + "}]"@);
        let r = rpc_request("eth_getLogs", params.as_str());
        Ok(r)
    }

    /// Body of the `eth_getLogs` call that fetches the token's transfers made by
    /// one transaction.
    pub fn logs_for_transaction_request(&self, hash: &str) -> (r: Result<String, ErrorKind>)
        ensures
            r.is_ok() <==> is_hex_param(self.stq_contract_address@) && is_hex_param(
                self.stq_transfer_topic@,
            ) && is_hex_param(hash@),
            r.is_ok() ==> r.unwrap()@ == rpc_body(
                "eth_getLogs"@,
                "["@ + transfer_filter_of(self.stq_contract_address@, self.stq_transfer_topic@)
                    + ",\"transactionHash\":"@ + json_str(hex_param_of(hash@)) + "}]"@,
            ),
            r.is_err() ==> r == Err::<String, ErrorKind>(ErrorKind::BadRequest),
    {
        let filter = self.transfer_filter()?;
        let h = hex_param(hash)?;
        let params = String::from_str("[").concat(filter.as_str()).concat(
            ",\"transactionHash\":",
        ).concat(quoted(h.as_str()).as_str()).concat("}]");
        assert(params@ =~= "["@ + filter@ + ",\"transactionHash\":"@ + json_str(
            hex_param_of(hash@),
        ) + "}]"@);
        Ok(rpc_request("eth_getLogs", params.as_str()))
    }

    /// The block number in the `result` of `eth_blockNumber` or in the `number`
    /// of a block.
    pub fn block_number_of(result: &str) -> (r: Result<u64, ErrorKind>)
        ensures
            r.is_ok() <==> is_u64_quantity(result@),
            r.is_ok() ==> r.unwrap() == quantity_value(result@),
            r.is_err() ==> r == Err::<u64, ErrorKind>(ErrorKind::Hex),
    {
        parse_hex_u64(result)
    }
}

/// Settings of the Bitcoin client.
#[derive(Clone, Debug)]
pub struct BitcoinClientImpl {
    pub mode: Mode,
    pub blockcypher_token: String,
}

impl BitcoinClientImpl {
    pub fn new(blockcypher_token: String, mode: Mode) -> (r: BitcoinClientImpl)
        ensures
            r.blockcypher_token@ == blockcypher_token@,
            r.mode == mode,
    {
        BitcoinClientImpl { mode, blockcypher_token }
    }

    /// Where the unspent outputs of `address` are listed.
    pub fn utxos_url(&self, address: &BitcoinAddress) -> (r: String)
        ensures
            r@ == utxo_base_of(self.mode) + "/unspent?active="@ + address.0@,
    {
        let base = match self.mode {
            Mode::Production => String::from_str("https://blockchain.info"),
            Mode::Development => String::from_str("https://testnet.blockchain.info"),
        };
        base.concat("/unspent?active=").concat(address.0.as_str())
    }
}

} // verus!
