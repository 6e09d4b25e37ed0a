use vstd::prelude::*;

verus! {

/// The chains and tokens the gateway observes.
#[derive(Clone, Copy, Debug, PartialEq, Eq, Structural)]
pub enum Currency {
    Btc,
    Eth,
    Stq,
}

/// Which deployment the gateway talks to.
#[derive(Clone, Copy, Debug, PartialEq, Eq, Structural)]
pub enum Mode {
    Production,
    Development,
}

/// A quantity in the smallest denomination of its currency (satoshi or wei).
#[derive(Clone, Copy, Debug, PartialEq, Eq, Structural)]
pub struct Amount(pub u128);

impl Amount {
    pub fn new(value: u128) -> (r: Amount)
        ensures
            r.0 == value,
    {
        Amount(value)
    }

    pub fn inner(&self) -> (r: u128)
        ensures
            r == self.0,
    {
        self.0
    }

    /// Product of two amounts, or `None` where it does not fit in 128 bits.
    pub fn checked_mul(&self, other: Amount) -> (r: Option<Amount>)
        ensures
            self.0 * other.0 <= u128::MAX ==> r == Some(Amount((self.0 * other.0) as u128)),
            self.0 * other.0 > u128::MAX ==> r.is_none(),
    {
        match self.0.checked_mul(other.0) {
            Some(v) => Some(Amount(v)),
            None => None,
        }
    }
}

/// One recipient of a transfer.
#[derive(Clone, Debug)]
pub struct BlockchainTransactionEntry {
    pub address: String,
    pub value: Amount,
}

pub struct EntryView {
    pub address: Seq<char>,
    pub value: nat,
}

impl View for BlockchainTransactionEntry {
    type V = EntryView;

    open spec fn view(&self) -> EntryView {
        EntryView { address: self.address@, value: self.value.0 as nat }
    }
}

/// A normalized transfer whose fee is not known yet.
#[derive(Clone, Debug)]
pub struct PartialBlockchainTransaction {
    pub hash: String,
    pub from: Vec<String>,
    pub to: Vec<BlockchainTransactionEntry>,
    pub block_number: u64,
    pub currency: Currency,
    pub gas_price: Amount,
}

pub struct PartialView {
    pub hash: Seq<char>,
    pub from: Seq<Seq<char>>,
    pub to: Seq<EntryView>,
    pub block_number: nat,
    pub currency: Currency,
    pub gas_price: nat,
}

impl View for PartialBlockchainTransaction {
    type V = PartialView;

    open spec fn view(&self) -> PartialView {
        PartialView {
            hash: self.hash@,
            from: self.from@.map_values(|s: String| s@),
            to: self.to@.map_values(|e: BlockchainTransactionEntry| e@),
            block_number: self.block_number as nat,
            currency: self.currency,
            gas_price: self.gas_price.0 as nat,
        }
    }
}

impl PartialBlockchainTransaction {
    /// Senders and recipients are present and the block is past genesis.
    pub open spec fn wf(&self) -> bool {
        &&& self.from@.len() > 0
        &&& self.to@.len() > 0
        &&& self.block_number > 0
    }
}

/// The final, published record of a transfer.
#[derive(Clone, Debug)]
pub struct BlockchainTransaction {
    pub hash: String,
    pub from: Vec<String>,
    pub to: Vec<BlockchainTransactionEntry>,
    pub block_number: u64,
    pub currency: Currency,
    pub fee: Amount,
    pub confirmations: u64,
}

pub struct TransactionView {
    pub hash: Seq<char>,
    pub from: Seq<Seq<char>>,
    pub to: Seq<EntryView>,
    pub block_number: nat,
    pub currency: Currency,
    pub fee: nat,
    pub confirmations: nat,
}

impl View for BlockchainTransaction {
    type V = TransactionView;

    open spec fn view(&self) -> TransactionView {
        TransactionView {
            hash: self.hash@,
            from: self.from@.map_values(|s: String| s@),
            to: self.to@.map_values(|e: BlockchainTransactionEntry| e@),
            block_number: self.block_number as nat,
            currency: self.currency,
            fee: self.fee.0 as nat,
            confirmations: self.confirmations as nat,
        }
    }
}

/// Base58 encoded bitcoin address.
#[derive(Clone, Debug)]
pub struct BitcoinAddress(pub String);

impl BitcoinAddress {
    /// Takes any text as an address; the chain is the judge of its validity.
    pub fn from_str(s: &str) -> (r: BitcoinAddress)
        ensures
            r.0@ == s@,
    {
        BitcoinAddress(String::from_str(s))
    }

    /// The address as written.
    pub fn to_string(&self) -> (r: String)
        ensures
            r@ == self.0@,
    {
        self.0.clone()
    }
}

/// Hex encoded ethereum address.
#[derive(Clone, Debug)]
pub struct EthereumAddress(pub String);

impl EthereumAddress {
    pub fn from_str(s: &str) -> (r: EthereumAddress)
        ensures
            r.0@ == s@,
    {
        EthereumAddress(String::from_str(s))
    }

    /// The address as written.
    pub fn to_string(&self) -> (r: String)
        ensures
            r@ == self.0@,
    {
        self.0.clone()
    }
}

/// Body of a request to submit a signed raw bitcoin transaction.
#[derive(Clone, Debug)]
pub struct PostBitcoinTransactionRequest {
    pub raw: String,
}

/// Body of a request to submit a signed raw ethereum transaction.
#[derive(Clone, Debug)]
pub struct PostEthereumTransactionRequest {
    pub raw: String,
}

} // verus!
