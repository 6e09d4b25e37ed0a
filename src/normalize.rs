use vstd::prelude::*;

use crate::error::ErrorKind;
use crate::hex::{
    all_hex, dec_repr, format_decimal, is_decimal_digit, is_hex_digit, is_hex_quantity,
    is_hex_text, is_lower_hex_digit, is_u64_quantity, lemma_dec_repr, lemma_dec_repr_injective, parse_hex, parse_hex_u64, quantity_value,
    fold_lower_hex, strip_0x, strip_hex_prefix, to_lower_hex,
};
use crate::models::{
    Amount, BlockchainTransaction, BlockchainTransactionEntry, Currency, EntryView,
    PartialBlockchainTransaction, PartialView, TransactionView,
};
use crate::responses::{StqResponseItem, TransactionReceiptResponse, TransactionResponse};

verus! {

/// Hex characters of an address in a padded 32-byte topic.
pub const ADDRESS_LENGTH: usize = 40;

/// A 32-byte topic as JSON-RPC writes it: `0x` and 64 hexadecimal digits.
pub open spec fn is_padded_topic(t: Seq<char>) -> bool {
    &&& t.len() == 66
    &&& t[0] == '0'
    &&& t[1] == 'x'
    &&& all_hex(t.subrange(2, 66))
}

/// The address that a padded topic holds: its last 20 bytes, in lower case.
pub open spec fn topic_address_of(t: Seq<char>) -> Seq<char> {
    fold_lower_hex(t.subrange(26, 66))
}

/// Recipient of a native transfer, in lower case; `0` for a contract creation.
pub open spec fn recipient_of(to: Option<String>) -> Seq<char> {
    match to {
        Some(t) => fold_lower_hex(strip_0x(t@)),
        None => seq!['0'],
    }
}

pub open spec fn eth_response_hex_ok(r: TransactionResponse) -> bool {
    &&& is_u64_quantity(r.block_number@)
    &&& is_hex_quantity(r.value@)
    &&& is_hex_quantity(r.gas_price@)
}

pub open spec fn eth_response_ok(r: TransactionResponse) -> bool {
    eth_response_hex_ok(r) && quantity_value(r.block_number@) > 0
}

/// What a native transaction normalizes to.
pub open spec fn eth_partial_of(r: TransactionResponse) -> PartialView {
    PartialView {
        hash: strip_0x(r.hash@),
        from: seq![fold_lower_hex(strip_0x(r.from@))],
        to: seq![EntryView { address: recipient_of(r.to), value: quantity_value(r.value@) }],
        block_number: quantity_value(r.block_number@),
        currency: Currency::Eth,
        gas_price: quantity_value(r.gas_price@),
    }
}

/// The error that normalizing a malformed native transaction gives.
pub open spec fn eth_response_error(r: TransactionResponse) -> ErrorKind {
    if !eth_response_hex_ok(r) {
        ErrorKind::Hex
    } else {
        ErrorKind::Internal
    }
}

pub open spec fn log_topics_ok(l: StqResponseItem) -> bool {
    &&& l.topics@.len() >= 3
    &&& is_padded_topic(l.topics@[1]@)
    &&& is_padded_topic(l.topics@[2]@)
}

pub open spec fn log_hex_ok(l: StqResponseItem) -> bool {
    &&& is_u64_quantity(l.block_number@)
    &&& is_hex_quantity(l.data@)
    &&& is_hex_quantity(l.log_index@)
}

pub open spec fn log_ok(l: StqResponseItem) -> bool {
    log_topics_ok(l) && log_hex_ok(l) && quantity_value(l.block_number@) > 0
}

/// The error that normalizing a malformed transfer log gives.
pub open spec fn log_error(l: StqResponseItem) -> ErrorKind {
    if !log_topics_ok(l) {
        ErrorKind::Topics
    } else if !log_hex_ok(l) {
        ErrorKind::Hex
    } else {
        ErrorKind::Internal
    }
}

/// Identity of one token transfer: the transaction hash and the log's index.
pub open spec fn stq_hash_of(l: StqResponseItem) -> Seq<char> {
    strip_0x(l.transaction_hash@) + seq![':'] + dec_repr(quantity_value(l.log_index@))
}

/// What a transfer log normalizes to, with the gas price of its transaction.
pub open spec fn stq_partial_of(l: StqResponseItem, gas_price: nat) -> PartialView {
    PartialView {
        hash: stq_hash_of(l),
        from: seq![topic_address_of(l.topics@[1]@)],
        to: seq![EntryView { address: topic_address_of(l.topics@[2]@), value: quantity_value(l.data@) }],
        block_number: quantity_value(l.block_number@),
        currency: Currency::Stq,
        gas_price,
    }
}

pub open spec fn finalized_of(p: PartialView, fee: nat, confirmations: nat) -> TransactionView {
    TransactionView {
        hash: p.hash,
        from: p.from,
        to: p.to,
        block_number: p.block_number,
        currency: p.currency,
        fee,
        confirmations,
    }
}

pub open spec fn receipt_hex_ok(r: TransactionReceiptResponse) -> bool {
    is_hex_quantity(r.gas_used@) && is_u64_quantity(r.block_number@)
}

fn owned(s: &str) -> (r: String)
    ensures
        r@ == s@,
{
    String::from_str(s)
}

/// The address of a padded 32-byte topic: its last 40 hexadecimal characters.
pub fn topic_address(topic: &str) -> (r: Result<String, ErrorKind>)
    ensures
        r.is_ok() <==> is_padded_topic(topic@),
        r.is_ok() ==> r.unwrap()@ == topic_address_of(topic@) && r.unwrap()@.len() == ADDRESS_LENGTH,
        r.is_err() ==> r == Err::<String, ErrorKind>(ErrorKind::Topics),
{
    let n = topic.unicode_len();
    if n != 66 || topic.get_char(0) != '0' || topic.get_char(1) != 'x' {
        return Err(ErrorKind::Topics);
    }
    let digits = topic.substring_char(2, 66);
    match is_hex_text(digits) {
        true => {},
        false => {
            return Err(ErrorKind::Topics);
        },
    }
    Ok(to_lower_hex(topic.substring_char(66 - ADDRESS_LENGTH, 66)))
}

/// Normalizes a native ETH transaction. Block number, value and gas price are
/// decoded from hexadecimal; hash and addresses lose their `0x`, and addresses
/// are written in lower case.
pub fn eth_response_to_partial_tx(resp: &TransactionResponse) -> (r: Result<
    PartialBlockchainTransaction,
    ErrorKind,
>)
    ensures
        r.is_ok() <==> eth_response_ok(*resp),
        r.is_ok() ==> r.unwrap()@ == eth_partial_of(*resp) && r.unwrap().wf(),
        r.is_err() ==> r == Err::<PartialBlockchainTransaction, ErrorKind>(
            eth_response_error(*resp),
        ),
{
    let block_number = parse_hex_u64(resp.block_number.as_str());
    let value = parse_hex(resp.value.as_str());
    let gas_price = parse_hex(resp.gas_price.as_str());
    let (block_number, value, gas_price) = match (block_number, value, gas_price) {
        (Ok(b), Ok(v), Ok(g)) => (b, v, g),
        _ => {
            return Err(ErrorKind::Hex);
        },
    };
    if block_number == 0 {
        return Err(ErrorKind::Internal);
    }
    let to_address = match &resp.to {
        Some(t) => to_lower_hex(strip_hex_prefix(t.as_str())),
        None => {
            let zero = "0";
            proof {
                reveal_strlit("0");
            }
            assert(zero@ =~= seq!['0']);
            owned(zero)
        },
    };
    assert(to_address@ == recipient_of(resp.to));
    let mut from: Vec<String> = Vec::new();
    from.push(to_lower_hex(strip_hex_prefix(resp.from.as_str())));
    let mut to: Vec<BlockchainTransactionEntry> = Vec::new();
    to.push(BlockchainTransactionEntry { address: to_address, value: Amount::new(value) });
    let p = PartialBlockchainTransaction {
        hash: owned(strip_hex_prefix(resp.hash.as_str())),
        from,
        to,
        block_number,
        currency: Currency::Eth,
        gas_price: Amount::new(gas_price),
    };
    assert(p@.from =~= eth_partial_of(*resp).from);
    assert(p@.to =~= eth_partial_of(*resp).to);
    Ok(p)
}

/// Normalizes an ERC-20 Transfer log. The gas price is not in the log: the caller
/// supplies that of the transaction that emitted it.
pub fn stq_response_to_partial_tx(log: &StqResponseItem, gas_price: Amount) -> (r: Result<
    PartialBlockchainTransaction,
    ErrorKind,
>)
    ensures
        r.is_ok() <==> log_ok(*log),
        r.is_ok() ==> r.unwrap()@ == stq_partial_of(*log, gas_price.0 as nat) && r.unwrap().wf(),
        r.is_ok() ==> r.unwrap().from@[0]@.len() == ADDRESS_LENGTH
            && r.unwrap().to@[0].address@.len() == ADDRESS_LENGTH,
        r.is_err() ==> r == Err::<PartialBlockchainTransaction, ErrorKind>(log_error(*log)),
{
    if log.topics.len() < 3 {
        return Err(ErrorKind::Topics);
    }
    let from_address = topic_address(log.topics[1].as_str())?;
    let to_address = topic_address(log.topics[2].as_str())?;
    let block_number = parse_hex_u64(log.block_number.as_str());
    let value = parse_hex(log.data.as_str());
    let log_index = parse_hex(log.log_index.as_str());
    let (block_number, value, log_index) = match (block_number, value, log_index) {
        (Ok(b), Ok(v), Ok(i)) => (b, v, i),
        _ => {
            return Err(ErrorKind::Hex);
        },
    };
    if block_number == 0 {
        return Err(ErrorKind::Internal);
    }
    let colon = ":";
    proof {
        reveal_strlit(":");
    }
    let hash = owned(strip_hex_prefix(log.transaction_hash.as_str())).concat(colon).concat(
        format_decimal(log_index).as_str(),
    );
    let mut from: Vec<String> = Vec::new();
    from.push(from_address);
    let mut to: Vec<BlockchainTransactionEntry> = Vec::new();
    to.push(BlockchainTransactionEntry { address: to_address, value: Amount::new(value) });
    let p = PartialBlockchainTransaction {
        hash,
        from,
        to,
        block_number,
        currency: Currency::Stq,
        gas_price,
    };
    assert(p@.hash =~= stq_hash_of(*log));
    assert(p@.from =~= stq_partial_of(*log, gas_price.0 as nat).from);
    assert(p@.to =~= stq_partial_of(*log, gas_price.0 as nat).to);
    Ok(p)
}

/// Attaches the receipt-derived fee and the confirmation count to a partial
/// transaction. The fee is `gas_used * gas_price`, checked; confirmations are
/// `current_block` less the receipt's block. A receipt from beyond
/// `current_block` gives `Ok(None)`: such a transaction is dropped.
pub fn partial_tx_to_tx(
    tx: PartialBlockchainTransaction,
    receipt: &TransactionReceiptResponse,
    current_block: u64,
) -> (r: Result<Option<BlockchainTransaction>, ErrorKind>)
    ensures
        !receipt_hex_ok(*receipt) <==> r == Err::<Option<BlockchainTransaction>, ErrorKind>(
            ErrorKind::Hex,
        ),
        receipt_hex_ok(*receipt) ==> {
            let gas_used = quantity_value(receipt.gas_used@);
            let mined = quantity_value(receipt.block_number@);
            let fee = gas_used * tx.gas_price.0;
            &&& fee > u128::MAX <==> r == Err::<Option<BlockchainTransaction>, ErrorKind>(
                ErrorKind::Overflow,
            )
            &&& fee <= u128::MAX && current_block < mined ==> r == Ok::<
                Option<BlockchainTransaction>,
                ErrorKind,
            >(None)
            &&& fee <= u128::MAX && current_block >= mined ==> {
                &&& r.is_ok() && r.unwrap().is_some()
                &&& r.unwrap().unwrap()@ == finalized_of(
                    tx@,
                    fee as nat,
                    (current_block - mined) as nat,
                )
                &&& r.unwrap().unwrap().fee.0 == fee
                &&& r.unwrap().unwrap().confirmations + mined == current_block
                &&& mined == tx.block_number ==> r.unwrap().unwrap().confirmations
                    + r.unwrap().unwrap().block_number == current_block
            }
        },
{
    let gas_used = parse_hex(receipt.gas_used.as_str());
    let mined = parse_hex_u64(receipt.block_number.as_str());
    let (gas_used, mined) = match (gas_used, mined) {
        (Ok(g), Ok(m)) => (g, m),
        _ => {
            return Err(ErrorKind::Hex);
        },
    };
    let fee = match Amount::new(gas_used).checked_mul(tx.gas_price) {
        Some(fee) => fee,
        None => {
            return Err(ErrorKind::Overflow);
        },
    };
    if current_block < mined {
        return Ok(None);
    }
    Ok(
        Some(
            BlockchainTransaction {
                hash: tx.hash,
                from: tx.from,
                to: tx.to,
                block_number: tx.block_number,
                currency: tx.currency,
                fee,
                confirmations: current_block - mined,
            },
        ),
    )
}

/// Sum of a sequence of amounts.
pub open spec fn amount_sum(s: Seq<Amount>) -> nat
    decreases s.len(),
{
    if s.len() == 0 {
        0
    } else {
        amount_sum(s.drop_last()) + s.last().0 as nat
    }
}

/// The fee of a bitcoin transaction: what its inputs bring less what its outputs
/// pay. A sum past 128 bits, or outputs above inputs, is an `Overflow` error.
pub fn btc_fee(inputs: &Vec<Amount>, outputs: &Vec<Amount>) -> (r: Result<Amount, ErrorKind>)
    ensures
        r.is_ok() <==> amount_sum(inputs@) <= u128::MAX && amount_sum(outputs@) <= amount_sum(
            inputs@,
        ),
        r.is_ok() ==> r.unwrap().0 == amount_sum(inputs@) - amount_sum(outputs@),
        r.is_err() ==> r == Err::<Amount, ErrorKind>(ErrorKind::Overflow),
{
    let total_in = match checked_total(inputs) {
        Some(t) => t,
        None => {
            return Err(ErrorKind::Overflow);
        },
    };
    let total_out = match checked_total(outputs) {
        Some(t) => t,
        None => {
            return Err(ErrorKind::Overflow);
        },
    };
    if total_out > total_in {
        Err(ErrorKind::Overflow)
    } else {
        Ok(Amount::new(total_in - total_out))
    }
}

proof fn lemma_amount_sum_prefix_le(s: Seq<Amount>, j: int)
    requires
        0 <= j <= s.len(),
    ensures
        amount_sum(s.subrange(0, j)) <= amount_sum(s),
    decreases s.len(),
{
    if j < s.len() {
        lemma_amount_sum_prefix_le(s.drop_last(), j);
        assert(s.drop_last().subrange(0, j) =~= s.subrange(0, j));
    } else {
        assert(s.subrange(0, j) =~= s);
    }
}

fn checked_total(s: &Vec<Amount>) -> (r: Option<u128>)
    ensures
        r.is_some() <==> amount_sum(s@) <= u128::MAX,
        r.is_some() ==> r.unwrap() == amount_sum(s@),
{
    let mut total: u128 = 0;
    let mut i: usize = 0;
    while i < s.len()
        invariant
            0 <= i <= s@.len(),
            total == amount_sum(s@.subrange(0, i as int)),
        decreases s@.len() - i,
    {
        assert(s@.subrange(0, i as int + 1).drop_last() =~= s@.subrange(0, i as int));
        if total > u128::MAX - s[i].0 {
            proof {
                lemma_amount_sum_prefix_le(s@, i as int + 1);
            }
            return None;
        }
        total = total + s[i].0;
        i = i + 1;
    }
    assert(s@.subrange(0, i as int) =~= s@);
    Some(total)
}

/// A transaction hash as the chain writes it: `0x` and 64 lower-case hex digits.
pub open spec fn is_tx_hash(h: Seq<char>) -> bool {
    &&& h.len() == 66
    &&& h[0] == '0'
    &&& h[1] == 'x'
    &&& forall|i: int| 2 <= i < 66 ==> is_lower_hex_digit(#[trigger] h[i])
}

/// `h` is 64 lower-case hex digits, a colon, and one or more decimal digits.
pub open spec fn is_stq_hash(h: Seq<char>) -> bool {
    &&& h.len() > 65
    &&& forall|i: int| 0 <= i < 64 ==> is_lower_hex_digit(#[trigger] h[i])
    &&& h[64] == ':'
    &&& forall|i: int| 65 <= i < h.len() ==> is_decimal_digit(#[trigger] h[i])
}

/// A token transfer from a log of a well-formed transaction hash is identified
/// by 64 lower-case hex digits, a colon and the decimal log index.
pub proof fn lemma_stq_hash_format(log: StqResponseItem, gas_price: nat)
    requires
        is_tx_hash(log.transaction_hash@),
    ensures
        is_stq_hash(stq_partial_of(log, gas_price).hash),
{
    let t = log.transaction_hash@;
    let d = dec_repr(quantity_value(log.log_index@));
    lemma_dec_repr(quantity_value(log.log_index@));
    let h = stq_hash_of(log);
    assert(strip_0x(t) =~= t.subrange(2, 66));
    assert forall|i: int| 0 <= i < 64 implies is_lower_hex_digit(#[trigger] h[i]) by {
        assert(h[i] == t[i + 2]);
    }
    assert forall|i: int| 65 <= i < h.len() implies is_decimal_digit(#[trigger] h[i]) by {
        assert(h[i] == d[i - 65]);
    }
}

/// Transfers from logs of well-formed transaction hashes share an identity
/// exactly when they come from the same transaction and the same log index, so a
/// consumer that keys by hash merges re-deliveries of one transfer and nothing else.
pub proof fn lemma_stq_hash_identifies_transfer(a: StqResponseItem, b: StqResponseItem)
    requires
        is_tx_hash(a.transaction_hash@),
        is_tx_hash(b.transaction_hash@),
    ensures
        stq_hash_of(a) == stq_hash_of(b) <==> a.transaction_hash@ == b.transaction_hash@
            && quantity_value(a.log_index@) == quantity_value(b.log_index@),
{
    let ta = a.transaction_hash@;
    let tb = b.transaction_hash@;
    let da = dec_repr(quantity_value(a.log_index@));
    let db = dec_repr(quantity_value(b.log_index@));
    let ha = stq_hash_of(a);
    let hb = stq_hash_of(b);
    assert(strip_0x(ta) =~= ta.subrange(2, 66));
    assert(strip_0x(tb) =~= tb.subrange(2, 66));
    if ha == hb {
        assert(ha.subrange(0, 64) =~= ta.subrange(2, 66));
        assert(hb.subrange(0, 64) =~= tb.subrange(2, 66));
        assert(ta =~= tb) by {
            assert forall|i: int| 0 <= i < 66 implies ta[i] == tb[i] by {
                if i >= 2 {
                    assert(ta[i] == ta.subrange(2, 66)[i - 2]);
                    assert(tb[i] == tb.subrange(2, 66)[i - 2]);
                }
            }
        }
        assert(ha.subrange(65, ha.len() as int) =~= da);
        assert(hb.subrange(65, hb.len() as int) =~= db);
        lemma_dec_repr_injective(quantity_value(a.log_index@), quantity_value(b.log_index@));
    }
}

} // verus!
