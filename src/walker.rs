use vstd::prelude::*;

use crate::error::ErrorKind;
use crate::hex::quantity_value;
use crate::models::{
    Amount, BlockchainTransaction, PartialBlockchainTransaction, PartialView, TransactionView,
};
use crate::normalize::{
    eth_partial_of, eth_response_error, eth_response_ok, eth_response_to_partial_tx, finalized_of,
    log_error, log_ok, partial_tx_to_tx, receipt_hex_ok, stq_partial_of,
    stq_response_to_partial_tx,
};
use crate::responses::{StqResponseItem, TransactionReceiptResponse, TransactionResponse};

verus! {

pub open spec fn partial_views(ps: Seq<PartialBlockchainTransaction>) -> Seq<PartialView> {
    ps.map_values(|p: PartialBlockchainTransaction| p@)
}

pub open spec fn transaction_views(ts: Seq<BlockchainTransaction>) -> Seq<TransactionView> {
    ts.map_values(|t: BlockchainTransaction| t@)
}

/// The value-bearing transactions of a block, normalized, in block order.
pub open spec fn value_bearing(txs: Seq<TransactionResponse>) -> Seq<PartialView>
    decreases txs.len(),
{
    if txs.len() == 0 {
        Seq::empty()
    } else {
        let rest = value_bearing(txs.drop_last());
        if quantity_value(txs.last().value@) > 0 {
            rest.push(eth_partial_of(txs.last()))
        } else {
            rest
        }
    }
}

/// `i` is the first position of `s` where `ok` fails.
pub open spec fn first_failure<T>(s: Seq<T>, ok: spec_fn(T) -> bool, i: int) -> bool {
    &&& 0 <= i < s.len()
    &&& !ok(s[i])
    &&& forall|j: int| 0 <= j < i ==> ok(#[trigger] s[j])
}

/// The inclusive range of `blocks_count` blocks that ends at `to_block`.
pub open spec fn window_ok(to_block: u64, blocks_count: u64) -> bool {
    blocks_count >= 1 && to_block + 1 >= blocks_count
}

/// The inclusive range `[from, to_block]` of `blocks_count` blocks ending at `to_block`.
/// A count of zero, or one that reaches below block zero, is refused.
pub fn block_window(to_block: u64, blocks_count: u64) -> (r: Result<(u64, u64), ErrorKind>)
    ensures
        r.is_ok() <==> window_ok(to_block, blocks_count),
        r.is_ok() ==> r.unwrap() == (((to_block + 1 - blocks_count) as u64, to_block)),
        r.is_err() ==> r == Err::<(u64, u64), ErrorKind>(ErrorKind::BadRequest),
{
    if blocks_count == 0 || to_block < blocks_count - 1 {
        Err(ErrorKind::BadRequest)
    } else {
        Ok((to_block - (blocks_count - 1), to_block))
    }
}

/// Normalizes the transactions of one block, in order, and keeps those that move
/// a non-zero value. The first malformed transaction fails the whole block.
pub fn eth_transactions_for_block(txs: &Vec<TransactionResponse>) -> (r: Result<
    Vec<PartialBlockchainTransaction>,
    ErrorKind,
>)
    ensures
        r.is_ok() <==> forall|i: int| 0 <= i < txs@.len() ==> eth_response_ok(#[trigger] txs@[i]),
        r.is_ok() ==> {
            &&& partial_views(r.unwrap()@) == value_bearing(txs@)
            &&& forall|i: int|
                0 <= i < r.unwrap()@.len() ==> (#[trigger] r.unwrap()@[i]).wf()
                    && r.unwrap()@[i].to@[0].value.0 > 0
        },
        r.is_err() ==> exists|i: int|
            first_failure(txs@, |t: TransactionResponse| eth_response_ok(t), i) && r
                == Err::<Vec<PartialBlockchainTransaction>, ErrorKind>(
                eth_response_error(#[trigger] txs@[i]),
            ),
{
    let mut out: Vec<PartialBlockchainTransaction> = Vec::new();
    let mut i: usize = 0;
    while i < txs.len()
        invariant
            0 <= i <= txs@.len(),
            forall|j: int| 0 <= j < i ==> eth_response_ok(#[trigger] txs@[j]),
            partial_views(out@) == value_bearing(txs@.subrange(0, i as int)),
            forall|k: int|
                0 <= k < out@.len() ==> (#[trigger] out@[k]).wf() && out@[k].to@[0].value.0 > 0,
        decreases txs@.len() - i,
    {
        let ghost pre = txs@.subrange(0, i as int);
        let ghost next = txs@.subrange(0, i as int + 1);
        assert(next.drop_last() =~= pre);
        assert(next.last() == txs@[i as int]);
        let ghost old_out = out@;
        match eth_response_to_partial_tx(&txs[i]) {
            Ok(p) => {
                assert(p@.to[0].value == p.to@[0].value.0);
                if p.to[0].value.inner() > 0 {
                    out.push(p);
                    assert(partial_views(out@) =~= partial_views(old_out).push(p@));
                    assert(partial_views(out@) =~= value_bearing(next));
                } else {
                    assert(partial_views(out@) =~= value_bearing(next));
                }
            },
            Err(e) => {
                assert(first_failure(txs@, |t: TransactionResponse| eth_response_ok(t), i as int));
                return Err(e);
            },
        }
        i = i + 1;
    }
    assert(txs@.subrange(0, i as int) =~= txs@);
    Ok(out)
}

/// The value-bearing transactions of consecutive blocks, block after block.
pub open spec fn value_bearing_blocks(blocks: Seq<Vec<TransactionResponse>>) -> Seq<PartialView>
    decreases blocks.len(),
{
    if blocks.len() == 0 {
        Seq::empty()
    } else {
        value_bearing_blocks(blocks.drop_last()) + value_bearing(blocks.last()@)
    }
}

/// Every transaction of every block normalizes.
pub open spec fn blocks_ok(blocks: Seq<Vec<TransactionResponse>>) -> bool {
    forall|b: int, i: int|
        0 <= b < blocks.len() && 0 <= i < blocks[b]@.len() ==> eth_response_ok(
            #[trigger] blocks[b]@[i],
        )
}

/// Normalizes the blocks of a walk, given in ascending order, and keeps their
/// value-bearing transactions: blocks stay in the order given, and within a block
/// the order of the chain. The first block holding a malformed transaction fails
/// the walk with that transaction's error.
pub fn eth_transactions_for_blocks(blocks: &Vec<Vec<TransactionResponse>>) -> (r: Result<
    Vec<PartialBlockchainTransaction>,
    ErrorKind,
>)
    ensures
        r.is_ok() <==> blocks_ok(blocks@),
        r.is_ok() ==> {
            &&& partial_views(r.unwrap()@) == value_bearing_blocks(blocks@)
            &&& forall|i: int|
                0 <= i < r.unwrap()@.len() ==> (#[trigger] r.unwrap()@[i]).wf()
                    && r.unwrap()@[i].to@[0].value.0 > 0
        },
        r.is_err() ==> exists|b: int, i: int|
            0 <= b < blocks@.len() && (forall|c: int, k: int|
                0 <= c < b && 0 <= k < blocks@[c]@.len() ==> eth_response_ok(
                    #[trigger] blocks@[c]@[k],
                )) && first_failure(
                blocks@[b]@,
                |t: TransactionResponse| eth_response_ok(t),
                i,
            ) && r == Err::<Vec<PartialBlockchainTransaction>, ErrorKind>(
                eth_response_error(#[trigger] blocks@[b]@[i]),
            ),
{
    let mut out: Vec<PartialBlockchainTransaction> = Vec::new();
    let mut b: usize = 0;
    while b < blocks.len()
        invariant
            0 <= b <= blocks@.len(),
            forall|c: int, i: int|
                0 <= c < b && 0 <= i < blocks@[c]@.len() ==> eth_response_ok(
                    #[trigger] blocks@[c]@[i],
                ),
            partial_views(out@) == value_bearing_blocks(blocks@.subrange(0, b as int)),
            forall|k: int|
                0 <= k < out@.len() ==> (#[trigger] out@[k]).wf() && out@[k].to@[0].value.0 > 0,
        decreases blocks@.len() - b,
    {
        let ghost old_out = out@;
        let ghost next = blocks@.subrange(0, b as int + 1);
        assert(next.drop_last() =~= blocks@.subrange(0, b as int));
        assert(next.last() == blocks@[b as int]);
        let mut found = match eth_transactions_for_block(&blocks[b]) {
            Ok(v) => v,
            Err(e) => {
                return Err(e);
            },
        };
        let ghost found_view = found@;
        out.append(&mut found);
        assert(partial_views(out@) =~= partial_views(old_out) + partial_views(found_view));
        assert(forall|k: int|
            0 <= k < out@.len() ==> (#[trigger] out@[k]).wf() && out@[k].to@[0].value.0 > 0) by {
            assert forall|k: int| 0 <= k < out@.len() implies (#[trigger] out@[k]).wf()
                && out@[k].to@[0].value.0 > 0 by {
                if k >= old_out.len() {
                    assert(out@[k] == found_view[k - old_out.len()]);
                } else {
                    assert(out@[k] == old_out[k]);
                }
            }
        }
        b = b + 1;
    }
    assert(blocks@.subrange(0, b as int) =~= blocks@);
    Ok(out)
}

/// The token transfers of a range of logs, each with the gas price of its
/// transaction.
pub open spec fn stq_partials(logs: Seq<StqResponseItem>, gas_prices: Seq<Amount>) -> Seq<
    PartialView,
> {
    Seq::new(logs.len(), |i: int| stq_partial_of(logs[i], gas_prices[i].0 as nat))
}

/// Normalizes transfer logs in order; `gas_prices[i]` is the gas price of the
/// transaction that emitted `logs[i]`. Mismatched lengths are an internal error;
/// otherwise the first malformed log fails the whole range.
pub fn stq_transactions_for_logs(logs: &Vec<StqResponseItem>, gas_prices: &Vec<Amount>) -> (r:
    Result<Vec<PartialBlockchainTransaction>, ErrorKind>)
    ensures
        logs@.len() != gas_prices@.len() ==> r == Err::<
            Vec<PartialBlockchainTransaction>,
            ErrorKind,
        >(ErrorKind::Internal),
        logs@.len() == gas_prices@.len() ==> {
            &&& r.is_ok() <==> forall|i: int| 0 <= i < logs@.len() ==> log_ok(#[trigger] logs@[i])
            &&& r.is_ok() ==> partial_views(r.unwrap()@) == stq_partials(logs@, gas_prices@)
                && forall|i: int| 0 <= i < r.unwrap()@.len() ==> (#[trigger] r.unwrap()@[i]).wf()
            &&& r.is_err() ==> exists|i: int|
                first_failure(logs@, |l: StqResponseItem| log_ok(l), i) && r == Err::<
                    Vec<PartialBlockchainTransaction>,
                    ErrorKind,
                >(log_error(#[trigger] logs@[i]))
        },
{
    if logs.len() != gas_prices.len() {
        return Err(ErrorKind::Internal);
    }
    let mut out: Vec<PartialBlockchainTransaction> = Vec::new();
    let mut i: usize = 0;
    while i < logs.len()
        invariant
            0 <= i <= logs@.len(),
            logs@.len() == gas_prices@.len(),
            forall|j: int| 0 <= j < i ==> log_ok(#[trigger] logs@[j]),
            partial_views(out@) =~= stq_partials(logs@, gas_prices@).subrange(0, i as int),
            forall|k: int| 0 <= k < out@.len() ==> (#[trigger] out@[k]).wf(),
        decreases logs@.len() - i,
    {
        let ghost old_out = out@;
        match stq_response_to_partial_tx(&logs[i], gas_prices[i]) {
            Ok(p) => {
                out.push(p);
                assert(partial_views(out@) =~= partial_views(old_out).push(p@));
                assert(partial_views(out@) =~= stq_partials(logs@, gas_prices@).subrange(
                    0,
                    i as int + 1,
                ));
            },
            Err(e) => {
                assert(first_failure(logs@, |l: StqResponseItem| log_ok(l), i as int));
                return Err(e);
            },
        }
        i = i + 1;
    }
    assert(stq_partials(logs@, gas_prices@).subrange(0, i as int) =~= stq_partials(
        logs@,
        gas_prices@,
    ));
    Ok(out)
}

/// A receipt with which a partial transaction can be finalized.
pub open spec fn receipt_ok_for(p: PartialView, r: TransactionReceiptResponse) -> bool {
    &&& receipt_hex_ok(r)
    &&& quantity_value(r.gas_used@) * p.gas_price <= u128::MAX
}

pub open spec fn receipt_error_for(p: PartialView, r: TransactionReceiptResponse) -> ErrorKind {
    if !receipt_hex_ok(r) {
        ErrorKind::Hex
    } else {
        ErrorKind::Overflow
    }
}

/// The published records of a batch: each partial transaction with its fee and
/// confirmations, less those whose receipt lies beyond `tip`.
pub open spec fn finalized_batch(
    ps: Seq<PartialView>,
    rs: Seq<TransactionReceiptResponse>,
    tip: nat,
) -> Seq<TransactionView>
    decreases ps.len(),
{
    if ps.len() == 0 || rs.len() != ps.len() {
        Seq::empty()
    } else {
        let rest = finalized_batch(ps.drop_last(), rs.drop_last(), tip);
        let p = ps.last();
        let r = rs.last();
        let mined = quantity_value(r.block_number@);
        if tip >= mined {
            rest.push(
                finalized_of(
                    p,
                    quantity_value(r.gas_used@) * p.gas_price,
                    (tip - mined) as nat,
                ),
            )
        } else {
            rest
        }
    }
}

pub open spec fn batch_ok(ps: Seq<PartialView>, rs: Seq<TransactionReceiptResponse>) -> bool {
    forall|i: int| 0 <= i < ps.len() ==> receipt_ok_for(#[trigger] ps[i], rs[i])
}

/// Finalizes a batch in order against one tip: `receipts[i]` is the receipt of
/// `partials[i]`. A transaction whose receipt lies beyond `current_block` is
/// dropped; the first bad receipt or fee overflow fails the batch.
pub fn finalize_batch(
    partials: Vec<PartialBlockchainTransaction>,
    receipts: &Vec<TransactionReceiptResponse>,
    current_block: u64,
) -> (r: Result<Vec<BlockchainTransaction>, ErrorKind>)
    ensures
        partials@.len() != receipts@.len() ==> r == Err::<
            Vec<BlockchainTransaction>,
            ErrorKind,
        >(ErrorKind::Internal),
        partials@.len() == receipts@.len() ==> {
            let ps = partial_views(partials@);
            &&& r.is_ok() <==> batch_ok(ps, receipts@)
            &&& r.is_ok() ==> transaction_views(r.unwrap()@) == finalized_batch(
                ps,
                receipts@,
                current_block as nat,
            ) && forall|i: int|
                0 <= i < r.unwrap()@.len() ==> #[trigger] r.unwrap()@[i].confirmations
                    <= current_block
            &&& r.is_err() ==> exists|i: int|
                0 <= i < ps.len() && !receipt_ok_for(ps[i], receipts@[i]) && (forall|j: int|
                    0 <= j < i ==> receipt_ok_for(#[trigger] ps[j], receipts@[j])) && r == Err::<
                    Vec<BlockchainTransaction>,
                    ErrorKind,
                >(receipt_error_for(#[trigger] ps[i], receipts@[i]))
        },
{
    if partials.len() != receipts.len() {
        return Err(ErrorKind::Internal);
    }
    let ghost ps = partial_views(partials@);
    let ghost n = partials@.len();
    let mut rest = partials;
    let mut out: Vec<BlockchainTransaction> = Vec::new();
    let mut i: usize = 0;
    while i < receipts.len()
        invariant
            0 <= i <= n,
            n == receipts@.len(),
            n == partials@.len(),
            ps == partial_views(partials@),
            ps.len() == n,
            partial_views(rest@) =~= ps.subrange(i as int, n as int),
            rest@.len() == n - i,
            forall|j: int| 0 <= j < i ==> receipt_ok_for(#[trigger] ps[j], receipts@[j]),
            transaction_views(out@) == finalized_batch(
                ps.subrange(0, i as int),
                receipts@.subrange(0, i as int),
                current_block as nat,
            ),
            forall|k: int| 0 <= k < out@.len() ==> #[trigger] out@[k].confirmations <= current_block,
        decreases n - i,
    {
        let ghost old_rest = rest@;
        let ghost old_out = out@;
        assert(partial_views(old_rest)[0] == ps[i as int]);
        let p = rest.remove(0);
        assert(p@ == ps[i as int]);
        assert(rest@ =~= old_rest.subrange(1, old_rest.len() as int));
        assert(partial_views(rest@) =~= partial_views(old_rest).subrange(
            1,
            old_rest.len() as int,
        ));
        assert(partial_views(rest@) =~= ps.subrange(i as int + 1, n as int));
        let ghost pre_p = ps.subrange(0, i as int);
        let ghost next_p = ps.subrange(0, i as int + 1);
        let ghost pre_r = receipts@.subrange(0, i as int);
        let ghost next_r = receipts@.subrange(0, i as int + 1);
        assert(next_p.drop_last() =~= pre_p);
        assert(next_r.drop_last() =~= pre_r);
        match partial_tx_to_tx(p, &receipts[i], current_block) {
            Ok(Some(t)) => {
                out.push(t);
                assert(transaction_views(out@) =~= transaction_views(old_out).push(t@));
                assert(transaction_views(out@) =~= finalized_batch(
                    next_p,
                    next_r,
                    current_block as nat,
                ));
            },
            Ok(None) => {
                assert(transaction_views(out@) =~= finalized_batch(
                    next_p,
                    next_r,
                    current_block as nat,
                ));
            },
            Err(e) => {
                assert(!receipt_ok_for(ps[i as int], receipts@[i as int]));
                assert(e == receipt_error_for(ps[i as int], receipts@[i as int]));
                return Err(e);
            },
        }
        i = i + 1;
    }
    assert(ps.subrange(0, i as int) =~= ps);
    assert(receipts@.subrange(0, i as int) =~= receipts@);
    Ok(out)
}

} // verus!
