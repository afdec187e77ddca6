use crate::address::Address;
use crate::allocation::{allocation_ratio, bin_entitlement, effective_payment, PRECISION_FACTOR};
use crate::claim::{auction_after_claim, claim_failure, committed_after_claim};
use crate::errors::ResetError;
use crate::instructions::{
    auction_after_commit, auction_after_decrease, auction_after_set_price, commit_failure,
    committed_after_commit, committed_after_decrease, committed_bins_after_commit,
    decrease_commit_rejection, set_price_rejection, withdraw_fees_rejection,
    SignatureIntrospection,
};
use crate::state::{
    entry_position, lemma_entry_position, AuctionBin, AuctionData, CommittedBin, CommittedData,
};
use vstd::prelude::*;

verus! {

/// The sum of `value` over the items of a sequence.
pub open spec fn sum_of<T>(items: Seq<T>, value: spec_fn(T) -> int) -> int
    decreases items.len(),
{
    if items.len() == 0 {
        0
    } else {
        sum_of(items.drop_last(), value) + value(items.last())
    }
}

/// Adding an item at the end adds its value to the sum.
pub proof fn lemma_sum_push<T>(items: Seq<T>, value: spec_fn(T) -> int, item: T)
    ensures
        sum_of(items.push(item), value) == sum_of(items, value) + value(item),
{
    assert(items.push(item).drop_last() =~= items);
}

/// Replacing an item changes the sum by the difference of the two values.
pub proof fn lemma_sum_update<T>(items: Seq<T>, value: spec_fn(T) -> int, i: int, item: T)
    requires
        0 <= i < items.len(),
    ensures
        sum_of(items.update(i, item), value) == sum_of(items, value) - value(items[i]) + value(
            item,
        ),
    decreases items.len(),
{
    let updated = items.update(i, item);
    if i == items.len() - 1 {
        assert(updated.drop_last() =~= items.drop_last());
    } else {
        assert(updated.drop_last() =~= items.drop_last().update(i, item));
        lemma_sum_update(items.drop_last(), value, i, item);
    }
}

/// A sum of values that are each at most the value of another function is
/// at most the sum of that function.
pub proof fn lemma_sum_monotone<T>(
    items: Seq<T>,
    lower: spec_fn(T) -> int,
    upper: spec_fn(T) -> int,
)
    requires
        forall|i: int| 0 <= i < items.len() ==> lower(#[trigger] items[i]) <= upper(items[i]),
    ensures
        sum_of(items, lower) <= sum_of(items, upper),
    decreases items.len(),
{
    if items.len() > 0 {
        let front = items.drop_last();
        assert(forall|i: int| 0 <= i < front.len() ==> front[i] == items[i]);
        lemma_sum_monotone(front, lower, upper);
    }
}

/// What an entry commits to the bin: its payment if it is an entry for the
/// bin, nothing otherwise.
pub open spec fn committed_to(bin_id: u8) -> spec_fn(CommittedBin) -> int {
    |entry: CommittedBin|
        if entry.bin_id == bin_id {
            entry.payment_token_committed as int
        } else {
            0
        }
}

/// What a record commits to the bin, over all its entries.
pub open spec fn record_committed_to(bin_id: u8) -> spec_fn(CommittedData) -> int {
    |record: CommittedData| sum_of(record.bins, committed_to(bin_id))
}

/// What all the records together commit to the bin.
pub open spec fn ledger_committed(records: Seq<CommittedData>, bin_id: u8) -> int {
    sum_of(records, record_committed_to(bin_id))
}

/// The books balance: every bin has raised exactly what the records of all
/// users together commit to it.
pub open spec fn commitments_match_raised(
    auction: AuctionData,
    records: Seq<CommittedData>,
) -> bool {
    forall|bin_id: u8|
        bin_id < auction.bins.len() ==> #[trigger] ledger_committed(records, bin_id)
            == auction.bins[bin_id as int].payment_token_raised
}

/// Replacing one record changes what the ledger commits to a bin by the
/// difference of what the two records commit to it.
pub proof fn lemma_ledger_committed_update(
    records: Seq<CommittedData>,
    k: int,
    record: CommittedData,
    bin_id: u8,
)
    requires
        0 <= k < records.len(),
    ensures
        ledger_committed(records.update(k, record), bin_id) == ledger_committed(records, bin_id)
            - sum_of(records[k].bins, committed_to(bin_id)) + sum_of(
            record.bins,
            committed_to(bin_id),
        ),
{
    lemma_sum_update(records, record_committed_to(bin_id), k, record);
}

/// A commit adds its payment to what the record commits to its bin, and
/// nothing to what it commits to any other.
pub proof fn lemma_record_after_commit(
    bins: Seq<CommittedBin>,
    bin_id: u8,
    payment_token_committed: u64,
    other: u8,
)
    requires
        entry_position(bins, bin_id) matches Some(i) ==> bins[i].payment_token_committed
            + payment_token_committed <= u64::MAX,
    ensures
        sum_of(
            committed_bins_after_commit(bins, bin_id, payment_token_committed),
            committed_to(other),
        ) == sum_of(bins, committed_to(other)) + if other == bin_id {
            payment_token_committed as int
        } else {
            0
        },
{
    lemma_entry_position(bins, bin_id);
    match entry_position(bins, bin_id) {
        Some(i) => {
            let entry = CommittedBin {
                payment_token_committed: (bins[i].payment_token_committed
                    + payment_token_committed) as u64,
                ..bins[i]
            };
            lemma_sum_update(bins, committed_to(other), i, entry);
        },
        None => {
            let entry = CommittedBin {
                bin_id,
                payment_token_committed,
                sale_token_claimed: 0,
                payment_token_refunded: 0,
            };
            lemma_sum_push(bins, committed_to(other), entry);
        },
    }
}

/// A commit keeps the books balanced: the bin raises exactly what the
/// user's record gains.
pub proof fn lemma_commit_keeps_balance(
    auction: AuctionData,
    records: Seq<CommittedData>,
    k: int,
    user: Address,
    auction_key: Address,
    custody_authority: Option<Address>,
    introspection: SignatureIntrospection,
    bin_id: u8,
    payment_token_committed: u64,
    expiry: u64,
    current_time: i64,
    committed_bump: u8,
)
    requires
        commitments_match_raised(auction, records),
        0 <= k < records.len(),
        commit_failure(
            auction,
            records[k],
            user,
            auction_key,
            custody_authority,
            introspection,
            bin_id,
            payment_token_committed,
            expiry,
            current_time,
        ) is None,
    ensures
        commitments_match_raised(
            auction_after_commit(auction, records[k], bin_id, payment_token_committed),
            records.update(
                k,
                committed_after_commit(
                    records[k],
                    user,
                    auction_key,
                    bin_id,
                    payment_token_committed,
                    committed_bump,
                ),
            ),
        ),
{
    let after = committed_after_commit(
        records[k],
        user,
        auction_key,
        bin_id,
        payment_token_committed,
        committed_bump,
    );
    let auction_after = auction_after_commit(auction, records[k], bin_id, payment_token_committed);
    lemma_entry_position(records[k].bins, bin_id);
    assert forall|other: u8| other < auction_after.bins.len() implies #[trigger] ledger_committed(
        records.update(k, after),
        other,
    ) == auction_after.bins[other as int].payment_token_raised by {
        lemma_record_after_commit(records[k].bins, bin_id, payment_token_committed, other);
        lemma_ledger_committed_update(records, k, after, other);
        assert(ledger_committed(records, other) == auction.bins[other as int].payment_token_raised);
    }
}

/// A decrease keeps the books balanced: the bin gives up exactly what the
/// user's record loses.
pub proof fn lemma_decrease_keeps_balance(
    auction: AuctionData,
    records: Seq<CommittedData>,
    k: int,
    user: Address,
    bin_id: u8,
    payment_token_reverted: u64,
    current_time: i64,
)
    requires
        commitments_match_raised(auction, records),
        0 <= k < records.len(),
        decrease_commit_rejection(
            auction,
            records[k],
            user,
            bin_id,
            payment_token_reverted,
            current_time,
        ) is None,
    ensures
        commitments_match_raised(
            auction_after_decrease(auction, bin_id, payment_token_reverted),
            records.update(k, committed_after_decrease(records[k], bin_id, payment_token_reverted)),
        ),
{
    let bins = records[k].bins;
    lemma_entry_position(bins, bin_id);
    let i = entry_position(bins, bin_id).unwrap();
    let after = committed_after_decrease(records[k], bin_id, payment_token_reverted);
    let auction_after = auction_after_decrease(auction, bin_id, payment_token_reverted);
    assert forall|other: u8| other < auction_after.bins.len() implies #[trigger] ledger_committed(
        records.update(k, after),
        other,
    ) == auction_after.bins[other as int].payment_token_raised by {
        lemma_sum_update(bins, committed_to(other), i, after.bins[i]);
        lemma_ledger_committed_update(records, k, after, other);
        assert(ledger_committed(records, other) == auction.bins[other as int].payment_token_raised);
    }
}

/// A claim keeps the books balanced: it changes neither what a bin raised
/// nor what a record commits.
pub proof fn lemma_claim_keeps_balance(
    auction: AuctionData,
    records: Seq<CommittedData>,
    k: int,
    user: Address,
    bin_id: u8,
    sale_token_to_claim: u64,
    payment_token_to_refund: u64,
    current_time: i64,
)
    requires
        commitments_match_raised(auction, records),
        0 <= k < records.len(),
        claim_failure(
            auction,
            records[k],
            user,
            bin_id,
            sale_token_to_claim,
            payment_token_to_refund,
            current_time,
        ) is None,
    ensures
        commitments_match_raised(
            auction_after_claim(auction, bin_id, sale_token_to_claim),
            records.update(
                k,
                committed_after_claim(
                    records[k],
                    bin_id,
                    sale_token_to_claim,
                    payment_token_to_refund,
                ),
            ),
        ),
{
    let bins = records[k].bins;
    lemma_entry_position(bins, bin_id);
    let i = entry_position(bins, bin_id).unwrap();
    let after = committed_after_claim(
        records[k],
        bin_id,
        sale_token_to_claim,
        payment_token_to_refund,
    );
    let auction_after = auction_after_claim(auction, bin_id, sale_token_to_claim);
    assert forall|other: u8| other < auction_after.bins.len() implies #[trigger] ledger_committed(
        records.update(k, after),
        other,
    ) == auction_after.bins[other as int].payment_token_raised by {
        lemma_sum_update(bins, committed_to(other), i, after.bins[i]);
        lemma_ledger_committed_update(records, k, after, other);
        assert(ledger_committed(records, other) == auction.bins[other as int].payment_token_raised);
    }
}

/// If every item's `lower` value, taken `p` times, is at most its `upper`
/// value taken `r` times, then so are the sums.
pub proof fn lemma_sum_scaled_bound<T>(
    items: Seq<T>,
    lower: spec_fn(T) -> int,
    upper: spec_fn(T) -> int,
    p: int,
    r: int,
)
    requires
        forall|i: int|
            0 <= i < items.len() ==> p * lower(#[trigger] items[i]) <= r * upper(items[i]),
    ensures
        p * sum_of(items, lower) <= r * sum_of(items, upper),
    decreases items.len(),
{
    if items.len() > 0 {
        let front = items.drop_last();
        assert(forall|i: int| 0 <= i < front.len() ==> front[i] == items[i]);
        lemma_sum_scaled_bound(front, lower, upper, p, r);
        let a = sum_of(front, lower);
        let b = lower(items.last());
        let c = sum_of(front, upper);
        let d = upper(items.last());
        assert(p * lower(items[items.len() - 1]) <= r * upper(items[items.len() - 1]));
        assert(p * (a + b) <= r * (c + d)) by (nonlinear_arith)
            requires
                p * a <= r * c,
                p * b <= r * d,
        ;
    }
}

/// What an entry has claimed from the bin: its claimed sale tokens if it
/// is an entry for the bin, nothing otherwise.
pub open spec fn claimed_from(bin_id: u8) -> spec_fn(CommittedBin) -> int {
    |entry: CommittedBin|
        if entry.bin_id == bin_id {
            entry.sale_token_claimed as int
        } else {
            0
        }
}

/// What a record has claimed from the bin, over all its entries.
pub open spec fn record_claimed_from(bin_id: u8) -> spec_fn(CommittedData) -> int {
    |record: CommittedData| sum_of(record.bins, claimed_from(bin_id))
}

/// What all the records together have claimed from the bin.
pub open spec fn ledger_claimed(records: Seq<CommittedData>, bin_id: u8) -> int {
    sum_of(records, record_claimed_from(bin_id))
}

/// Every bin counts as claimed exactly what the records of all users
/// together have claimed from it.
pub open spec fn claims_match_claimed(auction: AuctionData, records: Seq<CommittedData>) -> bool {
    forall|bin_id: u8|
        bin_id < auction.bins.len() ==> #[trigger] ledger_claimed(records, bin_id)
            == auction.bins[bin_id as int].sale_token_claimed
}

/// The sale tokens a commitment is entitled to in a bin: none while no
/// entitlement can be computed.
pub open spec fn entitled_sale_tokens(bin: AuctionBin, committed: u64) -> int {
    match bin_entitlement(bin, committed) {
        Ok(entitled) => entitled.sale_tokens,
        Err(_) => 0,
    }
}

/// The refund a commitment is entitled to in a bin: none while no
/// entitlement can be computed.
pub open spec fn entitled_refund(bin: AuctionBin, committed: u64) -> int {
    match bin_entitlement(bin, committed) {
        Ok(entitled) => entitled.refund_payment_tokens,
        Err(_) => 0,
    }
}

/// Whether an entry has taken no more than it is entitled to in the bin,
/// in sale tokens and in refunded payment.
pub open spec fn entry_within_entitlement(entry: CommittedBin, bin: AuctionBin) -> bool {
    &&& entry.sale_token_claimed <= entitled_sale_tokens(bin, entry.payment_token_committed)
    &&& entry.payment_token_refunded <= entitled_refund(bin, entry.payment_token_committed)
}

/// No entry has claimed more sale tokens, or been refunded more payment,
/// than it is entitled to by the current totals of its bin.
pub open spec fn claims_within_entitlement(
    auction: AuctionData,
    records: Seq<CommittedData>,
) -> bool {
    forall|k: int, i: int|
        0 <= k < records.len() && 0 <= i < records[k].bins.len() && (
        #[trigger] records[k].bins[i]).bin_id < auction.bins.len() ==> entry_within_entitlement(
            records[k].bins[i],
            auction.bins[records[k].bins[i].bin_id as int],
        )
}

/// The sale tokens a commitment is entitled to, at the bin's price and on
/// the scale of the ratio, are covered by the commitment at the bin's ratio.
pub proof fn lemma_entitlement_is_covered(bin: AuctionBin, committed: u64)
    requires
        bin_entitlement(bin, committed) is Ok,
    ensures
        bin.sale_token_price > 0,
        bin.payment_token_raised > 0,
        bin.sale_token_cap * bin.sale_token_price <= u64::MAX,
        bin.sale_token_price * PRECISION_FACTOR * entitled_sale_tokens(bin, committed) <= committed
            * allocation_ratio(
            (bin.sale_token_cap * bin.sale_token_price) as int,
            bin.payment_token_raised as int,
        ),
{
    let target = (bin.sale_token_cap * bin.sale_token_price) as int;
    let ratio = allocation_ratio(target, bin.payment_token_raised as int);
    let eff = effective_payment(ratio, committed as int);
    let sale = entitled_sale_tokens(bin, committed);
    let price = bin.sale_token_price as int;
    let s = PRECISION_FACTOR as int;
    let c = committed as int;
    assert(0 <= target) by (nonlinear_arith)
        requires
            target == bin.sale_token_cap * bin.sale_token_price,
    ;
    crate::allocation::lemma_ratio_within_scale(target, bin.payment_token_raised as int);
    assert(eff * s <= c * ratio) by (nonlinear_arith)
        requires
            eff == (c * ratio) / s,
            s > 0,
    ;
    assert(sale * price <= eff) by (nonlinear_arith)
        requires
            sale == eff / price,
            price > 0,
    ;
    assert(price * s * sale <= c * ratio) by (nonlinear_arith)
        requires
            sale * price <= eff,
            eff * s <= c * ratio,
            s > 0,
    ;
}

/// A bin has never given out more sale tokens than its capacity.
///
/// Let the books balance, let every bin count as claimed what the records
/// have claimed from it, and let no entry have claimed beyond its
/// entitlement. Then in every bin the claimed sale tokens are within the
/// capacity, and so are their sums over all bins.
pub proof fn lemma_claimed_within_capacity(
    auction: AuctionData,
    records: Seq<CommittedData>,
    bin_id: u8,
)
    requires
        commitments_match_raised(auction, records),
        claims_match_claimed(auction, records),
        claims_within_entitlement(auction, records),
        bin_id < auction.bins.len(),
    ensures
        auction.bins[bin_id as int].sale_token_claimed <= auction.bins[bin_id as int].sale_token_cap,
{
    let bin = auction.bins[bin_id as int];
    let price = bin.sale_token_price as int;
    let s = PRECISION_FACTOR as int;
    let target = bin.sale_token_cap * bin.sale_token_price;
    let raised = bin.payment_token_raised as int;
    let computable = price > 0 && raised > 0 && target <= u64::MAX && (raised <= target || target
        * s <= u64::MAX);
    let p = if computable {
        price * s
    } else {
        1
    };
    let r = if computable {
        allocation_ratio(target, raised)
    } else {
        0
    };
    assert(0 <= target) by (nonlinear_arith)
        requires
            target == bin.sale_token_cap * bin.sale_token_price,
    ;
    if computable {
        crate::allocation::lemma_ratio_within_scale(target, raised);
    }
    assert forall|k: int| 0 <= k < records.len() implies p * record_claimed_from(bin_id)(
        #[trigger] records[k],
    ) <= r * record_committed_to(bin_id)(records[k]) by {
        let bins = records[k].bins;
        assert forall|i: int| 0 <= i < bins.len() implies p * claimed_from(bin_id)(
            #[trigger] bins[i],
        ) <= r * committed_to(bin_id)(bins[i]) by {
            let entry = bins[i];
            if entry.bin_id == bin_id {
                assert(entry_within_entitlement(records[k].bins[i], bin));
                let entitled = entitled_sale_tokens(bin, entry.payment_token_committed);
                let claimed = entry.sale_token_claimed as int;
                let c = entry.payment_token_committed as int;
                if bin_entitlement(bin, entry.payment_token_committed) is Ok {
                    lemma_entitlement_is_covered(bin, entry.payment_token_committed);
                    assert(p * claimed <= r * c) by (nonlinear_arith)
                        requires
                            p * entitled <= c * r,
                            0 <= claimed <= entitled,
                            p > 0,
                    ;
                } else {
                    assert(claimed == 0);
                    assert(p * claimed <= r * c) by (nonlinear_arith)
                        requires
                            claimed == 0,
                            r >= 0,
                            c >= 0,
                    ;
                }
            } else {
                assert(p * 0 <= r * 0) by (nonlinear_arith);
            }
        }
        lemma_sum_scaled_bound(bins, claimed_from(bin_id), committed_to(bin_id), p, r);
    }
    lemma_sum_scaled_bound(
        records,
        record_claimed_from(bin_id),
        record_committed_to(bin_id),
        p,
        r,
    );
    let claimed = ledger_claimed(records, bin_id);
    assert(ledger_committed(records, bin_id) == raised);
    assert(claimed == bin.sale_token_claimed);
    if computable {
        assert(r * raised <= target * s) by (nonlinear_arith)
            requires
                r == if raised <= target {
                    s
                } else {
                    (target * s) / raised
                },
                raised > 0,
                s > 0,
                target >= 0,
        ;
        let cap = bin.sale_token_cap as int;
        assert(claimed <= cap) by (nonlinear_arith)
            requires
                p * claimed <= r * raised,
                r * raised <= target * s,
                target == cap * price,
                p == price * s,
                price > 0,
                s > 0,
        ;
    } else {
        assert(p * claimed <= r * raised);
        assert(r * raised == 0) by (nonlinear_arith)
            requires
                r == 0,
        ;
    }
}

/// Replacing one record changes what the ledger has claimed from a bin by
/// the difference of what the two records have claimed from it.
pub proof fn lemma_ledger_claimed_update(
    records: Seq<CommittedData>,
    k: int,
    record: CommittedData,
    bin_id: u8,
)
    requires
        0 <= k < records.len(),
    ensures
        ledger_claimed(records.update(k, record), bin_id) == ledger_claimed(records, bin_id)
            - sum_of(records[k].bins, claimed_from(bin_id)) + sum_of(
            record.bins,
            claimed_from(bin_id),
        ),
{
    lemma_sum_update(records, record_claimed_from(bin_id), k, record);
}

/// A claim keeps the count of claimed sale tokens true and within the
/// entitlements: the bin counts exactly what the entry gains, and the entry
/// stays within what it is entitled to.
pub proof fn lemma_claim_keeps_claims_bounded(
    auction: AuctionData,
    records: Seq<CommittedData>,
    k: int,
    user: Address,
    bin_id: u8,
    sale_token_to_claim: u64,
    payment_token_to_refund: u64,
    current_time: i64,
)
    requires
        claims_match_claimed(auction, records),
        claims_within_entitlement(auction, records),
        0 <= k < records.len(),
        claim_failure(
            auction,
            records[k],
            user,
            bin_id,
            sale_token_to_claim,
            payment_token_to_refund,
            current_time,
        ) is None,
    ensures
        claims_match_claimed(
            auction_after_claim(auction, bin_id, sale_token_to_claim),
            records.update(
                k,
                committed_after_claim(
                    records[k],
                    bin_id,
                    sale_token_to_claim,
                    payment_token_to_refund,
                ),
            ),
        ),
        claims_within_entitlement(
            auction_after_claim(auction, bin_id, sale_token_to_claim),
            records.update(
                k,
                committed_after_claim(
                    records[k],
                    bin_id,
                    sale_token_to_claim,
                    payment_token_to_refund,
                ),
            ),
        ),
{
    let bins = records[k].bins;
    lemma_entry_position(bins, bin_id);
    let position = entry_position(bins, bin_id).unwrap();
    let after = committed_after_claim(
        records[k],
        bin_id,
        sale_token_to_claim,
        payment_token_to_refund,
    );
    let auction_after = auction_after_claim(auction, bin_id, sale_token_to_claim);
    let records_after = records.update(k, after);
    assert(entry_within_entitlement(records[k].bins[position], auction.bins[bin_id as int]));
    assert forall|other: u8| other < auction_after.bins.len() implies #[trigger] ledger_claimed(
        records_after,
        other,
    ) == auction_after.bins[other as int].sale_token_claimed by {
        lemma_sum_update(bins, claimed_from(other), position, after.bins[position]);
        lemma_ledger_claimed_update(records, k, after, other);
        assert(ledger_claimed(records, other) == auction.bins[other as int].sale_token_claimed);
    }
    assert forall|j: int, i: int|
        0 <= j < records_after.len() && 0 <= i < records_after[j].bins.len() && (
        #[trigger] records_after[j].bins[i]).bin_id
            < auction_after.bins.len() implies entry_within_entitlement(
        records_after[j].bins[i],
        auction_after.bins[records_after[j].bins[i].bin_id as int],
    ) by {
        let entry = records_after[j].bins[i];
        let bin_before = auction.bins[entry.bin_id as int];
        let bin_after = auction_after.bins[entry.bin_id as int];
        assert(bin_entitlement(bin_after, entry.payment_token_committed) == bin_entitlement(
            bin_before,
            entry.payment_token_committed,
        ));
        if j == k && i == position {
            assert(entry.payment_token_committed == bins[position].payment_token_committed);
        } else {
            assert(entry == records[j].bins[i]);
            assert(entry_within_entitlement(records[j].bins[i], bin_before));
        }
    }
}

/// No entry of any record has claimed a sale token or been refunded yet.
pub open spec fn nothing_claimed(records: Seq<CommittedData>) -> bool {
    forall|k: int, i: int|
        0 <= k < records.len() && 0 <= i < records[k].bins.len() ==> (
        #[trigger] records[k].bins[i]).sale_token_claimed == 0
            && records[k].bins[i].payment_token_refunded == 0
}

/// While nothing has been claimed, every entry is within its entitlement,
/// whatever the bins hold.
pub proof fn lemma_nothing_claimed_is_within_entitlement(
    auction: AuctionData,
    records: Seq<CommittedData>,
)
    requires
        nothing_claimed(records),
    ensures
        claims_within_entitlement(auction, records),
{
    assert forall|k: int, i: int|
        0 <= k < records.len() && 0 <= i < records[k].bins.len() && (
        #[trigger] records[k].bins[i]).bin_id < auction.bins.len() implies entry_within_entitlement(
        records[k].bins[i],
        auction.bins[records[k].bins[i].bin_id as int],
    ) by {
        let bin = auction.bins[records[k].bins[i].bin_id as int];
        let committed = records[k].bins[i].payment_token_committed;
        if bin_entitlement(bin, committed) is Ok {
            crate::allocation::lemma_entitlement_conserves_commitment(
                committed,
                (bin.sale_token_cap * bin.sale_token_price) as u64,
                bin.payment_token_raised,
                bin.sale_token_price,
            );
        }
    }
}

/// A commit claims nothing: while nothing has been claimed, nothing is
/// claimed after it, and the bins' counts of claimed sale tokens stay true.
pub proof fn lemma_commit_claims_nothing(
    auction: AuctionData,
    records: Seq<CommittedData>,
    k: int,
    user: Address,
    auction_key: Address,
    custody_authority: Option<Address>,
    introspection: SignatureIntrospection,
    bin_id: u8,
    payment_token_committed: u64,
    expiry: u64,
    current_time: i64,
    committed_bump: u8,
)
    requires
        nothing_claimed(records),
        claims_match_claimed(auction, records),
        0 <= k < records.len(),
        commit_failure(
            auction,
            records[k],
            user,
            auction_key,
            custody_authority,
            introspection,
            bin_id,
            payment_token_committed,
            expiry,
            current_time,
        ) is None,
    ensures
        nothing_claimed(
            records.update(
                k,
                committed_after_commit(
                    records[k],
                    user,
                    auction_key,
                    bin_id,
                    payment_token_committed,
                    committed_bump,
                ),
            ),
        ),
        claims_match_claimed(
            auction_after_commit(auction, records[k], bin_id, payment_token_committed),
            records.update(
                k,
                committed_after_commit(
                    records[k],
                    user,
                    auction_key,
                    bin_id,
                    payment_token_committed,
                    committed_bump,
                ),
            ),
        ),
{
    let bins = records[k].bins;
    lemma_entry_position(bins, bin_id);
    let after = committed_after_commit(
        records[k],
        user,
        auction_key,
        bin_id,
        payment_token_committed,
        committed_bump,
    );
    let auction_after = auction_after_commit(auction, records[k], bin_id, payment_token_committed);
    let records_after = records.update(k, after);
    assert forall|j: int, i: int|
        0 <= j < records_after.len() && 0 <= i < records_after[j].bins.len() implies (
    #[trigger] records_after[j].bins[i]).sale_token_claimed == 0
        && records_after[j].bins[i].payment_token_refunded == 0 by {
        if j == k {
            if i < bins.len() {
                assert(records[k].bins[i].sale_token_claimed == 0);
            }
        } else {
            assert(records_after[j].bins[i] == records[j].bins[i]);
        }
    }
    assert forall|other: u8| other < auction_after.bins.len() implies #[trigger] ledger_claimed(
        records_after,
        other,
    ) == auction_after.bins[other as int].sale_token_claimed by {
        match entry_position(bins, bin_id) {
            Some(i) => {
                lemma_sum_update(bins, claimed_from(other), i, after.bins[i]);
            },
            None => {
                lemma_sum_push(bins, claimed_from(other), after.bins[bins.len() as int]);
                assert(after.bins =~= bins.push(after.bins[bins.len() as int]));
            },
        }
        lemma_ledger_claimed_update(records, k, after, other);
        assert(ledger_claimed(records, other) == auction.bins[other as int].sale_token_claimed);
    }
}

/// A decrease claims nothing: while nothing has been claimed, nothing is
/// claimed after it, and the bins' counts of claimed sale tokens stay true.
pub proof fn lemma_decrease_claims_nothing(
    auction: AuctionData,
    records: Seq<CommittedData>,
    k: int,
    user: Address,
    bin_id: u8,
    payment_token_reverted: u64,
    current_time: i64,
)
    requires
        nothing_claimed(records),
        claims_match_claimed(auction, records),
        0 <= k < records.len(),
        decrease_commit_rejection(
            auction,
            records[k],
            user,
            bin_id,
            payment_token_reverted,
            current_time,
        ) is None,
    ensures
        nothing_claimed(
            records.update(k, committed_after_decrease(records[k], bin_id, payment_token_reverted)),
        ),
        claims_match_claimed(
            auction_after_decrease(auction, bin_id, payment_token_reverted),
            records.update(k, committed_after_decrease(records[k], bin_id, payment_token_reverted)),
        ),
{
    let bins = records[k].bins;
    lemma_entry_position(bins, bin_id);
    let position = entry_position(bins, bin_id).unwrap();
    let after = committed_after_decrease(records[k], bin_id, payment_token_reverted);
    let auction_after = auction_after_decrease(auction, bin_id, payment_token_reverted);
    let records_after = records.update(k, after);
    assert forall|j: int, i: int|
        0 <= j < records_after.len() && 0 <= i < records_after[j].bins.len() implies (
    #[trigger] records_after[j].bins[i]).sale_token_claimed == 0
        && records_after[j].bins[i].payment_token_refunded == 0 by {
        if j == k {
            assert(records[k].bins[i].sale_token_claimed == 0);
        } else {
            assert(records_after[j].bins[i] == records[j].bins[i]);
        }
    }
    assert forall|other: u8| other < auction_after.bins.len() implies #[trigger] ledger_claimed(
        records_after,
        other,
    ) == auction_after.bins[other as int].sale_token_claimed by {
        lemma_sum_update(bins, claimed_from(other), position, after.bins[position]);
        lemma_ledger_claimed_update(records, k, after, other);
        assert(ledger_claimed(records, other) == auction.bins[other as int].sale_token_claimed);
    }
}

/// Over all bins together, the claimed sale tokens are within the
/// capacities: the sum of what the bins count as claimed is at most the
/// sum of what they can sell.
pub proof fn lemma_total_claimed_within_total_capacity(
    auction: AuctionData,
    records: Seq<CommittedData>,
)
    requires
        commitments_match_raised(auction, records),
        claims_match_claimed(auction, records),
        claims_within_entitlement(auction, records),
        auction.bins.len() <= 256,
    ensures
        sum_of(auction.bins, |bin: AuctionBin| bin.sale_token_claimed as int) <= sum_of(
            auction.bins,
            |bin: AuctionBin| bin.sale_token_cap as int,
        ),
{
    let claimed = |bin: AuctionBin| bin.sale_token_claimed as int;
    let capacity = |bin: AuctionBin| bin.sale_token_cap as int;
    assert forall|i: int| 0 <= i < auction.bins.len() implies claimed(#[trigger] auction.bins[i])
        <= capacity(auction.bins[i]) by {
        lemma_claimed_within_capacity(auction, records, i as u8);
    }
    lemma_sum_monotone(auction.bins, claimed, capacity);
}

/// No more fees have been withdrawn than were collected.
pub open spec fn fees_are_covered(auction: AuctionData) -> bool {
    auction.total_fees_withdrawn <= auction.total_fees_collected
}

/// The fee discipline: while the withdrawn fees are covered by the
/// collected ones, a withdrawal of fees never fails on its subtraction, and
/// both a claim and a withdrawal of fees leave the fees covered.
pub proof fn lemma_fees_stay_covered(
    auction: AuctionData,
    authority: Address,
    current_time: i64,
    records: Seq<CommittedData>,
    k: int,
    user: Address,
    bin_id: u8,
    sale_token_to_claim: u64,
    payment_token_to_refund: u64,
)
    requires
        fees_are_covered(auction),
        0 <= k < records.len(),
    ensures
        withdraw_fees_rejection(auction, authority, current_time) != Some(
            ResetError::MathUnderflow,
        ),
        fees_are_covered(
            AuctionData { total_fees_withdrawn: auction.total_fees_collected, ..auction },
        ),
        claim_failure(
            auction,
            records[k],
            user,
            bin_id,
            sale_token_to_claim,
            payment_token_to_refund,
            current_time,
        ) is None ==> fees_are_covered(auction_after_claim(auction, bin_id, sale_token_to_claim)),
{
    crate::extensions::lemma_claim_fee_within_claim(auction.extensions, sale_token_to_claim);
}

/// A change of price keeps the ledger: it is admitted only for a bin that
/// has raised nothing, in which no commitment is entitled to anything, so
/// the books stay balanced, the counts of claimed sale tokens stay true and
/// every entry stays within its entitlement.
pub proof fn lemma_set_price_keeps_ledger(
    auction: AuctionData,
    records: Seq<CommittedData>,
    authority: Address,
    bin_id: u8,
    new_price: u64,
)
    requires
        commitments_match_raised(auction, records),
        claims_match_claimed(auction, records),
        claims_within_entitlement(auction, records),
        set_price_rejection(auction, authority, bin_id, new_price) is None,
    ensures
        commitments_match_raised(auction_after_set_price(auction, bin_id, new_price), records),
        claims_match_claimed(auction_after_set_price(auction, bin_id, new_price), records),
        claims_within_entitlement(auction_after_set_price(auction, bin_id, new_price), records),
{
    let after = auction_after_set_price(auction, bin_id, new_price);
    assert forall|other: u8| other < after.bins.len() implies #[trigger] ledger_committed(
        records,
        other,
    ) == after.bins[other as int].payment_token_raised by {
        assert(ledger_committed(records, other) == auction.bins[other as int].payment_token_raised);
    }
    assert forall|other: u8| other < after.bins.len() implies #[trigger] ledger_claimed(
        records,
        other,
    ) == after.bins[other as int].sale_token_claimed by {
        assert(ledger_claimed(records, other) == auction.bins[other as int].sale_token_claimed);
    }
    assert forall|k: int, i: int|
        0 <= k < records.len() && 0 <= i < records[k].bins.len() && (
        #[trigger] records[k].bins[i]).bin_id < after.bins.len() implies entry_within_entitlement(
        records[k].bins[i],
        after.bins[records[k].bins[i].bin_id as int],
    ) by {
        let entry = records[k].bins[i];
        assert(entry_within_entitlement(entry, auction.bins[entry.bin_id as int]));
        if entry.bin_id == bin_id {
            assert(bin_entitlement(auction.bins[bin_id as int], entry.payment_token_committed)
                is Err);
            assert(bin_entitlement(after.bins[bin_id as int], entry.payment_token_committed)
                is Err);
        }
    }
}

} // verus!
