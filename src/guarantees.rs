use vstd::prelude::*;
use crate::custody::{apply_op, apply_ops, CustodyOp, Holding};
use crate::error::AuctionError;
use crate::key::Key;
use crate::machine::{bid_outcome, cancel_outcome, close_outcome, exhibit_outcome};
use crate::record::{AuctionRecord, BidAccounts, CancelAccounts, CloseAccounts, ExhibitAccounts};

verus! {

/// One bid: the accounts it names, the amount offered, and the time it is made.
pub type BidStep = (BidAccounts, u64, i64);

/// The record after the bids `bids`, placed in order, or the first refusal.
pub open spec fn replay_bids(rec: AuctionRecord, bids: Seq<BidStep>, authority: Key) -> Result<
    AuctionRecord,
    AuctionError,
>
    decreases bids.len(),
{
    if bids.len() == 0 {
        Ok(rec)
    } else {
        match replay_bids(rec, bids.drop_last(), authority) {
            Ok(r) => {
                let (acc, amount, now) = bids.last();
                match bid_outcome(r, acc, amount, now, authority) {
                    Ok((next, _)) => Ok(next),
                    Err(e) => Err(e),
                }
            },
            Err(e) => Err(e),
        }
    }
}

/// Along any sequence of accepted bids, the current price strictly increases:
/// after `i` bids it is below what it is after `j > i` bids.
pub proof fn lemma_bids_raise_price(rec: AuctionRecord, bids: Seq<BidStep>, authority: Key)
    requires
        replay_bids(rec, bids, authority) is Ok,
    ensures
        forall|i: int, j: int|
            0 <= i < j <= bids.len() ==> (#[trigger] replay_bids(rec, bids.take(i), authority))->Ok_0.current_price
                < (#[trigger] replay_bids(rec, bids.take(j), authority))->Ok_0.current_price,
        forall|i: int| 0 <= i <= bids.len() ==> #[trigger] replay_bids(rec, bids.take(i), authority) is Ok,
    decreases bids.len(),
{
    let n = bids.len() as int;
    if n > 0 {
        let prev = bids.drop_last();
        lemma_bids_raise_price(rec, prev, authority);
        assert(bids.take(n) =~= bids);
        assert forall|i: int| 0 <= i <= n - 1 implies #[trigger] bids.take(i) == prev.take(i) by {
            assert(bids.take(i) =~= prev.take(i));
        }
        assert(prev.take(n - 1) =~= prev);
        assert forall|i: int, j: int|
            0 <= i < j <= bids.len() implies (#[trigger] replay_bids(rec, bids.take(i), authority))->Ok_0.current_price
                < (#[trigger] replay_bids(rec, bids.take(j), authority))->Ok_0.current_price by {
            if j == n {
                assert(bids.take(i) == prev.take(i));
                assert(bids.take(n - 1) == prev.take(n - 1));
            } else {
                assert(bids.take(i) == prev.take(i));
                assert(bids.take(j) == prev.take(j));
            }
        }
        assert forall|i: int| 0 <= i <= bids.len() implies #[trigger] replay_bids(rec, bids.take(i), authority) is Ok by {
            if i < n {
                assert(bids.take(i) == prev.take(i));
            }
        }
    } else {
        assert(bids.take(0) =~= bids);
    }
}

/// After a bid that outbids a leader and whose custody operations all go
/// through, the previous leader's refund account holds exactly the previous
/// price more, and the previous leader's custody account no longer exists.
/// (The refund account must be none of the accounts that the bid itself
/// pays from or into.)
pub proof fn lemma_outbid_leader_refunded(
    rec: AuctionRecord,
    acc: BidAccounts,
    amount: u64,
    now: i64,
    authority: Key,
    ledger: Map<Key, Holding>,
)
    requires
        bid_outcome(rec, acc, amount, now, authority) is Ok,
        rec.has_leader(),
        apply_ops(ledger, bid_outcome(rec, acc, amount, now, authority)->Ok_0.1) is Some,
        rec.highest_bidder_refund != acc.bidder_source,
        rec.highest_bidder_refund != acc.bidder_custody,
        rec.highest_bidder_refund != rec.highest_bidder_custody,
    ensures
        ({
            let after = apply_ops(ledger, bid_outcome(rec, acc, amount, now, authority)->Ok_0.1)->Some_0;
            &&& ledger.contains_key(rec.highest_bidder_refund)
            &&& after.contains_key(rec.highest_bidder_refund)
            &&& after[rec.highest_bidder_refund].amount == ledger[rec.highest_bidder_refund].amount
                + rec.current_price
            &&& !after.contains_key(rec.highest_bidder_custody)
        }),
{
    let ops = bid_outcome(rec, acc, amount, now, authority)->Ok_0.1;
    let refund = rec.highest_bidder_refund;
    assert(ops.take(4) =~= ops);
    lemma_prefix_applies(ledger, ops, 3);
    lemma_prefix_applies(ledger, ops, 2);
    lemma_prefix_applies(ledger, ops, 1);
    lemma_prefix_applies(ledger, ops, 0);
    assert(apply_ops(ledger, ops.take(0)) == Some(ledger));
    let l1 = apply_ops(ledger, ops.take(1))->Some_0;
    let l2 = apply_ops(ledger, ops.take(2))->Some_0;
    let l3 = apply_ops(ledger, ops.take(3))->Some_0;
    assert(l1.contains_key(refund) && l1[refund] == ledger[refund]);
    assert(l2[refund].amount == l1[refund].amount);
    assert(l3[refund].amount == l2[refund].amount + rec.current_price);
}

/// Bids leave the exhibitor's part of the record alone, and the last
/// accepted bidder leads.
pub proof fn lemma_bids_keep_exhibit(rec: AuctionRecord, bids: Seq<BidStep>, authority: Key)
    requires
        replay_bids(rec, bids, authority) is Ok,
    ensures
        ({
            let after = replay_bids(rec, bids, authority)->Ok_0;
            &&& after.initialized == rec.initialized
            &&& after.exhibitor == rec.exhibitor
            &&& after.item_custody == rec.item_custody
            &&& after.proceeds_receiving == rec.proceeds_receiving
            &&& after.end_at == rec.end_at
            &&& bids.len() == 0 ==> after == rec
            &&& bids.len() > 0 ==> after.highest_bidder == bids.last().0.bidder
        }),
    decreases bids.len(),
{
    if bids.len() > 0 {
        lemma_bids_keep_exhibit(rec, bids.drop_last(), authority);
    }
}

/// Cancel is accepted exactly when no bid was ever accepted since Create;
/// after a bid it is refused as an economic conflict. (The exhibitor signs
/// and names the record's custody account; no bidder has the default
/// identity.)
pub proof fn lemma_cancel_only_without_bids(
    slot: AuctionRecord,
    exhibit_acc: ExhibitAccounts,
    initial_price: u64,
    duration: u64,
    created_at: i64,
    authority: Key,
    bids: Seq<BidStep>,
    cancel_acc: CancelAccounts,
    item_amount: u64,
)
    requires
        exhibit_outcome(slot, exhibit_acc, initial_price, duration, created_at, authority) is Ok,
        replay_bids(
            exhibit_outcome(slot, exhibit_acc, initial_price, duration, created_at, authority)->Ok_0.0,
            bids,
            authority,
        ) is Ok,
        forall|i: int| 0 <= i < bids.len() ==> !(#[trigger] bids[i]).0.bidder.is_default(),
        cancel_acc.exhibitor_signed,
        cancel_acc.exhibitor == exhibit_acc.exhibitor,
        cancel_acc.item_custody == exhibit_acc.item_custody,
    ensures
        ({
            let created = exhibit_outcome(slot, exhibit_acc, initial_price, duration, created_at, authority)->Ok_0.0;
            let after = replay_bids(created, bids, authority)->Ok_0;
            let outcome = cancel_outcome(after, cancel_acc, item_amount, authority);
            &&& (outcome is Ok) <==> bids.len() == 0
            &&& bids.len() > 0 ==> outcome == Err::<(AuctionRecord, Seq<CustodyOp>), _>(AuctionError::EconomicFailure)
        }),
{
    let created = exhibit_outcome(slot, exhibit_acc, initial_price, duration, created_at, authority)->Ok_0.0;
    lemma_bids_keep_exhibit(created, bids, authority);
    Key::lemma_zero_is_default();
    if bids.len() > 0 {
        assert(!bids[bids.len() - 1].0.bidder.is_default());
    }
}

/// Close waits for the end: before `end_at` it is refused as premature
/// whoever calls it; from `end_at` on, the leader who names the record's
/// accounts settles.
pub proof fn lemma_close_waits_for_end(
    rec: AuctionRecord,
    acc: CloseAccounts,
    now: i64,
    item_amount: u64,
    funds_amount: u64,
    authority: Key,
)
    requires
        rec.initialized,
    ensures
        now < rec.end_at ==> close_outcome(rec, acc, now, item_amount, funds_amount, authority)
            == Err::<(AuctionRecord, Seq<CustodyOp>), _>(AuctionError::TemporalFailure),
        now >= rec.end_at && rec.has_leader() && acc.caller_signed && acc.caller == rec.highest_bidder
            && acc.exhibitor == rec.exhibitor && acc.item_custody == rec.item_custody
            && acc.proceeds_receiving == rec.proceeds_receiving
            && acc.leader_custody == rec.highest_bidder_custody
            ==> close_outcome(rec, acc, now, item_amount, funds_amount, authority) is Ok,
        close_outcome(rec, acc, now, item_amount, funds_amount, authority) is Ok ==> now >= rec.end_at,
{
}

/// Create followed by Close: while the auction runs Close is premature; once
/// it has ended with no bid, Close is refused for want of a winner.
pub proof fn lemma_create_then_close(
    slot: AuctionRecord,
    exhibit_acc: ExhibitAccounts,
    initial_price: u64,
    duration: u64,
    created_at: i64,
    authority: Key,
    close_acc: CloseAccounts,
    closed_at: i64,
    item_amount: u64,
    funds_amount: u64,
)
    requires
        exhibit_outcome(slot, exhibit_acc, initial_price, duration, created_at, authority) is Ok,
    ensures
        ({
            let created = exhibit_outcome(slot, exhibit_acc, initial_price, duration, created_at, authority)->Ok_0.0;
            let outcome = close_outcome(created, close_acc, closed_at, item_amount, funds_amount, authority);
            &&& closed_at < created_at + duration ==> outcome
                == Err::<(AuctionRecord, Seq<CustodyOp>), _>(AuctionError::TemporalFailure)
            &&& closed_at >= created_at + duration && close_acc.caller_signed ==> outcome
                == Err::<(AuctionRecord, Seq<CustodyOp>), _>(AuctionError::StateFailure)
            &&& !(outcome is Ok)
        }),
{
    Key::lemma_zero_is_default();
}

/// Applying a sequence of operations that is accepted passes through each
/// of its prefixes.
proof fn lemma_prefix_applies(l: Map<Key, Holding>, ops: Seq<CustodyOp>, n: int)
    requires
        0 <= n < ops.len(),
        apply_ops(l, ops.take(n + 1)) is Some,
    ensures
        apply_ops(l, ops.take(n)) is Some,
        apply_ops(l, ops.take(n + 1)) == apply_op(apply_ops(l, ops.take(n))->Some_0, ops[n]),
{
    assert(ops.take(n + 1).drop_last() =~= ops.take(n));
}

/// After a Create whose operations go through, the item custody account
/// holds one more unit and is controlled by the derived authority. (The
/// custody account is not the exhibitor's source account.)
pub proof fn lemma_create_takes_custody(
    slot: AuctionRecord,
    acc: ExhibitAccounts,
    initial_price: u64,
    duration: u64,
    now: i64,
    authority: Key,
    ledger: Map<Key, Holding>,
)
    requires
        exhibit_outcome(slot, acc, initial_price, duration, now, authority) is Ok,
        apply_ops(ledger, exhibit_outcome(slot, acc, initial_price, duration, now, authority)->Ok_0.1) is Some,
        acc.item_custody != acc.item_source,
    ensures
        ({
            let after = apply_ops(ledger, exhibit_outcome(slot, acc, initial_price, duration, now, authority)->Ok_0.1)->Some_0;
            &&& ledger.contains_key(acc.item_custody)
            &&& after.contains_key(acc.item_custody)
            &&& after[acc.item_custody].amount == ledger[acc.item_custody].amount + 1
            &&& after[acc.item_custody].owner == authority
        }),
{
    let ops = exhibit_outcome(slot, acc, initial_price, duration, now, authority)->Ok_0.1;
    assert(ops.take(2) =~= ops);
    lemma_prefix_applies(ledger, ops, 1);
    lemma_prefix_applies(ledger, ops, 0);
    assert(apply_ops(ledger, ops.take(0)) == Some(ledger));
}

/// After a Bid whose operations go through, the new leader's custody account
/// holds exactly the bid more than before and is controlled by the derived
/// authority. (The custody account is none of the other accounts the bid
/// moves funds between.)
pub proof fn lemma_bid_escrows_funds(
    rec: AuctionRecord,
    acc: BidAccounts,
    amount: u64,
    now: i64,
    authority: Key,
    ledger: Map<Key, Holding>,
)
    requires
        bid_outcome(rec, acc, amount, now, authority) is Ok,
        apply_ops(ledger, bid_outcome(rec, acc, amount, now, authority)->Ok_0.1) is Some,
        acc.bidder_custody != acc.bidder_source,
        rec.has_leader() ==> acc.bidder_custody != rec.highest_bidder_custody
            && acc.bidder_custody != rec.highest_bidder_refund,
    ensures
        ({
            let (next, ops) = bid_outcome(rec, acc, amount, now, authority)->Ok_0;
            let after = apply_ops(ledger, ops)->Some_0;
            &&& ledger.contains_key(next.highest_bidder_custody)
            &&& after.contains_key(next.highest_bidder_custody)
            &&& after[next.highest_bidder_custody].amount == ledger[next.highest_bidder_custody].amount
                + next.current_price
            &&& after[next.highest_bidder_custody].owner == authority
        }),
{
    let ops = bid_outcome(rec, acc, amount, now, authority)->Ok_0.1;
    let c = acc.bidder_custody;
    assert(ops.take(ops.len() as int) =~= ops);
    lemma_prefix_applies(ledger, ops, ops.len() - 1);
    if rec.has_leader() {
        lemma_prefix_applies(ledger, ops, 2);
        lemma_prefix_applies(ledger, ops, 1);
        lemma_prefix_applies(ledger, ops, 0);
        assert(apply_ops(ledger, ops.take(0)) == Some(ledger));
        let l2 = apply_ops(ledger, ops.take(2))->Some_0;
        let l3 = apply_ops(ledger, ops.take(3))->Some_0;
        assert(l3.contains_key(c) && l3[c] == l2[c]);
    } else {
        lemma_prefix_applies(ledger, ops, 0);
        assert(apply_ops(ledger, ops.take(0)) == Some(ledger));
    }
}

/// Cancel and Close are terminal: once either has gone through, the slot is
/// empty and no Bid, Cancel or Close is accepted on it.
pub proof fn lemma_settled_is_terminal(
    ended: AuctionRecord,
    bid_acc: BidAccounts,
    amount: u64,
    cancel_acc: CancelAccounts,
    close_acc: CloseAccounts,
    now: i64,
    item_amount: u64,
    funds_amount: u64,
    authority: Key,
)
    requires
        ended == AuctionRecord::empty_spec(),
    ensures
        !ended.initialized,
        bid_outcome(ended, bid_acc, amount, now, authority) is Err,
        cancel_outcome(ended, cancel_acc, item_amount, authority) is Err,
        close_outcome(ended, close_acc, now, item_amount, funds_amount, authority)
            == Err::<(AuctionRecord, Seq<CustodyOp>), _>(AuctionError::StateFailure),
{
}

} // verus!
