use vstd::prelude::*;
use crate::custody::CustodyOp;
use crate::error::AuctionError;
use crate::key::Key;
use crate::record::{AuctionRecord, BidAccounts, CancelAccounts, CloseAccounts, ExhibitAccounts};

verus! {

/// The record after a successful transition, and the custody operations to
/// issue, in order.
#[derive(Debug)]
pub struct Transition {
    pub record: AuctionRecord,
    pub ops: Vec<CustodyOp>,
}

pub type Outcome = Result<(AuctionRecord, Seq<CustodyOp>), AuctionError>;

pub open spec fn outcome_of(r: Result<Transition, AuctionError>) -> Outcome {
    match r {
        Ok(t) => Ok((t.record, t.ops@)),
        Err(e) => Err(e),
    }
}

/// Create: the item goes into custody under the derived authority, and the
/// record opens at the initial price.
pub open spec fn exhibit_outcome(
    rec: AuctionRecord,
    acc: ExhibitAccounts,
    initial_price: u64,
    duration: u64,
    now: i64,
    authority: Key,
) -> Outcome {
    if !acc.exhibitor_signed {
        Err(AuctionError::AuthorizationFailure)
    } else if !acc.record_funded {
        Err(AuctionError::ResourceFailure)
    } else if rec.initialized {
        Err(AuctionError::StateFailure)
    } else if now + duration > i64::MAX {
        Err(AuctionError::ArithmeticFailure)
    } else {
        Ok((
            AuctionRecord {
                initialized: true,
                exhibitor: acc.exhibitor,
                item_custody: acc.item_custody,
                proceeds_receiving: acc.proceeds_receiving,
                current_price: initial_price,
                highest_bidder: Key::zero_spec(),
                highest_bidder_custody: Key::zero_spec(),
                highest_bidder_refund: Key::zero_spec(),
                end_at: (now + duration) as i64,
            },
            seq![
                CustodyOp::Transfer {
                    source: acc.item_source,
                    destination: acc.item_custody,
                    authority: acc.exhibitor,
                    amount: 1,
                },
                CustodyOp::SetOwner {
                    account: acc.item_custody,
                    new_owner: authority,
                    current_owner: acc.exhibitor,
                },
            ],
        ))
    }
}

/// The operations that hand the outbid leader's funds back and close the
/// leader's custody account.
pub open spec fn refund_ops(rec: AuctionRecord, authority: Key) -> Seq<CustodyOp> {
    seq![
        CustodyOp::Transfer {
            source: rec.highest_bidder_custody,
            destination: rec.highest_bidder_refund,
            authority: authority,
            amount: rec.current_price,
        },
        CustodyOp::Close {
            account: rec.highest_bidder_custody,
            destination: rec.highest_bidder,
            authority: authority,
        },
    ]
}

/// Bid: the new funds go into custody first, then the previous leader, if
/// any, is refunded; the bidder becomes the leader at `amount`.
pub open spec fn bid_outcome(
    rec: AuctionRecord,
    acc: BidAccounts,
    amount: u64,
    now: i64,
    authority: Key,
) -> Outcome {
    if !acc.bidder_signed {
        Err(AuctionError::AuthorizationFailure)
    } else if !rec.initialized {
        Err(AuctionError::StateFailure)
    } else if rec.end_at <= now {
        Err(AuctionError::TemporalFailure)
    } else if amount <= rec.current_price {
        Err(AuctionError::EconomicFailure)
    } else if acc.leader_custody != rec.highest_bidder_custody
        || acc.leader_refund != rec.highest_bidder_refund
        || acc.leader != rec.highest_bidder {
        Err(AuctionError::AuthorizationFailure)
    } else if acc.bidder == rec.highest_bidder {
        Err(AuctionError::EconomicFailure)
    } else {
        let deposit = seq![
            CustodyOp::Transfer {
                source: acc.bidder_source,
                destination: acc.bidder_custody,
                authority: acc.bidder,
                amount: amount,
            },
            CustodyOp::SetOwner {
                account: acc.bidder_custody,
                new_owner: authority,
                current_owner: acc.bidder,
            },
        ];
        Ok((
            AuctionRecord {
                current_price: amount,
                highest_bidder: acc.bidder,
                highest_bidder_custody: acc.bidder_custody,
                highest_bidder_refund: acc.bidder_source,
                ..rec
            },
            if rec.has_leader() { deposit + refund_ops(rec, authority) } else { deposit },
        ))
    }
}

/// Cancel: the item goes back to the exhibitor, its custody account is
/// closed and the record destroyed. Only while nobody has bid.
pub open spec fn cancel_outcome(
    rec: AuctionRecord,
    acc: CancelAccounts,
    item_amount: u64,
    authority: Key,
) -> Outcome {
    if !acc.exhibitor_signed {
        Err(AuctionError::AuthorizationFailure)
    } else if !rec.initialized {
        Err(AuctionError::StateFailure)
    } else if acc.exhibitor != rec.exhibitor || acc.item_custody != rec.item_custody {
        Err(AuctionError::AuthorizationFailure)
    } else if rec.has_leader() {
        Err(AuctionError::EconomicFailure)
    } else {
        Ok((
            AuctionRecord::empty_spec(),
            seq![
                CustodyOp::Transfer {
                    source: rec.item_custody,
                    destination: acc.item_returning,
                    authority: authority,
                    amount: item_amount,
                },
                CustodyOp::Close {
                    account: rec.item_custody,
                    destination: rec.exhibitor,
                    authority: authority,
                },
                CustodyOp::Reclaim { record: acc.record, destination: rec.exhibitor },
            ],
        ))
    }
}


/// Close: after `end_at`, the item goes to the winner and the winning funds
/// to the exhibitor; both custody accounts are closed and the record destroyed.
pub open spec fn close_outcome(
    rec: AuctionRecord,
    acc: CloseAccounts,
    now: i64,
    item_amount: u64,
    funds_amount: u64,
    authority: Key,
) -> Outcome {
    if !rec.initialized {
        Err(AuctionError::StateFailure)
    } else if now < rec.end_at {
        Err(AuctionError::TemporalFailure)
    } else if !acc.caller_signed {
        Err(AuctionError::AuthorizationFailure)
    } else if !rec.has_leader() {
        Err(AuctionError::StateFailure)
    } else if acc.exhibitor != rec.exhibitor || acc.item_custody != rec.item_custody
        || acc.proceeds_receiving != rec.proceeds_receiving
        || acc.leader_custody != rec.highest_bidder_custody
        || acc.caller != rec.highest_bidder {
        Err(AuctionError::AuthorizationFailure)
    } else {
        Ok((
            AuctionRecord::empty_spec(),
            seq![
                CustodyOp::Transfer {
                    source: rec.item_custody,
                    destination: acc.winner_receiving,
                    authority: authority,
                    amount: item_amount,
                },
                CustodyOp::Transfer {
                    source: rec.highest_bidder_custody,
                    destination: rec.proceeds_receiving,
                    authority: authority,
                    amount: funds_amount,
                },
                CustodyOp::Close {
                    account: rec.highest_bidder_custody,
                    destination: rec.highest_bidder,
                    authority: authority,
                },
                CustodyOp::Close {
                    account: rec.item_custody,
                    destination: rec.exhibitor,
                    authority: authority,
                },
                CustodyOp::Reclaim { record: acc.record, destination: rec.exhibitor },
            ],
        ))
    }
}

pub fn exhibit(
    rec: &AuctionRecord,
    acc: &ExhibitAccounts,
    initial_price: u64,
    duration: u64,
    now: i64,
    authority: &Key,
) -> (r: Result<Transition, AuctionError>)
    ensures
        outcome_of(r) == exhibit_outcome(*rec, *acc, initial_price, duration, now, *authority),
{
    if !acc.exhibitor_signed {
        return Err(AuctionError::AuthorizationFailure);
    }
    if !acc.record_funded {
        return Err(AuctionError::ResourceFailure);
    }
    if rec.initialized {
        return Err(AuctionError::StateFailure);
    }
    let end_at: i128 = now as i128 + duration as i128;
    if end_at > i64::MAX as i128 {
        return Err(AuctionError::ArithmeticFailure);
    }
    let record = AuctionRecord {
        initialized: true,
        exhibitor: acc.exhibitor,
        item_custody: acc.item_custody,
        proceeds_receiving: acc.proceeds_receiving,
        current_price: initial_price,
        highest_bidder: Key::zero(),
        highest_bidder_custody: Key::zero(),
        highest_bidder_refund: Key::zero(),
        end_at: end_at as i64,
    };
    let mut ops: Vec<CustodyOp> = Vec::new();
    ops.push(CustodyOp::Transfer {
        source: acc.item_source,
        destination: acc.item_custody,
        authority: acc.exhibitor,
        amount: 1,
    });
    ops.push(CustodyOp::SetOwner {
        account: acc.item_custody,
        new_owner: *authority,
        current_owner: acc.exhibitor,
    });
    let r = Transition { record, ops };
    proof {
        let expected = exhibit_outcome(*rec, *acc, initial_price, duration, now, *authority);
        assert(r.ops@ =~= expected->Ok_0.1);
    }
    Ok(r)
}

pub fn bid(
    rec: &AuctionRecord,
    acc: &BidAccounts,
    amount: u64,
    now: i64,
    authority: &Key,
) -> (r: Result<Transition, AuctionError>)
    ensures
        outcome_of(r) == bid_outcome(*rec, *acc, amount, now, *authority),
{
    if !acc.bidder_signed {
        return Err(AuctionError::AuthorizationFailure);
    }
    if !rec.initialized {
        return Err(AuctionError::StateFailure);
    }
    if rec.end_at <= now {
        return Err(AuctionError::TemporalFailure);
    }
    if amount <= rec.current_price {
        return Err(AuctionError::EconomicFailure);
    }
    if !acc.leader_custody.same(&rec.highest_bidder_custody)
        || !acc.leader_refund.same(&rec.highest_bidder_refund)
        || !acc.leader.same(&rec.highest_bidder) {
        return Err(AuctionError::AuthorizationFailure);
    }
    if acc.bidder.same(&rec.highest_bidder) {
        return Err(AuctionError::EconomicFailure);
    }
    let mut ops: Vec<CustodyOp> = Vec::new();
    ops.push(CustodyOp::Transfer {
        source: acc.bidder_source,
        destination: acc.bidder_custody,
        authority: acc.bidder,
        amount: amount,
    });
    ops.push(CustodyOp::SetOwner {
        account: acc.bidder_custody,
        new_owner: *authority,
        current_owner: acc.bidder,
    });
    if !rec.highest_bidder.check_default() {
        ops.push(CustodyOp::Transfer {
            source: rec.highest_bidder_custody,
            destination: rec.highest_bidder_refund,
            authority: *authority,
            amount: rec.current_price,
        });
        ops.push(CustodyOp::Close {
            account: rec.highest_bidder_custody,
            destination: rec.highest_bidder,
            authority: *authority,
        });
    }
    let record = AuctionRecord {
        current_price: amount,
        highest_bidder: acc.bidder,
        highest_bidder_custody: acc.bidder_custody,
        highest_bidder_refund: acc.bidder_source,
        ..*rec
    };
    let r = Transition { record, ops };
    proof {
        let expected = bid_outcome(*rec, *acc, amount, now, *authority);
        assert(r.ops@ =~= expected->Ok_0.1);
    }
    Ok(r)
}

pub fn cancel(
    rec: &AuctionRecord,
    acc: &CancelAccounts,
    item_amount: u64,
    authority: &Key,
) -> (r: Result<Transition, AuctionError>)
    ensures
        outcome_of(r) == cancel_outcome(*rec, *acc, item_amount, *authority),
{
    if !acc.exhibitor_signed {
        return Err(AuctionError::AuthorizationFailure);
    }
    if !rec.initialized {
        return Err(AuctionError::StateFailure);
    }
    if !acc.exhibitor.same(&rec.exhibitor) || !acc.item_custody.same(&rec.item_custody) {
        return Err(AuctionError::AuthorizationFailure);
    }
    if !rec.highest_bidder.check_default() {
        return Err(AuctionError::EconomicFailure);
    }
    let mut ops: Vec<CustodyOp> = Vec::new();
    ops.push(CustodyOp::Transfer {
        source: rec.item_custody,
        destination: acc.item_returning,
        authority: *authority,
        amount: item_amount,
    });
    ops.push(CustodyOp::Close {
        account: rec.item_custody,
        destination: rec.exhibitor,
        authority: *authority,
    });
    ops.push(CustodyOp::Reclaim { record: acc.record, destination: rec.exhibitor });
    let r = Transition { record: AuctionRecord::empty(), ops };
    proof {
        let expected = cancel_outcome(*rec, *acc, item_amount, *authority);
        assert(r.ops@ =~= expected->Ok_0.1);
    }
    Ok(r)
}

pub fn close(
    rec: &AuctionRecord,
    acc: &CloseAccounts,
    now: i64,
    item_amount: u64,
    funds_amount: u64,
    authority: &Key,
) -> (r: Result<Transition, AuctionError>)
    ensures
        outcome_of(r) == close_outcome(*rec, *acc, now, item_amount, funds_amount, *authority),
{
    if !rec.initialized {
        return Err(AuctionError::StateFailure);
    }
    if now < rec.end_at {
        return Err(AuctionError::TemporalFailure);
    }
    if !acc.caller_signed {
        return Err(AuctionError::AuthorizationFailure);
    }
    if rec.highest_bidder.check_default() {
        return Err(AuctionError::StateFailure);
    }
    if !acc.exhibitor.same(&rec.exhibitor) || !acc.item_custody.same(&rec.item_custody)
        || !acc.proceeds_receiving.same(&rec.proceeds_receiving)
        || !acc.leader_custody.same(&rec.highest_bidder_custody)
        || !acc.caller.same(&rec.highest_bidder) {
        return Err(AuctionError::AuthorizationFailure);
    }
    let mut ops: Vec<CustodyOp> = Vec::new();
    ops.push(CustodyOp::Transfer {
        source: rec.item_custody,
        destination: acc.winner_receiving,
        authority: *authority,
        amount: item_amount,
    });
    ops.push(CustodyOp::Transfer {
        source: rec.highest_bidder_custody,
        destination: rec.proceeds_receiving,
        authority: *authority,
        amount: funds_amount,
    });
    ops.push(CustodyOp::Close {
        account: rec.highest_bidder_custody,
        destination: rec.highest_bidder,
        authority: *authority,
    });
    ops.push(CustodyOp::Close {
        account: rec.item_custody,
        destination: rec.exhibitor,
        authority: *authority,
    });
    ops.push(CustodyOp::Reclaim { record: acc.record, destination: rec.exhibitor });
    let r = Transition { record: AuctionRecord::empty(), ops };
    proof {
        let expected = close_outcome(*rec, *acc, now, item_amount, funds_amount, *authority);
        assert(r.ops@ =~= expected->Ok_0.1);
    }
    Ok(r)
}

} // verus!
