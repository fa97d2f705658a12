use nft_auction::custody::CustodyOp;
use nft_auction::error::AuctionError;
use nft_auction::key::Key;
use nft_auction::machine::{bid, cancel, close, exhibit, Transition};
use nft_auction::record::{AuctionRecord, BidAccounts, CancelAccounts, CloseAccounts, ExhibitAccounts};

fn k(n: u8) -> Key {
    Key::new([n; 32])
}

const EXHIBITOR: u8 = 1;
const ITEM_SOURCE: u8 = 2;
const ITEM_CUSTODY: u8 = 3;
const PROCEEDS: u8 = 4;
const AUTHORITY: u8 = 9;
const RECORD: u8 = 10;
const A: u8 = 20;
const A_CUSTODY: u8 = 21;
const A_SOURCE: u8 = 22;
const B: u8 = 30;
const B_CUSTODY: u8 = 31;
const B_SOURCE: u8 = 32;
const B_RECEIVING: u8 = 33;

fn exhibit_accounts() -> ExhibitAccounts {
    ExhibitAccounts {
        exhibitor: k(EXHIBITOR),
        exhibitor_signed: true,
        item_source: k(ITEM_SOURCE),
        item_custody: k(ITEM_CUSTODY),
        proceeds_receiving: k(PROCEEDS),
        record_funded: true,
    }
}

fn create(price: u64, duration: u64, now: i64) -> AuctionRecord {
    exhibit(&AuctionRecord::empty(), &exhibit_accounts(), price, duration, now, &k(AUTHORITY))
        .unwrap()
        .record
}

fn bid_accounts(rec: &AuctionRecord, bidder: u8, custody: u8, source: u8) -> BidAccounts {
    BidAccounts {
        bidder: k(bidder),
        bidder_signed: true,
        leader: rec.highest_bidder,
        leader_custody: rec.highest_bidder_custody,
        leader_refund: rec.highest_bidder_refund,
        bidder_custody: k(custody),
        bidder_source: k(source),
    }
}

fn cancel_accounts() -> CancelAccounts {
    CancelAccounts {
        exhibitor: k(EXHIBITOR),
        exhibitor_signed: true,
        item_custody: k(ITEM_CUSTODY),
        item_returning: k(ITEM_SOURCE),
        record: k(RECORD),
    }
}

fn close_accounts(rec: &AuctionRecord, caller: u8, receiving: u8) -> CloseAccounts {
    CloseAccounts {
        caller: k(caller),
        caller_signed: true,
        exhibitor: rec.exhibitor,
        item_custody: rec.item_custody,
        proceeds_receiving: rec.proceeds_receiving,
        leader_custody: rec.highest_bidder_custody,
        winner_receiving: k(receiving),
        record: k(RECORD),
    }
}

fn is_empty(r: &AuctionRecord) -> bool {
    !r.initialized && r.current_price == 0 && r.end_at == 0 && r.highest_bidder == Key::zero()
        && r.exhibitor == Key::zero() && r.item_custody == Key::zero()
}

#[test]
fn create_opens_the_record_and_takes_the_item() {
    let t: Transition =
        exhibit(&AuctionRecord::empty(), &exhibit_accounts(), 100, 60, 1_000, &k(AUTHORITY)).unwrap();
    assert!(t.record.initialized);
    assert_eq!(t.record.current_price, 100);
    assert_eq!(t.record.end_at, 1_060);
    assert_eq!(t.record.exhibitor, k(EXHIBITOR));
    assert_eq!(t.record.item_custody, k(ITEM_CUSTODY));
    assert_eq!(t.record.proceeds_receiving, k(PROCEEDS));
    assert_eq!(t.record.highest_bidder, Key::zero());
    assert_eq!(t.ops.len(), 2);
    assert!(matches!(t.ops[0], CustodyOp::Transfer { source, destination, authority, amount: 1 }
        if source == k(ITEM_SOURCE) && destination == k(ITEM_CUSTODY) && authority == k(EXHIBITOR)));
    assert!(matches!(t.ops[1], CustodyOp::SetOwner { account, new_owner, current_owner }
        if account == k(ITEM_CUSTODY) && new_owner == k(AUTHORITY) && current_owner == k(EXHIBITOR)));
}

#[test]
fn create_refusals() {
    let empty = AuctionRecord::empty();
    let mut acc = exhibit_accounts();
    acc.exhibitor_signed = false;
    assert_eq!(exhibit(&empty, &acc, 100, 60, 0, &k(AUTHORITY)).unwrap_err(), AuctionError::AuthorizationFailure);
    let mut acc = exhibit_accounts();
    acc.record_funded = false;
    assert_eq!(exhibit(&empty, &acc, 100, 60, 0, &k(AUTHORITY)).unwrap_err(), AuctionError::ResourceFailure);
    let live = create(100, 60, 0);
    assert_eq!(
        exhibit(&live, &exhibit_accounts(), 100, 60, 0, &k(AUTHORITY)).unwrap_err(),
        AuctionError::StateFailure
    );
    assert_eq!(
        exhibit(&empty, &exhibit_accounts(), 100, u64::MAX, 0, &k(AUTHORITY)).unwrap_err(),
        AuctionError::ArithmeticFailure
    );
    assert_eq!(
        exhibit(&empty, &exhibit_accounts(), 100, 1, i64::MAX, &k(AUTHORITY)).unwrap_err(),
        AuctionError::ArithmeticFailure
    );
    let t = exhibit(&empty, &exhibit_accounts(), 100, i64::MAX as u64, 0, &k(AUTHORITY)).unwrap();
    assert_eq!(t.record.end_at, i64::MAX);
}

#[test]
fn full_auction_scenario() {
    let rec = create(100, 60, 0);

    let a = bid(&rec, &bid_accounts(&rec, A, A_CUSTODY, A_SOURCE), 150, 10, &k(AUTHORITY)).unwrap();
    assert_eq!(a.record.highest_bidder, k(A));
    assert_eq!(a.record.current_price, 150);
    assert_eq!(a.ops.len(), 2);
    assert!(matches!(a.ops[0], CustodyOp::Transfer { source, destination, authority, amount: 150 }
        if source == k(A_SOURCE) && destination == k(A_CUSTODY) && authority == k(A)));

    let rec = a.record;
    let b = bid(&rec, &bid_accounts(&rec, B, B_CUSTODY, B_SOURCE), 200, 20, &k(AUTHORITY)).unwrap();
    assert_eq!(b.record.highest_bidder, k(B));
    assert_eq!(b.record.current_price, 200);
    assert_eq!(b.record.highest_bidder_custody, k(B_CUSTODY));
    assert_eq!(b.record.highest_bidder_refund, k(B_SOURCE));
    assert_eq!(b.ops.len(), 4);
    assert!(matches!(b.ops[0], CustodyOp::Transfer { source, destination, amount: 200, .. }
        if source == k(B_SOURCE) && destination == k(B_CUSTODY)));
    assert!(matches!(b.ops[1], CustodyOp::SetOwner { account, new_owner, .. }
        if account == k(B_CUSTODY) && new_owner == k(AUTHORITY)));
    assert!(matches!(b.ops[2], CustodyOp::Transfer { source, destination, authority, amount: 150 }
        if source == k(A_CUSTODY) && destination == k(A_SOURCE) && authority == k(AUTHORITY)));
    assert!(matches!(b.ops[3], CustodyOp::Close { account, destination, authority }
        if account == k(A_CUSTODY) && destination == k(A) && authority == k(AUTHORITY)));

    let rec = b.record;
    let c = close(&rec, &close_accounts(&rec, B, B_RECEIVING), 60, 1, 200, &k(AUTHORITY)).unwrap();
    assert!(is_empty(&c.record));
    assert_eq!(c.ops.len(), 5);
    assert!(matches!(c.ops[0], CustodyOp::Transfer { source, destination, amount: 1, .. }
        if source == k(ITEM_CUSTODY) && destination == k(B_RECEIVING)));
    assert!(matches!(c.ops[1], CustodyOp::Transfer { source, destination, amount: 200, .. }
        if source == k(B_CUSTODY) && destination == k(PROCEEDS)));
    assert!(matches!(c.ops[2], CustodyOp::Close { account, destination, .. }
        if account == k(B_CUSTODY) && destination == k(B)));
    assert!(matches!(c.ops[3], CustodyOp::Close { account, destination, .. }
        if account == k(ITEM_CUSTODY) && destination == k(EXHIBITOR)));
    assert!(matches!(c.ops[4], CustodyOp::Reclaim { record, destination }
        if record == k(RECORD) && destination == k(EXHIBITOR)));
}

#[test]
fn low_bid_is_refused() {
    let rec = create(100, 60, 0);
    let r = bid(&rec, &bid_accounts(&rec, A, A_CUSTODY, A_SOURCE), 90, 10, &k(AUTHORITY));
    assert_eq!(r.unwrap_err(), AuctionError::EconomicFailure);
    let r = bid(&rec, &bid_accounts(&rec, A, A_CUSTODY, A_SOURCE), 100, 10, &k(AUTHORITY));
    assert_eq!(r.unwrap_err(), AuctionError::EconomicFailure);
    assert_eq!(rec.current_price, 100);
    assert_eq!(rec.highest_bidder, Key::zero());
}

#[test]
fn bid_refusals() {
    let rec = create(100, 60, 0);
    let mut acc = bid_accounts(&rec, A, A_CUSTODY, A_SOURCE);
    acc.bidder_signed = false;
    assert_eq!(bid(&rec, &acc, 150, 10, &k(AUTHORITY)).unwrap_err(), AuctionError::AuthorizationFailure);
    let acc = bid_accounts(&rec, A, A_CUSTODY, A_SOURCE);
    assert_eq!(
        bid(&AuctionRecord::empty(), &acc, 150, 10, &k(AUTHORITY)).unwrap_err(),
        AuctionError::StateFailure
    );
    assert_eq!(bid(&rec, &acc, 150, 60, &k(AUTHORITY)).unwrap_err(), AuctionError::TemporalFailure);
    let mut stale = acc;
    stale.leader_custody = k(77);
    assert_eq!(bid(&rec, &stale, 150, 10, &k(AUTHORITY)).unwrap_err(), AuctionError::AuthorizationFailure);
    let led = bid(&rec, &acc, 150, 10, &k(AUTHORITY)).unwrap().record;
    let again = bid_accounts(&led, A, 40, A_SOURCE);
    assert_eq!(bid(&led, &again, 160, 11, &k(AUTHORITY)).unwrap_err(), AuctionError::EconomicFailure);
}

#[test]
fn cancel_without_bids_returns_the_item() {
    let rec = create(100, 60, 0);
    let t = cancel(&rec, &cancel_accounts(), 1, &k(AUTHORITY)).unwrap();
    assert!(is_empty(&t.record));
    assert_eq!(t.ops.len(), 3);
    assert!(matches!(t.ops[0], CustodyOp::Transfer { source, destination, authority, amount: 1 }
        if source == k(ITEM_CUSTODY) && destination == k(ITEM_SOURCE) && authority == k(AUTHORITY)));
    assert!(matches!(t.ops[1], CustodyOp::Close { account, destination, .. }
        if account == k(ITEM_CUSTODY) && destination == k(EXHIBITOR)));
    assert!(matches!(t.ops[2], CustodyOp::Reclaim { record, destination }
        if record == k(RECORD) && destination == k(EXHIBITOR)));
}

#[test]
fn cancel_after_a_bid_is_refused() {
    let rec = create(100, 60, 0);
    let led = bid(&rec, &bid_accounts(&rec, A, A_CUSTODY, A_SOURCE), 150, 10, &k(AUTHORITY)).unwrap().record;
    assert_eq!(cancel(&led, &cancel_accounts(), 1, &k(AUTHORITY)).unwrap_err(), AuctionError::EconomicFailure);
    assert_eq!(led.highest_bidder, k(A));
    assert!(led.initialized);
}

#[test]
fn cancel_refusals() {
    let rec = create(100, 60, 0);
    let mut acc = cancel_accounts();
    acc.exhibitor_signed = false;
    assert_eq!(cancel(&rec, &acc, 1, &k(AUTHORITY)).unwrap_err(), AuctionError::AuthorizationFailure);
    let mut acc = cancel_accounts();
    acc.exhibitor = k(A);
    assert_eq!(cancel(&rec, &acc, 1, &k(AUTHORITY)).unwrap_err(), AuctionError::AuthorizationFailure);
    let mut acc = cancel_accounts();
    acc.item_custody = k(77);
    assert_eq!(cancel(&rec, &acc, 1, &k(AUTHORITY)).unwrap_err(), AuctionError::AuthorizationFailure);
    assert_eq!(
        cancel(&AuctionRecord::empty(), &cancel_accounts(), 1, &k(AUTHORITY)).unwrap_err(),
        AuctionError::StateFailure
    );
}

#[test]
fn close_right_after_create_is_premature() {
    let rec = create(100, 3600, 5_000);
    let acc = close_accounts(&rec, A, B_RECEIVING);
    assert_eq!(close(&rec, &acc, 5_000, 1, 0, &k(AUTHORITY)).unwrap_err(), AuctionError::TemporalFailure);
    let mut unsigned = acc;
    unsigned.caller_signed = false;
    assert_eq!(close(&rec, &unsigned, 8_599, 1, 0, &k(AUTHORITY)).unwrap_err(), AuctionError::TemporalFailure);
}

#[test]
fn close_without_a_bid_has_no_winner() {
    let rec = create(100, 0, 5_000);
    let acc = close_accounts(&rec, A, B_RECEIVING);
    assert_eq!(close(&rec, &acc, 5_001, 1, 0, &k(AUTHORITY)).unwrap_err(), AuctionError::StateFailure);
    assert_eq!(close(&rec, &acc, 5_000, 1, 0, &k(AUTHORITY)).unwrap_err(), AuctionError::StateFailure);
}

#[test]
fn close_refusals() {
    let rec = create(100, 60, 0);
    let led = bid(&rec, &bid_accounts(&rec, A, A_CUSTODY, A_SOURCE), 150, 10, &k(AUTHORITY)).unwrap().record;
    assert!(close(&led, &close_accounts(&led, A, 50), 60, 1, 150, &k(AUTHORITY)).is_ok());
    assert_eq!(
        close(&led, &close_accounts(&led, B, 50), 60, 1, 150, &k(AUTHORITY)).unwrap_err(),
        AuctionError::AuthorizationFailure
    );
    let mut unsigned = close_accounts(&led, A, 50);
    unsigned.caller_signed = false;
    assert_eq!(close(&led, &unsigned, 60, 1, 150, &k(AUTHORITY)).unwrap_err(), AuctionError::AuthorizationFailure);
    let mut wrong = close_accounts(&led, A, 50);
    wrong.proceeds_receiving = k(77);
    assert_eq!(close(&led, &wrong, 60, 1, 150, &k(AUTHORITY)).unwrap_err(), AuctionError::AuthorizationFailure);
    assert_eq!(
        close(&AuctionRecord::empty(), &close_accounts(&led, A, 50), 60, 1, 150, &k(AUTHORITY)).unwrap_err(),
        AuctionError::StateFailure
    );
}

#[test]
fn prices_rise_along_bids() {
    let mut rec = create(100, 60, 0);
    let bidders: [(u8, u64); 4] = [(A, 101), (B, 150), (A, 151), (B, 1_000)];
    let mut last = rec.current_price;
    for (i, (who, amount)) in bidders.iter().enumerate() {
        let acc = bid_accounts(&rec, *who, 100 + i as u8, *who + 2);
        rec = bid(&rec, &acc, *amount, 10, &k(AUTHORITY)).unwrap().record;
        assert!(rec.current_price > last);
        last = rec.current_price;
    }
    assert_eq!(last, 1_000);
}

#[test]
fn key_default_and_equality() {
    assert!(Key::zero().check_default());
    assert!(!k(1).check_default());
    let mut bytes = [0u8; 32];
    bytes[31] = 1;
    assert!(!Key::new(bytes).check_default());
    assert!(k(5).same(&k(5)));
    assert!(!k(5).same(&Key::new(bytes)));
}
