use nft_auction::custody::{CustodyOp, Holding};
use nft_auction::error::AuctionError;
use nft_auction::instruction::AuctionInstruction;
use nft_auction::key::Key;
use nft_auction::layout::RECORD_LEN;
use nft_auction::ledger::Ledger;
use nft_auction::machine::{bid, close, exhibit};
use nft_auction::record::{AuctionRecord, BidAccounts, CloseAccounts, ExhibitAccounts};

fn k(n: u8) -> Key {
    Key::new([n; 32])
}

fn hold(owner: u8, amount: u64, lamports: u64) -> Holding {
    Holding { owner: k(owner), amount, lamports }
}

const EXHIBITOR: u8 = 1;
const ITEM_SOURCE: u8 = 2;
const ITEM_CUSTODY: u8 = 3;
const PROCEEDS: u8 = 4;
const AUTHORITY: u8 = 9;
const RECORD: u8 = 10;
const A: u8 = 20;
const A_CUSTODY: u8 = 21;
const A_SOURCE: u8 = 22;
const B: u8 = 30;
const B_CUSTODY: u8 = 31;
const B_SOURCE: u8 = 32;
const B_RECEIVING: u8 = 33;

fn world() -> Ledger {
    let mut l = Ledger::new();
    l.open(k(EXHIBITOR), hold(0, 0, 1_000));
    l.open(k(ITEM_SOURCE), hold(EXHIBITOR, 1, 2));
    l.open(k(ITEM_CUSTODY), hold(EXHIBITOR, 0, 2));
    l.open(k(PROCEEDS), hold(EXHIBITOR, 0, 2));
    l.open(k(RECORD), hold(0, 0, 5));
    l.open(k(A), hold(0, 0, 100));
    l.open(k(A_SOURCE), hold(A, 500, 2));
    l.open(k(A_CUSTODY), hold(A, 0, 2));
    l.open(k(B), hold(0, 0, 100));
    l.open(k(B_SOURCE), hold(B, 500, 2));
    l.open(k(B_CUSTODY), hold(B, 0, 2));
    l.open(k(B_RECEIVING), hold(B, 0, 2));
    l
}

fn amount(l: &Ledger, n: u8) -> u64 {
    l.holding(&k(n)).unwrap().amount
}

fn lamports(l: &Ledger, n: u8) -> u64 {
    l.holding(&k(n)).unwrap().lamports
}

fn bid_accounts(rec: &AuctionRecord, bidder: u8, custody: u8, source: u8) -> BidAccounts {
    BidAccounts {
        bidder: k(bidder),
        bidder_signed: true,
        leader: rec.highest_bidder,
        leader_custody: rec.highest_bidder_custody,
        leader_refund: rec.highest_bidder_refund,
        bidder_custody: k(custody),
        bidder_source: k(source),
    }
}

#[test]
fn settlement_end_to_end() {
    let mut l = world();
    let acc = ExhibitAccounts {
        exhibitor: k(EXHIBITOR),
        exhibitor_signed: true,
        item_source: k(ITEM_SOURCE),
        item_custody: k(ITEM_CUSTODY),
        proceeds_receiving: k(PROCEEDS),
        record_funded: true,
    };
    let t = exhibit(&AuctionRecord::empty(), &acc, 100, 60, 0, &k(AUTHORITY)).unwrap();
    l.apply_all(&t.ops).unwrap();
    assert_eq!(amount(&l, ITEM_CUSTODY), 1);
    assert_eq!(l.holding(&k(ITEM_CUSTODY)).unwrap().owner, k(AUTHORITY));
    let rec = t.record;

    let t = bid(&rec, &bid_accounts(&rec, A, A_CUSTODY, A_SOURCE), 150, 10, &k(AUTHORITY)).unwrap();
    l.apply_all(&t.ops).unwrap();
    assert_eq!(amount(&l, A_SOURCE), 350);
    assert_eq!(amount(&l, A_CUSTODY), 150);
    let rec = t.record;
    assert_eq!(rec.highest_bidder, k(A));
    assert_eq!(rec.current_price, 150);

    let t = bid(&rec, &bid_accounts(&rec, B, B_CUSTODY, B_SOURCE), 200, 20, &k(AUTHORITY)).unwrap();
    l.apply_all(&t.ops).unwrap();
    assert_eq!(amount(&l, A_SOURCE), 500);
    assert!(l.holding(&k(A_CUSTODY)).is_none());
    assert_eq!(lamports(&l, A), 102);
    assert_eq!(amount(&l, B_SOURCE), 300);
    assert_eq!(amount(&l, B_CUSTODY), 200);
    let rec = t.record;
    assert_eq!(rec.highest_bidder, k(B));
    assert_eq!(rec.current_price, 200);

    let close_acc = CloseAccounts {
        caller: k(B),
        caller_signed: true,
        exhibitor: k(EXHIBITOR),
        item_custody: k(ITEM_CUSTODY),
        proceeds_receiving: k(PROCEEDS),
        leader_custody: k(B_CUSTODY),
        winner_receiving: k(B_RECEIVING),
        record: k(RECORD),
    };
    assert_eq!(
        close(&rec, &close_acc, 59, 1, 200, &k(AUTHORITY)).unwrap_err(),
        AuctionError::TemporalFailure
    );
    let item = amount(&l, ITEM_CUSTODY);
    let funds = amount(&l, B_CUSTODY);
    let t = close(&rec, &close_acc, 60, item, funds, &k(AUTHORITY)).unwrap();
    l.apply_all(&t.ops).unwrap();
    assert_eq!(amount(&l, B_RECEIVING), 1);
    assert_eq!(amount(&l, PROCEEDS), 200);
    assert!(l.holding(&k(B_CUSTODY)).is_none());
    assert!(l.holding(&k(ITEM_CUSTODY)).is_none());
    assert!(l.holding(&k(RECORD)).is_none());
    assert_eq!(lamports(&l, B), 102);
    assert_eq!(lamports(&l, EXHIBITOR), 1_007);
    assert!(!t.record.initialized);
}

#[test]
fn refused_operations_leave_the_ledger_alone() {
    let mut l = world();
    let ops = vec![
        CustodyOp::Transfer { source: k(A_SOURCE), destination: k(A_CUSTODY), authority: k(A), amount: 100 },
        CustodyOp::Transfer { source: k(B_SOURCE), destination: k(B_CUSTODY), authority: k(A), amount: 100 },
    ];
    assert_eq!(l.apply_all(&ops).unwrap_err(), AuctionError::CustodyFailure);
    assert_eq!(amount(&l, A_SOURCE), 500);
    assert_eq!(amount(&l, A_CUSTODY), 0);

    let too_much = CustodyOp::Transfer { source: k(A_SOURCE), destination: k(A_CUSTODY), authority: k(A), amount: 501 };
    assert_eq!(l.apply(&too_much).unwrap_err(), AuctionError::CustodyFailure);
    let not_empty = CustodyOp::Close { account: k(A_SOURCE), destination: k(A), authority: k(A) };
    assert_eq!(l.apply(&not_empty).unwrap_err(), AuctionError::CustodyFailure);
    let wrong_owner = CustodyOp::SetOwner { account: k(A_SOURCE), new_owner: k(B), current_owner: k(B) };
    assert_eq!(l.apply(&wrong_owner).unwrap_err(), AuctionError::CustodyFailure);
    let missing = CustodyOp::Reclaim { record: k(99), destination: k(A) };
    assert_eq!(l.apply(&missing).unwrap_err(), AuctionError::CustodyFailure);
    assert_eq!(amount(&l, A_SOURCE), 500);
    assert_eq!(l.holding(&k(A_SOURCE)).unwrap().owner, k(A));
}

#[test]
fn storage_overflow_is_refused() {
    let mut l = Ledger::new();
    l.open(k(1), hold(0, 0, u64::MAX));
    l.open(k(2), hold(0, 0, 1));
    let op = CustodyOp::Reclaim { record: k(2), destination: k(1) };
    assert_eq!(l.apply(&op).unwrap_err(), AuctionError::CustodyFailure);
    assert_eq!(lamports(&l, 2), 1);
}

#[test]
fn record_layout_round_trip() {
    let mut rec = AuctionRecord::empty();
    rec.initialized = true;
    rec.exhibitor = k(1);
    rec.item_custody = k(3);
    rec.proceeds_receiving = k(4);
    rec.current_price = 0x0102_0304_0506_0708;
    rec.highest_bidder = k(20);
    rec.highest_bidder_custody = k(21);
    rec.highest_bidder_refund = k(22);
    rec.end_at = -2;
    let bytes = rec.pack();
    assert_eq!(bytes.len(), RECORD_LEN);
    assert_eq!(bytes[0], 1);
    assert_eq!(&bytes[97..105], &[8, 7, 6, 5, 4, 3, 2, 1]);
    assert_eq!(&bytes[201..209], &[0xfe, 0xff, 0xff, 0xff, 0xff, 0xff, 0xff, 0xff]);
    let back = AuctionRecord::unpack(&bytes).unwrap();
    assert!(back.initialized);
    assert_eq!(back.current_price, rec.current_price);
    assert_eq!(back.end_at, -2);
    assert_eq!(back.exhibitor, k(1));
    assert_eq!(back.highest_bidder_refund, k(22));
    assert_eq!(back.pack(), bytes);

    let empty = AuctionRecord::empty().pack();
    assert_eq!(empty, vec![0u8; RECORD_LEN]);
    assert!(!AuctionRecord::unpack(&empty).unwrap().initialized);
    let mut bad = bytes.clone();
    bad[0] = 2;
    assert_eq!(AuctionRecord::unpack(&bad).unwrap_err(), AuctionError::StateFailure);
    assert_eq!(AuctionRecord::unpack(&bytes[..208]).unwrap_err(), AuctionError::StateFailure);
    assert_eq!(AuctionRecord::unpack(&[]).unwrap_err(), AuctionError::StateFailure);
}

#[test]
fn instruction_decoding() {
    let mut data = vec![0u8];
    data.extend_from_slice(&100u64.to_le_bytes());
    data.extend_from_slice(&3600u64.to_le_bytes());
    assert_eq!(
        AuctionInstruction::unpack(&data),
        Some(AuctionInstruction::Exhibit { initial_price: 100, seconds: 3600 })
    );
    let mut data = vec![1u8];
    data.extend_from_slice(&u64::MAX.to_le_bytes());
    assert_eq!(AuctionInstruction::unpack(&data), Some(AuctionInstruction::Bid { price: u64::MAX }));
    assert_eq!(AuctionInstruction::unpack(&[2]), Some(AuctionInstruction::Cancel));
    assert_eq!(AuctionInstruction::unpack(&[3]), Some(AuctionInstruction::Close));
    assert_eq!(AuctionInstruction::unpack(&[4]), None);
    assert_eq!(AuctionInstruction::unpack(&[]), None);
    assert_eq!(AuctionInstruction::unpack(&[1, 0, 0]), None);
    assert_eq!(AuctionInstruction::unpack(&[2, 0]), None);
}
