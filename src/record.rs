use vstd::prelude::*;
use crate::key::Key;

verus! {

/// The persisted state of one auction.
#[derive(Clone, Copy, Debug)]
pub struct AuctionRecord {
    pub initialized: bool,
    pub exhibitor: Key,
    pub item_custody: Key,
    pub proceeds_receiving: Key,
    pub current_price: u64,
    pub highest_bidder: Key,
    pub highest_bidder_custody: Key,
    pub highest_bidder_refund: Key,
    pub end_at: i64,
}

impl AuctionRecord {
    /// An empty storage slot: nothing initialized, every field zero.
    pub open spec fn is_empty(self) -> bool {
        &&& !self.initialized
        &&& self.exhibitor.is_default()
        &&& self.item_custody.is_default()
        &&& self.proceeds_receiving.is_default()
        &&& self.current_price == 0
        &&& self.highest_bidder.is_default()
        &&& self.highest_bidder_custody.is_default()
        &&& self.highest_bidder_refund.is_default()
        &&& self.end_at == 0
    }

    /// The empty slot.
    pub open spec fn empty_spec() -> AuctionRecord {
        AuctionRecord {
            initialized: false,
            exhibitor: Key::zero_spec(),
            item_custody: Key::zero_spec(),
            proceeds_receiving: Key::zero_spec(),
            current_price: 0,
            highest_bidder: Key::zero_spec(),
            highest_bidder_custody: Key::zero_spec(),
            highest_bidder_refund: Key::zero_spec(),
            end_at: 0,
        }
    }

    /// Whether a bidder leads the auction.
    pub open spec fn has_leader(self) -> bool {
        !self.highest_bidder.is_default()
    }

    pub fn empty() -> (r: AuctionRecord)
        ensures
            r == AuctionRecord::empty_spec(),
            r.is_empty(),
    {
        AuctionRecord {
            initialized: false,
            exhibitor: Key::zero(),
            item_custody: Key::zero(),
            proceeds_receiving: Key::zero(),
            current_price: 0,
            highest_bidder: Key::zero(),
            highest_bidder_custody: Key::zero(),
            highest_bidder_refund: Key::zero(),
            end_at: 0,
        }
    }
}

/// The accounts that a Create names.
#[derive(Clone, Copy, Debug)]
pub struct ExhibitAccounts {
    pub exhibitor: Key,
    pub exhibitor_signed: bool,
    /// The exhibitor's account that holds the item now.
    pub item_source: Key,
    /// The account that will hold the item in custody.
    pub item_custody: Key,
    /// The exhibitor's account that will receive the winning funds.
    pub proceeds_receiving: Key,
    /// Whether the record's storage account is persistently funded.
    pub record_funded: bool,
}

/// The accounts that a Bid names.
#[derive(Clone, Copy, Debug)]
pub struct BidAccounts {
    pub bidder: Key,
    pub bidder_signed: bool,
    /// The current leader, as the caller believes it.
    pub leader: Key,
    /// The current leader's custody account, as the caller believes it.
    pub leader_custody: Key,
    /// The current leader's refund account, as the caller believes it.
    pub leader_refund: Key,
    /// The account that will hold the new bid in custody.
    pub bidder_custody: Key,
    /// The bidder's account that pays the bid, and receives it back if outbid.
    pub bidder_source: Key,
}

/// The accounts that a Cancel names.
#[derive(Clone, Copy, Debug)]
pub struct CancelAccounts {
    pub exhibitor: Key,
    pub exhibitor_signed: bool,
    pub item_custody: Key,
    /// The exhibitor's account that takes the item back.
    pub item_returning: Key,
    /// The record's own storage account.
    pub record: Key,
}

/// The accounts that a Close names.
#[derive(Clone, Copy, Debug)]
pub struct CloseAccounts {
    pub caller: Key,
    pub caller_signed: bool,
    pub exhibitor: Key,
    pub item_custody: Key,
    pub proceeds_receiving: Key,
    pub leader_custody: Key,
    /// The winner's account that receives the item.
    pub winner_receiving: Key,
    /// The record's own storage account.
    pub record: Key,
}

} // verus!
