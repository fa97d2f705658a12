use vstd::prelude::*;
use crate::codec::{le_value, read_u64};

verus! {

/// A decoded request: a tag byte, then the little-endian arguments.
#[derive(Clone, Copy, Debug, PartialEq, Eq, Structural)]
pub enum AuctionInstruction {
    /// Tag 0: open an auction at `initial_price` for `seconds`.
    Exhibit { initial_price: u64, seconds: u64 },
    /// Tag 1: offer `price`.
    Bid { price: u64 },
    /// Tag 2: withdraw the item while nobody has bid.
    Cancel,
    /// Tag 3: settle after the end.
    Close,
}

/// The instruction that `data` encodes, if any.
pub open spec fn decoded(data: Seq<u8>) -> Option<AuctionInstruction> {
    if data.len() == 17 && data[0] == 0 {
        Some(
            AuctionInstruction::Exhibit {
                initial_price: le_value(data.subrange(1, 9)),
                seconds: le_value(data.subrange(9, 17)),
            },
        )
    } else if data.len() == 9 && data[0] == 1 {
        Some(AuctionInstruction::Bid { price: le_value(data.subrange(1, 9)) })
    } else if data.len() == 1 && data[0] == 2 {
        Some(AuctionInstruction::Cancel)
    } else if data.len() == 1 && data[0] == 3 {
        Some(AuctionInstruction::Close)
    } else {
        None
    }
}

impl AuctionInstruction {
    pub fn unpack(data: &[u8]) -> (r: Option<AuctionInstruction>)
        ensures
            r == decoded(data@),
    {
        if data.len() == 17 && data[0] == 0 {
            let initial_price = read_u64(data, 1);
            let seconds = read_u64(data, 9);
            Some(AuctionInstruction::Exhibit { initial_price, seconds })
        } else if data.len() == 9 && data[0] == 1 {
            Some(AuctionInstruction::Bid { price: read_u64(data, 1) })
        } else if data.len() == 1 && data[0] == 2 {
            Some(AuctionInstruction::Cancel)
        } else if data.len() == 1 && data[0] == 3 {
            Some(AuctionInstruction::Close)
        } else {
            None
        }
    }
}

} // verus!
