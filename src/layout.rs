use vstd::prelude::*;
use crate::codec::{le_bytes, le_value, lemma_le_round_trip, read_u64, write_u64};
use crate::error::AuctionError;
use crate::key::Key;
use crate::record::AuctionRecord;

verus! {

/// The stored form of a time: two's complement.
pub open spec fn time_bits(t: i64) -> u64 {
    if t >= 0 {
        t as u64
    } else {
        (t + 0x1_0000_0000_0000_0000) as u64
    }
}

/// The time whose two's complement is `v`.
pub open spec fn time_of(v: u64) -> i64 {
    if v <= i64::MAX {
        v as i64
    } else {
        (v - 0x1_0000_0000_0000_0000) as i64
    }
}

fn encode_time(t: i64) -> (r: u64)
    ensures
        r == time_bits(t),
{
    if t >= 0 {
        t as u64
    } else {
        (t as i128 + 0x1_0000_0000_0000_0000i128) as u64
    }
}

fn decode_time(v: u64) -> (r: i64)
    ensures
        r == time_of(v),
        time_bits(r) == v,
{
    if v <= i64::MAX as u64 {
        v as i64
    } else {
        (v as i128 - 0x1_0000_0000_0000_0000i128) as i64
    }
}

/// Bytes in a stored record.
pub const RECORD_LEN: usize = 209;

/// The stored form of a record: the initialized flag, the exhibitor, the item
/// custody account, the proceeds account, the price, the leader, the leader's
/// custody and refund accounts, and the end time.
pub open spec fn record_bytes(r: AuctionRecord) -> Seq<u8> {
    seq![if r.initialized { 1u8 } else { 0u8 }] + r.exhibitor.bytes@ + r.item_custody.bytes@
        + r.proceeds_receiving.bytes@ + le_bytes(r.current_price) + r.highest_bidder.bytes@
        + r.highest_bidder_custody.bytes@ + r.highest_bidder_refund.bytes@ + le_bytes(time_bits(r.end_at))
}

fn write_key(out: &mut Vec<u8>, k: &Key)
    ensures
        final(out)@ == old(out)@ + k.bytes@,
{
    let ghost start = out@;
    let mut i: usize = 0;
    while i < 32
        invariant
            i <= 32,
            out@ == start + k.bytes@.take(i as int),
        decreases 32 - i,
    {
        out.push(k.bytes[i]);
        proof {
            assert(k.bytes@.take(i as int + 1) =~= k.bytes@.take(i as int).push(k.bytes@[i as int]));
        }
        i = i + 1;
    }
    proof {
        assert(k.bytes@.take(32) =~= k.bytes@);
    }
}

fn read_key(data: &[u8], at: usize) -> (r: Key)
    requires
        at + 32 <= data@.len(),
    ensures
        r.bytes@ == data@.subrange(at as int, at + 32),
{
    let mut bytes = [0u8; 32];
    let mut i: usize = 0;
    while i < 32
        invariant
            i <= 32,
            at + 32 <= data.len(),
            forall|j: int| 0 <= j < i ==> #[trigger] bytes@[j] == data@[at + j],
        decreases 32 - i,
    {
        bytes[i] = data[at + i];
        i = i + 1;
    }
    proof {
        assert(bytes@ =~= data@.subrange(at as int, at + 32));
    }
    Key { bytes }
}

/// The stored form of any record is read back by `unpack`: it has the
/// record's size and a flag byte of 0 or 1.
pub proof fn lemma_record_bytes_readable(r: AuctionRecord)
    ensures
        record_bytes(r).len() == RECORD_LEN,
        record_bytes(r)[0] <= 1,
{
}

/// Distinct records are stored differently.
pub proof fn lemma_record_bytes_injective(a: AuctionRecord, b: AuctionRecord)
    requires
        record_bytes(a) == record_bytes(b),
    ensures
        a == b,
{
    let s = record_bytes(a);
    let t = record_bytes(b);
    assert(s.len() == 209);
    assert(s.subrange(0, 1) =~= seq![if a.initialized { 1u8 } else { 0u8 }]);
    assert(t.subrange(0, 1) =~= seq![if b.initialized { 1u8 } else { 0u8 }]);
    assert(a.exhibitor.bytes@ =~= s.subrange(1, 33));
    assert(b.exhibitor.bytes@ =~= t.subrange(1, 33));
    assert(a.item_custody.bytes@ =~= s.subrange(33, 65));
    assert(b.item_custody.bytes@ =~= t.subrange(33, 65));
    assert(a.proceeds_receiving.bytes@ =~= s.subrange(65, 97));
    assert(b.proceeds_receiving.bytes@ =~= t.subrange(65, 97));
    assert(le_bytes(a.current_price) =~= s.subrange(97, 105));
    assert(le_bytes(b.current_price) =~= t.subrange(97, 105));
    assert(a.highest_bidder.bytes@ =~= s.subrange(105, 137));
    assert(b.highest_bidder.bytes@ =~= t.subrange(105, 137));
    assert(a.highest_bidder_custody.bytes@ =~= s.subrange(137, 169));
    assert(b.highest_bidder_custody.bytes@ =~= t.subrange(137, 169));
    assert(a.highest_bidder_refund.bytes@ =~= s.subrange(169, 201));
    assert(b.highest_bidder_refund.bytes@ =~= t.subrange(169, 201));
    assert(le_bytes(time_bits(a.end_at)) =~= s.subrange(201, 209));
    assert(le_bytes(time_bits(b.end_at)) =~= t.subrange(201, 209));
    lemma_le_round_trip(a.current_price);
    lemma_le_round_trip(b.current_price);
    lemma_le_round_trip(time_bits(a.end_at));
    lemma_le_round_trip(time_bits(b.end_at));
    assert(a.exhibitor.bytes =~= b.exhibitor.bytes);
    assert(a.item_custody.bytes =~= b.item_custody.bytes);
    assert(a.proceeds_receiving.bytes =~= b.proceeds_receiving.bytes);
    assert(a.highest_bidder.bytes =~= b.highest_bidder.bytes);
    assert(a.highest_bidder_custody.bytes =~= b.highest_bidder_custody.bytes);
    assert(a.highest_bidder_refund.bytes =~= b.highest_bidder_refund.bytes);
    assert(a.current_price == b.current_price);
    assert(time_bits(a.end_at) == time_bits(b.end_at));
    assert(a.end_at == b.end_at);
    assert(a.initialized == b.initialized);
}

impl AuctionRecord {
    /// The stored form of the record.
    pub fn pack(&self) -> (r: Vec<u8>)
        ensures
            r@ == record_bytes(*self),
            r@.len() == RECORD_LEN,
    {
        let mut out: Vec<u8> = Vec::new();
        out.push(if self.initialized { 1u8 } else { 0u8 });
        write_key(&mut out, &self.exhibitor);
        write_key(&mut out, &self.item_custody);
        write_key(&mut out, &self.proceeds_receiving);
        write_u64(&mut out, self.current_price);
        write_key(&mut out, &self.highest_bidder);
        write_key(&mut out, &self.highest_bidder_custody);
        write_key(&mut out, &self.highest_bidder_refund);
        write_u64(&mut out, encode_time(self.end_at));
        proof {
            assert(out@ =~= record_bytes(*self));
        }
        out
    }

    /// Reads a stored record: the slot must have the record's size and a flag
    /// byte of 0 or 1.
    pub fn unpack(data: &[u8]) -> (r: Result<AuctionRecord, AuctionError>)
        ensures
            r is Ok <==> data@.len() == RECORD_LEN && data@[0] <= 1,
            r is Ok ==> record_bytes(r->Ok_0) == data@,
            r is Err ==> r == Err::<AuctionRecord, _>(AuctionError::StateFailure),
    {
        if data.len() != RECORD_LEN || data[0] > 1 {
            return Err(AuctionError::StateFailure);
        }
        let price = read_u64(data, 97);
        let end_at = read_u64(data, 201);
        let r = AuctionRecord {
            initialized: data[0] == 1,
            exhibitor: read_key(data, 1),
            item_custody: read_key(data, 33),
            proceeds_receiving: read_key(data, 65),
            current_price: price,
            highest_bidder: read_key(data, 105),
            highest_bidder_custody: read_key(data, 137),
            highest_bidder_refund: read_key(data, 169),
            end_at: decode_time(end_at),
        };
        proof {
            let s = data@;
            lemma_le_bytes_of_value(s.subrange(97, 105));
            lemma_le_bytes_of_value(s.subrange(201, 209));
            assert(record_bytes(r) =~= s);
        }
        Ok(r)
    }
}

/// Eight bytes are the bytes of the value they encode.
pub proof fn lemma_le_bytes_of_value(s: Seq<u8>)
    requires
        s.len() == 8,
    ensures
        le_bytes(le_value(s)) == s,
{
    let (b0, b1, b2, b3, b4, b5, b6, b7) = (s[0], s[1], s[2], s[3], s[4], s[5], s[6], s[7]);
    let v = le_value(s);
    assert(((v >> 0u64) & 0xff) as u8 == b0 && ((v >> 8u64) & 0xff) as u8 == b1
        && ((v >> 16u64) & 0xff) as u8 == b2 && ((v >> 24u64) & 0xff) as u8 == b3
        && ((v >> 32u64) & 0xff) as u8 == b4 && ((v >> 40u64) & 0xff) as u8 == b5
        && ((v >> 48u64) & 0xff) as u8 == b6 && ((v >> 56u64) & 0xff) as u8 == b7) by (bit_vector)
        requires
            v == b0 as u64 | (b1 as u64) << 8u64 | (b2 as u64) << 16u64 | (b3 as u64) << 24u64
                | (b4 as u64) << 32u64 | (b5 as u64) << 40u64 | (b6 as u64) << 48u64
                | (b7 as u64) << 56u64,
    ;
    assert(le_bytes(v) =~= s);
}

} // verus!
