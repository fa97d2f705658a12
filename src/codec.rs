use vstd::prelude::*;

verus! {

/// The eight little-endian bytes of `v`.
pub open spec fn le_bytes(v: u64) -> Seq<u8> {
    Seq::new(8, |i: int| ((v >> (8 * i) as u64) & 0xff) as u8)
}

/// The integer whose little-endian bytes are `s`, where `s` has eight bytes.
pub open spec fn le_value(s: Seq<u8>) -> u64 {
    s[0] as u64 | (s[1] as u64) << 8u64 | (s[2] as u64) << 16u64 | (s[3] as u64) << 24u64
        | (s[4] as u64) << 32u64 | (s[5] as u64) << 40u64 | (s[6] as u64) << 48u64
        | (s[7] as u64) << 56u64
}

/// Reading back the bytes of a value gives the value.
pub proof fn lemma_le_round_trip(v: u64)
    ensures
        le_value(le_bytes(v)) == v,
{
    let s = le_bytes(v);
    assert(s[0] == ((v >> 0u64) & 0xff) as u8);
    assert(s[1] == ((v >> 8u64) & 0xff) as u8);
    assert(s[2] == ((v >> 16u64) & 0xff) as u8);
    assert(s[3] == ((v >> 24u64) & 0xff) as u8);
    assert(s[4] == ((v >> 32u64) & 0xff) as u8);
    assert(s[5] == ((v >> 40u64) & 0xff) as u8);
    assert(s[6] == ((v >> 48u64) & 0xff) as u8);
    assert(s[7] == ((v >> 56u64) & 0xff) as u8);
    assert((((v >> 0u64) & 0xff) as u8) as u64 | (((v >> 8u64) & 0xff) as u8 as u64) << 8u64
        | (((v >> 16u64) & 0xff) as u8 as u64) << 16u64 | (((v >> 24u64) & 0xff) as u8 as u64) << 24u64
        | (((v >> 32u64) & 0xff) as u8 as u64) << 32u64 | (((v >> 40u64) & 0xff) as u8 as u64) << 40u64
        | (((v >> 48u64) & 0xff) as u8 as u64) << 48u64 | (((v >> 56u64) & 0xff) as u8 as u64) << 56u64
        == v) by (bit_vector);
}

/// Appends the eight little-endian bytes of `v`.
pub fn write_u64(out: &mut Vec<u8>, v: u64)
    ensures
        final(out)@ == old(out)@ + le_bytes(v),
{
    let ghost start = out@;
    let mut i: u64 = 0;
    while i < 8
        invariant
            i <= 8,
            out@ == start + le_bytes(v).take(i as int),
        decreases 8 - i,
    {
        let b: u8 = ((v >> (8 * i)) & 0xff) as u8;
        out.push(b);
        proof {
            assert(le_bytes(v).take(i as int + 1) =~= le_bytes(v).take(i as int).push(b));
        }
        i = i + 1;
    }
    proof {
        assert(le_bytes(v).take(8) =~= le_bytes(v));
    }
}

/// Reads the eight little-endian bytes at `at`.
pub fn read_u64(data: &[u8], at: usize) -> (r: u64)
    requires
        at + 8 <= data@.len(),
    ensures
        r == le_value(data@.subrange(at as int, at + 8)),
{
    let s = Ghost(data@.subrange(at as int, at + 8));
    let r = data[at] as u64 | (data[at + 1] as u64) << 8u64 | (data[at + 2] as u64) << 16u64
        | (data[at + 3] as u64) << 24u64 | (data[at + 4] as u64) << 32u64
        | (data[at + 5] as u64) << 40u64 | (data[at + 6] as u64) << 48u64
        | (data[at + 7] as u64) << 56u64;
    proof {
        assert(s@[0] == data@[at as int]);
        assert(s@[1] == data@[at + 1]);
        assert(s@[2] == data@[at + 2]);
        assert(s@[3] == data@[at + 3]);
        assert(s@[4] == data@[at + 4]);
        assert(s@[5] == data@[at + 5]);
        assert(s@[6] == data@[at + 6]);
        assert(s@[7] == data@[at + 7]);
    }
    r
}

} // verus!
