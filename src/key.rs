use vstd::prelude::*;

verus! {

/// A 32-byte account identity.
#[derive(Clone, Copy, Debug)]
pub struct Key {
    pub bytes: [u8; 32],
}

impl Key {
    /// The default identity (all bytes zero), which stands for "nobody".
    pub open spec fn is_default(self) -> bool {
        forall|i: int| 0 <= i < 32 ==> #[trigger] self.bytes[i] == 0u8
    }

    /// The all-zero identity.
    pub open spec fn zero_spec() -> Key {
        Key { bytes: vstd::array::spec_array_fill_for_copy_type::<u8, 32>(0u8) }
    }

    /// The all-zero identity is the default one.
    pub proof fn lemma_zero_is_default()
        ensures
            Key::zero_spec().is_default(),
    {
        assert forall|i: int| 0 <= i < 32 implies #[trigger] Key::zero_spec().bytes[i] == 0u8 by {
            vstd::array::lemma_array_index(Key::zero_spec().bytes, i);
        }
    }

    pub fn new(bytes: [u8; 32]) -> (r: Key)
        ensures
            r.bytes == bytes,
    {
        Key { bytes }
    }

    pub fn zero() -> (r: Key)
        ensures
            r == Key::zero_spec(),
            r.is_default(),
    {
        let r = Key { bytes: [0u8; 32] };
        proof {
            assert forall|i: int| 0 <= i < 32 implies #[trigger] r.bytes[i] == 0u8 by {
                vstd::array::lemma_array_index(r.bytes, i);
            }
        }
        r
    }

    pub fn same(&self, other: &Key) -> (r: bool)
        ensures
            r == (*self == *other),
    {
        let mut i: usize = 0;
        while i < 32
            invariant
                i <= 32,
                forall|j: int| 0 <= j < i ==> #[trigger] self.bytes[j] == other.bytes[j],
            decreases 32 - i,
        {
            if self.bytes[i] != other.bytes[i] {
                return false;
            }
            i = i + 1;
        }
        proof {
            assert(self.bytes =~= other.bytes);
        }
        true
    }

    pub fn check_default(&self) -> (r: bool)
        ensures
            r == self.is_default(),
    {
        let mut i: usize = 0;
        while i < 32
            invariant
                i <= 32,
                forall|j: int| 0 <= j < i ==> #[trigger] self.bytes[j] == 0u8,
            decreases 32 - i,
        {
            if self.bytes[i] != 0 {
                return false;
            }
            i = i + 1;
        }
        true
    }
}

impl PartialEq for Key {
    fn eq(&self, other: &Key) -> (r: bool) {
        self.same(other)
    }
}

impl vstd::std_specs::cmp::PartialEqSpecImpl for Key {
    open spec fn obeys_eq_spec() -> bool {
        true
    }

    open spec fn eq_spec(&self, other: &Key) -> bool {
        *self == *other
    }
}

impl Eq for Key {
}

} // verus!
