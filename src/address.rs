use vstd::prelude::*;

verus! {

/// A 32-byte account address: an asset, a participant or a delegate.
#[derive(Clone, Copy, Debug, PartialEq, Eq)]
pub struct Address {
    pub bytes: [u8; 32],
}

impl Address {
    /// The bytes of the all-zero address, which stands for "none".
    pub open spec fn zero_bytes() -> Seq<u8> {
        Seq::new(32, |_i: int| 0u8)
    }

    /// The all-zero address, which stands for "none".
    pub open spec fn spec_zero() -> Address {
        Address { bytes: vstd::array::spec_array_fill_for_copy_type::<u8, 32>(0u8) }
    }

    /// The all-zero address, which stands for "none".
    pub fn zero() -> (r: Address)
        ensures
            r == Address::spec_zero(),
            r@ == Address::zero_bytes(),
    {
        let r = Address { bytes: [0u8; 32] };
        assert(r@ =~= Address::zero_bytes());
        r
    }

    /// True when both addresses hold the same bytes.
    pub fn same(&self, other: &Address) -> (r: bool)
        ensures
            r == (self@ == other@),
    {
        let mut i: usize = 0;
        while i < 32
            invariant
                0 <= i <= 32,
                self@.len() == 32,
                other@.len() == 32,
                forall|j: int| 0 <= j < i ==> self@[j] == other@[j],
            decreases 32 - i,
        {
            if self.bytes[i] != other.bytes[i] {
                assert(self@[i as int] != other@[i as int]);
                return false;
            }
            i = i + 1;
        }
        assert(self@ =~= other@);
        true
    }
}

impl View for Address {
    type V = Seq<u8>;

    open spec fn view(&self) -> Seq<u8> {
        self.bytes@
    }
}

} // verus!
