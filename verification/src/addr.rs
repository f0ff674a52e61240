use vstd::prelude::*;

verus! {

/// A 32-byte account address.  The host environment identifies every
/// record, asset and holding account by such an address; the library
/// views one as its sequence of bytes.
#[derive(Clone, Copy, Debug)]
pub struct Address {
    pub bytes: [u8; 32],
}

impl View for Address {
    type V = Seq<u8>;

    open spec fn view(&self) -> Seq<u8> {
        self.bytes@
    }
}

/// The all-zero address, which a record field holds until it is linked
/// to an asset.
pub open spec fn zero_addr() -> Seq<u8> {
    Seq::new(32, |i: int| 0u8)
}

pub fn zero_address() -> (r: Address)
    ensures
        r@ == zero_addr(),
{
    let a = Address { bytes: [0u8; 32] };
    proof {
        assert(a@ =~= zero_addr());
    }
    a
}

/// Byte-for-byte address comparison.
pub fn addr_eq(a: &Address, b: &Address) -> (r: bool)
    ensures
        r == (a@ == b@),
{
    let mut i: usize = 0;
    while i < 32
        invariant
            0 <= i <= 32,
            forall|j: int| 0 <= j < i ==> a.bytes@[j] == b.bytes@[j],
        decreases 32 - i,
    {
        if a.bytes[i] != b.bytes[i] {
            return false;
        }
        i += 1;
    }
    proof {
        assert(a@ =~= b@);
    }
    true
}

/// The address's bytes as a growable vector, for use as a derivation seed.
pub fn addr_to_vec(a: &Address) -> (v: Vec<u8>)
    ensures
        v@ == a@,
{
    vstd::slice::slice_to_vec(a.bytes.as_slice())
}

} // verus!
