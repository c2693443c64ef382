use vstd::prelude::*;

verus! {

/// The address of an account or of a program: 32 bytes.
///
/// Its view is the sequence of those bytes, and two addresses are equal
/// exactly when their views are.
#[derive(Clone, Copy, Debug, PartialEq, Eq)]
pub struct Address {
    pub bytes: [u8; 32],
}

impl View for Address {
    type V = Seq<u8>;

    open spec fn view(&self) -> Seq<u8> {
        self.bytes@
    }
}

impl Address {
    /// An address made of the given bytes.
    pub fn new(bytes: [u8; 32]) -> (a: Address)
        ensures
            a.bytes == bytes,
            a@ == bytes@,
    {
        Address { bytes }
    }

    /// Whether `self` and `other` hold the same 32 bytes.
    pub fn same(&self, other: &Address) -> (r: bool)
        ensures
            r == (self@ == other@),
            r == (*self == *other),
    {
        let mut i: usize = 0;
        while i < 32
            invariant
                i <= 32,
                forall|j: int| 0 <= j < i ==> self.bytes[j] == other.bytes[j],
            decreases 32 - i,
        {
            if self.bytes[i] != other.bytes[i] {
                return false;
            }
            i += 1;
        }
        proof {
            lemma_equal_views(*self, *other);
        }
        true
    }
}

/// Addresses are determined by their bytes: equal views mean equal addresses.
pub proof fn lemma_equal_views(a: Address, b: Address)
    ensures
        (a@ == b@) == (a == b),
        (a@ == b@) == (forall|j: int| 0 <= j < 32 ==> a.bytes[j] == b.bytes[j]),
{
    if forall|j: int| 0 <= j < 32 ==> a.bytes[j] == b.bytes[j] {
        assert(a.bytes =~= b.bytes);
        assert(a@ =~= b@);
    }
}

} // verus!
