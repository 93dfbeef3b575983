//! Identities of records and callers.
//!
//! Every account — administrator registry, group, member, proposal, vote
//! record, token balance — and every caller is named by an opaque 32-byte
//! identifier assigned by the environment's record store.  The library only
//! ever compares identifiers and copies them around.

use vstd::prelude::*;

verus! {

/// A 32-byte identifier, as the record store assigns them.
pub type Identity = [u8; 32];

/// The all-zero identifier, the record store's placeholder value.
pub open spec fn zero_identity() -> Identity {
    vstd::array::spec_array_fill_for_copy_type(0u8)
}

/// Builds the all-zero identifier.
pub fn zero_id() -> (r: Identity)
    ensures
        r == zero_identity(),
        r@ == Seq::<u8>::new(32, |i: int| 0u8),
{
    let r: Identity = [0u8; 32];
    proof {
        assert(r@ =~= Seq::<u8>::new(32, |i: int| 0u8));
        assert(zero_identity()@ =~= Seq::<u8>::new(32, |i: int| 0u8));
        assert(r =~= zero_identity());
    }
    r
}

/// Byte-wise comparison of two identifiers.
pub fn id_eq(a: &Identity, b: &Identity) -> (r: bool)
    ensures
        r == (*a == *b),
{
    let mut i: usize = 0;
    while i < 32
        invariant
            0 <= i <= 32,
            forall|j: int| 0 <= j < i ==> a@[j] == b@[j],
        decreases 32 - i,
    {
        if a[i] != b[i] {
            return false;
        }
        i += 1;
    }
    proof {
        assert(a@ =~= b@);
        assert(*a =~= *b);
    }
    true
}

} // verus!
