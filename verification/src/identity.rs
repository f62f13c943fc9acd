//! Identities of 32 bytes, and the comparison of byte strings.

use vstd::prelude::*;

verus! {

/// Tells whether two byte strings hold the same bytes.
pub fn bytes_equal(a: &[u8], b: &[u8]) -> (r: bool)
    ensures
        r == (a@ == b@),
{
    if a.len() != b.len() {
        return false;
    }
    let mut i: usize = 0;
    while i < a.len()
        invariant
            a.len() == b.len(),
            i <= a.len(),
            forall|j: int| 0 <= j < i ==> a@[j] == b@[j],
        decreases a.len() - i,
    {
        if a[i] != b[i] {
            return false;
        }
        i += 1;
    }
    proof {
        assert(a@ =~= b@);
    }
    true
}

/// A 32-byte identity: a wallet, an authority, a token mint or a program.
#[derive(Clone, Copy, Debug, PartialEq, Eq, Hash)]
pub struct Identity {
    pub bytes: [u8; 32],
}

impl Identity {
    /// The identity made of the given bytes.
    pub fn new(bytes: [u8; 32]) -> (r: Identity)
        ensures
            r.bytes == bytes,
    {
        Identity { bytes }
    }

    /// The identity whose bytes are all zero, as found in a record that was never written.
    pub fn zero() -> (r: Identity)
        ensures
            r == Identity::spec_zero(),
    {
        Identity { bytes: [0u8; 32] }
    }

    /// The identity whose bytes are all zero.
    pub open spec fn spec_zero() -> Identity {
        Identity { bytes: [0u8; 32usize] }
    }

    /// Tells whether `self` and `other` are the same identity.
    pub fn same(&self, other: &Identity) -> (r: bool)
        ensures
            r == (*self == *other),
    {
        let r = bytes_equal(self.bytes.as_slice(), other.bytes.as_slice());
        proof {
            if r {
                assert(self.bytes =~= other.bytes);
            }
        }
        r
    }
}

} // verus!
