//! Identities of the parties that own, sign and get paid.

use vstd::prelude::*;

verus! {

/// An authenticated identity: 32 bytes that the host has verified before an
/// operation sees them. The rules only ever compare two of them.
#[derive(Clone, Copy, Debug)]
pub struct ActorId {
    pub bytes: [u8; 32],
}

impl ActorId {
    /// The identity made of `bytes`.
    pub fn new(bytes: [u8; 32]) -> (id: ActorId)
        ensures
            id.bytes == bytes,
    {
        ActorId { bytes }
    }

    /// The bytes of the identity.
    pub fn to_bytes(&self) -> (bytes: [u8; 32])
        ensures
            bytes == self.bytes,
    {
        self.bytes
    }
}

impl PartialEq for ActorId {
    /// Two identities are the same where all their bytes are.
    fn eq(&self, other: &ActorId) -> (same: bool) {
        let mut i: usize = 0;
        while i < 32
            invariant
                i <= 32,
                forall|j: int| 0 <= j < i ==> self.bytes[j] == other.bytes[j],
            decreases 32 - i,
        {
            if self.bytes[i] != other.bytes[i] {
                return false;
            }
            i += 1;
        }
        assert(self.bytes =~= other.bytes);
        true
    }
}

impl Eq for ActorId {

}

impl vstd::std_specs::cmp::PartialEqSpecImpl for ActorId {
    open spec fn obeys_eq_spec() -> bool {
        true
    }

    open spec fn eq_spec(&self, other: &ActorId) -> bool {
        *self == *other
    }
}

} // verus!
