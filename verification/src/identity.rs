use vstd::prelude::*;

verus! {

/// A fixed-width public key: the identity of an account on the ledger.
///
/// Both user-held keys and derived custody addresses are values of this
/// type; its view is the sequence of its 32 bytes.
#[derive(Clone, Copy, Debug, PartialEq, Eq)]
pub struct Identity(pub [u8; 32]);

impl View for Identity {
    type V = Seq<u8>;

    open spec fn view(&self) -> Seq<u8> {
        self.0@
    }
}

impl Identity {
    /// Byte-for-byte comparison of two identities.
    pub fn equals(&self, other: &Identity) -> (r: bool)
        ensures
            r <==> self@ == other@,
    {
        let mut i: usize = 0;
        while i < 32
            invariant
                i <= 32,
                forall|j: int| 0 <= j < i ==> self.0@[j] == other.0@[j],
            decreases 32 - i,
        {
            if self.0[i] != other.0[i] {
                return false;
            }
            i = i + 1;
        }
        proof {
            assert(self@ =~= other@);
        }
        true
    }
}

} // verus!
