//! The 32-byte participant identity.
use vstd::prelude::*;

verus! {

/// Width of an identity in bytes.
pub const IDENTITY_LEN: usize = 32;

/// An opaque 32-byte participant identifier, compared by value.
#[derive(Clone, Copy, Debug)]
pub struct Identity {
    pub bytes: [u8; 32],
}

impl View for Identity {
    type V = Seq<u8>;

    open spec fn view(&self) -> Seq<u8> {
        self.bytes@
    }
}

/// The all-zero byte string, which stands for an unset identity.
pub open spec fn zero_bytes() -> Seq<u8> {
    Seq::new(32, |i: int| 0u8)
}

impl Identity {
    /// The unset identity.
    pub fn zero() -> (r: Identity)
        ensures
            r@ == zero_bytes(),
    {
        let r = Identity { bytes: [0u8; 32] };
        assert(r@ =~= zero_bytes());
        r
    }

    /// Wraps 32 raw bytes.
    pub fn from_bytes(bytes: [u8; 32]) -> (r: Identity)
        ensures
            r@ == bytes@,
    {
        Identity { bytes }
    }

    /// Reads an identity from `src[start .. start + 32]`.
    pub fn read_from(src: &[u8], start: usize) -> (r: Identity)
        requires
            start + 32 <= src@.len(),
        ensures
            r@ == src@.subrange(start as int, start + 32),
    {
        let n: usize = src.len();
        let mut bytes = [0u8; 32];
        let mut i: usize = 0;
        while i < IDENTITY_LEN
            invariant
                i <= 32,
                start + 32 <= src@.len(),
                n == src@.len(),
                bytes@.len() == 32,
                forall|j: int| 0 <= j < i ==> bytes@[j] == src@[start + j],
            decreases 32 - i,
        {
            bytes[i] = src[start + i];
            i = i + 1;
        }
        let r = Identity { bytes };
        assert(r@ =~= src@.subrange(start as int, start + 32));
        r
    }

    /// Value equality of two identities.
    pub fn same_as(&self, other: &Identity) -> (r: bool)
        ensures
            r == (self@ == other@),
    {
        let mut i: usize = 0;
        while i < IDENTITY_LEN
            invariant
                i <= 32,
                self@.len() == 32,
                other@.len() == 32,
                forall|j: int| 0 <= j < i ==> self@[j] == other@[j],
            decreases 32 - i,
        {
            if self.bytes[i] != other.bytes[i] {
                return false;
            }
            i = i + 1;
        }
        assert(self@ =~= other@);
        true
    }

    /// Whether this is the unset identity.
    pub fn is_zero(&self) -> (r: bool)
        ensures
            r == (self@ == zero_bytes()),
    {
        let z = Identity::zero();
        self.same_as(&z)
    }
}

} // verus!
