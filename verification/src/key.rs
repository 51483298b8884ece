//! The symmetric key that a passphrase and a salt derive.

use vstd::prelude::*;

verus! {

/// A 256-bit key, held for the length of one operation. It cannot be
/// formatted, so that it does not stray into a log.
#[derive(Clone, PartialEq, Eq)]
pub struct DerivedKey {
    bytes: [u8; 32],
}

impl View for DerivedKey {
    type V = Seq<u8>;

    closed spec fn view(&self) -> Seq<u8> {
        self.bytes@
    }
}

impl DerivedKey {
    /// A key made of the given bytes.
    pub fn from_bytes(bytes: [u8; 32]) -> (key: Self)
        ensures
            key@ == bytes@,
            key@.len() == 32,
    {
        DerivedKey { bytes }
    }

    /// The key's bytes.
    pub fn as_bytes(&self) -> (bytes: &[u8; 32])
        ensures
            bytes@ == self@,
            self@.len() == 32,
    {
        &self.bytes
    }

    /// Overwrites the key with zeros.
    pub fn wipe(&mut self)
        ensures
            final(self)@ == Seq::new(32, |i: int| 0u8),
    {
        let mut i: usize = 0;
        while i < 32
            invariant
                i <= 32,
                forall|j: int| 0 <= j < i ==> self.bytes@[j] == 0u8,
            decreases 32 - i,
        {
            self.bytes[i] = 0;
            i = i + 1;
        }
    }
}

} // verus!
