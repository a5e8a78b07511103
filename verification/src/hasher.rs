//! A hash state specialized for keys that are already well-distributed 64-bit
//! type identities. Such a key needs no further mixing, so the 64-bit write
//! path stores the value unchanged and `finish` returns it as the digest.
//! The byte-sequence write path is outside this hasher's interface: type
//! identities reach a hasher only through the single 64-bit write.

use vstd::prelude::*;

verus! {

/// Hash state for 64-bit type-identity keys: the identity function on the
/// last 64-bit value written, with no mixing and no finalization step.
pub struct IdHasher {
    state: u64,
}

impl View for IdHasher {
    type V = u64;

    closed spec fn view(&self) -> u64 {
        self.state
    }
}

impl IdHasher {
    /// A fresh hash state; its digest is zero until a value is written.
    pub fn new() -> (r: Self)
        ensures
            r@ == 0,
    {
        IdHasher { state: 0 }
    }

    /// The 64-bit write path: the state becomes exactly the written value.
    pub fn write_u64(&mut self, id: u64)
        ensures
            final(self)@ == id,
    {
        self.state = id;
    }

    /// The digest is the state itself: no mixing, no finalization.
    pub fn finish(&self) -> (r: u64)
        ensures
            r == self@,
    {
        self.state
    }
}

/// The `core::hash::Hasher` face of [`IdHasher`], through which a type
/// identity's `Hash` implementation delivers its 64-bit value. Type
/// identities hash through the single 64-bit write alone, so the
/// byte-sequence path is dead for this hasher's one intended key type and
/// writes nothing.
impl core::hash::Hasher for IdHasher {
    fn finish(&self) -> u64 {
        self.state
    }

    /// The dead byte-sequence path: type identities never reach it, and it
    /// writes nothing. The identity extraction rests on the standard
    /// library delivering a type identity's hash through the single 64-bit
    /// write, as it does today; were that ever to move to byte writes, this
    /// hasher would leave its state untouched and every type would hash
    /// alike, so that reliance is stated here rather than hidden.
    fn write(&mut self, _bytes: &[u8]) {
    }

    fn write_u64(&mut self, id: u64) {
        self.state = id;
    }
}

impl Default for IdHasher {
    fn default() -> (r: Self)
        ensures
            r@ == 0,
    {
        IdHasher { state: 0 }
    }
}

} // verus!
