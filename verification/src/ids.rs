//! Plain-value forms of the two 32-byte quantities an order carries: the
//! identity of an account and the content hash of a bill of lading. The core
//! only ever compares them for equality (and the hash against all-zero), so
//! each is held as two 128-bit words, which convert losslessly to and from
//! the external 32-byte representations.

use vstd::prelude::*;

verus! {

/// An already-verified caller or party identity: a 32-byte key held as two
/// 128-bit words. The core never derives identities; it only compares them.
#[derive(Clone, Copy, Debug, PartialEq, Eq, Structural)]
pub struct AccountId {
    /// The first sixteen bytes of the key.
    pub hi: u128,
    /// The last sixteen bytes of the key.
    pub lo: u128,
}

/// A 32-byte opaque content hash of a bill of lading, held as two 128-bit
/// words. All-zero means "not yet shipped" and is read as a state signal by
/// the extension-resume rule.
#[derive(Clone, Copy, Debug, PartialEq, Eq, Structural)]
pub struct LadingHash {
    /// The first sixteen bytes of the hash.
    pub hi: u128,
    /// The last sixteen bytes of the hash.
    pub lo: u128,
}

impl LadingHash {
    /// Whether this is the all-zero "not yet shipped" value.
    pub open spec fn spec_is_zero(&self) -> bool {
        self.hi == 0 && self.lo == 0
    }

    /// The all-zero "not yet shipped" value.
    pub fn zero() -> (h: LadingHash)
        ensures
            h.spec_is_zero(),
    {
        LadingHash { hi: 0, lo: 0 }
    }

    /// Whether this is the all-zero "not yet shipped" value.
    #[verifier::when_used_as_spec(spec_is_zero)]
    pub fn is_zero(&self) -> (b: bool)
        ensures
            b == self.spec_is_zero(),
    {
        self.hi == 0 && self.lo == 0
    }
}

} // verus!
