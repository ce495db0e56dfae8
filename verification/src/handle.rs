//! Opaque tokens standing for engine-owned value references.
//!
//! The engine hands out persistent references to values living inside its
//! execution context. Inside this crate such a reference is carried as an
//! opaque machine word: the code here never dereferences it, it only stores
//! it, hands it back out, and makes sure each token leaves the arena exactly
//! once. The unverified side converts between the engine's real reference
//! type and the token.

use vstd::prelude::*;

verus! {

/// An engine-owned value reference, reduced to the opaque word by which the
/// unverified side identifies it.
///
/// The type is deliberately neither `Clone` nor `Copy`: every token must be
/// handed back to the engine for release exactly once, and single ownership
/// makes a second release unrepresentable.
#[derive(Debug, PartialEq, Eq, Structural)]
pub struct ObscuredGlobal {
    raw: u64,
}

impl View for ObscuredGlobal {
    type V = u64;

    closed spec fn view(&self) -> u64 {
        self.raw
    }
}

impl ObscuredGlobal {
    /// Wrap the opaque word for an engine reference.
    pub fn new(raw: u64) -> (g: ObscuredGlobal)
        ensures
            g@ == raw,
    {
        ObscuredGlobal { raw }
    }

    /// Consume the token, yielding the word the engine needs in order to
    /// release the reference. Taking ownership here is what makes a double
    /// release impossible.
    pub fn take(self) -> (raw: u64)
        ensures
            raw == self@,
    {
        self.raw
    }

    /// Read the word without consuming the token, for engine operations that
    /// only borrow the referenced value.
    pub fn with(&self) -> (raw: u64)
        ensures
            raw == self@,
    {
        self.raw
    }
}

} // verus!
