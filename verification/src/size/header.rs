//! Declarative bounds and the computed size of a packet kind's header.

use vstd::prelude::*;

verus! {

/// The least header length this packet kind accepts.
pub trait Min {
    /// The bound as a specification value.
    spec fn spec_min() -> usize;

    /// The bound.
    fn min() -> (r: usize)
        ensures
            r == Self::spec_min(),
    ;
}

/// The greatest header length this packet kind accepts.
pub trait Max {
    /// The bound as a specification value.
    spec fn spec_max() -> usize;

    /// The bound.
    fn max() -> (r: usize)
        ensures
            r == Self::spec_max(),
    ;
}

/// The actual header size of a packet instance.
pub trait Size {
    /// Whether the wrapped bytes are consistent enough to measure.
    spec fn size_ok(&self) -> bool;

    /// The size as a specification value.
    spec fn spec_size(&self) -> int;

    /// The header's size in bytes: the header is always `[0, size)`.
    fn size(&self) -> (r: usize)
        requires
            self.size_ok(),
        ensures
            r == self.spec_size(),
    ;
}

} // verus!
