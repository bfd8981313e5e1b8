//! The size contract of a packet kind: declarative bounds and computed
//! sizes that validate a buffer and slice it into header and payload.

use vstd::prelude::*;

verus! {

/// Total logical size of a packet: header plus payload; trailing bytes
/// beyond that window are not part of the packet.
pub trait Size {
    /// Whether the wrapped bytes are consistent enough to measure.
    spec fn size_ok(&self) -> bool;

    /// The total size as a specification value.
    spec fn spec_size(&self) -> int;

    /// Header size plus payload size.
    fn size(&self) -> (r: usize)
        requires
            self.size_ok(),
        ensures
            r == self.spec_size(),
    ;
}

} // verus!

pub mod header;
pub mod payload;
