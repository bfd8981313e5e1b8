use vstd::prelude::*;

verus! {

/// Every failure the library reports.
#[derive(Clone, Copy, Debug, PartialEq, Eq, Structural)]
pub enum Error {
    /// The buffer is too small, or a fixed-capacity store is exhausted.
    SmallBuffer,
    /// The packet is invalid: bad discriminant, or a mandatory field unset.
    InvalidPacket,
    /// The value is outside the field's legal domain.
    InvalidValue,
    /// The value has already been defined.
    AlreadyDefined,
}

} // verus!
