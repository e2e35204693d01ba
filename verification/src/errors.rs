//! The driver's error taxonomy.

use vstd::prelude::*;

verus! {

/// What can go wrong while binding or using a device.
#[derive(Clone, Copy, Debug, PartialEq, Eq, Structural)]
pub enum Error {
    /// Device memory or bus mastering cannot be enabled, or the register
    /// region cannot be claimed (another driver holds it, or the bar is
    /// absent).
    ResourceUnavailable,
    /// The claimed region cannot be mapped to the declared window size.
    MappingFailure,
    /// A callback was invoked against a context whose resources were never
    /// attached, or line-controller registration itself failed.
    NoSuchDevice,
    /// A register access lies outside the register window.
    OutOfRange,
}

} // verus!
