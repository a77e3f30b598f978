//! The ways in which building a point cloud can fail.

use vstd::prelude::*;

verus! {

/// Reason why a point cloud or its instance attributes could not be built.
#[derive(Debug, Clone, Copy, PartialEq, Eq, Structural)]
pub enum PointCloudError {
    /// At least one of width, depth and height is zero.
    InvalidDimensions,
    /// The number of supplied values differs from `width * depth * height`.
    LengthMismatch,
    /// A supplied value lies outside the closed range of the scalar field.
    ValueOutOfRange,
}

} // verus!
