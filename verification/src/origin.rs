//! The point in space at which a cloud is anchored.

use vstd::prelude::*;

verus! {

/// A point in space. Each coordinate is held as the bit pattern of an
/// IEEE 754 binary32 number, so that the value passes through unchanged.
#[derive(Debug, Clone, Copy, PartialEq, Eq, Structural)]
pub struct Origin {
    pub x_bits: u32,
    pub y_bits: u32,
    pub z_bits: u32,
}

impl Origin {
    /// The point from the bit patterns of its three coordinates.
    pub fn from_bits(x_bits: u32, y_bits: u32, z_bits: u32) -> (o: Origin)
        ensures
            o == (Origin { x_bits, y_bits, z_bits }),
    {
        Origin { x_bits, y_bits, z_bits }
    }
}

} // verus!
