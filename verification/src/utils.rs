use vstd::prelude::*;

verus! {

/// Cycling through the variants of a field-less enum in declaration order,
/// wrapping around at both ends.
pub trait EnumCycle: Sized {
    /// The variant that follows `self`, the first one after the last.
    spec fn cycle_next(&self) -> Self;

    /// The variant that precedes `self`, the last one before the first.
    spec fn cycle_prev(&self) -> Self;

    fn next(&self) -> (r: Self)
        ensures
            r == self.cycle_next(),
    ;

    fn prev(&self) -> (r: Self)
        ensures
            r == self.cycle_prev(),
    ;
}

/// A pair of `f32` values carried as their bit patterns (`f32::to_bits`).
#[derive(Clone, Copy, Debug, PartialEq, Eq, Structural)]
pub struct Vec2Bits {
    pub x: u32,
    pub y: u32,
}

/// Bit pattern of the `f32` value `0.0`.
pub const ZERO_BITS: u32 = 0;

/// Bit pattern of the `f32` value `128.0`, the width and height of a tile.
pub const TILE_SIZE_BITS: u32 = 0x4300_0000;

/// Which way an input axis points.
#[derive(Clone, Copy, Debug, PartialEq, Eq, Structural)]
pub enum AxisSign {
    Negative,
    Zero,
    Positive,
}

} // verus!
