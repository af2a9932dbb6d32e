use vstd::prelude::*;

verus! {

/// The exponent field of an IEEE 754 binary32 bit pattern: all exponent bits
/// set means the pattern encodes an infinity or a NaN.
pub const EXPONENT_MASK: u32 = 0x7F80_0000;

/// A binary32 bit pattern encodes a finite number exactly when its exponent
/// field is not all ones.
pub open spec fn finite_bits(bits: u32) -> bool {
    bits & EXPONENT_MASK != EXPONENT_MASK
}

/// A 2D point or direction, each coordinate held as the bit pattern of an
/// IEEE 754 binary32 number. Equality is bit-pattern equality.
#[derive(Clone, Copy, Debug, PartialEq, Eq, Structural)]
pub struct Vec2 {
    pub x: u32,
    pub y: u32,
}

impl Vec2 {
    pub fn new(x: u32, y: u32) -> (r: Vec2)
        ensures
            r.x == x,
            r.y == y,
    {
        Vec2 { x, y }
    }

    /// Both coordinates encode finite numbers: neither exponent field is
    /// all ones.
    pub fn is_finite(self) -> (r: bool)
        ensures
            r == (finite_bits(self.x) && finite_bits(self.y)),
    {
        (self.x & EXPONENT_MASK != EXPONENT_MASK) && (self.y & EXPONENT_MASK != EXPONENT_MASK)
    }

    pub fn x(self) -> (r: u32)
        ensures
            r == self.x,
    {
        self.x
    }

    pub fn y(self) -> (r: u32)
        ensures
            r == self.y,
    {
        self.y
    }
}

} // verus!
