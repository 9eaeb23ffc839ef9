use vstd::prelude::*;

verus! {

/// The sign bit of a 32-bit IEEE-754 value.
pub const SIGN_BIT: u32 = 0x8000_0000;

/// A 32-bit IEEE-754 number carried as its bit pattern.
///
/// This crate stores and rearranges such values but never computes with
/// them: numeric evaluation belongs to the rendering layer, which converts
/// between machine numbers and these bits one for one, so a value carried
/// here comes back out exactly as it went in.
#[derive(Clone, Copy, Debug, PartialEq, Eq, Structural)]
pub struct Scalar {
    pub bits: u32,
}

impl Scalar {
    /// The value with the opposite sign: IEEE-754 negation flips the sign
    /// bit and leaves every other bit alone, for every value.
    pub open spec fn spec_negated(self) -> Scalar {
        Scalar { bits: self.bits ^ SIGN_BIT }
    }

    /// Negates the carried value by flipping its sign bit.
    pub fn negated(self) -> (r: Scalar)
        ensures
            r == self.spec_negated(),
    {
        Scalar { bits: self.bits ^ SIGN_BIT }
    }
}

/// A point or displacement in the plane, each coordinate a 32-bit
/// IEEE-754 value carried as its bit pattern.
#[derive(Clone, Copy, Debug, PartialEq, Eq, Structural)]
pub struct Vec2 {
    pub x: Scalar,
    pub y: Scalar,
}

impl Vec2 {
    pub fn new(x: Scalar, y: Scalar) -> (r: Vec2)
        ensures
            r == (Vec2 { x, y }),
    {
        Vec2 { x, y }
    }
}

/// A direction: a vector of unit length.
///
/// The numeric unit-length check needs arithmetic on the coordinates, so
/// it belongs to the rendering layer; a `Dir2` records a vector whose
/// length the caller has already established, which is why its only
/// constructor here is the unchecked one.
#[derive(Clone, Copy, Debug, PartialEq, Eq, Structural)]
pub struct Dir2(pub Vec2);

impl Dir2 {
    /// Wraps a vector the caller knows to be of unit length.
    pub fn new_unchecked(from: Vec2) -> (r: Dir2)
        ensures
            r == Dir2(from),
    {
        Dir2(from)
    }

    /// The perpendicular direction, a quarter turn counter-clockwise:
    /// (x, y) becomes (-y, x). On the carried bits the turn is exact,
    /// since negation only flips a sign bit. A wave uses this to derive
    /// its tangential axis from its up direction.
    pub fn rotate_90(self) -> (r: Dir2)
        ensures
            r.0.x == self.0.y.spec_negated(),
            r.0.y == self.0.x,
    {
        Dir2(Vec2 { x: self.0.y.negated(), y: self.0.x })
    }

    /// The decision inside direction construction: whether a vector whose
    /// length has the three given properties may be normalized, and if
    /// not, why not. A non-positive length is refused as `Zero` ahead of
    /// everything else; a length that is not a number as `NaN`; an
    /// infinite length as `Infinite`; a positive finite length passes.
    /// The rendering layer computes the three properties of the machine
    /// number and performs the division on the accepted branch.
    pub fn classify_length(nonpositive: bool, finite: bool, nan: bool) -> (r: Option<
        InvalidDirError,
    >)
        ensures
            r == (match (nonpositive, finite, nan) {
                (false, true, _) => None::<InvalidDirError>,
                (true, _, _) => Some(InvalidDirError::Zero),
                (_, _, true) => Some(InvalidDirError::NaN),
                (_, false, _) => Some(InvalidDirError::Infinite),
            }),
    {
        match (nonpositive, finite, nan) {
            (false, true, _) => None,
            (true, _, _) => Some(InvalidDirError::Zero),
            (_, _, true) => Some(InvalidDirError::NaN),
            (_, false, _) => Some(InvalidDirError::Infinite),
        }
    }
}

/// Why a vector could not be made into a direction: its length was not a
/// positive finite number.
#[derive(Clone, Copy, Debug, PartialEq, Eq, Structural)]
pub enum InvalidDirError {
    Zero,
    Infinite,
    NaN,
}

impl InvalidDirError {
    /// The variant for a length already known to be invalid, judged from
    /// two of its properties: an infinite length wins over one that is not
    /// a number, and anything else counts as zero.
    pub fn from_length(is_infinite: bool, is_nan: bool) -> (r: InvalidDirError)
        ensures
            r == (if is_infinite {
                InvalidDirError::Infinite
            } else if is_nan {
                InvalidDirError::NaN
            } else {
                InvalidDirError::Zero
            }),
    {
        if is_infinite {
            InvalidDirError::Infinite
        } else if is_nan {
            InvalidDirError::NaN
        } else {
            InvalidDirError::Zero
        }
    }
}

} // verus!
