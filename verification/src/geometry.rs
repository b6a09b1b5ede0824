//! Integer vectors and rectangles, in font design units or in pixels.

use vstd::prelude::*;

verus! {

/// A point or a displacement with integer coordinates.
#[derive(Clone, Copy, Debug, PartialEq, Eq, Structural)]
pub struct Vector2I {
    pub x: i32,
    pub y: i32,
}

/// A rectangle, given by its origin and its size.
#[derive(Clone, Copy, Debug, PartialEq, Eq, Structural)]
pub struct RectI {
    pub origin: Vector2I,
    pub size: Vector2I,
}

impl Vector2I {
    /// The vector with the given coordinates.
    pub fn new(x: i32, y: i32) -> (v: Vector2I)
        ensures
            v == (Vector2I { x, y }),
    {
        Vector2I { x, y }
    }

    /// The zero vector.
    pub open spec fn spec_zero() -> Vector2I {
        Vector2I { x: 0, y: 0 }
    }

    /// The zero vector.
    #[verifier::when_used_as_spec(spec_zero)]
    pub fn zero() -> (v: Vector2I)
        ensures
            v == Vector2I::spec_zero(),
    {
        Vector2I { x: 0, y: 0 }
    }
}

impl RectI {
    /// The rectangle with the given origin and size.
    pub fn new(origin: Vector2I, size: Vector2I) -> (r: RectI)
        ensures
            r == (RectI { origin, size }),
    {
        RectI { origin, size }
    }
}

} // verus!
