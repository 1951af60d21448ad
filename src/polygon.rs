//! Polygons of three or four corners, generic over what a corner holds: an
//! index into a list of shared vertices, or a vertex itself. The corners are
//! listed counter-clockwise as seen from outside the solid.
use vstd::prelude::*;

verus! {

/// Three corners, in winding order.
#[derive(Clone, Copy, Debug, PartialEq, Eq, Structural)]
pub struct Triangle<T> {
    pub x: T,
    pub y: T,
    pub z: T,
}

impl<T> Triangle<T> {
    pub fn new(x: T, y: T, z: T) -> (r: Self)
        ensures
            r == (Triangle { x, y, z }),
    {
        Triangle { x, y, z }
    }
}

/// Four corners, in winding order.
#[derive(Clone, Copy, Debug, PartialEq, Eq, Structural)]
pub struct Quad<T> {
    pub x: T,
    pub y: T,
    pub z: T,
    pub w: T,
}

impl<T> Quad<T> {
    pub fn new(x: T, y: T, z: T, w: T) -> (r: Self)
        ensures
            r == (Quad { x, y, z, w }),
    {
        Quad { x, y, z, w }
    }
}

/// A polygon of either arity.
#[derive(Clone, Copy, Debug, PartialEq, Eq, Structural)]
pub enum Polygon<T> {
    PolyTri(Triangle<T>),
    PolyQuad(Quad<T>),
}

} // verus!
