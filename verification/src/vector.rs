use crate::number::Decimal;
use vstd::prelude::*;

verus! {

/// Two numerals: a texture coordinate.
#[derive(Debug, PartialEq, Eq)]
pub struct Vector2 {
    pub x: Decimal,
    pub y: Decimal,
}

/// Three numerals: a position, a direction or a colour.
#[derive(Debug, PartialEq, Eq)]
pub struct Vector3 {
    pub x: Decimal,
    pub y: Decimal,
    pub z: Decimal,
}

impl View for Vector2 {
    type V = (Seq<char>, Seq<char>);

    open spec fn view(&self) -> (Seq<char>, Seq<char>) {
        (self.x@, self.y@)
    }
}

impl View for Vector3 {
    type V = (Seq<char>, Seq<char>, Seq<char>);

    open spec fn view(&self) -> (Seq<char>, Seq<char>, Seq<char>) {
        (self.x@, self.y@, self.z@)
    }
}

impl Vector2 {
    /// The vector with these components.
    pub fn new(x: Decimal, y: Decimal) -> (r: Vector2)
        ensures
            r@ == (x@, y@),
    {
        Vector2 { x, y }
    }
}

impl Vector3 {
    /// The vector with these components.
    pub fn new(x: Decimal, y: Decimal, z: Decimal) -> (r: Vector3)
        ensures
            r@ == (x@, y@, z@),
    {
        Vector3 { x, y, z }
    }

    /// The vector whose components are all `0.0`.
    pub open spec fn zero_view() -> (Seq<char>, Seq<char>, Seq<char>) {
        ("0.0"@, "0.0"@, "0.0"@)
    }

    /// The vector whose components are all `0.0`.
    pub fn zero() -> (r: Vector3)
        ensures
            r@ == Vector3::zero_view(),
    {
        Vector3 { x: Decimal::zero(), y: Decimal::zero(), z: Decimal::zero() }
    }
}

impl Clone for Vector2 {
    fn clone(&self) -> (r: Vector2)
        ensures
            r@ == self@,
    {
        Vector2 { x: self.x.clone(), y: self.y.clone() }
    }
}

impl Clone for Vector3 {
    fn clone(&self) -> (r: Vector3)
        ensures
            r@ == self@,
    {
        Vector3 { x: self.x.clone(), y: self.y.clone(), z: self.z.clone() }
    }
}

} // verus!
