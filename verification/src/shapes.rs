//! Circles with a validated radius.
//!
//! `Circle` offers three constructors with increasingly strict treatment of
//! invalid radii: `new` accepts anything, `new_1` reports an error value,
//! and `new_2` requires a positive radius from its caller outright.

use vstd::prelude::*;

verus! {

/// A circle described by its radius alone.
pub struct Circle {
    radius: i32,
}

impl Circle {
    /// The radius this circle was built with.
    pub closed spec fn radius_spec(&self) -> int {
        self.radius as int
    }

    /// Builds a circle from any radius, without validation.
    pub fn new(radius: i32) -> (c: Circle)
        ensures
            c.radius_spec() == radius,
    {
        Circle { radius }
    }

    /// Builds a circle only from a positive radius; any other radius is
    /// reported as an error message.
    pub fn new_1(radius: i32) -> (r: Result<Circle, String>)
        ensures
            radius > 0 ==> (r matches Ok(c) && c.radius_spec() == radius),
            radius <= 0 ==> (r matches Err(m) && m@ == "Radius should be positive"@),
    {
        if radius > 0 {
            Ok(Circle { radius })
        } else {
            Err("Radius should be positive".to_owned())
        }
    }

    /// Builds a circle from a radius that the caller has already checked to
    /// be positive.
    pub fn new_2(radius: i32) -> (c: Circle)
        requires
            radius > 0,
        ensures
            c.radius_spec() == radius,
    {
        Circle { radius }
    }

    /// Reports whether this circle strictly contains `other`, which holds
    /// exactly when its radius is the larger one.
    pub fn contains(&self, other: &Circle) -> (r: bool)
        ensures
            r == (self.radius_spec() > other.radius_spec()),
    {
        self.radius > other.radius
    }
}

} // verus!
