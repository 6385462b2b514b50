//! Speeds and distances under a trait with an associated type.
//!
//! `DistanceThreeHours` names the unit of the distance it yields through an
//! associated type, so each speed unit states locally what travelling for a
//! number of hours produces.

use vstd::prelude::*;

verus! {

/// A distance in kilometres.
pub struct Km {
    /// How many kilometres.
    pub value: i32,
}

/// A speed in kilometres per hour.
pub struct Kmh {
    /// How many kilometres are covered each hour.
    pub value: i32,
}

/// Travelling at `self` for a number of hours, yielding a distance whose
/// unit is the associated type.
pub trait DistanceThreeHours {
    /// The unit of the distance covered.
    type Distance;

    /// Whether the speed and the hours are small enough for
    /// `distance_covered` to avoid overflow.
    spec fn distance_req(&self, hours: i32) -> bool;

    /// The distance that `distance_covered` returns.
    spec fn distance_spec(&self, hours: i32) -> Self::Distance;

    /// Computes the distance covered in `hours` hours.
    fn distance_covered(&self, hours: i32) -> (d: Self::Distance)
        requires
            self.distance_req(hours),
        ensures
            d == self.distance_spec(hours),
    ;
}

impl DistanceThreeHours for Kmh {
    type Distance = Km;

    open spec fn distance_req(&self, hours: i32) -> bool {
        i32::MIN <= self.value * hours <= i32::MAX
    }

    open spec fn distance_spec(&self, hours: i32) -> Km {
        Km { value: (self.value * hours) as i32 }
    }

    fn distance_covered(&self, hours: i32) -> (d: Km) {
        Km { value: self.value * hours }
    }
}

} // verus!
