//! Shapes behind a common trait interface.
//!
//! `Shape` gathers `area` and `perimeter` behind supertraits `Draw` and
//! `OtherTrait`, and is implemented by `Square` and `Rectangle`.
//! `share_properties` dispatches statically through a trait bound. The
//! verifier offers no trait objects, so the dynamic-dispatch variants work
//! with `AnyShape`, a boxed enum over the two shapes that picks the
//! implementation at run time.

use vstd::prelude::*;

verus! {

/// A shape that can describe how it is drawn.
pub trait Draw {
    /// The text that drawing this shape prints.
    spec fn draw_description(&self) -> Seq<char>;

    /// Returns the line that drawing this shape prints.
    fn draw_object(&self) -> (s: String)
        ensures
            s@ == self.draw_description(),
    ;
}

/// A marker trait: no methods, only a bound that `Shape` demands.
pub trait OtherTrait {

}

/// A closed figure with an area and a perimeter, drawable as well.
pub trait Shape: Draw + OtherTrait {
    /// Whether the dimensions are small enough for `area` and `perimeter`
    /// to be computed without overflow.
    spec fn wf(&self) -> bool;

    /// The area as a mathematical integer.
    spec fn area_spec(&self) -> int;

    /// The perimeter as a mathematical integer.
    spec fn perimeter_spec(&self) -> int;

    /// Computes the area.
    fn area(&self) -> (a: i32)
        requires
            self.wf(),
        ensures
            a as int == self.area_spec(),
    ;

    /// Computes the perimeter.
    fn perimeter(&self) -> (p: i32)
        requires
            self.wf(),
        ensures
            p as int == self.perimeter_spec(),
    ;
}

/// A square, described by its side.
pub struct Square {
    /// The length of each side.
    pub side: i32,
}

impl Square {
    /// Builds a square with the given side.
    pub fn new(side: i32) -> (s: Square)
        ensures
            s.side == side,
    {
        Square { side }
    }
}

impl Draw for Square {
    open spec fn draw_description(&self) -> Seq<char> {
        "Drawing a Square object."@
    }

    fn draw_object(&self) -> (s: String) {
        "Drawing a Square object.".to_owned()
    }
}

impl OtherTrait for Square {

}

impl Shape for Square {
    open spec fn wf(&self) -> bool {
        &&& i32::MIN <= self.side * self.side <= i32::MAX
        &&& i32::MIN <= 4 * self.side <= i32::MAX
    }

    open spec fn area_spec(&self) -> int {
        self.side * self.side
    }

    open spec fn perimeter_spec(&self) -> int {
        4 * self.side
    }

    fn area(&self) -> (a: i32) {
        self.side * self.side
    }

    fn perimeter(&self) -> (p: i32) {
        4 * self.side
    }
}

/// A rectangle, described by its length and breadth.
pub struct Rectangle {
    /// The longer dimension.
    pub length: i32,
    /// The shorter dimension.
    pub breadth: i32,
}

impl Rectangle {
    /// Builds a rectangle with the given dimensions.
    pub fn new(length: i32, breadth: i32) -> (r: Rectangle)
        ensures
            r.length == length && r.breadth == breadth,
    {
        Rectangle { length, breadth }
    }
}

impl Draw for Rectangle {
    open spec fn draw_description(&self) -> Seq<char> {
        "Drawing a Rectangle object."@
    }

    fn draw_object(&self) -> (s: String) {
        "Drawing a Rectangle object.".to_owned()
    }
}

impl OtherTrait for Rectangle {

}

impl Shape for Rectangle {
    open spec fn wf(&self) -> bool {
        &&& i32::MIN <= self.length * self.breadth <= i32::MAX
        &&& i32::MIN <= self.length + self.breadth <= i32::MAX
        &&& i32::MIN <= 2 * (self.length + self.breadth) <= i32::MAX
    }

    open spec fn area_spec(&self) -> int {
        self.length * self.breadth
    }

    open spec fn perimeter_spec(&self) -> int {
        2 * (self.length + self.breadth)
    }

    fn area(&self) -> (a: i32) {
        self.length * self.breadth
    }

    fn perimeter(&self) -> (p: i32) {
        2 * (self.length + self.breadth)
    }
}

/// Returns the area and perimeter of any shape, through a trait bound:
/// dispatch is resolved statically.
pub fn share_properties<T: Shape>(obj: T) -> (r: (i32, i32))
    requires
        obj.wf(),
    ensures
        r.0 as int == obj.area_spec(),
        r.1 as int == obj.perimeter_spec(),
{
    (obj.area(), obj.perimeter())
}

/// Either of the shapes, behind one type, standing in for a boxed trait
/// object.
pub enum AnyShape {
    /// A square.
    Square(Square),
    /// A rectangle.
    Rectangle(Rectangle),
}

impl Draw for AnyShape {
    open spec fn draw_description(&self) -> Seq<char> {
        match self {
            AnyShape::Square(s) => s.draw_description(),
            AnyShape::Rectangle(r) => r.draw_description(),
        }
    }

    fn draw_object(&self) -> (s: String) {
        match self {
            AnyShape::Square(s) => s.draw_object(),
            AnyShape::Rectangle(r) => r.draw_object(),
        }
    }
}

impl OtherTrait for AnyShape {

}

impl Shape for AnyShape {
    open spec fn wf(&self) -> bool {
        match self {
            AnyShape::Square(s) => s.wf(),
            AnyShape::Rectangle(r) => r.wf(),
        }
    }

    open spec fn area_spec(&self) -> int {
        match self {
            AnyShape::Square(s) => s.area_spec(),
            AnyShape::Rectangle(r) => r.area_spec(),
        }
    }

    open spec fn perimeter_spec(&self) -> int {
        match self {
            AnyShape::Square(s) => s.perimeter_spec(),
            AnyShape::Rectangle(r) => r.perimeter_spec(),
        }
    }

    fn area(&self) -> (a: i32) {
        match self {
            AnyShape::Square(s) => s.area(),
            AnyShape::Rectangle(r) => r.area(),
        }
    }

    fn perimeter(&self) -> (p: i32) {
        match self {
            AnyShape::Square(s) => s.perimeter(),
            AnyShape::Rectangle(r) => r.perimeter(),
        }
    }
}

/// Returns the area and perimeter of a boxed shape, chosen at run time.
pub fn share_properties_dynamic(obj: Box<AnyShape>) -> (r: (i32, i32))
    requires
        obj.wf(),
    ensures
        r.0 as int == obj.area_spec(),
        r.1 as int == obj.perimeter_spec(),
{
    (obj.area(), obj.perimeter())
}

/// Computes the area of any shape, through a trait bound.
pub fn area<T: Shape>(obj: &T) -> (a: i32)
    requires
        obj.wf(),
    ensures
        a as int == obj.area_spec(),
{
    obj.area()
}

/// Builds a boxed shape from a list of dimensions: a square from a single
/// dimension, a rectangle from the first two otherwise.
pub fn returns_shape(dimension: Vec<i32>) -> (r: Box<AnyShape>)
    requires
        dimension@.len() >= 1,
    ensures
        dimension@.len() == 1 ==> ((*r) matches AnyShape::Square(s) && s.side == dimension@[0]),
        dimension@.len() >= 2 ==> ((*r) matches AnyShape::Rectangle(t) && t.length == dimension@[0]
            && t.breadth == dimension@[1]),
{
    if dimension.len() == 1 {
        Box::new(AnyShape::Square(Square::new(dimension[0])))
    } else {
        Box::new(AnyShape::Rectangle(Rectangle::new(dimension[0], dimension[1])))
    }
}

} // verus!
