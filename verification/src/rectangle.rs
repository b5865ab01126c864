//! Axis-aligned rectangles with whole-number sides.

use vstd::prelude::*;

verus! {

/// A rectangle given by its width and height in pixels.
#[derive(Debug, Clone, Copy, PartialEq, Eq, Structural)]
pub struct Rectangle {
    pub width: u32,
    pub height: u32,
}

impl Rectangle {
    /// The area as a mathematical integer.
    pub open spec fn spec_area(self) -> int {
        self.width * self.height
    }

    /// Whether `other` fits strictly inside `self` in both directions.
    pub open spec fn spec_can_hold(self, other: Rectangle) -> bool {
        self.width > other.width && self.height > other.height
    }

    /// The area in square pixels. The product has to fit in a `u32`.
    pub fn area(&self) -> (a: u32)
        requires
            self.spec_area() <= u32::MAX,
        ensures
            a == self.spec_area(),
    {
        self.width * self.height
    }

    /// Whether `other` fits strictly inside `self`: narrower and lower.
    pub fn can_hold(&self, other: &Rectangle) -> (fits: bool)
        ensures
            fits == self.spec_can_hold(*other),
    {
        self.width > other.width && self.height > other.height
    }

    /// The square with the given side.
    pub fn square(size: u32) -> (r: Rectangle)
        ensures
            r == (Rectangle { width: size, height: size }),
    {
        Rectangle { width: size, height: size }
    }
}

} // verus!
