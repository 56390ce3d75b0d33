//! Axis-aligned rectangles.

use vstd::prelude::*;
use crate::fixed::{half, pin, pinned_add};

verus! {

/// An axis-aligned rectangle in stored units. `x` and `y` are the corner with
/// the smallest coordinates.
#[derive(Clone, Copy, Debug, PartialEq, Eq)]
pub struct Rectangle {
    pub x: i64,
    pub y: i64,
    pub width: i64,
    pub height: i64,
}

/// The mathematical rectangle that a [`Rectangle`] stands for.
pub ghost struct RectangleModel {
    pub x: int,
    pub y: int,
    pub width: int,
    pub height: int,
}

impl View for Rectangle {
    type V = RectangleModel;

    open spec fn view(&self) -> RectangleModel {
        RectangleModel {
            x: self.x as int,
            y: self.y as int,
            width: self.width as int,
            height: self.height as int,
        }
    }
}

impl RectangleModel {
    /// Neither extent is negative.
    pub open spec fn wf(self) -> bool {
        self.width >= 0 && self.height >= 0
    }

    /// The rectangle moved by `(dx, dy)`, each coordinate pinned to the
    /// range of `i64`.
    pub open spec fn translated(self, dx: int, dy: int) -> RectangleModel {
        RectangleModel { x: pin(self.x + dx), y: pin(self.y + dy), ..self }
    }

    /// Horizontal coordinate of the centre: `x` plus half the width, rounded
    /// down.
    pub open spec fn center_x(self) -> int {
        pin(self.x + self.width / 2)
    }

    /// Vertical coordinate of the centre: `y` plus half the height, rounded
    /// down.
    pub open spec fn center_y(self) -> int {
        pin(self.y + self.height / 2)
    }

    /// The one-sided overlap test that ball and paddle use. It asks that
    /// the right edge of `self` has reached the left edge of `other`, that
    /// the left edge of `self` has not passed the right edge of `other`, and
    /// that the top of `self` lies between the top and the bottom of `other`,
    /// ends included. The bottom of `self` plays no part.
    pub open spec fn overlaps(self, other: RectangleModel) -> bool {
        &&& self.x + self.width >= other.x
        &&& self.y >= other.y
        &&& self.x <= other.x + other.width
        &&& self.y <= other.y + other.height
    }
}

impl Rectangle {
    /// A rectangle with the given corner and extents.
    pub fn new(x: i64, y: i64, width: i64, height: i64) -> (r: Rectangle)
        requires
            width >= 0,
            height >= 0,
        ensures
            r@ == (RectangleModel { x: x as int, y: y as int, width: width as int, height: height as int }),
            r@.wf(),
    {
        Rectangle { x, y, width, height }
    }

    /// Moves the rectangle by `(dx, dy)`. Nothing holds it inside the world.
    pub fn translate(&mut self, dx: i64, dy: i64)
        ensures
            final(self)@ == old(self)@.translated(dx as int, dy as int),
    {
        self.x = pinned_add(self.x, dx);
        self.y = pinned_add(self.y, dy);
    }

    /// The centre of the rectangle.
    pub fn get_center(&self) -> (c: (i64, i64))
        ensures
            c.0 == self@.center_x(),
            c.1 == self@.center_y(),
    {
        (pinned_add(self.x, half(self.width)), pinned_add(self.y, half(self.height)))
    }

    /// Whether this rectangle touches `rect` in the sense of
    /// [`RectangleModel::overlaps`].
    pub fn collides(&self, rect: &Rectangle) -> (hit: bool)
        ensures
            hit == self@.overlaps(rect@),
    {
        self.x as i128 + self.width as i128 >= rect.x as i128
            && self.y >= rect.y
            && self.x as i128 <= rect.x as i128 + rect.width as i128
            && self.y as i128 <= rect.y as i128 + rect.height as i128
    }
}

} // verus!
