//! A corner piece: three facelet colors whose cyclic order encodes the
//! piece's orientation.
use vstd::prelude::*;

use crate::color::Color;

verus! {

/// A three-facelet corner piece. The colors are read clockwise around the
/// piece as seen from outside the cube at its slot, so their order encodes
/// the piece's orientation.
#[derive(Clone, Copy, PartialEq, Eq, Structural, Debug)]
pub struct Corner {
    pub first: Color,
    pub second: Color,
    pub third: Color,
}

/// The same piece turned clockwise in place: each position takes the color
/// that was clockwise-adjacent to it.
pub open spec fn spec_clockwise(c: Corner) -> Corner {
    Corner { first: c.third, second: c.first, third: c.second }
}

/// The same piece turned counter-clockwise in place; the inverse of
/// `spec_clockwise`.
pub open spec fn spec_counter_clockwise(c: Corner) -> Corner {
    Corner { first: c.second, second: c.third, third: c.first }
}

impl Corner {
    /// Builds a corner piece showing `color1`, `color2`, `color3` in
    /// clockwise order.
    pub fn new(color1: Color, color2: Color, color3: Color) -> (c: Corner)
        ensures
            c == (Corner { first: color1, second: color2, third: color3 }),
    {
        Corner { first: color1, second: color2, third: color3 }
    }

    /// Rotates the stored order clockwise in place. Undone by
    /// `counter_clockwise`.
    pub fn clockwise(&mut self)
        ensures
            *final(self) == spec_clockwise(*old(self)),
    {
        let t = self.first;
        self.first = self.third;
        self.third = self.second;
        self.second = t;
    }

    /// Rotates the stored order counter-clockwise in place. Undone by
    /// `clockwise`.
    pub fn counter_clockwise(&mut self)
        ensures
            *final(self) == spec_counter_clockwise(*old(self)),
    {
        let t = self.first;
        self.first = self.second;
        self.second = self.third;
        self.third = t;
    }

    /// The color at position `i`; only positions 0, 1 and 2 exist.
    pub fn color(&self, i: usize) -> (c: Color)
        requires
            i < 3,
        ensures
            c == (if i == 0 {
                self.first
            } else if i == 1 {
                self.second
            } else {
                self.third
            }),
    {
        if i == 0 {
            self.first
        } else if i == 1 {
            self.second
        } else {
            self.third
        }
    }
}

} // verus!
