//! An edge piece: two facelet colors whose order encodes the piece's
//! orientation in its slot.
use vstd::prelude::*;

use crate::color::Color;

verus! {

/// A two-facelet edge piece. The colors are read clockwise around the piece
/// from the canonical external viewing direction of its slot, so their order
/// encodes the piece's orientation.
#[derive(Clone, Copy, PartialEq, Eq, Structural, Debug)]
pub struct Side {
    pub first: Color,
    pub second: Color,
}

/// The same piece reoriented by a half turn: its two colors change places.
pub open spec fn spec_flip(s: Side) -> Side {
    Side { first: s.second, second: s.first }
}

impl Side {
    /// Builds a side piece showing `color1` then `color2` in clockwise order.
    pub fn new(color1: Color, color2: Color) -> (s: Side)
        ensures
            s == (Side { first: color1, second: color2 }),
    {
        Side { first: color1, second: color2 }
    }

    /// Reorients the piece in place by a half turn, swapping its two colors.
    /// Flipping twice is the identity.
    pub fn flip(&mut self)
        ensures
            *final(self) == spec_flip(*old(self)),
    {
        let t = self.first;
        self.first = self.second;
        self.second = t;
    }

    /// The color at position `i`; only positions 0 and 1 exist.
    pub fn color(&self, i: usize) -> (c: Color)
        requires
            i < 2,
        ensures
            c == (if i == 0 { self.first } else { self.second }),
    {
        if i == 0 {
            self.first
        } else {
            self.second
        }
    }
}

} // verus!
