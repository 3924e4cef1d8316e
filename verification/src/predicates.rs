//! Read-only queries over the cube state.
use vstd::prelude::*;

use crate::color::Color;
use crate::corner::Corner;
use crate::cube::Cube;
use crate::cube::CubeView;
use crate::side::Side;

verus! {

/// How many of the eight bottom-layer pieces (four corners, four edges)
/// differ from their solved-state value: `8` minus the number of matches.
pub open spec fn spec_num_bottom_solved(v: CubeView) -> int {
    8 - ((if v.bottom_corners[0] == (Corner {
        first: Color::Orange,
        second: Color::Blue,
        third: Color::White,
    }) {
        1int
    } else {
        0int
    }) + (if v.bottom_corners[1] == (Corner {
        first: Color::Orange,
        second: Color::White,
        third: Color::Green,
    }) {
        1int
    } else {
        0int
    }) + (if v.bottom_corners[2] == (Corner {
        first: Color::Orange,
        second: Color::Green,
        third: Color::Yellow,
    }) {
        1int
    } else {
        0int
    }) + (if v.bottom_corners[3] == (Corner {
        first: Color::Orange,
        second: Color::Yellow,
        third: Color::Blue,
    }) {
        1int
    } else {
        0int
    }) + (if v.bottom_sides[0] == (Side { first: Color::Orange, second: Color::White }) {
        1int
    } else {
        0int
    }) + (if v.bottom_sides[1] == (Side { first: Color::Orange, second: Color::Green }) {
        1int
    } else {
        0int
    }) + (if v.bottom_sides[2] == (Side { first: Color::Orange, second: Color::Yellow }) {
        1int
    } else {
        0int
    }) + (if v.bottom_sides[3] == (Side { first: Color::Orange, second: Color::Blue }) {
        1int
    } else {
        0int
    }))
}

/// Counts the bottom-layer pieces that are away from their solved place or
/// orientation, out of eight.
pub fn num_bottom_solved(cube: &Cube) -> (n: usize)
    ensures
        n == spec_num_bottom_solved(cube@),
{
    let mut matches: usize = 0;
    if cube.bottom_corners[0] == Corner::new(Color::Orange, Color::Blue, Color::White) {
        matches = matches + 1;
    }
    if cube.bottom_corners[1] == Corner::new(Color::Orange, Color::White, Color::Green) {
        matches = matches + 1;
    }
    if cube.bottom_corners[2] == Corner::new(Color::Orange, Color::Green, Color::Yellow) {
        matches = matches + 1;
    }
    if cube.bottom_corners[3] == Corner::new(Color::Orange, Color::Yellow, Color::Blue) {
        matches = matches + 1;
    }
    if cube.bottom_sides[0] == Side::new(Color::Orange, Color::White) {
        matches = matches + 1;
    }
    if cube.bottom_sides[1] == Side::new(Color::Orange, Color::Green) {
        matches = matches + 1;
    }
    if cube.bottom_sides[2] == Side::new(Color::Orange, Color::Yellow) {
        matches = matches + 1;
    }
    if cube.bottom_sides[3] == Side::new(Color::Orange, Color::Blue) {
        matches = matches + 1;
    }
    8 - matches
}

} // verus!
