//! The cube state and its twelve face rotations.
//!
//! The state is five fixed-length rings of pieces. The bottom rings are
//! indexed clockwise as seen from below the cube, the top rings clockwise as
//! seen from above, and the middle ring clockwise as seen from the right.
//! Red is the top face center, White the front and Orange the bottom.
use vstd::multiset::Multiset;
use vstd::prelude::*;

use crate::color::Color;
use crate::corner::Corner;
use crate::corner::spec_clockwise;
use crate::corner::spec_counter_clockwise;
use crate::side::Side;
use crate::side::spec_flip;

verus! {

/// The cube: four rings of four pieces around the bottom and top layers and
/// one ring of four edge pieces in the middle layer.
#[derive(PartialEq, Eq, Debug)]
pub struct Cube {
    /// Bottom-layer edges, starting at the front face and read clockwise as
    /// seen from below.
    pub bottom_sides: [Side; 4],
    /// Bottom-layer corners, starting at the front-left corner and read
    /// clockwise as seen from below.
    pub bottom_corners: [Corner; 4],
    /// Middle-layer edges, starting at the front-left edge and read
    /// clockwise as seen from the right.
    pub middle_sides: [Side; 4],
    /// Top-layer edges, starting at the front face and read clockwise as
    /// seen from above.
    pub top_sides: [Side; 4],
    /// Top-layer corners, starting at the front-left corner and read
    /// clockwise as seen from above.
    pub top_corners: [Corner; 4],
}

/// The mathematical model of a cube state: the five rings as sequences.
#[verifier::ext_equal]
pub struct CubeView {
    pub bottom_sides: Seq<Side>,
    pub bottom_corners: Seq<Corner>,
    pub middle_sides: Seq<Side>,
    pub top_sides: Seq<Side>,
    pub top_corners: Seq<Corner>,
}

impl View for Cube {
    type V = CubeView;

    open spec fn view(&self) -> CubeView {
        CubeView {
            bottom_sides: self.bottom_sides@,
            bottom_corners: self.bottom_corners@,
            middle_sides: self.middle_sides@,
            top_sides: self.top_sides@,
            top_corners: self.top_corners@,
        }
    }
}

/// Well-formedness of a cube model: every ring holds exactly four pieces.
/// The view of any `Cube` value satisfies it.
pub open spec fn wf(v: CubeView) -> bool {
    &&& v.bottom_sides.len() == 4
    &&& v.bottom_corners.len() == 4
    &&& v.middle_sides.len() == 4
    &&& v.top_sides.len() == 4
    &&& v.top_corners.len() == 4
}

/// The canonical solved configuration: Orange bottom, Red top, and the
/// middle ring reading White, Blue, Yellow, Green around the cube.
pub open spec fn spec_solved() -> CubeView {
    CubeView {
        bottom_sides: seq![
            Side { first: Color::Orange, second: Color::White },
            Side { first: Color::Orange, second: Color::Green },
            Side { first: Color::Orange, second: Color::Yellow },
            Side { first: Color::Orange, second: Color::Blue },
        ],
        bottom_corners: seq![
            Corner { first: Color::Orange, second: Color::Blue, third: Color::White },
            Corner { first: Color::Orange, second: Color::White, third: Color::Green },
            Corner { first: Color::Orange, second: Color::Green, third: Color::Yellow },
            Corner { first: Color::Orange, second: Color::Yellow, third: Color::Blue },
        ],
        middle_sides: seq![
            Side { first: Color::White, second: Color::Blue },
            Side { first: Color::Blue, second: Color::Yellow },
            Side { first: Color::Yellow, second: Color::Green },
            Side { first: Color::Green, second: Color::White },
        ],
        top_sides: seq![
            Side { first: Color::Red, second: Color::White },
            Side { first: Color::Red, second: Color::Blue },
            Side { first: Color::Red, second: Color::Yellow },
            Side { first: Color::Red, second: Color::Green },
        ],
        top_corners: seq![
            Corner { first: Color::Red, second: Color::White, third: Color::Blue },
            Corner { first: Color::Red, second: Color::Blue, third: Color::Yellow },
            Corner { first: Color::Red, second: Color::Yellow, third: Color::Green },
            Corner { first: Color::Red, second: Color::Green, third: Color::White },
        ],
    }
}

/// Turning the top face clockwise rotates both top rings one slot forward:
/// each slot takes the piece that preceded it. Pieces stay in the top layer,
/// so none is reoriented.
pub open spec fn spec_rotate_top_clockwise(v: CubeView) -> CubeView {
    CubeView {
        top_sides: seq![v.top_sides[3], v.top_sides[0], v.top_sides[1], v.top_sides[2]],
        top_corners: seq![v.top_corners[3], v.top_corners[0], v.top_corners[1], v.top_corners[2]],
        ..v
    }
}

/// Turning the top face counter-clockwise rotates both top rings one slot
/// backward; the inverse of `spec_rotate_top_clockwise`.
pub open spec fn spec_rotate_top_counter_clockwise(v: CubeView) -> CubeView {
    CubeView {
        top_sides: seq![v.top_sides[1], v.top_sides[2], v.top_sides[3], v.top_sides[0]],
        top_corners: seq![v.top_corners[1], v.top_corners[2], v.top_corners[3], v.top_corners[0]],
        ..v
    }
}

/// Turning the bottom face clockwise (seen from below) rotates both bottom
/// rings one slot forward. Pieces stay in the bottom layer, so none is
/// reoriented.
pub open spec fn spec_rotate_bottom_clockwise(v: CubeView) -> CubeView {
    CubeView {
        bottom_sides: seq![
            v.bottom_sides[3],
            v.bottom_sides[0],
            v.bottom_sides[1],
            v.bottom_sides[2],
        ],
        bottom_corners: seq![
            v.bottom_corners[3],
            v.bottom_corners[0],
            v.bottom_corners[1],
            v.bottom_corners[2],
        ],
        ..v
    }
}

/// Turning the bottom face counter-clockwise rotates both bottom rings one
/// slot backward; the inverse of `spec_rotate_bottom_clockwise`.
pub open spec fn spec_rotate_bottom_counter_clockwise(v: CubeView) -> CubeView {
    CubeView {
        bottom_sides: seq![
            v.bottom_sides[1],
            v.bottom_sides[2],
            v.bottom_sides[3],
            v.bottom_sides[0],
        ],
        bottom_corners: seq![
            v.bottom_corners[1],
            v.bottom_corners[2],
            v.bottom_corners[3],
            v.bottom_corners[0],
        ],
        ..v
    }
}

/// Turning the right face clockwise cycles one edge and one corner through
/// each of the three layers on that side. Edges crossing between the middle
/// ring and a top or bottom ring are flipped, and corners crossing between
/// the top and bottom rings are reoriented, because the canonical viewing
/// direction changes with the ring.
pub open spec fn spec_rotate_right_clockwise(v: CubeView) -> CubeView {
    CubeView {
        bottom_sides: seq![
            v.bottom_sides[0],
            v.middle_sides[2],
            v.bottom_sides[2],
            v.bottom_sides[3],
        ],
        middle_sides: seq![
            v.middle_sides[0],
            v.middle_sides[1],
            v.top_sides[3],
            spec_flip(v.bottom_sides[1]),
        ],
        top_sides: seq![
            v.top_sides[0],
            v.top_sides[1],
            v.top_sides[2],
            spec_flip(v.middle_sides[3]),
        ],
        bottom_corners: seq![
            v.bottom_corners[0],
            spec_clockwise(v.bottom_corners[2]),
            spec_counter_clockwise(v.top_corners[2]),
            v.bottom_corners[3],
        ],
        top_corners: seq![
            v.top_corners[0],
            v.top_corners[1],
            spec_clockwise(v.top_corners[3]),
            spec_counter_clockwise(v.bottom_corners[1]),
        ],
    }
}

/// Turning the right face counter-clockwise; the inverse of
/// `spec_rotate_right_clockwise`.
pub open spec fn spec_rotate_right_counter_clockwise(v: CubeView) -> CubeView {
    CubeView {
        bottom_sides: seq![
            v.bottom_sides[0],
            spec_flip(v.middle_sides[3]),
            v.bottom_sides[2],
            v.bottom_sides[3],
        ],
        middle_sides: seq![
            v.middle_sides[0],
            v.middle_sides[1],
            v.bottom_sides[1],
            spec_flip(v.top_sides[3]),
        ],
        top_sides: seq![v.top_sides[0], v.top_sides[1], v.top_sides[2], v.middle_sides[2]],
        bottom_corners: seq![
            v.bottom_corners[0],
            spec_clockwise(v.top_corners[3]),
            spec_counter_clockwise(v.bottom_corners[1]),
            v.bottom_corners[3],
        ],
        top_corners: seq![
            v.top_corners[0],
            v.top_corners[1],
            spec_clockwise(v.bottom_corners[2]),
            spec_counter_clockwise(v.top_corners[2]),
        ],
    }
}

/// Turning the front face clockwise cycles one edge and one corner through
/// each of the three layers on the front, flipping edges and reorienting
/// corners that change ring.
pub open spec fn spec_rotate_front_clockwise(v: CubeView) -> CubeView {
    CubeView {
        bottom_sides: seq![
            v.middle_sides[3],
            v.bottom_sides[1],
            v.bottom_sides[2],
            v.bottom_sides[3],
        ],
        middle_sides: seq![
            spec_flip(v.bottom_sides[0]),
            v.middle_sides[1],
            v.middle_sides[2],
            v.top_sides[0],
        ],
        top_sides: seq![
            spec_flip(v.middle_sides[0]),
            v.top_sides[1],
            v.top_sides[2],
            v.top_sides[3],
        ],
        bottom_corners: seq![
            spec_clockwise(v.bottom_corners[1]),
            spec_counter_clockwise(v.top_corners[3]),
            v.bottom_corners[2],
            v.bottom_corners[3],
        ],
        top_corners: seq![
            spec_counter_clockwise(v.bottom_corners[0]),
            v.top_corners[1],
            v.top_corners[2],
            spec_clockwise(v.top_corners[0]),
        ],
    }
}

/// Turning the front face counter-clockwise; the inverse of
/// `spec_rotate_front_clockwise`.
pub open spec fn spec_rotate_front_counter_clockwise(v: CubeView) -> CubeView {
    CubeView {
        bottom_sides: seq![
            spec_flip(v.middle_sides[0]),
            v.bottom_sides[1],
            v.bottom_sides[2],
            v.bottom_sides[3],
        ],
        middle_sides: seq![
            spec_flip(v.top_sides[0]),
            v.middle_sides[1],
            v.middle_sides[2],
            v.bottom_sides[0],
        ],
        top_sides: seq![v.middle_sides[3], v.top_sides[1], v.top_sides[2], v.top_sides[3]],
        bottom_corners: seq![
            spec_clockwise(v.top_corners[0]),
            spec_counter_clockwise(v.bottom_corners[0]),
            v.bottom_corners[2],
            v.bottom_corners[3],
        ],
        top_corners: seq![
            spec_counter_clockwise(v.top_corners[3]),
            v.top_corners[1],
            v.top_corners[2],
            spec_clockwise(v.bottom_corners[1]),
        ],
    }
}

/// Turning the left face clockwise cycles one edge and one corner through
/// each of the three layers on the left, flipping edges and reorienting
/// corners that change ring.
pub open spec fn spec_rotate_left_clockwise(v: CubeView) -> CubeView {
    CubeView {
        bottom_sides: seq![
            v.bottom_sides[0],
            v.bottom_sides[1],
            v.bottom_sides[2],
            v.middle_sides[0],
        ],
        middle_sides: seq![
            v.top_sides[1],
            spec_flip(v.bottom_sides[3]),
            v.middle_sides[2],
            v.middle_sides[3],
        ],
        top_sides: seq![
            v.top_sides[0],
            spec_flip(v.middle_sides[1]),
            v.top_sides[2],
            v.top_sides[3],
        ],
        bottom_corners: seq![
            spec_counter_clockwise(v.top_corners[0]),
            v.bottom_corners[1],
            v.bottom_corners[2],
            spec_clockwise(v.bottom_corners[0]),
        ],
        top_corners: seq![
            spec_clockwise(v.top_corners[1]),
            spec_counter_clockwise(v.bottom_corners[3]),
            v.top_corners[2],
            v.top_corners[3],
        ],
    }
}

/// Turning the left face counter-clockwise; the inverse of
/// `spec_rotate_left_clockwise`.
pub open spec fn spec_rotate_left_counter_clockwise(v: CubeView) -> CubeView {
    CubeView {
        bottom_sides: seq![
            v.bottom_sides[0],
            v.bottom_sides[1],
            v.bottom_sides[2],
            spec_flip(v.middle_sides[1]),
        ],
        middle_sides: seq![
            v.bottom_sides[3],
            spec_flip(v.top_sides[1]),
            v.middle_sides[2],
            v.middle_sides[3],
        ],
        top_sides: seq![v.top_sides[0], v.middle_sides[0], v.top_sides[2], v.top_sides[3]],
        bottom_corners: seq![
            spec_counter_clockwise(v.bottom_corners[3]),
            v.bottom_corners[1],
            v.bottom_corners[2],
            spec_clockwise(v.top_corners[1]),
        ],
        top_corners: seq![
            spec_clockwise(v.bottom_corners[0]),
            spec_counter_clockwise(v.top_corners[0]),
            v.top_corners[2],
            v.top_corners[3],
        ],
    }
}

/// Turning the back face clockwise cycles one edge and one corner through
/// each of the three layers on the back, flipping edges and reorienting
/// corners that change ring.
pub open spec fn spec_rotate_back_clockwise(v: CubeView) -> CubeView {
    CubeView {
        bottom_sides: seq![
            v.bottom_sides[0],
            v.bottom_sides[1],
            v.middle_sides[1],
            v.bottom_sides[3],
        ],
        middle_sides: seq![
            v.middle_sides[0],
            v.top_sides[2],
            spec_flip(v.bottom_sides[2]),
            v.middle_sides[3],
        ],
        top_sides: seq![
            v.top_sides[0],
            v.top_sides[1],
            spec_flip(v.middle_sides[2]),
            v.top_sides[3],
        ],
        bottom_corners: seq![
            v.bottom_corners[0],
            v.bottom_corners[1],
            spec_clockwise(v.bottom_corners[3]),
            spec_counter_clockwise(v.top_corners[1]),
        ],
        top_corners: seq![
            v.top_corners[0],
            spec_clockwise(v.top_corners[2]),
            spec_counter_clockwise(v.bottom_corners[2]),
            v.top_corners[3],
        ],
    }
}

/// Turning the back face counter-clockwise; the inverse of
/// `spec_rotate_back_clockwise`.
pub open spec fn spec_rotate_back_counter_clockwise(v: CubeView) -> CubeView {
    CubeView {
        bottom_sides: seq![
            v.bottom_sides[0],
            v.bottom_sides[1],
            spec_flip(v.middle_sides[2]),
            v.bottom_sides[3],
        ],
        middle_sides: seq![
            v.middle_sides[0],
            v.bottom_sides[2],
            spec_flip(v.top_sides[2]),
            v.middle_sides[3],
        ],
        top_sides: seq![v.top_sides[0], v.top_sides[1], v.middle_sides[1], v.top_sides[3]],
        bottom_corners: seq![
            v.bottom_corners[0],
            v.bottom_corners[1],
            spec_clockwise(v.top_corners[2]),
            spec_counter_clockwise(v.bottom_corners[2]),
        ],
        top_corners: seq![
            v.top_corners[0],
            spec_clockwise(v.bottom_corners[3]),
            spec_counter_clockwise(v.top_corners[1]),
            v.top_corners[3],
        ],
    }
}

/// The rotation selected by a move number in `0..12`: each face's clockwise
/// turn on an even number, its counter-clockwise turn on the next odd one.
pub open spec fn spec_move(v: CubeView, i: int) -> CubeView {
    if i == 0 {
        spec_rotate_front_clockwise(v)
    } else if i == 1 {
        spec_rotate_front_counter_clockwise(v)
    } else if i == 2 {
        spec_rotate_right_clockwise(v)
    } else if i == 3 {
        spec_rotate_right_counter_clockwise(v)
    } else if i == 4 {
        spec_rotate_top_clockwise(v)
    } else if i == 5 {
        spec_rotate_top_counter_clockwise(v)
    } else if i == 6 {
        spec_rotate_left_clockwise(v)
    } else if i == 7 {
        spec_rotate_left_counter_clockwise(v)
    } else if i == 8 {
        spec_rotate_bottom_clockwise(v)
    } else if i == 9 {
        spec_rotate_bottom_counter_clockwise(v)
    } else if i == 10 {
        spec_rotate_back_clockwise(v)
    } else if i == 11 {
        spec_rotate_back_counter_clockwise(v)
    } else {
        v
    }
}

/// Every entry of the sequence is a move number.
pub open spec fn spec_valid_moves(s: Seq<int>) -> bool {
    forall|j: int| 0 <= j < s.len() ==> 0 <= #[trigger] s[j] < 12
}

/// The state after performing the listed moves in order.
pub open spec fn spec_apply_moves(v: CubeView, s: Seq<int>) -> CubeView
    decreases s.len(),
{
    if s.len() == 0 {
        v
    } else {
        spec_move(spec_apply_moves(v, s.subrange(0, s.len() - 1)), s[s.len() - 1])
    }
}

/// The facelets of an edge piece, as a multiset of colors.
#[verifier::opaque]
pub open spec fn side_facelets(s: Side) -> Multiset<Color> {
    Multiset::empty().insert(s.first).insert(s.second)
}

/// The facelets of a corner piece, as a multiset of colors.
#[verifier::opaque]
pub open spec fn corner_facelets(c: Corner) -> Multiset<Color> {
    Multiset::empty().insert(c.first).insert(c.second).insert(c.third)
}

/// All 48 stored facelets of the cube, as a multiset of colors: two for each
/// of the 12 edge pieces and three for each of the 8 corner pieces. Face
/// centers are fixed by the layout and are not stored.
pub open spec fn spec_facelets(v: CubeView) -> Multiset<Color> {
    side_facelets(v.bottom_sides[0]).add(side_facelets(v.bottom_sides[1])).add(
        side_facelets(v.bottom_sides[2]),
    ).add(side_facelets(v.bottom_sides[3])).add(side_facelets(v.middle_sides[0])).add(
        side_facelets(v.middle_sides[1]),
    ).add(side_facelets(v.middle_sides[2])).add(side_facelets(v.middle_sides[3])).add(
        side_facelets(v.top_sides[0]),
    ).add(side_facelets(v.top_sides[1])).add(side_facelets(v.top_sides[2])).add(
        side_facelets(v.top_sides[3]),
    ).add(corner_facelets(v.bottom_corners[0])).add(corner_facelets(v.bottom_corners[1])).add(
        corner_facelets(v.bottom_corners[2]),
    ).add(corner_facelets(v.bottom_corners[3])).add(corner_facelets(v.top_corners[0])).add(
        corner_facelets(v.top_corners[1]),
    ).add(corner_facelets(v.top_corners[2])).add(corner_facelets(v.top_corners[3]))
}

/// Relies on `rand::rng` and `rand::RngExt::random_range`: a sample of the
/// range `lo..hi` lies in that range. The call panics only when the range
/// is empty, which the precondition rules out, or when the operating system
/// cannot seed the thread-local generator.
#[verifier::external_body]
fn random_in_range(lo: i32, hi: i32) -> (r: i32)
    requires
        lo < hi,
    ensures
        lo <= r < hi,
{
    rand::RngExt::random_range(&mut rand::rng(), lo..hi)
}

impl Cube {
    /// Builds the solved cube.
    pub fn new() -> (c: Cube)
        ensures
            c@ == spec_solved(),
    {
        let c = Cube {
            bottom_sides: [
                Side::new(Color::Orange, Color::White),
                Side::new(Color::Orange, Color::Green),
                Side::new(Color::Orange, Color::Yellow),
                Side::new(Color::Orange, Color::Blue),
            ],
            bottom_corners: [
                Corner::new(Color::Orange, Color::Blue, Color::White),
                Corner::new(Color::Orange, Color::White, Color::Green),
                Corner::new(Color::Orange, Color::Green, Color::Yellow),
                Corner::new(Color::Orange, Color::Yellow, Color::Blue),
            ],
            middle_sides: [
                Side::new(Color::White, Color::Blue),
                Side::new(Color::Blue, Color::Yellow),
                Side::new(Color::Yellow, Color::Green),
                Side::new(Color::Green, Color::White),
            ],
            top_sides: [
                Side::new(Color::Red, Color::White),
                Side::new(Color::Red, Color::Blue),
                Side::new(Color::Red, Color::Yellow),
                Side::new(Color::Red, Color::Green),
            ],
            top_corners: [
                Corner::new(Color::Red, Color::White, Color::Blue),
                Corner::new(Color::Red, Color::Blue, Color::Yellow),
                Corner::new(Color::Red, Color::Yellow, Color::Green),
                Corner::new(Color::Red, Color::Green, Color::White),
            ],
        };
        proof {
            assert(c@ =~= spec_solved());
        }
        c
    }

    /// Turns the top face a quarter turn clockwise (seen from above).
    pub fn rotate_top_clockwise(&mut self)
        ensures
            final(self)@ == spec_rotate_top_clockwise(old(self)@),
    {
        let ts = self.top_sides;
        self.top_sides = [ts[3], ts[0], ts[1], ts[2]];
        let tc = self.top_corners;
        self.top_corners = [tc[3], tc[0], tc[1], tc[2]];
        proof {
            assert(self@ =~= spec_rotate_top_clockwise(old(self)@));
        }
    }

    /// Turns the top face a quarter turn counter-clockwise (seen from
    /// above).
    pub fn rotate_top_counter_clockwise(&mut self)
        ensures
            final(self)@ == spec_rotate_top_counter_clockwise(old(self)@),
    {
        let ts = self.top_sides;
        self.top_sides = [ts[1], ts[2], ts[3], ts[0]];
        let tc = self.top_corners;
        self.top_corners = [tc[1], tc[2], tc[3], tc[0]];
        proof {
            assert(self@ =~= spec_rotate_top_counter_clockwise(old(self)@));
        }
    }

    /// Turns the bottom face a quarter turn clockwise (seen from below).
    pub fn rotate_bottom_clockwise(&mut self)
        ensures
            final(self)@ == spec_rotate_bottom_clockwise(old(self)@),
    {
        let bs = self.bottom_sides;
        self.bottom_sides = [bs[3], bs[0], bs[1], bs[2]];
        let bc = self.bottom_corners;
        self.bottom_corners = [bc[3], bc[0], bc[1], bc[2]];
        proof {
            assert(self@ =~= spec_rotate_bottom_clockwise(old(self)@));
        }
    }

    /// Turns the bottom face a quarter turn counter-clockwise (seen from
    /// below).
    pub fn rotate_bottom_counter_clockwise(&mut self)
        ensures
            final(self)@ == spec_rotate_bottom_counter_clockwise(old(self)@),
    {
        let bs = self.bottom_sides;
        self.bottom_sides = [bs[1], bs[2], bs[3], bs[0]];
        let bc = self.bottom_corners;
        self.bottom_corners = [bc[1], bc[2], bc[3], bc[0]];
        proof {
            assert(self@ =~= spec_rotate_bottom_counter_clockwise(old(self)@));
        }
    }

    /// Turns the right face a quarter turn clockwise.
    pub fn rotate_right_clockwise(&mut self)
        ensures
            final(self)@ == spec_rotate_right_clockwise(old(self)@),
    {
        let bs = self.bottom_sides;
        let ms = self.middle_sides;
        let ts = self.top_sides;
        let bc = self.bottom_corners;
        let tc = self.top_corners;
        let mut nm3 = bs[1];
        nm3.flip();
        let mut nt3 = ms[3];
        nt3.flip();
        self.bottom_sides = [bs[0], ms[2], bs[2], bs[3]];
        self.middle_sides = [ms[0], ms[1], ts[3], nm3];
        self.top_sides = [ts[0], ts[1], ts[2], nt3];
        let mut nbc1 = bc[2];
        nbc1.clockwise();
        let mut nbc2 = tc[2];
        nbc2.counter_clockwise();
        let mut ntc2 = tc[3];
        ntc2.clockwise();
        let mut ntc3 = bc[1];
        ntc3.counter_clockwise();
        self.bottom_corners = [bc[0], nbc1, nbc2, bc[3]];
        self.top_corners = [tc[0], tc[1], ntc2, ntc3];
        proof {
            assert(self@ =~= spec_rotate_right_clockwise(old(self)@));
        }
    }

    /// Turns the right face a quarter turn counter-clockwise.
    pub fn rotate_right_counter_clockwise(&mut self)
        ensures
            final(self)@ == spec_rotate_right_counter_clockwise(old(self)@),
    {
        let bs = self.bottom_sides;
        let ms = self.middle_sides;
        let ts = self.top_sides;
        let bc = self.bottom_corners;
        let tc = self.top_corners;
        let mut nb1 = ms[3];
        nb1.flip();
        let mut nm3 = ts[3];
        nm3.flip();
        self.bottom_sides = [bs[0], nb1, bs[2], bs[3]];
        self.middle_sides = [ms[0], ms[1], bs[1], nm3];
        self.top_sides = [ts[0], ts[1], ts[2], ms[2]];
        let mut nbc1 = tc[3];
        nbc1.clockwise();
        let mut nbc2 = bc[1];
        nbc2.counter_clockwise();
        let mut ntc2 = bc[2];
        ntc2.clockwise();
        let mut ntc3 = tc[2];
        ntc3.counter_clockwise();
        self.bottom_corners = [bc[0], nbc1, nbc2, bc[3]];
        self.top_corners = [tc[0], tc[1], ntc2, ntc3];
        proof {
            assert(self@ =~= spec_rotate_right_counter_clockwise(old(self)@));
        }
    }

    /// Turns the front face a quarter turn clockwise.
    pub fn rotate_front_clockwise(&mut self)
        ensures
            final(self)@ == spec_rotate_front_clockwise(old(self)@),
    {
        let bs = self.bottom_sides;
        let ms = self.middle_sides;
        let ts = self.top_sides;
        let bc = self.bottom_corners;
        let tc = self.top_corners;
        let mut nm0 = bs[0];
        nm0.flip();
        let mut nt0 = ms[0];
        nt0.flip();
        self.bottom_sides = [ms[3], bs[1], bs[2], bs[3]];
        self.middle_sides = [nm0, ms[1], ms[2], ts[0]];
        self.top_sides = [nt0, ts[1], ts[2], ts[3]];
        let mut nbc0 = bc[1];
        nbc0.clockwise();
        let mut nbc1 = tc[3];
        nbc1.counter_clockwise();
        let mut ntc0 = bc[0];
        ntc0.counter_clockwise();
        let mut ntc3 = tc[0];
        ntc3.clockwise();
        self.bottom_corners = [nbc0, nbc1, bc[2], bc[3]];
        self.top_corners = [ntc0, tc[1], tc[2], ntc3];
        proof {
            assert(self@ =~= spec_rotate_front_clockwise(old(self)@));
        }
    }

    /// Turns the front face a quarter turn counter-clockwise.
    pub fn rotate_front_counter_clockwise(&mut self)
        ensures
            final(self)@ == spec_rotate_front_counter_clockwise(old(self)@),
    {
        let bs = self.bottom_sides;
        let ms = self.middle_sides;
        let ts = self.top_sides;
        let bc = self.bottom_corners;
        let tc = self.top_corners;
        let mut nb0 = ms[0];
        nb0.flip();
        let mut nm0 = ts[0];
        nm0.flip();
        self.bottom_sides = [nb0, bs[1], bs[2], bs[3]];
        self.middle_sides = [nm0, ms[1], ms[2], bs[0]];
        self.top_sides = [ms[3], ts[1], ts[2], ts[3]];
        let mut nbc0 = tc[0];
        nbc0.clockwise();
        let mut nbc1 = bc[0];
        nbc1.counter_clockwise();
        let mut ntc0 = tc[3];
        ntc0.counter_clockwise();
        let mut ntc3 = bc[1];
        ntc3.clockwise();
        self.bottom_corners = [nbc0, nbc1, bc[2], bc[3]];
        self.top_corners = [ntc0, tc[1], tc[2], ntc3];
        proof {
            assert(self@ =~= spec_rotate_front_counter_clockwise(old(self)@));
        }
    }

    /// Turns the left face a quarter turn clockwise.
    pub fn rotate_left_clockwise(&mut self)
        ensures
            final(self)@ == spec_rotate_left_clockwise(old(self)@),
    {
        let bs = self.bottom_sides;
        let ms = self.middle_sides;
        let ts = self.top_sides;
        let bc = self.bottom_corners;
        let tc = self.top_corners;
        let mut nm1 = bs[3];
        nm1.flip();
        let mut nt1 = ms[1];
        nt1.flip();
        self.bottom_sides = [bs[0], bs[1], bs[2], ms[0]];
        self.middle_sides = [ts[1], nm1, ms[2], ms[3]];
        self.top_sides = [ts[0], nt1, ts[2], ts[3]];
        let mut nbc0 = tc[0];
        nbc0.counter_clockwise();
        let mut nbc3 = bc[0];
        nbc3.clockwise();
        let mut ntc0 = tc[1];
        ntc0.clockwise();
        let mut ntc1 = bc[3];
        ntc1.counter_clockwise();
        self.bottom_corners = [nbc0, bc[1], bc[2], nbc3];
        self.top_corners = [ntc0, ntc1, tc[2], tc[3]];
        proof {
            assert(self@ =~= spec_rotate_left_clockwise(old(self)@));
        }
    }

    /// Turns the left face a quarter turn counter-clockwise.
    pub fn rotate_left_counter_clockwise(&mut self)
        ensures
            final(self)@ == spec_rotate_left_counter_clockwise(old(self)@),
    {
        let bs = self.bottom_sides;
        let ms = self.middle_sides;
        let ts = self.top_sides;
        let bc = self.bottom_corners;
        let tc = self.top_corners;
        let mut nb3 = ms[1];
        nb3.flip();
        let mut nm1 = ts[1];
        nm1.flip();
        self.bottom_sides = [bs[0], bs[1], bs[2], nb3];
        self.middle_sides = [bs[3], nm1, ms[2], ms[3]];
        self.top_sides = [ts[0], ms[0], ts[2], ts[3]];
        let mut nbc0 = bc[3];
        nbc0.counter_clockwise();
        let mut nbc3 = tc[1];
        nbc3.clockwise();
        let mut ntc0 = bc[0];
        ntc0.clockwise();
        let mut ntc1 = tc[0];
        ntc1.counter_clockwise();
        self.bottom_corners = [nbc0, bc[1], bc[2], nbc3];
        self.top_corners = [ntc0, ntc1, tc[2], tc[3]];
        proof {
            assert(self@ =~= spec_rotate_left_counter_clockwise(old(self)@));
        }
    }

    /// Turns the back face a quarter turn clockwise.
    pub fn rotate_back_clockwise(&mut self)
        ensures
            final(self)@ == spec_rotate_back_clockwise(old(self)@),
    {
        let bs = self.bottom_sides;
        let ms = self.middle_sides;
        let ts = self.top_sides;
        let bc = self.bottom_corners;
        let tc = self.top_corners;
        let mut nm2 = bs[2];
        nm2.flip();
        let mut nt2 = ms[2];
        nt2.flip();
        self.bottom_sides = [bs[0], bs[1], ms[1], bs[3]];
        self.middle_sides = [ms[0], ts[2], nm2, ms[3]];
        self.top_sides = [ts[0], ts[1], nt2, ts[3]];
        let mut nbc2 = bc[3];
        nbc2.clockwise();
        let mut nbc3 = tc[1];
        nbc3.counter_clockwise();
        let mut ntc1 = tc[2];
        ntc1.clockwise();
        let mut ntc2 = bc[2];
        ntc2.counter_clockwise();
        self.bottom_corners = [bc[0], bc[1], nbc2, nbc3];
        self.top_corners = [tc[0], ntc1, ntc2, tc[3]];
        proof {
            assert(self@ =~= spec_rotate_back_clockwise(old(self)@));
        }
    }

    /// Turns the back face a quarter turn counter-clockwise.
    pub fn rotate_back_counter_clockwise(&mut self)
        ensures
            final(self)@ == spec_rotate_back_counter_clockwise(old(self)@),
    {
        let bs = self.bottom_sides;
        let ms = self.middle_sides;
        let ts = self.top_sides;
        let bc = self.bottom_corners;
        let tc = self.top_corners;
        let mut nb2 = ms[2];
        nb2.flip();
        let mut nm2 = ts[2];
        nm2.flip();
        self.bottom_sides = [bs[0], bs[1], nb2, bs[3]];
        self.middle_sides = [ms[0], bs[2], nm2, ms[3]];
        self.top_sides = [ts[0], ts[1], ms[1], ts[3]];
        let mut nbc2 = tc[2];
        nbc2.clockwise();
        let mut nbc3 = bc[2];
        nbc3.counter_clockwise();
        let mut ntc1 = bc[3];
        ntc1.clockwise();
        let mut ntc2 = tc[1];
        ntc2.counter_clockwise();
        self.bottom_corners = [bc[0], bc[1], nbc2, nbc3];
        self.top_corners = [tc[0], ntc1, ntc2, tc[3]];
        proof {
            assert(self@ =~= spec_rotate_back_counter_clockwise(old(self)@));
        }
    }

    /// Performs the rotation selected by move number `i`.
    pub fn rotate_random_(&mut self, i: i32)
        requires
            0 <= i < 12,
        ensures
            final(self)@ == spec_move(old(self)@, i as int),
    {
        if i == 0 {
            self.rotate_front_clockwise()
        } else if i == 1 {
            self.rotate_front_counter_clockwise()
        } else if i == 2 {
            self.rotate_right_clockwise()
        } else if i == 3 {
            self.rotate_right_counter_clockwise()
        } else if i == 4 {
            self.rotate_top_clockwise()
        } else if i == 5 {
            self.rotate_top_counter_clockwise()
        } else if i == 6 {
            self.rotate_left_clockwise()
        } else if i == 7 {
            self.rotate_left_counter_clockwise()
        } else if i == 8 {
            self.rotate_bottom_clockwise()
        } else if i == 9 {
            self.rotate_bottom_counter_clockwise()
        } else if i == 10 {
            self.rotate_back_clockwise()
        } else {
            self.rotate_back_counter_clockwise()
        }
    }

    /// Performs one of the twelve rotations, drawn at random.
    pub fn rotate_random(&mut self)
        ensures
            exists|i: int| 0 <= i < 12 && final(self)@ == spec_move(old(self)@, i),
    {
        let i = random_in_range(0, 12);
        self.rotate_random_(i);
    }

    /// Scrambles the cube with a random number of random rotations: between
    /// 15 and 20 of them, inclusive, each drawn independently. The multiset
    /// of stored facelet colors is unchanged.
    pub fn shuffle(&mut self)
        ensures
            exists|s: Seq<int>|
                #![auto]
                spec_valid_moves(s) && 15 <= s.len() <= 20 && final(self)@ == spec_apply_moves(
                    old(self)@,
                    s,
                ),
            spec_facelets(final(self)@) == spec_facelets(old(self)@),
    {
        let n = random_in_range(15, 21);
        let ghost orig = self@;
        let ghost mut moves: Seq<int> = Seq::empty();
        let mut k: i32 = 0;
        while k < n
            invariant
                0 <= k <= n,
                15 <= n < 21,
                moves.len() == k,
                spec_valid_moves(moves),
                self@ == spec_apply_moves(orig, moves),
            decreases n - k,
        {
            let i = random_in_range(0, 12);
            self.rotate_random_(i);
            proof {
                let extended = moves.push(i as int);
                assert(extended.subrange(0, extended.len() - 1) =~= moves);
                moves = extended;
            }
            k = k + 1;
        }
        proof {
            crate::laws::lemma_apply_moves_preserves_facelets(orig, moves);
        }
    }
}

} // verus!
