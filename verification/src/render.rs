//! The textual rendering of a cube: an unfolded layout with the top face
//! above, the four side faces in a horizontal band, and the bottom face
//! below, each facelet shown as its color's letter.
use vstd::prelude::*;
use vstd::string::StringExecFns;

use crate::color::Color;
use crate::color::spec_letter;
use crate::cube::Cube;
use crate::cube::CubeView;

verus! {

/// Three facelet letters separated by single spaces.
pub open spec fn spec_trio(a: Color, b: Color, c: Color) -> Seq<char> {
    spec_letter(a) + " "@ + spec_letter(b) + " "@ + spec_letter(c)
}

/// One three-facelet row of a face grid: a ten-space indent and a trio of
/// letters.
pub open spec fn spec_face_row(a: Color, b: Color, c: Color) -> Seq<char> {
    "          "@ + spec_trio(a, b, c)
}

/// One row of the horizontal band of side faces: a single letter at each
/// end and three three-letter face rows between, separated by double
/// spaces.
pub open spec fn spec_band_row(
    l: Color,
    a1: Color,
    a2: Color,
    a3: Color,
    b1: Color,
    b2: Color,
    b3: Color,
    c1: Color,
    c2: Color,
    c3: Color,
    r: Color,
) -> Seq<char> {
    spec_letter(l) + "  "@ + spec_trio(a1, a2, a3) + "  "@ + spec_trio(b1, b2, b3) + "  "@
        + spec_trio(c1, c2, c3) + "  "@ + spec_letter(r)
}

/// The full unfolded layout. Each of the twenty pieces contributes its
/// stored colors at fixed cells; the face centers are the fixed colors of
/// the layout.
pub open spec fn spec_render(v: CubeView) -> Seq<char> {
    spec_face_row(v.top_corners[1].third, v.top_sides[2].second, v.top_corners[2].second) + "\n\n"@
        + spec_face_row(v.top_corners[1].first, v.top_sides[2].first, v.top_corners[2].first)
        + "\n"@ + spec_face_row(v.top_sides[1].first, Color::Red, v.top_sides[3].first) + "\n"@
        + spec_face_row(v.top_corners[0].first, v.top_sides[0].first, v.top_corners[3].first)
        + "\n\n"@ + spec_band_row(
        v.top_corners[1].third,
        v.top_corners[1].second,
        v.top_sides[1].second,
        v.top_corners[0].third,
        v.top_corners[0].second,
        v.top_sides[0].second,
        v.top_corners[3].third,
        v.top_corners[3].second,
        v.top_sides[3].second,
        v.top_corners[2].third,
        v.top_corners[2].second,
    ) + "\n"@ + spec_band_row(
        v.middle_sides[1].second,
        v.middle_sides[1].first,
        Color::Blue,
        v.middle_sides[0].second,
        v.middle_sides[0].first,
        Color::White,
        v.middle_sides[3].second,
        v.middle_sides[3].first,
        Color::Green,
        v.middle_sides[2].second,
        v.middle_sides[2].first,
    ) + "\n"@ + spec_band_row(
        v.bottom_corners[3].second,
        v.bottom_corners[3].third,
        v.bottom_sides[3].second,
        v.bottom_corners[0].second,
        v.bottom_corners[0].third,
        v.bottom_sides[0].second,
        v.bottom_corners[1].second,
        v.bottom_corners[1].third,
        v.bottom_sides[1].second,
        v.bottom_corners[2].second,
        v.bottom_corners[2].third,
    ) + "\n\n"@ + spec_face_row(
        v.bottom_corners[0].first,
        v.bottom_sides[0].first,
        v.bottom_corners[1].first,
    ) + "\n"@ + spec_face_row(v.bottom_sides[3].first, Color::Orange, v.bottom_sides[1].first)
        + "\n"@ + spec_face_row(
        v.bottom_corners[3].first,
        v.bottom_sides[2].first,
        v.bottom_corners[2].first,
    ) + "\n\n"@ + spec_face_row(
        v.bottom_corners[3].second,
        v.bottom_sides[2].second,
        v.bottom_corners[2].third,
    )
}

/// Appends one letter.
fn push_letter(out: &mut String, c: Color)
    ensures
        final(out)@ == old(out)@ + spec_letter(c),
{
    out.append(c.letter());
}

/// Appends a trio of letters.
fn push_trio(out: &mut String, a: Color, b: Color, c: Color)
    ensures
        final(out)@ == old(out)@ + spec_trio(a, b, c),
{
    push_letter(out, a);
    out.append(" ");
    push_letter(out, b);
    out.append(" ");
    push_letter(out, c);
    proof {
        assert(out@ =~= old(out)@ + spec_trio(a, b, c));
    }
}

/// Appends one face row.
fn push_face_row(out: &mut String, a: Color, b: Color, c: Color)
    ensures
        final(out)@ == old(out)@ + spec_face_row(a, b, c),
{
    out.append("          ");
    push_trio(out, a, b, c);
    proof {
        assert(out@ =~= old(out)@ + spec_face_row(a, b, c));
    }
}

/// Appends one band row.
#[verifier::rlimit(100)]
fn push_band_row(
    out: &mut String,
    l: Color,
    a1: Color,
    a2: Color,
    a3: Color,
    b1: Color,
    b2: Color,
    b3: Color,
    c1: Color,
    c2: Color,
    c3: Color,
    r: Color,
)
    ensures
        final(out)@ == old(out)@ + spec_band_row(l, a1, a2, a3, b1, b2, b3, c1, c2, c3, r),
{
    push_letter(out, l);
    out.append("  ");
    push_trio(out, a1, a2, a3);
    out.append("  ");
    push_trio(out, b1, b2, b3);
    out.append("  ");
    push_trio(out, c1, c2, c3);
    out.append("  ");
    push_letter(out, r);
    proof {
        assert(out@ =~= old(out)@ + spec_band_row(l, a1, a2, a3, b1, b2, b3, c1, c2, c3, r));
    }
}

impl Cube {
    /// Renders the current state as the fixed unfolded layout, without a
    /// trailing newline.
    pub fn render(&self) -> (r: String)
        ensures
            r@ == spec_render(self@),
    {
        let mut out = String::new();
        push_face_row(
            &mut out,
            self.top_corners[1].third,
            self.top_sides[2].second,
            self.top_corners[2].second,
        );
        out.append("\n\n");
        push_face_row(
            &mut out,
            self.top_corners[1].first,
            self.top_sides[2].first,
            self.top_corners[2].first,
        );
        out.append("\n");
        push_face_row(&mut out, self.top_sides[1].first, Color::Red, self.top_sides[3].first);
        out.append("\n");
        push_face_row(
            &mut out,
            self.top_corners[0].first,
            self.top_sides[0].first,
            self.top_corners[3].first,
        );
        out.append("\n\n");
        push_band_row(
            &mut out,
            self.top_corners[1].third,
            self.top_corners[1].second,
            self.top_sides[1].second,
            self.top_corners[0].third,
            self.top_corners[0].second,
            self.top_sides[0].second,
            self.top_corners[3].third,
            self.top_corners[3].second,
            self.top_sides[3].second,
            self.top_corners[2].third,
            self.top_corners[2].second,
        );
        out.append("\n");
        push_band_row(
            &mut out,
            self.middle_sides[1].second,
            self.middle_sides[1].first,
            Color::Blue,
            self.middle_sides[0].second,
            self.middle_sides[0].first,
            Color::White,
            self.middle_sides[3].second,
            self.middle_sides[3].first,
            Color::Green,
            self.middle_sides[2].second,
            self.middle_sides[2].first,
        );
        out.append("\n");
        push_band_row(
            &mut out,
            self.bottom_corners[3].second,
            self.bottom_corners[3].third,
            self.bottom_sides[3].second,
            self.bottom_corners[0].second,
            self.bottom_corners[0].third,
            self.bottom_sides[0].second,
            self.bottom_corners[1].second,
            self.bottom_corners[1].third,
            self.bottom_sides[1].second,
            self.bottom_corners[2].second,
            self.bottom_corners[2].third,
        );
        out.append("\n\n");
        push_face_row(
            &mut out,
            self.bottom_corners[0].first,
            self.bottom_sides[0].first,
            self.bottom_corners[1].first,
        );
        out.append("\n");
        push_face_row(
            &mut out,
            self.bottom_sides[3].first,
            Color::Orange,
            self.bottom_sides[1].first,
        );
        out.append("\n");
        push_face_row(
            &mut out,
            self.bottom_corners[3].first,
            self.bottom_sides[2].first,
            self.bottom_corners[2].first,
        );
        out.append("\n\n");
        push_face_row(
            &mut out,
            self.bottom_corners[3].second,
            self.bottom_sides[2].second,
            self.bottom_corners[2].third,
        );
        proof {
            assert(out@ =~= spec_render(self@));
        }
        out
    }
}

} // verus!
