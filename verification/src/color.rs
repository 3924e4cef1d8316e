//! The six facelet colors and their one-letter textual forms.
use vstd::prelude::*;

verus! {

/// A facelet color. The solved orientation fixes Red as the top face
/// center, White as the front, Orange as the bottom, with Blue, Green and
/// Yellow on the remaining faces.
#[derive(Clone, Copy, PartialEq, Eq, Structural, Debug)]
pub enum Color {
    Red,
    Blue,
    White,
    Green,
    Yellow,
    Orange,
}

/// The canonical one-letter form of a color.
pub open spec fn spec_letter(c: Color) -> Seq<char> {
    match c {
        Color::Red => "R"@,
        Color::Blue => "B"@,
        Color::White => "W"@,
        Color::Green => "G"@,
        Color::Yellow => "Y"@,
        Color::Orange => "O"@,
    }
}

impl Color {
    /// The canonical one-letter form: `R`, `B`, `W`, `G`, `Y` or `O`.
    pub fn letter(self) -> (r: &'static str)
        ensures
            r@ == spec_letter(self),
    {
        match self {
            Color::Red => "R",
            Color::Blue => "B",
            Color::White => "W",
            Color::Green => "G",
            Color::Yellow => "Y",
            Color::Orange => "O",
        }
    }
}

} // verus!
