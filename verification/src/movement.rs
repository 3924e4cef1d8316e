//! The vocabulary of moves a driver can ask for: a face (or the middle
//! layer) together with how far to turn it.
use vstd::prelude::*;

verus! {

/// The layer a movement turns.
#[derive(Debug, PartialEq, Eq, Hash)]
pub enum Direction {
    Front,
    Back,
    Left,
    Right,
    Top,
    Bottom,
    Middle,
}

/// How far a movement turns its layer.
#[derive(Debug, PartialEq, Eq, Hash)]
pub enum Times {
    Clockwise,
    CounterClockwise,
    Double,
}

/// One requested turn: a layer and an amount.
#[derive(Debug, PartialEq, Eq, Hash)]
pub struct Movement {
    pub direction: Direction,
    pub times: Times,
}

} // verus!
