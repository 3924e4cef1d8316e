//! A model of a 3x3x3 twisty puzzle: six colored faces, twelve face
//! rotations, a solved-state constructor, random shuffling, and a textual
//! rendering of the current state.
pub mod color;
pub mod corner;
pub mod cube;
pub mod laws;
pub mod movement;
pub mod predicates;
pub mod render;
pub mod side;
