//! Local button input: the four directions and one completed press with its
//! measured duration.

use vstd::prelude::*;

verus! {

/// Which button a completed press came from.
#[derive(Clone, Copy, PartialEq, Eq, Structural, Debug)]
pub enum Direction {
    Up,
    Down,
    Left,
    Right,
}

/// One completed button press: its direction and how long it was held, in
/// milliseconds.
#[derive(Clone, Copy, PartialEq, Eq, Structural, Debug)]
pub struct Input {
    pub duration_ms: u64,
    pub direction: Direction,
}

} // verus!
