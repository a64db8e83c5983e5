//! The reasons for which the simulation refuses a request.

use vstd::prelude::*;

verus! {

/// Why a request was refused. A refusal leaves the simulation as it was.
#[derive(Clone, Copy, Debug, PartialEq, Eq, Structural)]
pub enum GameError {
    /// The coordinate lies outside the board.
    OutOfBounds,
    /// The cell already holds a tower.
    CellOccupied,
    /// The tower costs more than the balance holds.
    InsufficientFunds,
    /// No tower kind is on offer under the given number.
    UnknownKind,
}

} // verus!
