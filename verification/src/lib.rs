//! A deterministic, turn-based maze game.
//!
//! The library is a pure state-transition core: a durable [`state::MazeState`]
//! record answers two operations, joining the game and moving the acting
//! player across a fixed 5x5 board. Every operation either applies completely
//! or fails with a tagged [`GameError`] and changes nothing, so independent
//! executors that apply the same operation log converge on the same state.

pub mod board;
pub mod game;
pub mod state;

use vstd::prelude::*;

verus! {

/// An operation submitted to the game: join as a new player, or move the
/// acting player one cell in a direction.
#[derive(Clone, Copy, Debug, PartialEq, Eq, Structural)]
pub enum Operation {
    Join,
    Move(Direction),
}

/// One of the four movement directions on the board.
#[derive(Clone, Copy, Debug, PartialEq, Eq, Structural)]
pub enum Direction {
    Up,
    Down,
    Left,
    Right,
}

/// Marker type naming this game's external interface: its operation set is
/// [`Operation`] and a successful operation carries no response payload.
pub struct MazeAbi;

/// The reasons an operation is rejected. Every rejection is a whole-operation
/// abort: the game state is left exactly as it was.
#[derive(Clone, Copy, Debug, PartialEq, Eq, Structural)]
pub enum GameError {
    /// Any operation attempted after a winner has been declared.
    GameFinished,
    /// A move attempted while nobody has joined.
    NoPlayers,
    /// A move that would step off the 5x5 board.
    OutOfBounds,
    /// A move whose destination is an impassable cell.
    WallCollision,
}

} // verus!
