//! The durable game state and its mathematical model.

use vstd::prelude::*;

use crate::board::passable;

verus! {

/// The mathematical model of a game state. Player ids are the indices of
/// `positions`: the player that joined `i`-th (counting from 0) has id `i`
/// and stands on `positions[i]`.
#[verifier::ext_equal]
pub struct GameModel {
    /// How many players have joined; the exclusive upper bound on valid ids.
    pub player_count: nat,
    /// Position of each player, indexed by id.
    pub positions: Seq<(u8, u8)>,
    /// The turn counter; the acting player is `current_turn % player_count`.
    pub current_turn: nat,
    /// How many moves have been applied successfully.
    pub total_moves: nat,
    /// The winning player's id, once somebody has reached the goal.
    pub winner: Option<nat>,
}

/// The state a game is created in: nobody has joined, nothing has happened.
pub open spec fn initial_model() -> GameModel {
    GameModel {
        player_count: 0,
        positions: Seq::empty(),
        current_turn: 0,
        total_moves: 0,
        winner: None,
    }
}

impl GameModel {
    /// Well-formedness: one stored position per player, every stored position
    /// on a passable cell, and the winner (if any) an actual player.
    pub open spec fn wf(self) -> bool {
        &&& self.positions.len() == self.player_count
        &&& forall|i: int|
            0 <= i < self.positions.len() ==> passable(
                (#[trigger] self.positions[i]).0 as int,
                self.positions[i].1 as int,
            )
        &&& match self.winner {
            Some(id) => id < self.player_count,
            None => true,
        }
    }
}

/// The durable record of one game: player count, each player's position,
/// whose turn it is, a move counter, and the winner once there is one.
pub struct MazeState {
    /// Number of players that joined.
    pub player_count: u32,
    /// Position of player `id` at index `id`; ids are assigned contiguously
    /// from 0 in join order, so a vector indexed by id is the whole mapping.
    pub positions: Vec<(u8, u8)>,
    /// Whose turn it is: the acting player is `current_turn % player_count`.
    pub current_turn: u32,
    /// Count of successfully applied moves.
    pub total_moves: u32,
    /// The winner's id; once set, the game is terminal.
    pub winner: Option<u32>,
}

impl View for MazeState {
    type V = GameModel;

    open spec fn view(&self) -> GameModel {
        GameModel {
            player_count: self.player_count as nat,
            positions: self.positions@,
            current_turn: self.current_turn as nat,
            total_moves: self.total_moves as nat,
            winner: match self.winner {
                Some(id) => Some(id as nat),
                None => None,
            },
        }
    }
}

impl MazeState {
    /// Well-formedness of the stored record, inherited from the model.
    pub open spec fn wf(&self) -> bool {
        self@.wf()
    }

    /// Creates a fresh game in the initial state.
    pub fn new() -> (s: Self)
        ensures
            s@ == initial_model(),
            s.wf(),
    {
        let s = MazeState {
            player_count: 0,
            positions: Vec::new(),
            current_turn: 0,
            total_moves: 0,
            winner: None,
        };
        proof {
            assert(s@ =~= initial_model());
        }
        s
    }

    /// Resets this record to the initial state, as at game instantiation.
    pub fn instantiate(&mut self)
        ensures
            final(self)@ == initial_model(),
            final(self).wf(),
    {
        self.player_count = 0;
        self.positions = Vec::new();
        self.current_turn = 0;
        self.total_moves = 0;
        self.winner = None;
        proof {
            assert(self@ =~= initial_model());
        }
    }
}

} // verus!
