//! The turn state machine: how the game state answers the Join and Move
//! operations.
//!
//! The meaning of each operation is given once, over the mathematical model
//! ([`join_model`], [`move_model`]); the executable methods on
//! [`MazeState`] are proved to implement exactly those transitions, and to
//! leave the state untouched whenever they report an error.

use vstd::prelude::*;

use crate::board::{in_grid, is_goal, is_wall, is_wall_cell, passable, start_cell};
use crate::state::{initial_model, GameModel, MazeState};
use crate::{Direction, GameError, Operation};

verus! {

/// The id of the player that acts on the next move: the turn counter modulo
/// the player count, recomputed from the current count on every move, so a
/// late joiner enters the rotation at once.
pub open spec fn acting_player(m: GameModel) -> nat
    recommends
        m.player_count > 0,
{
    m.current_turn % m.player_count
}

/// The cell the acting player stands on.
pub open spec fn acting_position(m: GameModel) -> (u8, u8)
    recommends
        m.player_count > 0,
        m.wf(),
{
    m.positions[acting_player(m) as int]
}

/// The strict boundary rule: a step is legal only while it stays on the
/// board; an attempt past an edge is rejected, never clamped.
pub open spec fn step_allowed(dir: Direction, x: u8, y: u8) -> bool {
    match dir {
        Direction::Up => y > 0,
        Direction::Down => y < 4,
        Direction::Left => x > 0,
        Direction::Right => x < 4,
    }
}

/// The cell one step in `dir` from `(x, y)`.
pub open spec fn step_target(dir: Direction, x: u8, y: u8) -> (u8, u8)
    recommends
        step_allowed(dir, x, y),
{
    match dir {
        Direction::Up => (x, (y - 1) as u8),
        Direction::Down => (x, (y + 1) as u8),
        Direction::Left => ((x - 1) as u8, y),
        Direction::Right => ((x + 1) as u8, y),
    }
}

/// The cell the acting player's move aims at.
pub open spec fn move_target(m: GameModel, dir: Direction) -> (u8, u8)
    recommends
        m.player_count > 0,
        m.wf(),
{
    step_target(dir, acting_position(m).0, acting_position(m).1)
}

/// What Join does: rejected once the game is finished; otherwise the new
/// player gets the next id (the current player count) and starts at (0,0).
pub open spec fn join_model(m: GameModel) -> Result<GameModel, GameError> {
    if m.winner is Some {
        Err(GameError::GameFinished)
    } else {
        Ok(
            GameModel {
                player_count: m.player_count + 1,
                positions: m.positions.push(start_cell()),
                ..m
            },
        )
    }
}

/// What Move does: each precondition is checked in order and rejects the
/// whole operation; on success the acting player steps to the target cell,
/// the move counter advances, and either the game finishes on the goal cell
/// (the turn counter frozen) or the turn passes on.
pub open spec fn move_model(m: GameModel, dir: Direction) -> Result<GameModel, GameError> {
    if m.winner is Some {
        Err(GameError::GameFinished)
    } else if m.player_count == 0 {
        Err(GameError::NoPlayers)
    } else {
        let id = acting_player(m);
        let pos = acting_position(m);
        if !step_allowed(dir, pos.0, pos.1) {
            Err(GameError::OutOfBounds)
        } else {
            let target = step_target(dir, pos.0, pos.1);
            if is_wall_cell(target.0 as int, target.1 as int) {
                Err(GameError::WallCollision)
            } else if is_goal(target.0 as int, target.1 as int) {
                Ok(
                    GameModel {
                        positions: m.positions.update(id as int, target),
                        total_moves: m.total_moves + 1,
                        winner: Some(id),
                        ..m
                    },
                )
            } else {
                Ok(
                    GameModel {
                        positions: m.positions.update(id as int, target),
                        total_moves: m.total_moves + 1,
                        current_turn: m.current_turn + 1,
                        ..m
                    },
                )
            }
        }
    }
}

/// What an operation does to a game state.
pub open spec fn apply_model(m: GameModel, op: Operation) -> Result<GameModel, GameError> {
    match op {
        Operation::Join => join_model(m),
        Operation::Move(dir) => move_model(m, dir),
    }
}

impl MazeState {
    /// Joins a new player: assigns the next id and places it on (0,0).
    /// Fails, touching nothing, once the game is finished.
    pub fn join(&mut self) -> (r: Result<(), GameError>)
        requires
            old(self).player_count < u32::MAX,
        ensures
            match join_model(old(self)@) {
                Ok(m) => r is Ok && final(self)@ == m,
                Err(e) => r is Err && r->Err_0 == e && *final(self) == *old(self),
            },
            old(self).wf() ==> final(self).wf(),
    {
        if self.winner.is_some() {
            return Err(GameError::GameFinished);
        }
        let id: u32 = self.player_count;
        self.player_count = id + 1;
        self.positions.push((0, 0));
        proof {
            assert(self@ =~= join_model(old(self)@)->Ok_0);
        }
        Ok(())
    }

    /// Moves the acting player one cell in `dir`. Every precondition is
    /// checked before anything is written, so a rejected move leaves the
    /// state exactly as it was.
    pub fn move_player(&mut self, dir: Direction) -> (r: Result<(), GameError>)
        requires
            old(self).wf(),
            old(self).total_moves < u32::MAX,
            old(self).current_turn < u32::MAX,
        ensures
            match move_model(old(self)@, dir) {
                Ok(m) => r is Ok && final(self)@ == m,
                Err(e) => r is Err && r->Err_0 == e && *final(self) == *old(self),
            },
            final(self).wf(),
    {
        if self.winner.is_some() {
            return Err(GameError::GameFinished);
        }
        let players: u32 = self.player_count;
        if players == 0 {
            return Err(GameError::NoPlayers);
        }
        let current: u32 = self.current_turn % players;
        let idx: usize = current as usize;
        let (x, y): (u8, u8) = self.positions[idx];

        let legal: bool = match dir {
            Direction::Up => y > 0,
            Direction::Down => y < 4,
            Direction::Left => x > 0,
            Direction::Right => x < 4,
        };
        if !legal {
            return Err(GameError::OutOfBounds);
        }
        let (nx, ny): (u8, u8) = match dir {
            Direction::Up => (x, y - 1),
            Direction::Down => (x, y + 1),
            Direction::Left => (x - 1, y),
            Direction::Right => (x + 1, y),
        };

        if is_wall(nx, ny) {
            return Err(GameError::WallCollision);
        }

        self.positions[idx] = (nx, ny);
        self.total_moves = self.total_moves + 1;
        if nx == 4 && ny == 4 {
            self.winner = Some(current);
        } else {
            self.current_turn = self.current_turn + 1;
        }
        proof {
            assert(self@ =~= move_model(old(self)@, dir)->Ok_0);
        }
        Ok(())
    }

    /// Applies one submitted operation: the single entry point a dispatcher
    /// calls, once per delivered operation, in delivery order.
    pub fn execute_operation(&mut self, operation: Operation) -> (r: Result<(), GameError>)
        requires
            old(self).wf(),
            old(self).player_count < u32::MAX,
            old(self).total_moves < u32::MAX,
            old(self).current_turn < u32::MAX,
        ensures
            match apply_model(old(self)@, operation) {
                Ok(m) => r is Ok && final(self)@ == m,
                Err(e) => r is Err && r->Err_0 == e && *final(self) == *old(self),
            },
            final(self).wf(),
    {
        match operation {
            Operation::Join => self.join(),
            Operation::Move(dir) => self.move_player(dir),
        }
    }
}

/// The cell adjacent to `(x, y)` in direction `dir`, over unbounded
/// coordinates, so that it can name a neighbour that lies off the board.
pub open spec fn neighbor_cell(dir: Direction, x: int, y: int) -> (int, int) {
    match dir {
        Direction::Up => (x, y - 1),
        Direction::Down => (x, y + 1),
        Direction::Left => (x - 1, y),
        Direction::Right => (x + 1, y),
    }
}

/// From any cell on the board, a step is allowed exactly when the
/// neighbouring cell in that direction is still on the board, and the step
/// lands on that neighbour: an edge with no in-board neighbour admits no
/// step in its direction.
pub proof fn lemma_step_allowed_is_in_grid_neighbor(dir: Direction, x: u8, y: u8)
    requires
        in_grid(x as int, y as int),
    ensures
        step_allowed(dir, x, y) <==> in_grid(
            neighbor_cell(dir, x as int, y as int).0,
            neighbor_cell(dir, x as int, y as int).1,
        ),
        step_allowed(dir, x, y) ==> (
            step_target(dir, x, y).0 as int,
            step_target(dir, x, y).1 as int,
        ) == neighbor_cell(dir, x as int, y as int),
{
}

/// The state after `n` players joined a fresh game, nobody having moved.
pub open spec fn after_joins(n: nat) -> GameModel
    decreases n,
{
    if n == 0 {
        initial_model()
    } else {
        join_model(after_joins((n - 1) as nat))->Ok_0
    }
}

/// Joins before any move all succeed and assign the ids `0..n-1` exactly in
/// call order — the id handed out by the `n`-th join (counting from 1) is
/// `n - 1` — and every joined player stands on the start cell (0,0).
pub proof fn lemma_sequential_joins(n: nat)
    ensures
        after_joins(n).wf(),
        after_joins(n).winner is None,
        after_joins(n).player_count == n,
        after_joins(n).positions.len() == n,
        forall|i: int| 0 <= i < n ==> after_joins(n).positions[i] == start_cell(),
        join_model(after_joins(n)) is Ok,
        join_model(after_joins(n))->Ok_0.player_count == n + 1,
        join_model(after_joins(n))->Ok_0.positions[n as int] == start_cell(),
        after_joins(n).current_turn == 0,
        after_joins(n).total_moves == 0,
    decreases n,
{
    if n > 0 {
        lemma_sequential_joins((n - 1) as nat);
        assert(after_joins(n).positions =~= after_joins((n - 1) as nat).positions.push(
            start_cell(),
        ));
    }
}

/// Once a winner is set the game is terminal: every later operation, Join or
/// Move alike, fails with GameFinished, and so (with the no-mutation-on-error
/// contracts of the executable operations) the state never changes again.
pub proof fn lemma_finished_is_absorbing(m: GameModel, op: Operation)
    requires
        m.winner is Some,
    ensures
        apply_model(m, op) == Err::<GameModel, GameError>(GameError::GameFinished),
{
}

/// Both operations preserve well-formedness: applied to a well-formed state,
/// a successful Join or Move yields a well-formed state again.
pub proof fn lemma_operations_preserve_wf(m: GameModel, op: Operation)
    requires
        m.wf(),
    ensures
        apply_model(m, op) is Ok ==> apply_model(m, op)->Ok_0.wf(),
{
    if apply_model(m, op) is Ok {
        let m2 = apply_model(m, op)->Ok_0;
        assert forall|i: int| 0 <= i < m2.positions.len() implies passable(
            (#[trigger] m2.positions[i]).0 as int,
            m2.positions[i].1 as int,
        ) by {
            if 0 <= i < m.positions.len() {
                assert(passable(m.positions[i].0 as int, m.positions[i].1 as int));
            }
        }
    }
}

/// The complete outcome table of a Move on a well-formed state: which error
/// comes on which states (each an if-and-only-if), and what a success does
/// to each field — the move counter always advances by one; a move that does
/// not reach the goal passes the turn on and crowns nobody; the move that
/// reaches the goal crowns the acting player and freezes the turn counter.
pub proof fn lemma_move_outcomes(m: GameModel, dir: Direction)
    requires
        m.wf(),
    ensures
        move_model(m, dir) == Err::<GameModel, GameError>(GameError::GameFinished) <==> m.winner
            is Some,
        move_model(m, dir) == Err::<GameModel, GameError>(GameError::NoPlayers) <==> (m.winner
            is None && m.player_count == 0),
        move_model(m, dir) == Err::<GameModel, GameError>(GameError::OutOfBounds) <==> (m.winner
            is None && m.player_count > 0 && !step_allowed(
            dir,
            acting_position(m).0,
            acting_position(m).1,
        )),
        move_model(m, dir) == Err::<GameModel, GameError>(GameError::WallCollision) <==> (m.winner
            is None && m.player_count > 0 && step_allowed(
            dir,
            acting_position(m).0,
            acting_position(m).1,
        ) && is_wall_cell(move_target(m, dir).0 as int, move_target(m, dir).1 as int)),
        move_model(m, dir) is Ok <==> (m.winner is None && m.player_count > 0 && step_allowed(
            dir,
            acting_position(m).0,
            acting_position(m).1,
        ) && !is_wall_cell(move_target(m, dir).0 as int, move_target(m, dir).1 as int)),
        move_model(m, dir) is Ok ==> {
            let m2 = move_model(m, dir)->Ok_0;
            &&& m2.total_moves == m.total_moves + 1
            &&& m2.player_count == m.player_count
            &&& m2.positions == m.positions.update(acting_player(m) as int, move_target(m, dir))
            &&& (!is_goal(move_target(m, dir).0 as int, move_target(m, dir).1 as int) ==> m2.winner
                is None && m2.current_turn == m.current_turn + 1)
            &&& (is_goal(move_target(m, dir).0 as int, move_target(m, dir).1 as int) ==> m2.winner
                == Some(acting_player(m)) && m2.current_turn == m.current_turn)
        },
{
}

} // verus!
