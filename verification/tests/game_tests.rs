use maze::board::is_wall;
use maze::state::MazeState;
use maze::{Direction, GameError, Operation};

fn fields(s: &MazeState) -> (u32, Vec<(u8, u8)>, u32, u32, Option<u32>) {
    (
        s.player_count,
        s.positions.clone(),
        s.current_turn,
        s.total_moves,
        s.winner,
    )
}

#[test]
fn new_game_is_empty() {
    let s = MazeState::new();
    assert_eq!(s.player_count, 0);
    assert_eq!(s.positions.len(), 0);
    assert_eq!(s.current_turn, 0);
    assert_eq!(s.total_moves, 0);
    assert_eq!(s.winner, None);
}

#[test]
fn joins_assign_sequential_ids_at_start_cell() {
    let mut s = MazeState::new();
    for expected_id in 0..5u32 {
        assert_eq!(s.player_count, expected_id);
        assert_eq!(s.join(), Ok(()));
        assert_eq!(s.player_count, expected_id + 1);
        assert_eq!(s.positions[expected_id as usize], (0, 0));
    }
    assert_eq!(s.positions, vec![(0, 0); 5]);
    assert_eq!(s.current_turn, 0);
    assert_eq!(s.total_moves, 0);
}

#[test]
fn move_without_players_fails_and_mutates_nothing() {
    let mut s = MazeState::new();
    let before = fields(&s);
    assert_eq!(s.move_player(Direction::Up), Err(GameError::NoPlayers));
    assert_eq!(fields(&s), before);
}

#[test]
fn moves_past_each_edge_fail_out_of_bounds() {
    // Top and left edges, straight from the start cell.
    let mut s = MazeState::new();
    s.join().unwrap();
    let before = fields(&s);
    assert_eq!(s.move_player(Direction::Up), Err(GameError::OutOfBounds));
    assert_eq!(fields(&s), before);
    assert_eq!(s.move_player(Direction::Left), Err(GameError::OutOfBounds));
    assert_eq!(fields(&s), before);

    // Right edge: walk to (4,0), then try to leave the board.
    for _ in 0..4 {
        s.move_player(Direction::Right).unwrap();
    }
    assert_eq!(s.positions[0], (4, 0));
    let before = fields(&s);
    assert_eq!(s.move_player(Direction::Right), Err(GameError::OutOfBounds));
    assert_eq!(fields(&s), before);

    // Bottom edge: walk to (4,3) then (4,4) would win, so use a fresh game
    // and walk player 0 down the left border to (0,4).
    let mut s = MazeState::new();
    s.join().unwrap();
    for _ in 0..4 {
        s.move_player(Direction::Down).unwrap();
    }
    assert_eq!(s.positions[0], (0, 4));
    let before = fields(&s);
    assert_eq!(s.move_player(Direction::Down), Err(GameError::OutOfBounds));
    assert_eq!(fields(&s), before);
}

#[test]
fn moves_into_each_wall_fail_wall_collision() {
    // (1,1) from (1,0), moving down.
    let mut s = MazeState::new();
    s.join().unwrap();
    s.move_player(Direction::Right).unwrap();
    let before = fields(&s);
    assert_eq!(s.move_player(Direction::Down), Err(GameError::WallCollision));
    assert_eq!(fields(&s), before);

    // (2,1) from (2,0), moving down.
    let mut s = MazeState::new();
    s.join().unwrap();
    s.move_player(Direction::Right).unwrap();
    s.move_player(Direction::Right).unwrap();
    let before = fields(&s);
    assert_eq!(s.move_player(Direction::Down), Err(GameError::WallCollision));
    assert_eq!(fields(&s), before);

    // (1,2) from (0,2), moving right.
    let mut s = MazeState::new();
    s.join().unwrap();
    s.move_player(Direction::Down).unwrap();
    s.move_player(Direction::Down).unwrap();
    let before = fields(&s);
    assert_eq!(
        s.move_player(Direction::Right),
        Err(GameError::WallCollision)
    );
    assert_eq!(fields(&s), before);

    // (3,3) from (3,2), moving down.
    let mut s = MazeState::new();
    s.join().unwrap();
    for _ in 0..3 {
        s.move_player(Direction::Right).unwrap();
    }
    s.move_player(Direction::Down).unwrap();
    s.move_player(Direction::Down).unwrap();
    assert_eq!(s.positions[0], (3, 2));
    let before = fields(&s);
    assert_eq!(s.move_player(Direction::Down), Err(GameError::WallCollision));
    assert_eq!(fields(&s), before);
}

#[test]
fn successful_move_advances_both_counters_by_one() {
    let mut s = MazeState::new();
    s.join().unwrap();
    assert_eq!((s.total_moves, s.current_turn), (0, 0));
    s.move_player(Direction::Right).unwrap();
    assert_eq!((s.total_moves, s.current_turn), (1, 1));
    s.move_player(Direction::Right).unwrap();
    assert_eq!((s.total_moves, s.current_turn), (2, 2));
}

#[test]
fn scenario_right_wall_then_down_wall_wins_for_player_zero() {
    let mut s = MazeState::new();
    assert_eq!(s.join(), Ok(()));
    for step in 1..=4u8 {
        assert_eq!(s.move_player(Direction::Right), Ok(()));
        assert_eq!(s.positions[0], (step, 0));
    }
    for step in 1..=4u8 {
        assert_eq!(s.move_player(Direction::Down), Ok(()));
        assert_eq!(s.positions[0], (4, step));
    }
    assert_eq!(s.winner, Some(0));
    assert_eq!(s.total_moves, 8);
    // The winning move froze the turn counter: seven earlier moves advanced it.
    assert_eq!(s.current_turn, 7);
}

#[test]
fn finished_game_rejects_every_operation() {
    let mut s = MazeState::new();
    s.join().unwrap();
    for _ in 0..4 {
        s.move_player(Direction::Right).unwrap();
    }
    for _ in 0..4 {
        s.move_player(Direction::Down).unwrap();
    }
    assert_eq!(s.winner, Some(0));
    let before = fields(&s);
    assert_eq!(s.join(), Err(GameError::GameFinished));
    assert_eq!(fields(&s), before);
    assert_eq!(s.move_player(Direction::Up), Err(GameError::GameFinished));
    assert_eq!(fields(&s), before);
    assert_eq!(
        s.execute_operation(Operation::Join),
        Err(GameError::GameFinished)
    );
    assert_eq!(fields(&s), before);
}

#[test]
fn scenario_two_players_alternate_turns() {
    let mut s = MazeState::new();
    assert_eq!(s.join(), Ok(()));
    assert_eq!(s.join(), Ok(()));
    // current_turn = 0, player_count = 2: player 0 acts.
    assert_eq!(s.move_player(Direction::Right), Ok(()));
    assert_eq!(s.current_turn, 1);
    assert_eq!(s.positions[0], (1, 0));
    assert_eq!(s.positions[1], (0, 0));
    // current_turn = 1: player 1 acts.
    assert_eq!(s.move_player(Direction::Down), Ok(()));
    assert_eq!(s.positions[0], (1, 0));
    assert_eq!(s.positions[1], (0, 1));
}

#[test]
fn scenario_left_from_start_leaves_state_untouched() {
    let mut s = MazeState::new();
    s.join().unwrap();
    let before = fields(&s);
    assert_eq!(s.move_player(Direction::Left), Err(GameError::OutOfBounds));
    assert_eq!(fields(&s), before);
}

#[test]
fn scenario_right_then_down_hits_first_wall() {
    let mut s = MazeState::new();
    s.join().unwrap();
    assert_eq!(s.move_player(Direction::Right), Ok(()));
    assert_eq!(s.move_player(Direction::Down), Err(GameError::WallCollision));
    assert_eq!(s.positions[0], (1, 0));
}

#[test]
fn late_joiner_enters_the_rotation_immediately() {
    let mut s = MazeState::new();
    s.join().unwrap();
    // Single player: turns 0 and 1 both act as player 0.
    s.move_player(Direction::Right).unwrap();
    s.move_player(Direction::Right).unwrap();
    assert_eq!(s.current_turn, 2);
    // A second player joins; 2 mod 2 = 0, so player 0 still acts next.
    s.join().unwrap();
    s.move_player(Direction::Right).unwrap();
    assert_eq!(s.positions[0], (3, 0));
    // 3 mod 2 = 1: now the late joiner acts.
    s.move_player(Direction::Down).unwrap();
    assert_eq!(s.positions[1], (0, 1));
}

#[test]
fn wall_query_matches_the_fixed_wall_set() {
    let walls = [(1, 1), (1, 2), (2, 1), (3, 3)];
    for x in 0..5u8 {
        for y in 0..5u8 {
            assert_eq!(is_wall(x, y), walls.contains(&(x, y)));
        }
    }
}

#[test]
fn execute_operation_dispatches_both_operations() {
    let mut s = MazeState::new();
    assert_eq!(s.execute_operation(Operation::Join), Ok(()));
    assert_eq!(s.player_count, 1);
    assert_eq!(
        s.execute_operation(Operation::Move(Direction::Right)),
        Ok(())
    );
    assert_eq!(s.positions[0], (1, 0));
    assert_eq!(
        s.execute_operation(Operation::Move(Direction::Left)),
        Ok(())
    );
    assert_eq!(s.positions[0], (0, 0));
    assert_eq!(
        s.execute_operation(Operation::Move(Direction::Up)),
        Err(GameError::OutOfBounds)
    );
}

#[test]
fn instantiate_resets_to_the_initial_state() {
    let mut s = MazeState::new();
    s.join().unwrap();
    s.move_player(Direction::Right).unwrap();
    s.instantiate();
    assert_eq!(s.player_count, 0);
    assert_eq!(s.positions.len(), 0);
    assert_eq!(s.current_turn, 0);
    assert_eq!(s.total_moves, 0);
    assert_eq!(s.winner, None);
}
