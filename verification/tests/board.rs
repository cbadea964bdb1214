use tictactoe::board::GameBoard;
use tictactoe::error::MoveError;
use tictactoe::field::Field;
use tictactoe::side::Side;

fn play_all(board: &mut GameBoard, moves: &[(i8, i8)]) {
    for (x, y) in moves {
        assert_eq!(board._take_field(*x, *y), Ok(()));
    }
}

#[test]
fn new_board_has_one_empty_field_per_position() {
    let board = GameBoard::new(Side::X);
    assert_eq!(board.fields().len(), 9);
    for y in 0..3i8 {
        for x in 0..3i8 {
            let mut found = 0;
            for f in board.fields() {
                if f.x_axis == x && f.y_axis == y {
                    found += 1;
                    assert_eq!(f.side, None);
                }
            }
            assert_eq!(found, 1);
            assert_eq!(board.side_at(x, y), None);
        }
    }
    assert_eq!(board.score_x(), 0);
    assert_eq!(board.score_o(), 0);
    assert_eq!(board.current_player(), Side::X);
}

#[test]
fn new_board_lists_fields_row_by_row() {
    let board = GameBoard::new(Side::O);
    let coords: Vec<(i8, i8)> = board.fields().iter().map(|f| (f.x_axis, f.y_axis)).collect();
    assert_eq!(
        coords,
        vec![(0, 0), (1, 0), (2, 0), (0, 1), (1, 1), (2, 1), (0, 2), (1, 2), (2, 2)]
    );
    assert_eq!(board.current_player(), Side::O);
}

#[test]
fn field_new_is_empty() {
    let f = Field::new(2, 1);
    assert_eq!(f.side, None);
    assert_eq!(f.x_axis, 2);
    assert_eq!(f.y_axis, 1);
}

#[test]
fn each_field_takes_one_move() {
    for y in 0..3i8 {
        for x in 0..3i8 {
            let mut board = GameBoard::new(Side::X);
            assert_eq!(board._take_field(x, y), Ok(()));
            assert_eq!(board.side_at(x, y), Some(Side::X));
            assert_eq!(board._take_field(x, y), Err(MoveError::FieldAlreadyTaken));
            assert_eq!(board.side_at(x, y), Some(Side::X));
        }
    }
}

#[test]
fn all_nine_fields_can_be_filled_once() {
    let mut board = GameBoard::new(Side::X);
    for y in 0..3i8 {
        for x in 0..3i8 {
            assert_eq!(board._take_field(x, y), Ok(()));
        }
    }
    for y in 0..3i8 {
        for x in 0..3i8 {
            assert_eq!(board._take_field(x, y), Err(MoveError::FieldAlreadyTaken));
        }
    }
}

#[test]
fn move_to_taken_field_changes_nothing() {
    let mut board = GameBoard::new(Side::X);
    play_all(&mut board, &[(1, 1), (0, 2)]);
    let before: Vec<Option<Side>> = board.fields().iter().map(|f| f.side).collect();
    assert_eq!(board.current_player(), Side::X);
    assert_eq!(board._take_field(1, 1), Err(MoveError::FieldAlreadyTaken));
    assert_eq!(board._take_field(0, 2), Err(MoveError::FieldAlreadyTaken));
    let after: Vec<Option<Side>> = board.fields().iter().map(|f| f.side).collect();
    assert_eq!(before, after);
    assert_eq!(board.current_player(), Side::X);
    assert_eq!(board.side_at(1, 1), Some(Side::X));
    assert_eq!(board.side_at(0, 2), Some(Side::O));
}

#[test]
fn move_outside_grid_is_refused() {
    let mut board = GameBoard::new(Side::O);
    assert_eq!(board._take_field(5, 5), Err(MoveError::FieldNotExists));
    assert_eq!(board._take_field(3, 0), Err(MoveError::FieldNotExists));
    assert_eq!(board._take_field(0, 3), Err(MoveError::FieldNotExists));
    assert_eq!(board._take_field(-1, 0), Err(MoveError::FieldNotExists));
    assert_eq!(board._take_field(0, -1), Err(MoveError::FieldNotExists));
    assert_eq!(board._take_field(i8::MAX, i8::MIN), Err(MoveError::FieldNotExists));
    assert_eq!(board.current_player(), Side::O);
    assert!(board.fields().iter().all(|f| f.side.is_none()));
}

#[test]
fn turn_passes_after_each_move() {
    let mut board = GameBoard::new(Side::X);
    assert_eq!(board._take_field(0, 0), Ok(()));
    assert_eq!(board.current_player(), Side::O);
    assert_eq!(board.side_at(0, 0), Some(Side::X));
    assert_eq!(board._take_field(2, 1), Ok(()));
    assert_eq!(board.current_player(), Side::X);
    assert_eq!(board.side_at(2, 1), Some(Side::O));
}

#[test]
fn next_player_turn_switches_side() {
    let mut board = GameBoard::new(Side::X);
    board._next_player_turn();
    assert_eq!(board.current_player(), Side::O);
    board._next_player_turn();
    assert_eq!(board.current_player(), Side::X);
}

#[test]
fn no_winner_on_empty_board() {
    let board = GameBoard::new(Side::X);
    assert_eq!(board._find_winner(), None);
}

#[test]
fn no_winner_with_fewer_than_three_marks() {
    let mut board = GameBoard::new(Side::X);
    play_all(&mut board, &[(0, 0), (1, 1), (0, 1), (2, 2)]);
    assert_eq!(board._find_winner(), None);
}

#[test]
fn no_winner_without_a_line() {
    let mut board = GameBoard::new(Side::X);
    play_all(&mut board, &[(0, 0), (1, 1), (0, 1), (0, 2), (2, 0), (1, 0)]);
    assert_eq!(board._find_winner(), None);
}

#[test]
fn x_wins_first_column() {
    let mut board = GameBoard::new(Side::X);
    play_all(&mut board, &[(0, 0), (1, 0), (0, 1), (1, 1), (0, 2)]);
    assert_eq!(board._find_winner(), Some(Side::X));
}

#[test]
fn o_wins_main_diagonal() {
    let mut board = GameBoard::new(Side::O);
    play_all(&mut board, &[(0, 0), (0, 1), (1, 1), (0, 2), (2, 2)]);
    assert_eq!(board._find_winner(), Some(Side::O));
}

#[test]
fn x_wins_middle_line() {
    let mut board = GameBoard::new(Side::X);
    play_all(&mut board, &[(1, 0), (0, 0), (1, 1), (2, 2), (1, 2)]);
    assert_eq!(board._find_winner(), Some(Side::X));
}

#[test]
fn o_wins_other_diagonal() {
    let mut board = GameBoard::new(Side::O);
    play_all(&mut board, &[(0, 2), (0, 0), (1, 1), (0, 1), (2, 0)]);
    assert_eq!(board._find_winner(), Some(Side::O));
}

#[test]
fn every_line_wins() {
    let lines: [[(i8, i8); 3]; 8] = [
        [(0, 0), (0, 1), (0, 2)],
        [(1, 0), (1, 1), (1, 2)],
        [(2, 0), (2, 1), (2, 2)],
        [(0, 0), (1, 0), (2, 0)],
        [(0, 1), (1, 1), (2, 1)],
        [(0, 2), (1, 2), (2, 2)],
        [(0, 0), (1, 1), (2, 2)],
        [(0, 2), (1, 1), (2, 0)],
    ];
    for line in lines {
        for side in [Side::X, Side::O] {
            let mut board = GameBoard::new(side);
            for (n, (x, y)) in line.iter().enumerate() {
                assert_eq!(board._find_winner(), None);
                assert_eq!(board._take_field(*x, *y), Ok(()));
                if n < 2 {
                    board._next_player_turn();
                }
            }
            assert_eq!(board._find_winner(), Some(side));
        }
    }
}

#[test]
fn x_has_priority_when_both_hold_a_line() {
    let mut board = GameBoard::new(Side::O);
    for y in 0..3i8 {
        assert_eq!(board._take_field(0, y), Ok(()));
        assert_eq!(board._take_field(1, y), Ok(()));
    }
    assert_eq!(board._find_winner(), Some(Side::X));
}

#[test]
fn find_winner_twice_gives_the_same() {
    let mut board = GameBoard::new(Side::X);
    play_all(&mut board, &[(0, 0), (1, 0), (0, 1), (1, 1), (0, 2)]);
    let before: Vec<Option<Side>> = board.fields().iter().map(|f| f.side).collect();
    let first = board._find_winner();
    let second = board._find_winner();
    assert_eq!(first, Some(Side::X));
    assert_eq!(first, second);
    let after: Vec<Option<Side>> = board.fields().iter().map(|f| f.side).collect();
    assert_eq!(before, after);
    assert_eq!(board.current_player(), Side::O);
    assert_eq!(board.score_x(), 0);
}

#[test]
fn has_won_counts_fields_on_a_line() {
    let board = GameBoard::new(Side::X);
    let mut a = Field::new(2, 0);
    let mut b = Field::new(1, 1);
    let mut c = Field::new(0, 2);
    let mut d = Field::new(0, 0);
    a.side = Some(Side::X);
    b.side = Some(Side::X);
    c.side = Some(Side::X);
    d.side = Some(Side::X);
    let (ra, rb, rc, rd) = (&a, &b, &c, &d);
    assert!(board._has_won(vec![&ra, &rb, &rc]));
    assert!(board._has_won(vec![&rd, &ra, &rb, &rc]));
    assert!(!board._has_won(vec![&ra, &rb, &rd]));
    assert!(!board._has_won(vec![&ra, &rb]));
    assert!(!board._has_won(vec![]));
}

#[test]
fn clean_game_board_keeps_scores_and_turn() {
    let mut board = GameBoard::new(Side::X);
    play_all(&mut board, &[(0, 0), (1, 0), (0, 1), (1, 1), (0, 2)]);
    board.record_win(Side::X);
    board._clean_game_board();
    assert_eq!(board.fields().len(), 9);
    assert!(board.fields().iter().all(|f| f.side.is_none()));
    assert_eq!(board.score_x(), 1);
    assert_eq!(board.score_o(), 0);
    assert_eq!(board.current_player(), Side::O);
    assert_eq!(board._find_winner(), None);
    assert_eq!(board._take_field(0, 0), Ok(()));
    assert_eq!(board.side_at(0, 0), Some(Side::O));
}

#[test]
fn record_win_for_x() {
    let mut board = GameBoard::new(Side::X);
    board.record_win(Side::X);
    assert_eq!(board.score_x(), 1);
    assert_eq!(board.score_o(), 0);
    assert_eq!(board.current_player(), Side::O);
}

#[test]
fn record_win_for_o() {
    let mut board = GameBoard::new(Side::O);
    board.record_win(Side::O);
    board.record_win(Side::O);
    assert_eq!(board.score_x(), 0);
    assert_eq!(board.score_o(), 2);
    assert_eq!(board.current_player(), Side::X);
}

#[test]
fn play_turn_counts_the_win() {
    let mut board = GameBoard::new(Side::X);
    assert_eq!(board.play_turn(0, 0), Ok(None));
    assert_eq!(board.play_turn(1, 0), Ok(None));
    assert_eq!(board.play_turn(0, 1), Ok(None));
    assert_eq!(board.play_turn(1, 0), Err(MoveError::FieldAlreadyTaken));
    assert_eq!(board.play_turn(7, 0), Err(MoveError::FieldNotExists));
    assert_eq!(board.current_player(), Side::O);
    assert_eq!(board.play_turn(1, 1), Ok(None));
    assert_eq!(board.score_x(), 0);
    assert_eq!(board.play_turn(0, 2), Ok(Some(Side::X)));
    assert_eq!(board.score_x(), 1);
    assert_eq!(board.score_o(), 0);
    assert_eq!(board.current_player(), Side::O);
}

#[test]
fn board_text_of_empty_board() {
    let board = GameBoard::new(Side::X);
    assert_eq!(board.board_text(), "_\t_\t_\t\n_\t_\t_\t\n_\t_\t_\t\n");
}

#[test]
fn board_text_shows_marks() {
    let mut board = GameBoard::new(Side::X);
    play_all(&mut board, &[(0, 0), (1, 1), (2, 2), (0, 2)]);
    assert_eq!(board.board_text(), "X\t_\t_\t\n_\tO\t_\t\nO\t_\tX\t\n");
}

#[test]
fn side_other_and_label() {
    assert_eq!(Side::X.other(), Side::O);
    assert_eq!(Side::O.other(), Side::X);
    assert_eq!(Side::X.label(), "X");
    assert_eq!(Side::O.label(), "O");
}

#[test]
fn error_descriptions() {
    assert_eq!(
        MoveError::FieldNotExists.description(),
        "Field for given x and y values does not exist"
    );
    assert_eq!(MoveError::FieldAlreadyTaken.description(), "Field is already taken by a player");
}
