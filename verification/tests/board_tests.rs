use tictactoe::{next_turn, Board, BoardState, GameState, MoveError};

const X: BoardState = BoardState::X;
const O: BoardState = BoardState::O;
const B: BoardState = BoardState::Blank;

fn board_of(cells: [[BoardState; 3]; 3]) -> Board {
    Board::from_cells(cells)
}

#[test]
fn new_board_is_blank_and_in_progress() {
    let board = Board::new();
    for row in 0..3 {
        for col in 0..3 {
            assert_eq!(board.get(row, col), B);
        }
    }
    assert_eq!(board, board_of([[B; 3]; 3]));
    assert_eq!(board.check_game_state(), GameState::InProgress);
}

#[test]
fn next_turn_swaps_the_players() {
    assert_eq!(next_turn(X), O);
    assert_eq!(next_turn(O), X);
    assert_eq!(next_turn(next_turn(X)), X);
    assert_eq!(next_turn(next_turn(O)), O);
}

#[test]
fn row_win_scenario() {
    let mut board = Board::new();
    assert_eq!(board.make_move(0, 0, X), Ok(()));
    assert_eq!(board.make_move(1, 0, O), Ok(()));
    assert_eq!(board.make_move(0, 1, X), Ok(()));
    assert_eq!(board.make_move(1, 1, O), Ok(()));
    assert_eq!(board.check_game_state(), GameState::InProgress);
    assert_eq!(board.make_move(0, 2, X), Ok(()));
    assert_eq!(board.check_game_state(), GameState::Winner(X));
}

#[test]
fn draw_scenario() {
    let marks = [[X, X, O], [O, O, X], [X, O, X]];
    let mut board = Board::new();
    for row in 0..3 {
        for col in 0..3 {
            assert_eq!(board.check_game_state(), GameState::InProgress);
            assert_eq!(board.make_move(row, col, marks[row][col]), Ok(()));
        }
    }
    assert_eq!(board, board_of(marks));
    assert_eq!(board.check_game_state(), GameState::Draw);
}

#[test]
fn occupied_cell_scenario() {
    let mut board = Board::new();
    assert_eq!(board.make_move(0, 0, X), Ok(()));
    let before = board;
    assert_eq!(board.make_move(0, 0, O), Err(MoveError::CellOccupied));
    assert_eq!(board.get(0, 0), X);
    assert_eq!(board, before);
    assert_eq!(board.make_move(0, 0, X), Err(MoveError::CellOccupied));
    assert_eq!(board, before);
}

#[test]
fn out_of_bounds_scenario() {
    let mut board = Board::new();
    assert_eq!(board.make_move(3, 0, X), Err(MoveError::OutOfBounds));
    assert_eq!(board, Board::new());
    assert_eq!(board.make_move(0, 3, O), Err(MoveError::OutOfBounds));
    assert_eq!(board.make_move(3, 3, O), Err(MoveError::OutOfBounds));
    assert_eq!(board.make_move(usize::MAX, 0, X), Err(MoveError::OutOfBounds));
    assert_eq!(board.make_move(0, usize::MAX, X), Err(MoveError::OutOfBounds));
    assert_eq!(board, Board::new());
}

#[test]
fn out_of_bounds_is_reported_before_occupied() {
    let mut board = board_of([[X; 3]; 3]);
    assert_eq!(board.make_move(3, 0, O), Err(MoveError::OutOfBounds));
    assert_eq!(board.make_move(2, 2, O), Err(MoveError::CellOccupied));
    assert_eq!(board, board_of([[X; 3]; 3]));
}

#[test]
fn successful_move_changes_one_cell_only() {
    for row in 0..3 {
        for col in 0..3 {
            for mark in [X, O] {
                let mut board = board_of([[B, X, B], [O, B, B], [B, B, X]]);
                let before = board;
                let res = board.make_move(row, col, mark);
                if before.get(row, col) == B {
                    assert_eq!(res, Ok(()));
                    assert_eq!(board.get(row, col), mark);
                } else {
                    assert_eq!(res, Err(MoveError::CellOccupied));
                }
                for r in 0..3 {
                    for c in 0..3 {
                        if (r, c) != (row, col) || res.is_err() {
                            assert_eq!(board.get(r, c), before.get(r, c));
                        }
                    }
                }
            }
        }
    }
}

#[test]
fn placing_a_blank_on_a_blank_cell_succeeds() {
    let mut board = Board::new();
    assert_eq!(board.make_move(1, 1, B), Ok(()));
    assert_eq!(board, Board::new());
}

#[test]
fn every_line_wins() {
    let lines: [[(usize, usize); 3]; 8] = [
        [(0, 0), (0, 1), (0, 2)],
        [(1, 0), (1, 1), (1, 2)],
        [(2, 0), (2, 1), (2, 2)],
        [(0, 0), (1, 0), (2, 0)],
        [(0, 1), (1, 1), (2, 1)],
        [(0, 2), (1, 2), (2, 2)],
        [(0, 0), (1, 1), (2, 2)],
        [(0, 2), (1, 1), (2, 0)],
    ];
    for line in lines {
        for mark in [X, O] {
            let mut board = Board::new();
            for (i, (row, col)) in line.iter().enumerate() {
                assert_eq!(board.check_game_state(), GameState::InProgress, "{i} marks");
                assert_eq!(board.make_move(*row, *col, mark), Ok(()));
            }
            assert_eq!(board.check_game_state(), GameState::Winner(mark));
        }
    }
}

#[test]
fn two_in_a_line_do_not_win() {
    let board = board_of([[X, X, B], [O, O, B], [B, B, B]]);
    assert_eq!(board.check_game_state(), GameState::InProgress);
    let board = board_of([[X, O, B], [O, X, B], [B, B, O]]);
    assert_eq!(board.check_game_state(), GameState::InProgress);
}

#[test]
fn a_line_of_blanks_is_no_win() {
    let board = board_of([[B, B, B], [X, O, X], [O, X, O]]);
    assert_eq!(board.check_game_state(), GameState::InProgress);
}

#[test]
fn x_wins_a_board_where_both_have_a_line() {
    let board = board_of([[O, O, O], [X, X, X], [B, B, B]]);
    assert_eq!(board.check_game_state(), GameState::Winner(X));
    let board = board_of([[O, X, B], [O, X, B], [O, X, B]]);
    assert_eq!(board.check_game_state(), GameState::Winner(X));
    let board = board_of([[O, O, O], [B, B, B], [B, B, B]]);
    assert_eq!(board.check_game_state(), GameState::Winner(O));
}

#[test]
fn a_full_board_with_a_line_is_won_not_drawn() {
    let board = board_of([[X, O, X], [O, X, O], [O, X, X]]);
    assert_eq!(board.check_game_state(), GameState::Winner(X));
    let board = board_of([[X, X, O], [X, O, X], [O, X, O]]);
    assert_eq!(board.check_game_state(), GameState::Winner(O));
}

#[test]
fn every_board_falls_in_one_class() {
    let marks = [X, O, B];
    let mut seen = [0usize; 3];
    for code in 0..19683usize {
        let mut grid = [[B; 3]; 3];
        let mut rest = code;
        for row in 0..3 {
            for col in 0..3 {
                grid[row][col] = marks[rest % 3];
                rest /= 3;
            }
        }
        let board = board_of(grid);
        let has_line = |m: BoardState| {
            (0..3).any(|k| (0..3).all(|j| grid[k][j] == m))
                || (0..3).any(|k| (0..3).all(|j| grid[j][k] == m))
                || (0..3).all(|j| grid[j][j] == m)
                || (0..3).all(|j| grid[j][2 - j] == m)
        };
        let has_blank = grid.iter().flatten().any(|&m| m == B);
        let expected = if has_line(X) {
            GameState::Winner(X)
        } else if has_line(O) {
            GameState::Winner(O)
        } else if has_blank {
            GameState::InProgress
        } else {
            GameState::Draw
        };
        let state = board.check_game_state();
        assert_eq!(state, expected);
        for row in 0..3 {
            for col in 0..3 {
                assert_eq!(board.get(row, col), grid[row][col]);
            }
        }
        match state {
            GameState::Winner(m) => {
                assert_ne!(m, B);
                seen[0] += 1;
            }
            GameState::InProgress => seen[1] += 1,
            GameState::Draw => seen[2] += 1,
        }
    }
    assert_eq!(seen[0] + seen[1] + seen[2], 19683);
    assert!(seen[0] > 0 && seen[1] > 0 && seen[2] > 0);
}

#[test]
fn from_cells_keeps_each_mark_in_its_place() {
    let cells = [[X, O, B], [B, X, O], [O, B, X]];
    let board = board_of(cells);
    for row in 0..3 {
        for col in 0..3 {
            assert_eq!(board.get(row, col), cells[row][col]);
        }
    }
    assert_ne!(board, board_of([[X, O, B], [B, X, O], [O, B, O]]));
}

#[test]
fn symbols() {
    assert_eq!(X.symbol(), 'X');
    assert_eq!(O.symbol(), 'O');
    assert_eq!(B.symbol(), '.');
}

#[test]
fn draw_of_an_empty_board() {
    assert_eq!(Board::new().draw(), "  0 1 2\n0 . . . \n1 . . . \n2 . . . \n");
}

#[test]
fn draw_shows_each_cell_in_its_place() {
    let board = board_of([[X, O, B], [B, X, O], [O, B, X]]);
    assert_eq!(board.draw(), "  0 1 2\n0 X O . \n1 . X O \n2 O . X \n");
    let mut board = Board::new();
    board.make_move(0, 2, X).unwrap();
    board.make_move(2, 0, O).unwrap();
    assert_eq!(board.draw(), "  0 1 2\n0 . . X \n1 . . . \n2 O . . \n");
}

#[test]
fn move_error_messages() {
    assert_eq!(MoveError::OutOfBounds.message(), "Invalid coordinates");
    assert_eq!(MoveError::CellOccupied.message(), "This square is already filled");
}

#[test]
fn summaries() {
    assert_eq!(GameState::Draw.summary(), "Game ends in draw");
    assert_eq!(GameState::Winner(X).summary(), "Player X wins!");
    assert_eq!(GameState::Winner(O).summary(), "Player O wins!");
    assert_eq!(GameState::Winner(B).summary(), "Player . wins!");
}
