//! A game in play: the board, whose turn it is, and what one typed line does
//! to both.

use crate::board::{next_turn, on_board, opponent, Board, BoardState, GameState, MoveError};
use crate::input::{coordinates, parse_input, InputError};
use vstd::prelude::*;

verus! {

/// The board and the player who moves next.
#[derive(Clone, Copy, Debug, PartialEq, Eq)]
pub struct Game {
    board: Board,
    turn: BoardState,
}

/// What a typed line led to.
#[derive(Clone, Copy, Debug, PartialEq, Eq, Structural)]
pub enum Step {
    /// The line could not be read. The same player is asked again.
    Unreadable(InputError),
    /// The line named a move that the board refuses. The same player is
    /// asked again.
    Refused(MoveError),
    /// The move was made and the turn passed to the other player.
    Moved,
}

/// The start of the line that asks a player for a move.
pub open spec fn prompt_head() -> Seq<char> {
    "Player "@
}

/// The rest of that line, after the player's mark.
pub open spec fn prompt_tail() -> Seq<char> {
    ". Make your move by entering the \"row,col\" of the square you want to play"@
}

impl Game {
    /// It is always a player's turn.
    #[verifier::type_invariant]
    spec fn turn_is_a_player(self) -> bool {
        self.turn != BoardState::Blank
    }

    /// The board as it stands.
    pub closed spec fn position(&self) -> Board {
        self.board
    }

    /// The player who moves next.
    pub closed spec fn to_move(&self) -> BoardState {
        self.turn
    }

    /// What `play` answers to a line, as the game stands.
    pub open spec fn step_for(&self, line: Seq<char>) -> Step {
        match coordinates(line) {
            Err(error) => Step::Unreadable(error),
            Ok((row, col)) => if !on_board(row as int, col as int) {
                Step::Refused(MoveError::OutOfBounds)
            } else if self.position().cell(row as int, col as int) != BoardState::Blank {
                Step::Refused(MoveError::CellOccupied)
            } else {
                Step::Moved
            },
        }
    }

    /// A new game: an empty board, and O moves first.
    pub fn new() -> (game: Game)
        ensures
            game.position().is_empty(),
            game.to_move() == BoardState::O,
    {
        Game { board: Board::new(), turn: BoardState::O }
    }

    /// The board as it stands.
    pub fn board(&self) -> (board: Board)
        ensures
            board == self.position(),
    {
        self.board
    }

    /// The player who moves next.
    pub fn turn(&self) -> (turn: BoardState)
        ensures
            turn == self.to_move(),
            turn != BoardState::Blank,
    {
        proof {
            use_type_invariant(self);
        }
        self.turn
    }

    /// Classifies the position on the board.
    pub fn state(&self) -> (state: GameState)
        ensures
            state == self.position().outcome(),
    {
        self.board.check_game_state()
    }

    /// The line that asks the player to move.
    pub fn prompt(&self) -> (text: String)
        ensures
            text@ == prompt_head() + seq![self.to_move().glyph()] + prompt_tail(),
    {
        let mut text = String::from_str("Player ");
        text.append(self.turn.letter());
        text.append(". Make your move by entering the \"row,col\" of the square you want to play");
        text
    }

    /// Takes the line that the player to move has typed. A line that reads
    /// as a free cell of the board puts the player's mark there and passes
    /// the turn; any other line changes nothing.
    pub fn play(&mut self, line: &str) -> (step: Step)
        ensures
            step == old(self).step_for(line@),
            step != Step::Moved ==> *final(self) == *old(self),
            step == Step::Moved ==> final(self).to_move() == opponent(old(self).to_move()),
            step == Step::Moved ==> forall|r: int, c: int|
                on_board(r, c) ==> #[trigger] final(self).position().cell(r, c) == (if coordinates(
                    line@,
                ) == Ok::<(usize, usize), InputError>((r as usize, c as usize)) {
                    old(self).to_move()
                } else {
                    old(self).position().cell(r, c)
                }),
    {
        proof {
            use_type_invariant(&*self);
        }
        match parse_input(line) {
            Err(error) => Step::Unreadable(error),
            Ok((row, col)) => {
                let mut board = self.board;
                match board.make_move(row, col, self.turn) {
                    Err(error) => Step::Refused(error),
                    Ok(()) => {
                        *self = Game { board, turn: next_turn(self.turn) };
                        Step::Moved
                    },
                }
            },
        }
    }
}

/// The board and the player to move are all there is to a game: two games
/// that agree on both are equal.
pub proof fn position_and_turn_determine_game(a: Game, b: Game)
    requires
        a.position() == b.position(),
        a.to_move() == b.to_move(),
    ensures
        a == b,
{
}

} // verus!
