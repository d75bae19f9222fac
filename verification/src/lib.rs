//! A two-player tic-tac-toe engine: the board, the rules that classify a
//! position, the parsing of a typed move, and the turn-by-turn state of a game.

pub mod board;
pub mod game;
pub mod input;

pub use board::{next_turn, Board, BoardState, GameState, MoveError};
pub use game::{Game, Step};
pub use input::{parse_input, InputError};
