//! A tic-tac-toe engine: a 3x3 board that classifies its own state, a move
//! selector for the automated player, and the tally of a series of rounds.
pub mod board;
pub mod game;
pub mod selector;

pub use board::{Board, Cell, GameState, InvalidMove, Side};
pub use game::{check_win, Game, InputError, PlayerInput};
