//! A series of rounds between a human and the automated player: the board of
//! the current round, the human's choice of cell, and the tally of results.
use vstd::prelude::*;
use crate::board::{all_empty, outcome, Board, Cell, GameState, InvalidMove, Side, CELL_COUNT};

verus! {

/// The cell that the human picked, by index.
#[derive(Clone, Copy, Debug, PartialEq, Eq, Structural)]
pub struct PlayerInput {
    pub idx: usize,
}

/// Why a box number typed by the human cannot be played.
#[derive(Clone, Copy, Debug, PartialEq, Eq, Structural)]
pub enum InputError {
    /// The number is not between 1 and 9.
    OutOfRange,
    /// The box is already taken.
    Occupied,
}

impl PlayerInput {
    /// The input that picks the cell at `idx`.
    pub fn new(idx: usize) -> (r: PlayerInput)
        ensures
            r.idx == idx,
    {
        PlayerInput { idx }
    }

    /// Reads a box number as the human sees it, 1 to 9 row by row, into the
    /// input that picks that cell, provided the cell is free on `board`.
    pub fn from_box_number(board: &Board, number: usize) -> (r: Result<PlayerInput, InputError>)
        ensures
            r == Err::<PlayerInput, InputError>(InputError::OutOfRange) <==> (number < 1 || number
                > CELL_COUNT),
            r == Err::<PlayerInput, InputError>(InputError::Occupied) <==> (1 <= number
                <= CELL_COUNT && board@[number - 1] != Cell::Empty),
            r matches Ok(p) ==> p.idx == number - 1 && board@[p.idx as int] == Cell::Empty,
    {
        if number < 1 || number > CELL_COUNT {
            return Err(InputError::OutOfRange);
        }
        let idx = number - 1;
        if board.is_free(idx) {
            Ok(PlayerInput::new(idx))
        } else {
            Err(InputError::Occupied)
        }
    }
}

/// The rounds played so far and the board of the current round.
#[derive(Clone, Copy, Debug, PartialEq, Eq)]
pub struct Game {
    pub wins: u32,
    pub losses: u32,
    pub draws: u32,
    pub board: Board,
}

/// `g` has the same tally as `h`.
pub open spec fn same_tally(g: Game, h: Game) -> bool {
    g.wins == h.wins && g.losses == h.losses && g.draws == h.draws
}

/// `n + 1`, held at the largest `u32`.
pub open spec fn bumped(n: u32) -> u32 {
    if n == u32::MAX {
        n
    } else {
        (n + 1) as u32
    }
}

/// The round is over: `Some` of its final state, or `None` while it goes on.
pub open spec fn round_result(cells: Seq<Cell>) -> Option<GameState> {
    if outcome(cells) == GameState::Ongoing {
        None
    } else {
        Some(outcome(cells))
    }
}

impl Default for Game {
    /// No rounds played, and an empty board.
    fn default() -> (r: Game)
        ensures
            r.wins == 0,
            r.losses == 0,
            r.draws == 0,
            r.board@.len() == CELL_COUNT,
            all_empty(r.board@),
    {
        Game::new()
    }
}

impl Game {
    /// No rounds played, and an empty board.
    pub fn new() -> (r: Game)
        ensures
            r.wins == 0,
            r.losses == 0,
            r.draws == 0,
            r.board@.len() == CELL_COUNT,
            all_empty(r.board@),
    {
        Game { wins: 0, losses: 0, draws: 0, board: Board::new() }
    }

    /// Starts a new round on an empty board; the tally is kept.
    pub fn new_round(&mut self)
        ensures
            same_tally(*final(self), *old(self)),
            final(self).board@.len() == CELL_COUNT,
            all_empty(final(self).board@),
    {
        self.board = Board::new();
    }

    /// Counts a finished round: a win of the human, a loss (a win of the
    /// automated player) or a draw. An ongoing state counts nothing. The
    /// counters stop at the largest `u32`.
    pub fn record_result(&mut self, state: GameState)
        ensures
            final(self).board == old(self).board,
            final(self).wins == (if state == GameState::Win(Side::Human) {
                bumped(old(self).wins)
            } else {
                old(self).wins
            }),
            final(self).losses == (if state == GameState::Win(Side::Automated) {
                bumped(old(self).losses)
            } else {
                old(self).losses
            }),
            final(self).draws == (if state == GameState::Draw {
                bumped(old(self).draws)
            } else {
                old(self).draws
            }),
    {
        match state {
            GameState::Win(Side::Human) => self.wins = self.wins.saturating_add(1),
            GameState::Win(Side::Automated) => self.losses = self.losses.saturating_add(1),
            GameState::Draw => self.draws = self.draws.saturating_add(1),
            GameState::Ongoing => {},
        }
    }

    /// The human's move on the picked cell; on success, the state of the
    /// board afterwards. A taken cell or an index off the board fails and
    /// changes nothing.
    pub fn player_turn(&mut self, input: PlayerInput) -> (r: Result<GameState, InvalidMove>)
        ensures
            same_tally(*final(self), *old(self)),
            r is Ok <==> (input.idx < CELL_COUNT && old(self).board@[input.idx as int]
                == Cell::Empty),
            r is Ok ==> final(self).board@ == old(self).board@.update(
                input.idx as int,
                Cell::Occupied(Side::Human),
            ),
            r matches Ok(s) ==> s == outcome(final(self).board@),
            r is Err ==> *final(self) == *old(self),
    {
        match self.board.apply_move(input.idx, Side::Human) {
            Ok(()) => Ok(self.board.evaluate()),
            Err(e) => Err(e),
        }
    }
}

/// Whether the current round of `game` is over, and how it ended.
pub fn check_win(game: &Game) -> (r: Option<GameState>)
    ensures
        r == round_result(game.board@),
{
    let state = game.board.evaluate();
    if state == GameState::Ongoing {
        None
    } else {
        Some(state)
    }
}

} // verus!
