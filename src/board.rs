//! The 3x3 board: cells, the eight winning lines, moves and the game state.
use vstd::prelude::*;

verus! {

/// The two players that can occupy a cell.
#[derive(Clone, Copy, Debug, PartialEq, Eq, Structural)]
pub enum Side {
    Human,
    Automated,
}

/// One square of the board.
#[derive(Clone, Copy, Debug, PartialEq, Eq, Structural)]
pub enum Cell {
    Empty,
    Occupied(Side),
}

/// What a board says about the round: won by a side, drawn, or still open.
#[derive(Clone, Copy, Debug, PartialEq, Eq, Structural)]
pub enum GameState {
    Win(Side),
    Draw,
    Ongoing,
}

/// A move onto an occupied cell or outside the board.
#[derive(Clone, Copy, Debug, PartialEq, Eq, Structural)]
pub struct InvalidMove;

/// Number of cells on the board.
pub const CELL_COUNT: usize = 9;

/// Number of winning lines: three rows, three columns, two diagonals.
pub const LINE_COUNT: usize = 8;

/// The index of the `j`-th cell (`j < 3`) of line `k` (`k < 8`).
/// Lines come in a fixed order: rows top to bottom, columns left to right,
/// then the diagonal through 0 and the diagonal through 2.
pub open spec fn line_cell(k: int, j: int) -> int {
    if k < 3 {
        3 * k + j
    } else if k < 6 {
        (k - 3) + 3 * j
    } else if k == 6 {
        4 * j
    } else {
        2 + 2 * j
    }
}

/// Side `s` occupies all three cells of line `k`.
pub open spec fn holds_line(cells: Seq<Cell>, k: int, s: Side) -> bool {
    &&& cells[line_cell(k, 0)] == Cell::Occupied(s)
    &&& cells[line_cell(k, 1)] == Cell::Occupied(s)
    &&& cells[line_cell(k, 2)] == Cell::Occupied(s)
}

/// The side that completed line `k`, if any.
pub open spec fn line_owner(cells: Seq<Cell>, k: int) -> Option<Side> {
    if holds_line(cells, k, Side::Human) {
        Some(Side::Human)
    } else if holds_line(cells, k, Side::Automated) {
        Some(Side::Automated)
    } else {
        None
    }
}

/// The owner of the first completed line among lines `k`, `k + 1`, ..., 7.
pub open spec fn first_winner(cells: Seq<Cell>, k: int) -> Option<Side>
    decreases LINE_COUNT - k,
{
    if k >= LINE_COUNT {
        None
    } else if line_owner(cells, k) is Some {
        line_owner(cells, k)
    } else {
        first_winner(cells, k + 1)
    }
}

/// Some cell of the board is still empty.
pub open spec fn has_empty(cells: Seq<Cell>) -> bool {
    exists|i: int| 0 <= i < cells.len() && cells[i] == Cell::Empty
}

/// The state of a board: the owner of the first completed line wins; with no
/// completed line the round goes on while a cell is empty, else it is drawn.
pub open spec fn outcome(cells: Seq<Cell>) -> GameState {
    match first_winner(cells, 0) {
        Some(s) => GameState::Win(s),
        None => if has_empty(cells) {
            GameState::Ongoing
        } else {
            GameState::Draw
        },
    }
}

/// With every completed line among lines `m` to `k - 1` taken by `s`, and line
/// `k` taken by `s`, the first completed line from `m` on is owned by `s`.
proof fn lemma_first_winner_is(cells: Seq<Cell>, m: int, k: int, s: Side)
    requires
        0 <= m <= k < LINE_COUNT,
        holds_line(cells, k, s),
        forall|k2: int, s2: Side| m <= k2 < k && holds_line(cells, k2, s2) ==> s2 == s,
    ensures
        first_winner(cells, m) == Some(s),
    decreases k - m,
{
    if m < k {
        if holds_line(cells, m, Side::Human) {
            assert(Side::Human == s);
        } else if holds_line(cells, m, Side::Automated) {
            assert(Side::Automated == s);
        } else {
            lemma_first_winner_is(cells, m + 1, k, s);
        }
    }
}

/// With no completed line among lines `m` to 7 there is no winner from `m` on.
proof fn lemma_no_first_winner(cells: Seq<Cell>, m: int)
    requires
        0 <= m <= LINE_COUNT,
        forall|k: int, s: Side| m <= k < LINE_COUNT ==> !holds_line(cells, k, s),
    ensures
        first_winner(cells, m) is None,
    decreases LINE_COUNT - m,
{
    if m < LINE_COUNT {
        assert(!holds_line(cells, m, Side::Human));
        assert(!holds_line(cells, m, Side::Automated));
        lemma_no_first_winner(cells, m + 1);
    }
}

/// A line completed by one side, with no earlier line completed by the other
/// side, makes that side the winner.
pub proof fn lemma_full_line_wins(b: Board, k: int, s: Side)
    requires
        0 <= k < LINE_COUNT,
        holds_line(b@, k, s),
        forall|k2: int, s2: Side| 0 <= k2 < k && holds_line(b@, k2, s2) ==> s2 == s,
    ensures
        outcome(b@) == GameState::Win(s),
{
    lemma_first_winner_is(b@, 0, k, s);
}

/// A board with no completed line and no empty cell is a draw.
pub proof fn lemma_full_board_without_line_draws(b: Board)
    requires
        forall|k: int, s: Side| 0 <= k < LINE_COUNT ==> !holds_line(b@, k, s),
        !has_empty(b@),
    ensures
        outcome(b@) == GameState::Draw,
{
    lemma_no_first_winner(b@, 0);
}

/// A board with no completed line and an empty cell is still being played.
pub proof fn lemma_open_board_without_line_goes_on(b: Board)
    requires
        forall|k: int, s: Side| 0 <= k < LINE_COUNT ==> !holds_line(b@, k, s),
        has_empty(b@),
    ensures
        outcome(b@) == GameState::Ongoing,
{
    lemma_no_first_winner(b@, 0);
}

/// The index of the `j`-th cell of line `k`.
fn line_cell_index(k: usize, j: usize) -> (r: usize)
    requires
        k < LINE_COUNT,
        j < 3,
    ensures
        r as int == line_cell(k as int, j as int),
        r < CELL_COUNT,
{
    if k < 3 {
        3 * k + j
    } else if k < 6 {
        (k - 3) + 3 * j
    } else if k == 6 {
        4 * j
    } else {
        2 + 2 * j
    }
}

/// The nine cells, row by row: index `row * 3 + col`.
#[derive(Clone, Copy, Debug, PartialEq, Eq)]
pub struct Board {
    pub cells: [Cell; 9],
}

impl View for Board {
    type V = Seq<Cell>;

    open spec fn view(&self) -> Seq<Cell> {
        self.cells@
    }
}

/// Every cell of `cells` is empty.
pub open spec fn all_empty(cells: Seq<Cell>) -> bool {
    forall|i: int| 0 <= i < cells.len() ==> cells[i] == Cell::Empty
}

impl Default for Board {
    /// An empty board.
    fn default() -> (r: Board)
        ensures
            r@.len() == CELL_COUNT,
            all_empty(r@),
    {
        Board::new()
    }
}

impl Board {
    /// A board with all nine cells empty.
    pub fn new() -> (r: Board)
        ensures
            r@.len() == CELL_COUNT,
            all_empty(r@),
    {
        Board { cells: [Cell::Empty; 9] }
    }

    /// The cell at `index`.
    pub fn get(&self, index: usize) -> (r: Cell)
        requires
            index < CELL_COUNT,
        ensures
            r == self@[index as int],
    {
        self.cells[index]
    }

    /// Whether `index` names a cell of the board that is empty.
    pub fn is_free(&self, index: usize) -> (r: bool)
        ensures
            r == (index < CELL_COUNT && self@[index as int] == Cell::Empty),
    {
        index < CELL_COUNT && self.cells[index] == Cell::Empty
    }

    /// Puts `side` on the cell at `index`. Fails, leaving the board as it
    /// was, when `index` is off the board or the cell is taken.
    pub fn apply_move(&mut self, index: usize, side: Side) -> (r: Result<(), InvalidMove>)
        ensures
            r is Ok <==> (index < CELL_COUNT && old(self)@[index as int] == Cell::Empty),
            r is Ok ==> final(self)@ == old(self)@.update(index as int, Cell::Occupied(side)),
            r is Err ==> *final(self) == *old(self),
    {
        if !self.is_free(index) {
            return Err(InvalidMove);
        }
        self.cells[index] = Cell::Occupied(side);
        Ok(())
    }

    /// Whether some cell is still empty.
    pub fn has_empty_cell(&self) -> (r: bool)
        ensures
            r == has_empty(self@),
    {
        let mut i: usize = 0;
        while i < CELL_COUNT
            invariant
                i <= CELL_COUNT,
                self@.len() == CELL_COUNT,
                forall|j: int| 0 <= j < i ==> self@[j] != Cell::Empty,
            decreases CELL_COUNT - i,
        {
            if self.cells[i] == Cell::Empty {
                return true;
            }
            i += 1;
        }
        false
    }

    /// The state of the board: lines are checked in their fixed order and the
    /// first completed one decides the winner.
    pub fn evaluate(&self) -> (r: GameState)
        ensures
            r == outcome(self@),
    {
        let mut k: usize = 0;
        while k < LINE_COUNT
            invariant
                k <= LINE_COUNT,
                self@.len() == CELL_COUNT,
                first_winner(self@, 0) == first_winner(self@, k as int),
            decreases LINE_COUNT - k,
        {
            let a = self.cells[line_cell_index(k, 0)];
            let b = self.cells[line_cell_index(k, 1)];
            let c = self.cells[line_cell_index(k, 2)];
            if let Cell::Occupied(s) = a {
                if b == a && c == a {
                    return GameState::Win(s);
                }
            }
            k += 1;
        }
        if self.has_empty_cell() {
            GameState::Ongoing
        } else {
            GameState::Draw
        }
    }
}

} // verus!
