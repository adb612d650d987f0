//! Move selection for the automated player: win now, else block, else the
//! first free cell among center, corners and edges.
use vstd::prelude::*;
use crate::board::{outcome, has_empty, Board, Cell, GameState, Side, CELL_COUNT};

verus! {

/// Placing `s` on the empty cell `i` of `cells` makes `s` the winner.
pub open spec fn wins_if_placed(cells: Seq<Cell>, i: int, s: Side) -> bool {
    &&& 0 <= i < CELL_COUNT
    &&& cells[i] == Cell::Empty
    &&& outcome(cells.update(i, Cell::Occupied(s))) == GameState::Win(s)
}

/// Some empty cell would make `s` the winner.
pub open spec fn can_win(cells: Seq<Cell>, s: Side) -> bool {
    exists|i: int| 0 <= i < CELL_COUNT && wins_if_placed(cells, i, s)
}

/// `i` is the smallest index at which placing `s` wins.
pub open spec fn is_first_winning(cells: Seq<Cell>, s: Side, i: int) -> bool {
    &&& wins_if_placed(cells, i, s)
    &&& forall|j: int| 0 <= j < i ==> !wins_if_placed(cells, j, s)
}

/// The cell of rank `rank` in the order of preference when nothing is to be
/// won or blocked: center, then corners 0, 2, 6, 8, then edges 1, 3, 5, 7.
pub open spec fn preferred_cell(rank: int) -> int {
    if rank == 0 {
        4
    } else if rank == 1 {
        0
    } else if rank == 2 {
        2
    } else if rank == 3 {
        6
    } else if rank == 4 {
        8
    } else if rank == 5 {
        1
    } else if rank == 6 {
        3
    } else if rank == 7 {
        5
    } else {
        7
    }
}

/// The rank of cell `i` in the order of preference.
pub open spec fn preference_rank(i: int) -> int {
    if i == 4 {
        0
    } else if i == 0 {
        1
    } else if i == 2 {
        2
    } else if i == 6 {
        3
    } else if i == 8 {
        4
    } else if i == 1 {
        5
    } else if i == 3 {
        6
    } else if i == 5 {
        7
    } else {
        8
    }
}

/// `i` is the empty cell that comes first in the order of preference.
pub open spec fn is_first_free_preferred(cells: Seq<Cell>, i: int) -> bool {
    &&& 0 <= i < CELL_COUNT
    &&& cells[i] == Cell::Empty
    &&& forall|q: int| 0 <= q < preference_rank(i) ==> cells[preferred_cell(q)] != Cell::Empty
}

/// `i` is the move that the heuristic picks for `acting` against `opposing`:
/// the first winning cell, else the first cell that blocks the opponent, else
/// the first free cell in the order of preference.
pub open spec fn is_selected_move(cells: Seq<Cell>, acting: Side, opposing: Side, i: int) -> bool {
    &&& 0 <= i < CELL_COUNT
    &&& cells[i] == Cell::Empty
    &&& can_win(cells, acting) ==> is_first_winning(cells, acting, i)
    &&& !can_win(cells, acting) && can_win(cells, opposing) ==> is_first_winning(cells, opposing, i)
    &&& !can_win(cells, acting) && !can_win(cells, opposing) ==> is_first_free_preferred(cells, i)
}

/// The heuristic leaves no choice open: one board and one pair of sides
/// admit a single selected move.
pub proof fn lemma_selected_move_unique(
    cells: Seq<Cell>,
    acting: Side,
    opposing: Side,
    i: int,
    j: int,
)
    requires
        is_selected_move(cells, acting, opposing, i),
        is_selected_move(cells, acting, opposing, j),
    ensures
        i == j,
{
    if !can_win(cells, acting) && !can_win(cells, opposing) {
        assert(preferred_cell(preference_rank(i)) == i);
        assert(preferred_cell(preference_rank(j)) == j);
        if preference_rank(i) < preference_rank(j) {
            assert(cells[preferred_cell(preference_rank(i))] != Cell::Empty);
        } else if preference_rank(j) < preference_rank(i) {
            assert(cells[preferred_cell(preference_rank(j))] != Cell::Empty);
        }
    }
}

/// The cell of rank `rank` in the order of preference.
fn preferred_cell_index(rank: usize) -> (r: usize)
    requires
        rank < CELL_COUNT,
    ensures
        r as int == preferred_cell(rank as int),
        preference_rank(r as int) == rank,
        r < CELL_COUNT,
{
    match rank {
        0 => 4,
        1 => 0,
        2 => 2,
        3 => 6,
        4 => 8,
        5 => 1,
        6 => 3,
        7 => 5,
        _ => 7,
    }
}

impl Board {
    /// The smallest index of an empty cell where `side` would win at once,
    /// found by trying each empty cell on a copy of the board.
    pub fn find_winning_move(&self, side: Side) -> (r: Option<usize>)
        ensures
            r matches Some(i) ==> is_first_winning(self@, side, i as int),
            r is None <==> !can_win(self@, side),
    {
        let mut i: usize = 0;
        while i < CELL_COUNT
            invariant
                i <= CELL_COUNT,
                self@.len() == CELL_COUNT,
                forall|j: int| 0 <= j < i ==> !wins_if_placed(self@, j, side),
            decreases CELL_COUNT - i,
        {
            let mut future = *self;
            if future.apply_move(i, side).is_ok() {
                if future.evaluate() == GameState::Win(side) {
                    assert(wins_if_placed(self@, i as int, side));
                    return Some(i);
                }
            }
            i += 1;
        }
        None
    }

    /// The cell that the automated heuristic picks for `acting`, playing
    /// against `opposing`. The board must have an empty cell.
    pub fn select_move(&self, acting: Side, opposing: Side) -> (r: usize)
        requires
            has_empty(self@),
        ensures
            is_selected_move(self@, acting, opposing, r as int),
            r < CELL_COUNT,
            self@[r as int] == Cell::Empty,
            can_win(self@, acting) ==> is_first_winning(self@, acting, r as int),
            !can_win(self@, acting) && can_win(self@, opposing) ==> is_first_winning(
                self@,
                opposing,
                r as int,
            ),
            !can_win(self@, acting) && !can_win(self@, opposing) && self@[4] == Cell::Empty ==> r
                == 4,
    {
        if let Some(i) = self.find_winning_move(acting) {
            return i;
        }
        if let Some(j) = self.find_winning_move(opposing) {
            return j;
        }
        let mut rank: usize = 0;
        while rank < CELL_COUNT
            invariant
                rank <= CELL_COUNT,
                self@.len() == CELL_COUNT,
                !can_win(self@, acting),
                !can_win(self@, opposing),
                forall|q: int| 0 <= q < rank ==> self@[preferred_cell(q)] != Cell::Empty,
            decreases CELL_COUNT - rank,
        {
            let c = preferred_cell_index(rank);
            if self.is_free(c) {
                assert(rank > 0 ==> self@[preferred_cell(0)] != Cell::Empty);
                return c;
            }
            rank += 1;
        }
        proof {
            let i = choose|i: int| 0 <= i < self@.len() && self@[i] == Cell::Empty;
            assert(preferred_cell(preference_rank(i)) == i);
        }
        0
    }

    /// The automated player's turn against the human: picks the cell with
    /// `select_move`, occupies it, and returns its index.
    pub fn cpu_turn(&mut self) -> (r: usize)
        requires
            has_empty(old(self)@),
        ensures
            is_selected_move(old(self)@, Side::Automated, Side::Human, r as int),
            final(self)@ == old(self)@.update(r as int, Cell::Occupied(Side::Automated)),
    {
        let best = self.select_move(Side::Automated, Side::Human);
        let placed = self.apply_move(best, Side::Automated);
        assert(placed is Ok);
        best
    }
}

} // verus!
