//! The cell grid and the generation-step rule.
//!
//! Cells live on a fixed `GRID_WIDTH` x `GRID_HEIGHT` board. A cell's
//! neighborhood is its up-to-8 adjacent cells (Moore neighborhood); positions
//! outside the board contribute nothing, so there is no wraparound.

use vstd::prelude::*;
use crate::chance::bernoulli;

verus! {

broadcast use vstd::seq_lib::lemma_seq_contains_after_push;

/// Number of cell columns.
pub const GRID_WIDTH: usize = 50;
/// Number of cell rows.
pub const GRID_HEIGHT: usize = 50;
/// Edge length, in pixels, of the square drawn for one cell.
pub const CELL_SIZE: usize = 10;
/// Numerator of the chance that a freshly seeded cell starts alive.
pub const SEED_CHANCE_NUM: u32 = 1;
/// Denominator of the chance that a freshly seeded cell starts alive.
pub const SEED_CHANCE_DEN: u32 = 10;

/// A fixed-size board of boolean cells, stored column-major: the cell at
/// `(x, y)` sits at index `x * GRID_HEIGHT + y` of the flat buffer.
pub struct Grid {
    cells: Vec<bool>,
}

/// Whether `(x, y)` names a cell of the board.
pub open spec fn in_bounds(x: int, y: int) -> bool {
    0 <= x < GRID_WIDTH as int && 0 <= y < GRID_HEIGHT as int
}

/// Index of position `p` in the flat column-major buffer.
pub open spec fn pair_index(p: (usize, usize)) -> int {
    p.0 * GRID_HEIGHT + p.1
}

impl View for Grid {
    type V = Seq<bool>;

    closed spec fn view(&self) -> Seq<bool> {
        self.cells@
    }
}

impl Grid {
    /// The board always holds exactly one cell per in-bounds position.
    pub open spec fn wf(self) -> bool {
        self@.len() == GRID_WIDTH * GRID_HEIGHT
    }

    /// The cell at `(x, y)` is alive.
    pub open spec fn alive(self, x: int, y: int) -> bool {
        self@[x * GRID_HEIGHT as int + y]
    }

    /// 1 if `(x, y)` is an in-bounds live cell, else 0. Out-of-bounds
    /// positions contribute 0, which is what rules out wraparound.
    pub open spec fn occupancy(self, x: int, y: int) -> int {
        if in_bounds(x, y) && self.alive(x, y) {
            1int
        } else {
            0int
        }
    }

    /// How many of the up-to-8 Moore neighbors of `(x, y)` are alive.
    pub open spec fn live_neighbors(self, x: int, y: int) -> int {
        self.occupancy(x - 1, y - 1) + self.occupancy(x, y - 1) + self.occupancy(x + 1, y - 1)
            + self.occupancy(x - 1, y) + self.occupancy(x + 1, y)
            + self.occupancy(x - 1, y + 1) + self.occupancy(x, y + 1) + self.occupancy(
            x + 1,
            y + 1,
        )
    }

    /// The life-and-death rule: a live cell survives on exactly 2 or 3 live
    /// neighbors, a dead cell is born on exactly 3.
    pub open spec fn next_alive(self, x: int, y: int) -> bool {
        if self.alive(x, y) {
            self.live_neighbors(x, y) == 2 || self.live_neighbors(x, y) == 3
        } else {
            self.live_neighbors(x, y) == 3
        }
    }

    /// `next` is the generation that follows `self`: every cell of `next` is
    /// what the rule yields on `self`, all cells judged against the same
    /// starting board.
    pub open spec fn steps_to(self, next: Grid) -> bool {
        &&& next.wf()
        &&& forall|x: int, y: int|
            in_bounds(x, y) ==> next.alive(x, y) == self.next_alive(x, y)
    }

    /// Seed a board whose cells are each, independently, alive with chance
    /// `num / den`. Only the degenerate chances pin the outcome: zero seeds
    /// an all-dead board, one (or more) an all-alive board.
    #[verifier::loop_isolation(false)]
    pub fn new_with_chance(num: u32, den: u32) -> (g: Grid)
        requires
            den > 0,
        ensures
            g.wf(),
            num == 0 ==> forall|x: int, y: int| in_bounds(x, y) ==> !g.alive(x, y),
            num >= den ==> forall|x: int, y: int| in_bounds(x, y) ==> g.alive(x, y),
    {
        let mut cells: Vec<bool> = Vec::new();
        let mut i: usize = 0;
        while i < GRID_WIDTH * GRID_HEIGHT
            invariant
                i <= GRID_WIDTH * GRID_HEIGHT,
                cells@.len() == i,
                forall|k: int|
                    0 <= k < i ==> {
                        &&& num == 0 ==> !cells@[k]
                        &&& num >= den ==> cells@[k]
                    },
            decreases GRID_WIDTH * GRID_HEIGHT - i,
        {
            cells.push(bernoulli(num, den));
            i = i + 1;
        }
        Grid { cells }
    }

    /// Seed a board with the fixed starting chance of one in ten per cell.
    pub fn new() -> (g: Grid)
        ensures
            g.wf(),
    {
        Grid::new_with_chance(SEED_CHANCE_NUM, SEED_CHANCE_DEN)
    }

    /// Read-only view of the whole board for a renderer: the flat buffer,
    /// column-major, with the cell at `(x, y)` at index
    /// `x * GRID_HEIGHT + y`.
    pub fn snapshot(&self) -> (s: &Vec<bool>)
        ensures
            s@ == self@,
    {
        &self.cells
    }

    /// The positions of every live cell, in increasing column-major order:
    /// exactly the cells a renderer must draw.
    #[verifier::loop_isolation(false)]
    pub fn live_cells(&self) -> (v: Vec<(usize, usize)>)
        requires
            self.wf(),
        ensures
            forall|i: int|
                0 <= i < v@.len() ==> in_bounds(v@[i].0 as int, v@[i].1 as int) && self.alive(
                    v@[i].0 as int,
                    v@[i].1 as int,
                ),
            forall|x: int, y: int|
                in_bounds(x, y) && self.alive(x, y) ==> v@.contains((x as usize, y as usize)),
            forall|i: int, j: int|
                0 <= i < j < v@.len() ==> pair_index(v@[i]) < pair_index(v@[j]),
    {
        let mut v: Vec<(usize, usize)> = Vec::new();
        let mut x: usize = 0;
        while x < GRID_WIDTH
            invariant
                x <= GRID_WIDTH,
                forall|i: int|
                    0 <= i < v@.len() ==> in_bounds(v@[i].0 as int, v@[i].1 as int) && self.alive(
                        v@[i].0 as int,
                        v@[i].1 as int,
                    ),
                forall|a: int, b: int|
                    0 <= a < x && 0 <= b < GRID_HEIGHT && self.alive(a, b) ==> v@.contains(
                        (a as usize, b as usize),
                    ),
                forall|i: int|
                    0 <= i < v@.len() ==> pair_index(v@[i]) < x * GRID_HEIGHT,
                forall|i: int, j: int|
                    0 <= i < j < v@.len() ==> pair_index(v@[i]) < pair_index(v@[j]),
            decreases GRID_WIDTH - x,
        {
            let mut y: usize = 0;
            while y < GRID_HEIGHT
                invariant
                    x < GRID_WIDTH,
                    y <= GRID_HEIGHT,
                    forall|i: int|
                        0 <= i < v@.len() ==> in_bounds(v@[i].0 as int, v@[i].1 as int)
                            && self.alive(v@[i].0 as int, v@[i].1 as int),
                    forall|a: int, b: int|
                        0 <= a < x && 0 <= b < GRID_HEIGHT && self.alive(a, b) ==> v@.contains(
                            (a as usize, b as usize),
                        ),
                    forall|b: int|
                        0 <= b < y && self.alive(x as int, b) ==> v@.contains((x, b as usize)),
                    forall|i: int|
                        0 <= i < v@.len() ==> pair_index(v@[i]) < x * GRID_HEIGHT + y,
                    forall|i: int, j: int|
                        0 <= i < j < v@.len() ==> pair_index(v@[i]) < pair_index(v@[j]),
                decreases GRID_HEIGHT - y,
            {
                if self.is_alive(x, y) {
                    v.push((x, y));
                }
                y = y + 1;
            }
            x = x + 1;
        }
        v
    }

    /// Read one cell.
    pub fn is_alive(&self, x: usize, y: usize) -> (b: bool)
        requires
            self.wf(),
            x < GRID_WIDTH,
            y < GRID_HEIGHT,
        ensures
            b == self.alive(x as int, y as int),
    {
        self.cells[x * GRID_HEIGHT + y]
    }

    /// How many of the up-to-8 Moore neighbors of `(x, y)` are alive,
    /// counting in-bounds cells only.
    fn count_live_neighbors(&self, x: usize, y: usize) -> (c: u8)
        requires
            self.wf(),
            x < GRID_WIDTH,
            y < GRID_HEIGHT,
        ensures
            c as int == self.live_neighbors(x as int, y as int),
    {
        let mut c: u8 = 0;
        if x > 0 && y > 0 && self.is_alive(x - 1, y - 1) {
            c = c + 1;
        }
        if y > 0 && self.is_alive(x, y - 1) {
            c = c + 1;
        }
        if x + 1 < GRID_WIDTH && y > 0 && self.is_alive(x + 1, y - 1) {
            c = c + 1;
        }
        if x > 0 && self.is_alive(x - 1, y) {
            c = c + 1;
        }
        if x + 1 < GRID_WIDTH && self.is_alive(x + 1, y) {
            c = c + 1;
        }
        if x > 0 && y + 1 < GRID_HEIGHT && self.is_alive(x - 1, y + 1) {
            c = c + 1;
        }
        if y + 1 < GRID_HEIGHT && self.is_alive(x, y + 1) {
            c = c + 1;
        }
        if x + 1 < GRID_WIDTH && y + 1 < GRID_HEIGHT && self.is_alive(x + 1, y + 1) {
            c = c + 1;
        }
        c
    }

    /// Advance the board by one generation. Every cell is judged against the
    /// starting board, so the replacement is simultaneous: no cell ever sees
    /// a neighbor that was already updated this step.
    #[verifier::loop_isolation(false)]
    pub fn step(&mut self)
        requires
            old(self).wf(),
        ensures
            old(self).steps_to(*final(self)),
    {
        let mut next: Vec<bool> = Vec::new();
        let mut x: usize = 0;
        while x < GRID_WIDTH
            invariant
                x <= GRID_WIDTH,
                next@.len() == x * GRID_HEIGHT,
                forall|a: int, b: int|
                    0 <= a < x && 0 <= b < GRID_HEIGHT ==> next@[a * GRID_HEIGHT as int + b]
                        == self.next_alive(a, b),
            decreases GRID_WIDTH - x,
        {
            let mut y: usize = 0;
            while y < GRID_HEIGHT
                invariant
                    x < GRID_WIDTH,
                    y <= GRID_HEIGHT,
                    next@.len() == x * GRID_HEIGHT + y,
                    forall|a: int, b: int|
                        0 <= a < x && 0 <= b < GRID_HEIGHT ==> next@[a * GRID_HEIGHT as int + b]
                            == self.next_alive(a, b),
                    forall|b: int|
                        0 <= b < y ==> next@[x as int * GRID_HEIGHT as int + b]
                            == self.next_alive(x as int, b),
                decreases GRID_HEIGHT - y,
            {
                let alive_now = self.is_alive(x, y);
                let n = self.count_live_neighbors(x, y);
                let born = if alive_now {
                    n == 2 || n == 3
                } else {
                    n == 3
                };
                next.push(born);
                y = y + 1;
            }
            x = x + 1;
        }
        self.cells = next;
    }

    /// Pixel size of a window that shows the whole board, one
    /// `CELL_SIZE`-sided square per cell.
    pub fn window_size() -> (s: (u32, u32))
        ensures
            s.0 as int == GRID_WIDTH as int * CELL_SIZE as int,
            s.1 as int == GRID_HEIGHT as int * CELL_SIZE as int,
    {
        ((GRID_WIDTH * CELL_SIZE) as u32, (GRID_HEIGHT * CELL_SIZE) as u32)
    }

    /// Overwrite one cell, leaving every other cell as it was.
    pub fn set_cell(&mut self, x: usize, y: usize, v: bool)
        requires
            old(self).wf(),
            x < GRID_WIDTH,
            y < GRID_HEIGHT,
        ensures
            final(self).wf(),
            final(self).alive(x as int, y as int) == v,
            forall|a: int, b: int|
                in_bounds(a, b) && !(a == x as int && b == y as int) ==> final(self).alive(a, b)
                    == old(self).alive(a, b),
    {
        self.cells.set(x * GRID_HEIGHT + y, v);
    }
}

} // verus!
