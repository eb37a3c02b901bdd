//! General facts about the step rule: classic still-life and oscillator
//! behavior, absence of spontaneous life, hard boundaries, and determinism.

use vstd::prelude::*;
use crate::grid::Grid;
use crate::grid::in_bounds;
use crate::grid::GRID_HEIGHT;
use crate::grid::GRID_WIDTH;

verus! {

/// Every cell of the board is dead.
pub open spec fn all_dead(g: Grid) -> bool {
    forall|x: int, y: int| in_bounds(x, y) ==> !g.alive(x, y)
}

/// No spontaneous life: one step of an all-dead board leaves every cell dead.
pub proof fn lemma_no_spontaneous_life(g: Grid, h: Grid)
    requires
        g.wf(),
        all_dead(g),
        g.steps_to(h),
    ensures
        all_dead(h),
{
    assert forall|x: int, y: int| in_bounds(x, y) implies !h.alive(x, y) by {
        assert(g.occupancy(x - 1, y - 1) == 0);
        assert(g.occupancy(x, y - 1) == 0);
        assert(g.occupancy(x + 1, y - 1) == 0);
        assert(g.occupancy(x - 1, y) == 0);
        assert(g.occupancy(x + 1, y) == 0);
        assert(g.occupancy(x - 1, y + 1) == 0);
        assert(g.occupancy(x, y + 1) == 0);
        assert(g.occupancy(x + 1, y + 1) == 0);
        assert(g.live_neighbors(x, y) == 0);
    }
}

/// Birth rule: a dead cell with exactly 3 live neighbors is alive in the
/// next generation.
pub proof fn lemma_birth_rule(g: Grid, h: Grid, x: int, y: int)
    requires
        g.wf(),
        g.steps_to(h),
        in_bounds(x, y),
        !g.alive(x, y),
        g.live_neighbors(x, y) == 3,
    ensures
        h.alive(x, y),
{
}

/// Survival rule: a live cell is alive in the next generation exactly when
/// it has 2 or 3 live neighbors.
pub proof fn lemma_survival_rule(g: Grid, h: Grid, x: int, y: int)
    requires
        g.wf(),
        g.steps_to(h),
        in_bounds(x, y),
        g.alive(x, y),
    ensures
        h.alive(x, y) == (g.live_neighbors(x, y) == 2 || g.live_neighbors(x, y) == 3),
{
}

/// Hard boundaries: the corner cell (0, 0) has only 3 positions adjacent to
/// it on the board, and only those are ever counted — cells on the far edges
/// contribute nothing, so there is no wraparound.
pub proof fn lemma_corner_counts_only_in_bounds(g: Grid)
    requires
        g.wf(),
    ensures
        g.live_neighbors(0, 0) == g.occupancy(1, 0) + g.occupancy(0, 1) + g.occupancy(1, 1),
{
    assert(g.occupancy(-1, -1) == 0);
    assert(g.occupancy(0, -1) == 0);
    assert(g.occupancy(1, -1) == 0);
    assert(g.occupancy(-1, 0) == 0);
    assert(g.occupancy(-1, 1) == 0);
}

/// Whether `(x, y)` is one of the four cells of the 2x2 block whose lower
/// corner is `(x0, y0)`.
pub open spec fn in_block(x0: int, y0: int, x: int, y: int) -> bool {
    x0 <= x <= x0 + 1 && y0 <= y <= y0 + 1
}

/// Exactly the four cells of a 2x2 block with lower corner `(x0, y0)` are
/// alive, and the block touches no boundary.
pub open spec fn block_at(g: Grid, x0: int, y0: int) -> bool {
    &&& g.wf()
    &&& 1 <= x0 && x0 + 2 < GRID_WIDTH as int
    &&& 1 <= y0 && y0 + 2 < GRID_HEIGHT as int
    &&& forall|x: int, y: int| in_bounds(x, y) ==> (#[trigger] g.alive(x, y) <==> in_block(x0, y0, x, y))
}

/// Still life: a lone block persists unchanged through one step.
pub proof fn lemma_block_is_still_life(g: Grid, h: Grid, x0: int, y0: int)
    requires
        block_at(g, x0, y0),
        g.steps_to(h),
    ensures
        block_at(h, x0, y0),
        h@ == g@,
{
    assert forall|x: int, y: int| in_bounds(x, y) implies h.alive(x, y) == g.alive(x, y) by {
        assert(g.occupancy(x - 1, y - 1) == (if in_block(x0, y0, x - 1, y - 1) {
            1int
        } else {
            0int
        }));
        assert(g.occupancy(x, y - 1) == (if in_block(x0, y0, x, y - 1) {
            1int
        } else {
            0int
        }));
        assert(g.occupancy(x + 1, y - 1) == (if in_block(x0, y0, x + 1, y - 1) {
            1int
        } else {
            0int
        }));
        assert(g.occupancy(x - 1, y) == (if in_block(x0, y0, x - 1, y) {
            1int
        } else {
            0int
        }));
        assert(g.occupancy(x + 1, y) == (if in_block(x0, y0, x + 1, y) {
            1int
        } else {
            0int
        }));
        assert(g.occupancy(x - 1, y + 1) == (if in_block(x0, y0, x - 1, y + 1) {
            1int
        } else {
            0int
        }));
        assert(g.occupancy(x, y + 1) == (if in_block(x0, y0, x, y + 1) {
            1int
        } else {
            0int
        }));
        assert(g.occupancy(x + 1, y + 1) == (if in_block(x0, y0, x + 1, y + 1) {
            1int
        } else {
            0int
        }));
        assert(g.next_alive(x, y) == g.alive(x, y));
    }
    lemma_cellwise_equal_views(h, g);
}

/// The margin a blinker centered at `(cx, cy)` needs: every cell it ever
/// occupies, in either orientation, lies on the board.
pub open spec fn blinker_margins(cx: int, cy: int) -> bool {
    1 <= cx && cx + 1 < GRID_WIDTH as int && 1 <= cy && cy + 1 < GRID_HEIGHT as int
}

/// Whether `(x, y)` is one of the three cells of the horizontal blinker
/// centered at `(cx, cy)`.
pub open spec fn in_horizontal_blinker(cx: int, cy: int, x: int, y: int) -> bool {
    y == cy && cx - 1 <= x <= cx + 1
}

/// Whether `(x, y)` is one of the three cells of the vertical blinker
/// centered at `(cx, cy)`.
pub open spec fn in_vertical_blinker(cx: int, cy: int, x: int, y: int) -> bool {
    x == cx && cy - 1 <= y <= cy + 1
}

/// Exactly the three cells of a horizontal blinker centered at `(cx, cy)`
/// are alive.
pub open spec fn horizontal_blinker_at(g: Grid, cx: int, cy: int) -> bool {
    &&& g.wf()
    &&& blinker_margins(cx, cy)
    &&& forall|x: int, y: int|
        in_bounds(x, y) ==> (#[trigger] g.alive(x, y) <==> in_horizontal_blinker(cx, cy, x, y))
}

/// Exactly the three cells of a vertical blinker centered at `(cx, cy)` are
/// alive.
pub open spec fn vertical_blinker_at(g: Grid, cx: int, cy: int) -> bool {
    &&& g.wf()
    &&& blinker_margins(cx, cy)
    &&& forall|x: int, y: int|
        in_bounds(x, y) ==> (#[trigger] g.alive(x, y) <==> in_vertical_blinker(cx, cy, x, y))
}

/// One step turns a horizontal blinker into the vertical blinker with the
/// same center.
pub proof fn lemma_blinker_horizontal_to_vertical(g: Grid, h: Grid, cx: int, cy: int)
    requires
        horizontal_blinker_at(g, cx, cy),
        g.steps_to(h),
    ensures
        vertical_blinker_at(h, cx, cy),
{
    assert forall|x: int, y: int| in_bounds(x, y) implies (h.alive(x, y)
        <==> in_vertical_blinker(cx, cy, x, y)) by {
        assert(g.occupancy(x - 1, y - 1) == (if in_horizontal_blinker(cx, cy, x - 1, y - 1) {
            1int
        } else {
            0int
        }));
        assert(g.occupancy(x, y - 1) == (if in_horizontal_blinker(cx, cy, x, y - 1) {
            1int
        } else {
            0int
        }));
        assert(g.occupancy(x + 1, y - 1) == (if in_horizontal_blinker(cx, cy, x + 1, y - 1) {
            1int
        } else {
            0int
        }));
        assert(g.occupancy(x - 1, y) == (if in_horizontal_blinker(cx, cy, x - 1, y) {
            1int
        } else {
            0int
        }));
        assert(g.occupancy(x + 1, y) == (if in_horizontal_blinker(cx, cy, x + 1, y) {
            1int
        } else {
            0int
        }));
        assert(g.occupancy(x - 1, y + 1) == (if in_horizontal_blinker(cx, cy, x - 1, y + 1) {
            1int
        } else {
            0int
        }));
        assert(g.occupancy(x, y + 1) == (if in_horizontal_blinker(cx, cy, x, y + 1) {
            1int
        } else {
            0int
        }));
        assert(g.occupancy(x + 1, y + 1) == (if in_horizontal_blinker(cx, cy, x + 1, y + 1) {
            1int
        } else {
            0int
        }));
        assert(h.alive(x, y) == g.next_alive(x, y));
    }
}

/// One step turns a vertical blinker into the horizontal blinker with the
/// same center.
pub proof fn lemma_blinker_vertical_to_horizontal(g: Grid, h: Grid, cx: int, cy: int)
    requires
        vertical_blinker_at(g, cx, cy),
        g.steps_to(h),
    ensures
        horizontal_blinker_at(h, cx, cy),
{
    assert forall|x: int, y: int| in_bounds(x, y) implies (h.alive(x, y)
        <==> in_horizontal_blinker(cx, cy, x, y)) by {
        assert(g.occupancy(x - 1, y - 1) == (if in_vertical_blinker(cx, cy, x - 1, y - 1) {
            1int
        } else {
            0int
        }));
        assert(g.occupancy(x, y - 1) == (if in_vertical_blinker(cx, cy, x, y - 1) {
            1int
        } else {
            0int
        }));
        assert(g.occupancy(x + 1, y - 1) == (if in_vertical_blinker(cx, cy, x + 1, y - 1) {
            1int
        } else {
            0int
        }));
        assert(g.occupancy(x - 1, y) == (if in_vertical_blinker(cx, cy, x - 1, y) {
            1int
        } else {
            0int
        }));
        assert(g.occupancy(x + 1, y) == (if in_vertical_blinker(cx, cy, x + 1, y) {
            1int
        } else {
            0int
        }));
        assert(g.occupancy(x - 1, y + 1) == (if in_vertical_blinker(cx, cy, x - 1, y + 1) {
            1int
        } else {
            0int
        }));
        assert(g.occupancy(x, y + 1) == (if in_vertical_blinker(cx, cy, x, y + 1) {
            1int
        } else {
            0int
        }));
        assert(g.occupancy(x + 1, y + 1) == (if in_vertical_blinker(cx, cy, x + 1, y + 1) {
            1int
        } else {
            0int
        }));
        assert(h.alive(x, y) == g.next_alive(x, y));
    }
}

/// A blinker oscillates with period 2: after one step it stands in the other
/// orientation, after two it is back, cell for cell, where it began.
pub proof fn lemma_blinker_period_two(g0: Grid, g1: Grid, g2: Grid, cx: int, cy: int)
    requires
        horizontal_blinker_at(g0, cx, cy),
        g0.steps_to(g1),
        g1.steps_to(g2),
    ensures
        vertical_blinker_at(g1, cx, cy),
        horizontal_blinker_at(g2, cx, cy),
        g2@ == g0@,
{
    lemma_blinker_horizontal_to_vertical(g0, g1, cx, cy);
    lemma_blinker_vertical_to_horizontal(g1, g2, cx, cy);
    lemma_cellwise_equal_views(g2, g0);
}

/// Two well-formed boards that agree on every in-bounds cell hold equal
/// buffers.
pub proof fn lemma_cellwise_equal_views(a: Grid, b: Grid)
    requires
        a.wf(),
        b.wf(),
        forall|x: int, y: int| in_bounds(x, y) ==> a.alive(x, y) == b.alive(x, y),
    ensures
        a@ == b@,
{
    assert forall|i: int| 0 <= i < a@.len() implies a@[i] == b@[i] by {
        let x = i / (GRID_HEIGHT as int);
        let y = i % (GRID_HEIGHT as int);
        vstd::arithmetic::div_mod::lemma_fundamental_div_mod(i, GRID_HEIGHT as int);
        assert(in_bounds(x, y));
        assert(a.alive(x, y) == b.alive(x, y));
    }
    assert(a@ =~= b@);
}

/// Determinism: stepping reads nothing but the cells, so boards with equal
/// buffers step to boards with equal buffers.
pub proof fn lemma_step_deterministic(g1: Grid, g2: Grid, h1: Grid, h2: Grid)
    requires
        g1.wf(),
        g2.wf(),
        g1@ == g2@,
        g1.steps_to(h1),
        g2.steps_to(h2),
    ensures
        h1@ == h2@,
{
    assert(forall|a: int, b: int| g1.alive(a, b) == g2.alive(a, b));
    assert forall|x: int, y: int| in_bounds(x, y) implies h1.alive(x, y) == h2.alive(x, y) by {
        assert(g1.live_neighbors(x, y) == g2.live_neighbors(x, y));
        assert(g1.next_alive(x, y) == g2.next_alive(x, y));
    }
    lemma_cellwise_equal_views(h1, h2);
}

} // verus!
