//! The diff renderer: compares two frame snapshots and computes the minimal
//! ordered list of display writes — every cell on a forced repaint, and only
//! the changed cells otherwise. The display sink itself lives outside; it
//! performs exactly the writes listed here.

use vstd::prelude::*;

verus! {

use crate::NUM_COLS;
use crate::NUM_ROWS;
use crate::frame::Cell;
use crate::frame::Frame;
use crate::frame::cell_at;
use crate::frame::frame_wf;

/// Whether the cell at `(x, y)` must be written to the display.
pub open spec fn write_needed(last: Frame, curr: Frame, force: bool, x: int, y: int) -> bool {
    force || cell_at(last, x, y) != cell_at(curr, x, y)
}

/// The ordered write list over the first `n` cells in column-major order,
/// cell `k` being column `k / NUM_ROWS`, row `k % NUM_ROWS`.
pub open spec fn write_list(last: Frame, curr: Frame, force: bool, n: nat) -> Seq<
    (usize, usize, Cell),
>
    decreases n,
{
    if n == 0 {
        Seq::empty()
    } else {
        let k = n - 1;
        let x = k / (NUM_ROWS as int);
        let y = k % (NUM_ROWS as int);
        let rest = write_list(last, curr, force, (n - 1) as nat);
        if write_needed(last, curr, force, x, y) {
            rest.push((x as usize, y as usize, cell_at(curr, x, y)))
        } else {
            rest
        }
    }
}

/// The full write list of one render pass.
pub open spec fn render_writes(last: Frame, curr: Frame, force: bool) -> Seq<(usize, usize, Cell)> {
    write_list(last, curr, force, (NUM_COLS * NUM_ROWS) as nat)
}

/// Computes the writes one render pass sends to the display: every cell when
/// forced, only the cells whose symbol changed otherwise, each with the
/// current symbol, in column-major order.
pub fn diff_writes(last: &Frame, curr: &Frame, force: bool) -> (w: Vec<(usize, usize, Cell)>)
    requires
        frame_wf(*last),
        frame_wf(*curr),
    ensures
        w@ == render_writes(*last, *curr, force),
{
    let mut w: Vec<(usize, usize, Cell)> = Vec::new();
    let mut x: usize = 0;
    while x < NUM_COLS
        invariant
            x <= NUM_COLS,
            frame_wf(*last),
            frame_wf(*curr),
            w@ == write_list(*last, *curr, force, (x * NUM_ROWS) as nat),
        decreases NUM_COLS - x,
    {
        let mut y: usize = 0;
        while y < NUM_ROWS
            invariant
                y <= NUM_ROWS,
                x < NUM_COLS,
                frame_wf(*last),
                frame_wf(*curr),
                w@ == write_list(*last, *curr, force, (x * NUM_ROWS + y) as nat),
            decreases NUM_ROWS - y,
        {
            proof {
                let k = (x * NUM_ROWS + y) as int;
                assert(k / (NUM_ROWS as int) == x as int && k % (NUM_ROWS as int) == y as int)
                    by (nonlinear_arith)
                    requires
                        k == x * NUM_ROWS + y,
                        0 <= y < NUM_ROWS,
                        0 <= x,
                        NUM_ROWS == 20,
                ;
            }
            if force || !cells_equal(last[x][y], curr[x][y]) {
                w.push((x, y, curr[x][y]));
            }
            y = y + 1;
        }
        x = x + 1;
    }
    w
}

fn cells_equal(a: Cell, b: Cell) -> (r: bool)
    ensures
        r == (a == b),
{
    a == b
}

proof fn lemma_write_list_unchanged(last: Frame, curr: Frame, n: nat)
    requires
        n <= NUM_COLS * NUM_ROWS,
        forall|x: int, y: int|
            0 <= x < NUM_COLS && 0 <= y < NUM_ROWS ==> cell_at(last, x, y) == #[trigger] cell_at(
                curr,
                x,
                y,
            ),
    ensures
        write_list(last, curr, false, n).len() == 0,
    decreases n,
{
    if n > 0 {
        let k = n - 1;
        let x = k / (NUM_ROWS as int);
        let y = k % (NUM_ROWS as int);
        assert(0 <= x < NUM_COLS && 0 <= y < NUM_ROWS) by (nonlinear_arith)
            requires
                0 <= k < NUM_COLS * NUM_ROWS,
                x == k / (NUM_ROWS as int),
                y == k % (NUM_ROWS as int),
                NUM_ROWS == 20,
                NUM_COLS == 40,
        ;
        lemma_write_list_unchanged(last, curr, (n - 1) as nat);
    }
}

/// Law: two identical frames produce no writes when the repaint is not
/// forced.
pub proof fn lemma_render_identical_writes_nothing(last: Frame, curr: Frame)
    requires
        forall|x: int, y: int|
            0 <= x < NUM_COLS && 0 <= y < NUM_ROWS ==> cell_at(last, x, y) == #[trigger] cell_at(
                curr,
                x,
                y,
            ),
    ensures
        render_writes(last, curr, false).len() == 0,
{
    lemma_write_list_unchanged(last, curr, (NUM_COLS * NUM_ROWS) as nat);
}

proof fn lemma_write_list_single(last: Frame, curr: Frame, x0: int, y0: int, n: nat)
    requires
        n <= NUM_COLS * NUM_ROWS,
        0 <= x0 < NUM_COLS,
        0 <= y0 < NUM_ROWS,
        cell_at(last, x0, y0) != cell_at(curr, x0, y0),
        forall|x: int, y: int|
            0 <= x < NUM_COLS && 0 <= y < NUM_ROWS && !(x == x0 && y == y0) ==> cell_at(last, x, y)
                == #[trigger] cell_at(curr, x, y),
    ensures
        write_list(last, curr, false, n).len() == (if n > x0 * NUM_ROWS + y0 {
            1int
        } else {
            0int
        }),
        n > x0 * NUM_ROWS + y0 ==> write_list(last, curr, false, n)[0] == (
            x0 as usize,
            y0 as usize,
            cell_at(curr, x0, y0),
        ),
    decreases n,
{
    if n > 0 {
        let k = n - 1;
        let x = k / (NUM_ROWS as int);
        let y = k % (NUM_ROWS as int);
        assert(0 <= x < NUM_COLS && 0 <= y < NUM_ROWS && k == x * NUM_ROWS + y && ((x == x0 && y
            == y0) <==> k == x0 * NUM_ROWS + y0)) by (nonlinear_arith)
            requires
                0 <= k < NUM_COLS * NUM_ROWS,
                x == k / (NUM_ROWS as int),
                y == k % (NUM_ROWS as int),
                0 <= x0 < NUM_COLS,
                0 <= y0 < NUM_ROWS,
                NUM_ROWS == 20,
                NUM_COLS == 40,
        ;
        lemma_write_list_single(last, curr, x0, y0, (n - 1) as nat);
    }
}

/// Law: two frames that differ in exactly one cell produce exactly one
/// write — that cell with its new symbol — when the repaint is not forced.
pub proof fn lemma_render_single_change_single_write(last: Frame, curr: Frame, x0: int, y0: int)
    requires
        0 <= x0 < NUM_COLS,
        0 <= y0 < NUM_ROWS,
        cell_at(last, x0, y0) != cell_at(curr, x0, y0),
        forall|x: int, y: int|
            0 <= x < NUM_COLS && 0 <= y < NUM_ROWS && !(x == x0 && y == y0) ==> cell_at(last, x, y)
                == #[trigger] cell_at(curr, x, y),
    ensures
        render_writes(last, curr, false).len() == 1,
        render_writes(last, curr, false)[0] == (x0 as usize, y0 as usize, cell_at(curr, x0, y0)),
{
    assert(x0 * NUM_ROWS + y0 < NUM_COLS * NUM_ROWS) by (nonlinear_arith)
        requires
            0 <= x0 < NUM_COLS,
            0 <= y0 < NUM_ROWS,
    ;
    lemma_write_list_single(last, curr, x0, y0, (NUM_COLS * NUM_ROWS) as nat);
}

} // verus!
