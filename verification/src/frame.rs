//! The display frame: a fixed-size grid of display symbols, with coordinate
//! clamping so computed positions never index out of bounds.

use vstd::prelude::*;

verus! {

use crate::NUM_COLS;
use crate::NUM_ROWS;

/// One display symbol of the text grid.
#[derive(Clone, Copy, PartialEq, Eq, Structural, Debug)]
pub enum Cell {
    Blank,
    Player,
    PlayerOnEnemy,
    Enemy,
    Shot,
    ExplosionCore,
    ExplosionParticle,
}

/// A frame snapshot: one vector of cells per column, indexed `frame[x][y]`.
pub type Frame = Vec<Vec<Cell>>;

/// A frame is well formed when it has exactly `NUM_COLS` columns of
/// `NUM_ROWS` cells each.
pub open spec fn frame_wf(f: Frame) -> bool {
    &&& f@.len() == NUM_COLS
    &&& forall|x: int| 0 <= x < f@.len() ==> (#[trigger] f@[x])@.len() == NUM_ROWS
}

/// The symbol stored at column `x`, row `y` of a frame.
pub open spec fn cell_at(f: Frame, x: int, y: int) -> Cell {
    f@[x]@[y]
}

/// A signed column coordinate clamped to the valid range `[0, NUM_COLS - 1]`.
pub open spec fn clamp_col(x: int) -> int {
    if x < 0 {
        0
    } else if x > NUM_COLS - 1 {
        NUM_COLS - 1
    } else {
        x
    }
}

/// A signed row coordinate clamped to the valid range `[0, NUM_ROWS - 1]`.
pub open spec fn clamp_row(y: int) -> int {
    if y < 0 {
        0
    } else if y > NUM_ROWS - 1 {
        NUM_ROWS - 1
    } else {
        y
    }
}

/// Law: clamping always lands inside the grid, and clamping an already
/// clamped coordinate changes nothing.
pub proof fn lemma_clamp_in_bounds_and_idempotent(x: int, y: int)
    ensures
        0 <= clamp_col(x) < NUM_COLS,
        0 <= clamp_row(y) < NUM_ROWS,
        clamp_col(clamp_col(x)) == clamp_col(x),
        clamp_row(clamp_row(y)) == clamp_row(y),
{
}

/// Maps any signed coordinate pair to the nearest in-bounds grid coordinate,
/// clamping each axis independently.
pub fn get_safe_coords(x: i32, y: i32) -> (r: (usize, usize))
    ensures
        r.0 == clamp_col(x as int),
        r.1 == clamp_row(y as int),
{
    let cx: i32 = if x < 0 {
        0
    } else if x > (NUM_COLS - 1) as i32 {
        (NUM_COLS - 1) as i32
    } else {
        x
    };
    let cy: i32 = if y < 0 {
        0
    } else if y > (NUM_ROWS - 1) as i32 {
        (NUM_ROWS - 1) as i32
    } else {
        y
    };
    (cx as usize, cy as usize)
}

/// Returns an all-blank, well-formed frame.
pub fn new_frame() -> (f: Frame)
    ensures
        frame_wf(f),
        forall|x: int, y: int|
            0 <= x < NUM_COLS && 0 <= y < NUM_ROWS ==> cell_at(f, x, y) == Cell::Blank,
{
    let mut cols: Vec<Vec<Cell>> = Vec::new();
    let mut x: usize = 0;
    while x < NUM_COLS
        invariant
            x <= NUM_COLS,
            cols@.len() == x,
            forall|i: int| 0 <= i < x ==> (#[trigger] cols@[i])@.len() == NUM_ROWS,
            forall|i: int, j: int|
                0 <= i < x && 0 <= j < NUM_ROWS ==> cols@[i]@[j] == Cell::Blank,
        decreases NUM_COLS - x,
    {
        let mut col: Vec<Cell> = Vec::new();
        let mut y: usize = 0;
        while y < NUM_ROWS
            invariant
                y <= NUM_ROWS,
                col@.len() == y,
                forall|j: int| 0 <= j < y ==> col@[j] == Cell::Blank,
            decreases NUM_ROWS - y,
        {
            col.push(Cell::Blank);
            y = y + 1;
        }
        cols.push(col);
        x = x + 1;
    }
    cols
}

/// Anything that can paint itself onto a frame snapshot.
pub trait Drawable {
    fn draw(&self, frame: &mut Frame)
        requires
            frame_wf(*old(frame)),
        ensures
            frame_wf(*final(frame)),
    ;
}

/// Writes one symbol into the frame; coordinates off the grid write nothing.
pub fn paint_cell(frame: &mut Frame, x: usize, y: usize, sym: Cell)
    requires
        frame_wf(*old(frame)),
    ensures
        frame_wf(*final(frame)),
        forall|a: int, b: int|
            0 <= a < NUM_COLS && 0 <= b < NUM_ROWS ==> cell_at(*final(frame), a, b) == (
            if a == x && b == y {
                sym
            } else {
                cell_at(*old(frame), a, b)
            }),
{
    if x < NUM_COLS && y < NUM_ROWS {
        let col = frame_col(frame, x);
        col.set(y, sym);
    }
}

fn frame_col(frame: &mut Frame, x: usize) -> (col: &mut Vec<Cell>)
    requires
        frame_wf(*old(frame)),
        x < NUM_COLS,
    ensures
        *col == old(frame)@[x as int],
        final(frame)@ == old(frame)@.update(x as int, *final(col)),
{
    &mut frame[x]
}

/// Writes one symbol at every listed coordinate, in order; coordinates off
/// the grid write nothing.
pub fn paint_coords(frame: &mut Frame, coords: &Vec<(usize, usize)>, sym: Cell)
    requires
        frame_wf(*old(frame)),
    ensures
        frame_wf(*final(frame)),
        forall|a: int, b: int|
            0 <= a < NUM_COLS && 0 <= b < NUM_ROWS ==> cell_at(*final(frame), a, b) == (
            if coords@.contains((a as usize, b as usize)) {
                sym
            } else {
                cell_at(*old(frame), a, b)
            }),
{
    let mut k: usize = 0;
    while k < coords.len()
        invariant
            k <= coords@.len(),
            frame_wf(*frame),
            forall|a: int, b: int|
                0 <= a < NUM_COLS && 0 <= b < NUM_ROWS ==> cell_at(*frame, a, b) == (
                if coords@.subrange(0, k as int).contains((a as usize, b as usize)) {
                    sym
                } else {
                    cell_at(*old(frame), a, b)
                }),
        decreases coords@.len() - k,
    {
        let p = coords[k];
        paint_cell(frame, p.0, p.1, sym);
        proof {
            let pre_old = coords@.subrange(0, k as int);
            let pre_new = coords@.subrange(0, k as int + 1);
            assert forall|p: (usize, usize)| #[trigger] pre_new.contains(p) == (pre_old.contains(p)
                || p == coords@[k as int]) by {
                if pre_new.contains(p) {
                    let j = choose|j: int| 0 <= j < pre_new.len() && pre_new[j] == p;
                    if j < k {
                        assert(pre_old[j] == p);
                    }
                } else {
                    if pre_old.contains(p) {
                        let j = choose|j: int| 0 <= j < pre_old.len() && pre_old[j] == p;
                        assert(pre_new[j] == p);
                    }
                    assert(pre_new[k as int] == coords@[k as int]);
                }
            }
        }
        k = k + 1;
    }
    proof {
        assert(coords@.subrange(0, coords@.len() as int) =~= coords@);
    }
}

} // verus!
