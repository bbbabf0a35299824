//! The enemy swarm: a collection of units spawned in a checkerboard pattern
//! inside the horizontal margins, moved as one block by a timer-gated
//! direction controller that descends toward the player and reverses at the
//! side boundaries.

use vstd::prelude::*;

verus! {

use crate::NUM_COLS;
use crate::NUM_ROWS;
use crate::frame::Cell;
use crate::frame::Frame;
use crate::frame::Drawable;
use crate::frame::frame_wf;
use crate::frame::cell_at;
use crate::frame::paint_cell;
use crate::frame::paint_coords;
use crate::sound::Sound;
use crate::sound::SoundPlayer;
use crate::timer::Timer;
use crate::timer::timer_ready;
use crate::timer::timer_step;

/// Spawn columns this close to either horizontal edge are left empty.
pub const PAD: usize = 5;

/// Vertical movement selector of the swarm controller.
#[derive(Clone, Copy, PartialEq, Eq, Structural, Debug)]
pub enum Vertical {
    Up,
    Down,
}

/// Horizontal movement selector of the swarm controller.
#[derive(Clone, Copy, PartialEq, Eq, Structural, Debug)]
pub enum Horizontal {
    Left,
    Right,
}

/// The swarm's movement state, recomputed on every ready tick from the
/// bounding box of the surviving units.
#[derive(Clone, Copy, PartialEq, Eq, Structural, Debug)]
pub struct Direction {
    pub moving: bool,
    pub vertical: Vertical,
    pub horizontal: Horizontal,
}

/// One enemy unit: a grid position and a stable identity index assigned at
/// spawn time and never reused.
#[derive(Clone, Copy, PartialEq, Eq, Structural, Debug)]
pub struct Enemy {
    pub x: usize,
    pub y: usize,
    pub i: usize,
}

impl Enemy {
    pub fn new(x: usize, y: usize, i: usize) -> (e: Enemy)
        ensures
            e == (Enemy { x, y, i }),
    {
        Enemy { x, y, i }
    }

    /// Moves one cell left unless already at the left edge; reports whether
    /// it moved.
    pub fn move_left(&mut self) -> (moved: bool)
        ensures
            moved == (old(self).x > 0),
            final(self).x as int == if old(self).x > 0 {
                old(self).x - 1
            } else {
                old(self).x as int
            },
            final(self).y == old(self).y,
            final(self).i == old(self).i,
    {
        if self.x > 0 {
            self.x = self.x - 1;
            return true;
        }
        false
    }

    /// Moves one cell right unless already at the right edge; reports
    /// whether it moved.
    pub fn move_right(&mut self) -> (moved: bool)
        ensures
            moved == (old(self).x < NUM_COLS - 1),
            final(self).x as int == if old(self).x < NUM_COLS - 1 {
                old(self).x + 1
            } else {
                old(self).x as int
            },
            final(self).y == old(self).y,
            final(self).i == old(self).i,
    {
        if self.x < NUM_COLS - 1 {
            self.x = self.x + 1;
            return true;
        }
        false
    }

    /// Moves one cell up unless already at the top edge; reports whether it
    /// moved.
    pub fn move_up(&mut self) -> (moved: bool)
        ensures
            moved == (old(self).y > 0),
            final(self).y as int == if old(self).y > 0 {
                old(self).y - 1
            } else {
                old(self).y as int
            },
            final(self).x == old(self).x,
            final(self).i == old(self).i,
    {
        if self.y > 0 {
            self.y = self.y - 1;
            return true;
        }
        false
    }

    /// Moves one cell down unless already at the bottom edge; reports
    /// whether it moved.
    pub fn move_down(&mut self) -> (moved: bool)
        ensures
            moved == (old(self).y < NUM_ROWS - 1),
            final(self).y as int == if old(self).y < NUM_ROWS - 1 {
                old(self).y + 1
            } else {
                old(self).y as int
            },
            final(self).x == old(self).x,
            final(self).i == old(self).i,
    {
        if self.y < NUM_ROWS - 1 {
            self.y = self.y + 1;
            return true;
        }
        false
    }

    /// A unit has no per-tick behavior of its own.
    pub fn update(&mut self)
        ensures
            *final(self) == *old(self),
    {
    }
}

/// Whether the spawn rule keeps the cell `(x, y)`: inside the horizontal
/// margins and on one of the two checkerboard parity classes.
pub open spec fn spawn_keep(x: int, y: int) -> bool {
    &&& PAD <= x <= NUM_COLS - 1 - PAD
    &&& x % 2 == y % 2
}

/// Whether some unit of the list sits at `(x, y)`.
pub open spec fn enemy_at(es: Seq<Enemy>, x: int, y: int) -> bool {
    exists|k: int| 0 <= k < es.len() && (#[trigger] es[k]).x == x && es[k].y == y
}

/// Spawn-order comparison: columns first, rows inside a column.
pub open spec fn spawn_before(a: Enemy, b: Enemy) -> bool {
    a.x < b.x || (a.x == b.x && a.y < b.y)
}

/// What `Enemies::new` builds: units exactly at the kept cells of the top
/// quarter of the grid, in spawn order, with identities equal to their list
/// positions.
pub open spec fn spawn_list_wf(es: Seq<Enemy>) -> bool {
    &&& forall|k: int|
        0 <= k < es.len() ==> (#[trigger] es[k]).i == k && spawn_keep(
            es[k].x as int,
            es[k].y as int,
        ) && es[k].y < NUM_ROWS / 4
    &&& forall|k1: int, k2: int| 0 <= k1 < k2 < es.len() ==> spawn_before(es[k1], es[k2])
    &&& forall|x: int, y: int|
        0 <= x < NUM_COLS && 0 <= y < NUM_ROWS / 4 && #[trigger] spawn_keep(x, y) ==> enemy_at(
            es,
            x,
            y,
        )
}

/// The surviving units after a despawn of the given identity.
pub open spec fn despawned(es: Seq<Enemy>, idx: usize) -> Seq<Enemy> {
    es.filter(|e: Enemy| e.i != idx)
}

/// The smallest column among the units; zero for an empty swarm.
pub open spec fn min_x_of(es: Seq<Enemy>) -> int
    decreases es.len(),
{
    if es.len() == 0 {
        0
    } else if es.len() == 1 {
        es[0].x as int
    } else if es.last().x as int <= min_x_of(es.drop_last()) {
        es.last().x as int
    } else {
        min_x_of(es.drop_last())
    }
}

/// The largest column among the units; zero for an empty swarm.
pub open spec fn max_x_of(es: Seq<Enemy>) -> int
    decreases es.len(),
{
    if es.len() == 0 {
        0
    } else if es.len() == 1 {
        es[0].x as int
    } else if es.last().x as int >= max_x_of(es.drop_last()) {
        es.last().x as int
    } else {
        max_x_of(es.drop_last())
    }
}

/// The largest row among the units; zero for an empty swarm.
pub open spec fn max_y_of(es: Seq<Enemy>) -> int
    decreases es.len(),
{
    if es.len() == 0 {
        0
    } else if es.len() == 1 {
        es[0].y as int
    } else if es.last().y as int >= max_y_of(es.drop_last()) {
        es.last().y as int
    } else {
        max_y_of(es.drop_last())
    }
}

/// The direction decision of one ready tick, from the previous direction and
/// the swarm's bounding box. Movement stops for good once the bottom margin
/// is reached; the horizontal selector is sticky and only flips at a side
/// boundary.
pub open spec fn next_direction(d: Direction, min_x: int, max_x: int, max_y: int) -> Direction {
    Direction {
        moving: !(max_y >= NUM_ROWS - 1),
        vertical: if max_y >= NUM_ROWS - 1 {
            d.vertical
        } else {
            Vertical::Down
        },
        horizontal: if min_x <= 0 {
            Horizontal::Right
        } else if max_x > NUM_COLS - 3 {
            Horizontal::Left
        } else {
            d.horizontal
        },
    }
}

/// One unit shifted one cell per direction selector, each axis clamped at
/// the grid edge; unchanged when the swarm is stopped.
pub open spec fn moved_enemy(e: Enemy, d: Direction) -> Enemy {
    if !d.moving {
        e
    } else {
        let x2: usize = if d.horizontal == Horizontal::Left {
            if e.x > 0 {
                (e.x - 1) as usize
            } else {
                e.x
            }
        } else {
            if e.x < NUM_COLS - 1 {
                (e.x + 1) as usize
            } else {
                e.x
            }
        };
        let y2: usize = if d.vertical == Vertical::Up {
            if e.y > 0 {
                (e.y - 1) as usize
            } else {
                e.y
            }
        } else {
            if e.y < NUM_ROWS - 1 {
                (e.y + 1) as usize
            } else {
                e.y
            }
        };
        Enemy { x: x2, y: y2, i: e.i }
    }
}

/// The ghost state of the swarm.
pub ghost struct EnemiesView {
    pub enemies: Seq<Enemy>,
    pub timer: Timer,
    pub direction: Direction,
}

/// One ready tick of the swarm: the direction is recomputed from the current
/// bounding box, every unit moves per the new direction if the swarm still
/// moves, and the timer starts a new period.
pub open spec fn swarm_tick(s: EnemiesView) -> EnemiesView {
    let d2 = next_direction(s.direction, min_x_of(s.enemies), max_x_of(s.enemies), max_y_of(s.enemies));
    EnemiesView {
        enemies: if d2.moving {
            s.enemies.map_values(|e: Enemy| moved_enemy(e, d2))
        } else {
            s.enemies
        },
        timer: Timer { interval_ms: s.timer.interval_ms, elapsed_ms: 0 },
        direction: d2,
    }
}

/// One `update(delta)` call: the timer advances; the tick runs only if it
/// fires.
pub open spec fn swarm_step(s: EnemiesView, delta_ms: u64) -> EnemiesView {
    let t = timer_step(s.timer, delta_ms);
    if timer_ready(t) {
        swarm_tick(EnemiesView { timer: t, ..s })
    } else {
        EnemiesView { timer: t, ..s }
    }
}

/// Ready ticks iterated `n` times.
pub open spec fn swarm_ticks(s: EnemiesView, n: nat) -> EnemiesView
    decreases n,
{
    if n == 0 {
        s
    } else {
        swarm_ticks(swarm_tick(s), (n - 1) as nat)
    }
}

/// The swarm: the ordered unit collection plus its shared movement
/// controller and tick timer.
pub struct Enemies {
    pub enemy_list: Vec<Enemy>,
    pub timer: Timer,
    pub direction: Direction,
}

impl View for Enemies {
    type V = EnemiesView;

    open spec fn view(&self) -> EnemiesView {
        EnemiesView { enemies: self.enemy_list@, timer: self.timer, direction: self.direction }
    }
}

impl Enemies {
    /// Builds the initial swarm: for every column, the top quarter of rows,
    /// kept per the margin-and-checkerboard spawn rule, each unit numbered
    /// in spawn order. The controller starts stopped and the timer fresh.
    pub fn new() -> (s: Enemies)
        ensures
            spawn_list_wf(s@.enemies),
            s@.timer == (Timer { interval_ms: 3000u64, elapsed_ms: 0u64 }),
            s@.direction == (Direction {
                moving: false,
                vertical: Vertical::Up,
                horizontal: Horizontal::Left,
            }),
    {
        let mut temp_enemy_list: Vec<Enemy> = Vec::new();
        let mut enemy_count: usize = 0;
        let mut x: usize = 0;
        while x < NUM_COLS
            invariant
                x <= NUM_COLS,
                enemy_count == temp_enemy_list@.len(),
                temp_enemy_list@.len() <= x * (NUM_ROWS / 4),
                forall|k: int|
                    0 <= k < temp_enemy_list@.len() ==> (#[trigger] temp_enemy_list@[k]).i == k
                        && spawn_keep(
                        temp_enemy_list@[k].x as int,
                        temp_enemy_list@[k].y as int,
                    ) && temp_enemy_list@[k].y < NUM_ROWS / 4 && temp_enemy_list@[k].x < x,
                forall|k1: int, k2: int|
                    0 <= k1 < k2 < temp_enemy_list@.len() ==> spawn_before(
                        temp_enemy_list@[k1],
                        temp_enemy_list@[k2],
                    ),
                forall|a: int, b: int|
                    0 <= a < x && 0 <= b < NUM_ROWS / 4 && #[trigger] spawn_keep(a, b)
                        ==> enemy_at(temp_enemy_list@, a, b),
            decreases NUM_COLS - x,
        {
            let mut y: usize = 0;
            while y < NUM_ROWS / 4
                invariant
                    y <= NUM_ROWS / 4,
                    x < NUM_COLS,
                    enemy_count == temp_enemy_list@.len(),
                    temp_enemy_list@.len() <= x * (NUM_ROWS / 4) + y,
                    forall|k: int|
                        0 <= k < temp_enemy_list@.len() ==> (#[trigger] temp_enemy_list@[k]).i == k
                            && spawn_keep(
                            temp_enemy_list@[k].x as int,
                            temp_enemy_list@[k].y as int,
                        ) && temp_enemy_list@[k].y < NUM_ROWS / 4 && (temp_enemy_list@[k].x < x || (
                        temp_enemy_list@[k].x == x && temp_enemy_list@[k].y < y)),
                    forall|k1: int, k2: int|
                        0 <= k1 < k2 < temp_enemy_list@.len() ==> spawn_before(
                            temp_enemy_list@[k1],
                            temp_enemy_list@[k2],
                        ),
                    forall|a: int, b: int|
                        (0 <= a < x || (a == x && 0 <= b < y)) && 0 <= b < NUM_ROWS / 4
                            && #[trigger] spawn_keep(a, b) ==> enemy_at(temp_enemy_list@, a, b),
                decreases NUM_ROWS / 4 - y,
            {
                if x >= PAD && x <= NUM_COLS - 1 - PAD && (x % 2 == y % 2) {
                    let ghost pre = temp_enemy_list@;
                    temp_enemy_list.push(Enemy { x, y, i: enemy_count });
                    enemy_count = enemy_count + 1;
                    proof {
                        let post = temp_enemy_list@;
                        assert(enemy_at(post, x as int, y as int)) by {
                            assert(post[post.len() - 1].x == x && post[post.len() - 1].y == y);
                        }
                        assert forall|a: int, b: int|
                            (0 <= a < x || (a == x && 0 <= b < y + 1)) && 0 <= b < NUM_ROWS / 4
                                && #[trigger] spawn_keep(a, b) implies enemy_at(post, a, b) by {
                            if a == x as int && b == y as int {
                            } else {
                                assert(enemy_at(pre, a, b));
                                let k = choose|k: int|
                                    0 <= k < pre.len() && (#[trigger] pre[k]).x == a && pre[k].y
                                        == b;
                                assert(post[k].x == a && post[k].y == b);
                            }
                        }
                    }
                } else {
                    proof {
                        assert forall|a: int, b: int|
                            (0 <= a < x || (a == x && 0 <= b < y + 1)) && 0 <= b < NUM_ROWS / 4
                                && #[trigger] spawn_keep(a, b) implies enemy_at(
                            temp_enemy_list@,
                            a,
                            b,
                        ) by {
                            if a == x as int && b == y as int {
                                assert(!spawn_keep(a, b));
                            }
                        }
                    }
                }
                y = y + 1;
            }
            proof {
                assert((x + 1) * (NUM_ROWS / 4) == x * (NUM_ROWS / 4) + (NUM_ROWS / 4))
                    by (nonlinear_arith);
            }
            x = x + 1;
        }
        Enemies {
            enemy_list: temp_enemy_list,
            timer: Timer::from_millis(3000),
            direction: Direction {
                moving: false,
                vertical: Vertical::Up,
                horizontal: Horizontal::Left,
            },
        }
    }

    /// Removes the unit with the given identity; a no-op if it is absent, so
    /// a double despawn from simultaneous hits is harmless.
    pub fn get_shot(&mut self, index_to_get_shot: usize)
        ensures
            final(self)@.enemies == despawned(old(self)@.enemies, index_to_get_shot),
            final(self)@.timer == old(self)@.timer,
            final(self)@.direction == old(self)@.direction,
    {
        let ghost orig = self.enemy_list@;
        let mut kept: Vec<Enemy> = Vec::new();
        let mut i: usize = 0;
        while i < self.enemy_list.len()
            invariant
                i <= orig.len(),
                self.enemy_list@ == orig,
                kept@ == despawned(orig.subrange(0, i as int), index_to_get_shot),
            decreases orig.len() - i,
        {
            let e = self.enemy_list[i];
            proof {
                let pre = orig.subrange(0, i as int);
                assert(orig.subrange(0, i as int + 1) =~= pre.push(orig[i as int]));
                pre.lemma_filter_push(orig[i as int], |e2: Enemy| e2.i != index_to_get_shot);
            }
            if e.i != index_to_get_shot {
                kept.push(e);
            }
            i = i + 1;
        }
        proof {
            assert(orig.subrange(0, orig.len() as int) =~= orig);
        }
        self.enemy_list = kept;
    }

    /// Advances the tick timer by the elapsed delta; on a ready tick
    /// recomputes the direction from the bounding box, moves every unit if
    /// the swarm still moves, plays the movement cue once, and resets the
    /// timer. Returns whether a tick fired.
    pub fn update<P: SoundPlayer>(&mut self, delta_ms: u64, audio: &mut P) -> (ticked: bool)
        ensures
            final(self)@ == swarm_step(old(self)@, delta_ms),
            ticked == timer_ready(timer_step(old(self)@.timer, delta_ms)),
    {
        self.timer.update(delta_ms);
        if self.timer.ready() {
            let min_x = swarm_min_x(&self.enemy_list);
            let max_x = swarm_max_x(&self.enemy_list);
            let max_y = swarm_max_y(&self.enemy_list);

            if max_y >= NUM_ROWS - 1 {
                self.direction.moving = false;
            } else {
                self.direction.moving = true;
                self.direction.vertical = Vertical::Down;
            }
            if min_x == 0 {
                self.direction.horizontal = Horizontal::Right;
            } else if max_x > NUM_COLS - 2 - 1 {
                self.direction.horizontal = Horizontal::Left;
            }
            let ghost d2 = self.direction;
            let ghost before = self.enemy_list@;
            let ghost t1 = self.timer;

            if self.direction.moving {
                let mut k: usize = 0;
                while k < self.enemy_list.len()
                    invariant
                        k <= before.len(),
                        self.enemy_list@.len() == before.len(),
                        self.direction == d2,
                        self.timer == t1,
                        d2.moving,
                        forall|j: int|
                            0 <= j < k ==> self.enemy_list@[j] == moved_enemy(
                                #[trigger] before[j],
                                d2,
                            ),
                        forall|j: int|
                            k <= j < before.len() ==> #[trigger] self.enemy_list@[j] == before[j],
                    decreases before.len() - k,
                {
                    let mut e = self.enemy_list[k];
                    if matches!(self.direction.horizontal, Horizontal::Left) {
                        e.move_left();
                    } else {
                        e.move_right();
                    }
                    if matches!(self.direction.vertical, Vertical::Up) {
                        e.move_up();
                    } else {
                        e.move_down();
                    }
                    e.update();
                    self.enemy_list.set(k, e);
                    k = k + 1;
                }
                proof {
                    assert(self.enemy_list@ =~= before.map_values(
                        |e: Enemy| moved_enemy(e, d2),
                    ));
                }
                audio.play(Sound::SwarmMove);
            }
            self.timer.reset();
            true
        } else {
            false
        }
    }
}

fn swarm_min_x(list: &Vec<Enemy>) -> (r: usize)
    ensures
        r as int == min_x_of(list@),
{
    if list.len() == 0 {
        return 0;
    }
    let mut r = list[0].x;
    let mut i: usize = 1;
    while i < list.len()
        invariant
            1 <= i <= list@.len(),
            r as int == min_x_of(list@.subrange(0, i as int)),
        decreases list@.len() - i,
    {
        proof {
            assert(list@.subrange(0, i as int + 1).drop_last() =~= list@.subrange(0, i as int));
        }
        if list[i].x < r {
            r = list[i].x;
        }
        i = i + 1;
    }
    proof {
        assert(list@.subrange(0, list@.len() as int) =~= list@);
    }
    r
}

fn swarm_max_x(list: &Vec<Enemy>) -> (r: usize)
    ensures
        r as int == max_x_of(list@),
{
    if list.len() == 0 {
        return 0;
    }
    let mut r = list[0].x;
    let mut i: usize = 1;
    while i < list.len()
        invariant
            1 <= i <= list@.len(),
            r as int == max_x_of(list@.subrange(0, i as int)),
        decreases list@.len() - i,
    {
        proof {
            assert(list@.subrange(0, i as int + 1).drop_last() =~= list@.subrange(0, i as int));
        }
        if list[i].x > r {
            r = list[i].x;
        }
        i = i + 1;
    }
    proof {
        assert(list@.subrange(0, list@.len() as int) =~= list@);
    }
    r
}

fn swarm_max_y(list: &Vec<Enemy>) -> (r: usize)
    ensures
        r as int == max_y_of(list@),
{
    if list.len() == 0 {
        return 0;
    }
    let mut r = list[0].y;
    let mut i: usize = 1;
    while i < list.len()
        invariant
            1 <= i <= list@.len(),
            r as int == max_y_of(list@.subrange(0, i as int)),
        decreases list@.len() - i,
    {
        proof {
            assert(list@.subrange(0, i as int + 1).drop_last() =~= list@.subrange(0, i as int));
        }
        if list[i].y > r {
            r = list[i].y;
        }
        i = i + 1;
    }
    proof {
        assert(list@.subrange(0, list@.len() as int) =~= list@);
    }
    r
}

/// Law: despawning the same identity twice leaves the collection as after
/// the first despawn.
pub proof fn lemma_despawn_idempotent(es: Seq<Enemy>, idx: usize)
    ensures
        despawned(despawned(es, idx), idx) == despawned(es, idx),
    decreases es.len(),
{
    let pred = |e2: Enemy| e2.i != idx;
    if es.len() == 0 {
        reveal(Seq::filter);
    } else {
        let rest = es.drop_last();
        let last = es.last();
        lemma_despawn_idempotent(rest, idx);
        assert(rest.push(last) =~= es);
        rest.lemma_filter_push(last, pred);
        if last.i != idx {
            despawned(rest, idx).lemma_filter_push(last, pred);
        }
    }
}

/// Law: a tick away from both side boundaries keeps the previous horizontal
/// direction.
pub proof fn lemma_direction_sticky(s: EnemiesView)
    requires
        min_x_of(s.enemies) > 0,
        max_x_of(s.enemies) <= NUM_COLS - 3,
    ensures
        swarm_tick(s).direction.horizontal == s.direction.horizontal,
{
}

/// Law: once a tick has stopped the swarm (the bottom margin was reached),
/// every later tick leaves it stopped and the units in place.
pub proof fn lemma_stop_is_permanent(s: EnemiesView, n: nat)
    requires
        n >= 1,
        !swarm_tick(s).direction.moving,
    ensures
        !swarm_ticks(s, n).direction.moving,
        swarm_ticks(s, n).enemies == s.enemies,
    decreases n,
{
    let s1 = swarm_tick(s);
    assert(max_y_of(s.enemies) >= NUM_ROWS - 1);
    assert(s1.enemies == s.enemies);
    if n == 1 {
    } else {
        lemma_stop_is_permanent(s1, (n - 1) as nat);
    }
}

impl Drawable for Enemy {
    fn draw(&self, frame: &mut Frame) {
        self.paint(frame);
    }
}

impl Enemy {
    /// Paints the unit's symbol at its position.
    pub fn paint(&self, frame: &mut Frame)
        requires
            frame_wf(*old(frame)),
        ensures
            frame_wf(*final(frame)),
            forall|a: int, b: int|
                0 <= a < NUM_COLS && 0 <= b < NUM_ROWS ==> cell_at(*final(frame), a, b) == (
                if a == self.x && b == self.y {
                    Cell::Enemy
                } else {
                    cell_at(*old(frame), a, b)
                }),
    {
        paint_cell(frame, self.x, self.y, Cell::Enemy);
    }
}

impl Drawable for Enemies {
    fn draw(&self, frame: &mut Frame) {
        self.paint(frame);
    }
}

impl Enemies {
    /// Paints every surviving unit.
    pub fn paint(&self, frame: &mut Frame)
        requires
            frame_wf(*old(frame)),
        ensures
            frame_wf(*final(frame)),
            forall|a: int, b: int|
                0 <= a < NUM_COLS && 0 <= b < NUM_ROWS ==> cell_at(*final(frame), a, b) == (
                if enemy_at(self@.enemies, a, b) {
                    Cell::Enemy
                } else {
                    cell_at(*old(frame), a, b)
                }),
    {
        let mut coords: Vec<(usize, usize)> = Vec::new();
        let mut k: usize = 0;
        while k < self.enemy_list.len()
            invariant
                k <= self.enemy_list@.len(),
                coords@.len() == k,
                forall|j: int|
                    0 <= j < k ==> #[trigger] coords@[j] == (
                        self.enemy_list@[j].x,
                        self.enemy_list@[j].y,
                    ),
            decreases self.enemy_list@.len() - k,
        {
            let e = &self.enemy_list[k];
            coords.push((e.x, e.y));
            k = k + 1;
        }
        paint_coords(frame, &coords, Cell::Enemy);
        proof {
            let es = self@.enemies;
            assert forall|a: int, b: int| 0 <= a < NUM_COLS && 0 <= b < NUM_ROWS implies (
            coords@.contains((a as usize, b as usize)) == enemy_at(es, a, b)) by {
                if coords@.contains((a as usize, b as usize)) {
                    let j = choose|j: int|
                        0 <= j < coords@.len() && coords@[j] == (a as usize, b as usize);
                    assert(es[j].x == a && es[j].y == b);
                }
                if enemy_at(es, a, b) {
                    let j = choose|j: int|
                        0 <= j < es.len() && (#[trigger] es[j]).x == a && es[j].y == b;
                    assert(coords@[j] == (a as usize, b as usize));
                }
            }
        }
    }
}

} // verus!
