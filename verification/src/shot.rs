//! The projectile: a single-shot lifecycle state machine. A shot travels one
//! cell upward per ready tick, then explodes into a multi-stage radial
//! particle ring around its frozen despawn point, and is spent once the last
//! stage has run.

use vstd::prelude::*;

verus! {

use crate::NUM_COLS;
use crate::NUM_ROWS;
use crate::frame::Cell;
use crate::frame::Frame;
use crate::frame::Drawable;
use crate::frame::clamp_col;
use crate::frame::clamp_row;
use crate::frame::frame_wf;
use crate::frame::cell_at;
use crate::frame::get_safe_coords;
use crate::frame::paint_cell;
use crate::frame::paint_coords;
use crate::sound::Sound;
use crate::sound::SoundPlayer;
use crate::timer::Timer;
use crate::timer::timer_ready;
use crate::timer::timer_step;

/// The explosion runs this many ring stages before the shot is spent.
pub const NUM_EXPLOSION_STAGES: i32 = 5;

/// The three-state lifecycle of a shot.
#[derive(Clone, Copy, PartialEq, Eq, Structural, Debug)]
pub enum ExplosionStatus {
    /// Moving one cell toward the top per ready tick.
    Traveling,
    /// Emitting one particle ring per ready tick.
    Exploding,
    /// Terminal: renders nothing and is purged by its owner.
    Spent,
}

/// Cosine in thousandths for angles that are multiples of five degrees in
/// the first quadrant.
pub open spec fn cos_quarter_milli(d: int) -> int {
    if d == 0 {
        1000
    } else if d == 5 {
        996
    } else if d == 10 {
        985
    } else if d == 15 {
        966
    } else if d == 20 {
        940
    } else if d == 25 {
        906
    } else if d == 30 {
        866
    } else if d == 35 {
        819
    } else if d == 40 {
        766
    } else if d == 45 {
        707
    } else if d == 50 {
        643
    } else if d == 55 {
        574
    } else if d == 60 {
        500
    } else if d == 65 {
        423
    } else if d == 70 {
        342
    } else if d == 75 {
        259
    } else if d == 80 {
        174
    } else if d == 85 {
        87
    } else {
        0
    }
}

/// Cosine in thousandths for angles that are multiples of five degrees in
/// `[0, 360]`, by quadrant symmetry.
pub open spec fn cos_milli(d: int) -> int {
    if d <= 90 {
        cos_quarter_milli(d)
    } else if d <= 180 {
        -cos_quarter_milli(180 - d)
    } else if d <= 270 {
        -cos_quarter_milli(d - 180)
    } else {
        cos_quarter_milli(360 - d)
    }
}

/// Sine in thousandths for angles that are multiples of five degrees in
/// `[0, 360]`, via the cosine of the complementary angle.
pub open spec fn sin_milli(d: int) -> int {
    if d < 90 {
        cos_milli(90 - d)
    } else {
        cos_milli(d - 90)
    }
}

/// A value in thousandths rounded to the nearest integer, halves away from
/// zero.
pub open spec fn round_milli(n: int) -> int {
    if n >= 0 {
        (n + 500) / 1000
    } else {
        -((500 - n) / 1000)
    }
}

/// Column offset plus center for the `k`-th ring sample: the vector
/// `(radius, 0)` rotated by `5 * k` degrees.
pub open spec fn ring_point_col(cx: int, radius: int, k: int) -> int {
    cx + round_milli(radius * cos_milli(5 * k))
}

/// Row offset plus center for the `k`-th ring sample.
pub open spec fn ring_point_row(cy: int, radius: int, k: int) -> int {
    cy + round_milli(radius * sin_milli(5 * k))
}

/// The full particle ring of one explosion stage: all 73 samples, each
/// clamped into grid bounds.
pub open spec fn ring_cells(cx: int, cy: int, radius: int) -> Seq<(usize, usize)> {
    Seq::new(
        73,
        |k: int|
            (
                clamp_col(ring_point_col(cx, radius, k)) as usize,
                clamp_row(ring_point_row(cy, radius, k)) as usize,
            ),
    )
}

fn cos_quarter_milli_x(d: i32) -> (r: i32)
    ensures
        r as int == cos_quarter_milli(d as int),
{
    if d == 0 {
        1000
    } else if d == 5 {
        996
    } else if d == 10 {
        985
    } else if d == 15 {
        966
    } else if d == 20 {
        940
    } else if d == 25 {
        906
    } else if d == 30 {
        866
    } else if d == 35 {
        819
    } else if d == 40 {
        766
    } else if d == 45 {
        707
    } else if d == 50 {
        643
    } else if d == 55 {
        574
    } else if d == 60 {
        500
    } else if d == 65 {
        423
    } else if d == 70 {
        342
    } else if d == 75 {
        259
    } else if d == 80 {
        174
    } else if d == 85 {
        87
    } else {
        0
    }
}

fn cos_milli_x(d: i32) -> (r: i32)
    requires
        0 <= d <= 360,
    ensures
        r as int == cos_milli(d as int),
        -1000 <= r <= 1000,
{
    let r = if d <= 90 {
        cos_quarter_milli_x(d)
    } else if d <= 180 {
        -cos_quarter_milli_x(180 - d)
    } else if d <= 270 {
        -cos_quarter_milli_x(d - 180)
    } else {
        cos_quarter_milli_x(360 - d)
    };
    proof {
        lemma_cos_quarter_bounded(if d <= 90 { d as int } else if d <= 180 { 180 - d } else if d <= 270 { d - 180 } else { 360 - d });
    }
    r
}

proof fn lemma_cos_quarter_bounded(d: int)
    ensures
        0 <= cos_quarter_milli(d) <= 1000,
{
}

fn sin_milli_x(d: i32) -> (r: i32)
    requires
        0 <= d <= 360,
    ensures
        r as int == sin_milli(d as int),
        -1000 <= r <= 1000,
{
    if d < 90 {
        cos_milli_x(90 - d)
    } else {
        cos_milli_x(d - 90)
    }
}

fn round_milli_x(n: i32) -> (r: i32)
    requires
        -2_000_000 <= n <= 2_000_000,
    ensures
        r as int == round_milli(n as int),
        -2001 <= r <= 2001,
{
    if n >= 0 {
        (n + 500) / 1000
    } else {
        -((500 - n) / 1000)
    }
}

/// Samples a circle of the given radius around `center` at five-degree
/// angular increments: 73 coordinates, one for each angle in `0..=360`.
pub fn get_bullet_coords(center: (i32, i32), radius: i32) -> (coords: Vec<(i32, i32)>)
    requires
        0 <= radius <= 1000,
        -1_000_000 <= center.0 <= 1_000_000,
        -1_000_000 <= center.1 <= 1_000_000,
    ensures
        coords@.len() == 73,
        forall|k: int|
            0 <= k < 73 ==> (#[trigger] coords@[k]).0 as int == ring_point_col(
                center.0 as int,
                radius as int,
                k,
            ) && coords@[k].1 as int == ring_point_row(center.1 as int, radius as int, k),
{
    let mut coords: Vec<(i32, i32)> = Vec::new();
    let mut k: i32 = 0;
    while k <= 72
        invariant
            0 <= k <= 73,
            0 <= radius <= 1000,
            -1_000_000 <= center.0 <= 1_000_000,
            -1_000_000 <= center.1 <= 1_000_000,
            coords@.len() == k,
            forall|j: int|
                0 <= j < k ==> (#[trigger] coords@[j]).0 as int == ring_point_col(
                    center.0 as int,
                    radius as int,
                    j,
                ) && coords@[j].1 as int == ring_point_row(center.1 as int, radius as int, j),
        decreases 73 - k,
    {
        let theta = 5 * k;
        let c = cos_milli_x(theta);
        let s = sin_milli_x(theta);
        proof {
            assert(-1_000_000 <= (radius as int) * (c as int) <= 1_000_000 && -1_000_000 <= (
            radius as int) * (s as int) <= 1_000_000) by (nonlinear_arith)
                requires
                    0 <= radius as int <= 1000,
                    -1000 <= c as int <= 1000,
                    -1000 <= s as int <= 1000,
            ;
        }
        let x = center.0 + round_milli_x(radius * c);
        let y = center.1 + round_milli_x(radius * s);
        coords.push((x, y));
        k = k + 1;
    }
    coords
}

/// The ghost state of a shot: the mathematical value its contracts speak of.
pub ghost struct ShotView {
    pub x: usize,
    pub y: usize,
    pub x_despawn: usize,
    pub y_despawn: usize,
    pub particle_effects_coords: Seq<(usize, usize)>,
    pub is_explode: bool,
    pub is_despawned: bool,
    pub explosion_stage: i32,
    pub explosion_status: ExplosionStatus,
    pub timer: Timer,
}

/// A shot's state stays on the grid, its stage counter in range, and its
/// particle coordinates clamped.
pub open spec fn shot_wf(s: ShotView) -> bool {
    &&& s.x < NUM_COLS
    &&& s.y < NUM_ROWS
    &&& s.x_despawn < NUM_COLS
    &&& s.y_despawn < NUM_ROWS
    &&& 1 <= s.explosion_stage <= NUM_EXPLOSION_STAGES
    &&& forall|k: int|
        0 <= k < s.particle_effects_coords.len() ==> (
        #[trigger] s.particle_effects_coords[k]).0 < NUM_COLS
            && s.particle_effects_coords[k].1 < NUM_ROWS
}

/// The state of a freshly fired shot at the firing position.
pub open spec fn new_shot_view(x: usize, y: usize) -> ShotView {
    ShotView {
        x,
        y,
        x_despawn: 0,
        y_despawn: 0,
        particle_effects_coords: Seq::empty(),
        is_explode: false,
        is_despawned: false,
        explosion_stage: 1,
        explosion_status: ExplosionStatus::Traveling,
        timer: Timer { interval_ms: 100, elapsed_ms: 0 },
    }
}

/// The explosion transition: freezes the despawn point at the current
/// position and starts the particle stages.
pub open spec fn shot_exploded(s: ShotView) -> ShotView {
    ShotView {
        x_despawn: s.x,
        y_despawn: s.y,
        is_explode: true,
        explosion_status: ExplosionStatus::Exploding,
        ..s
    }
}

/// The particle-stage advance run on every ready tick: while exploding, the
/// ring of the current stage becomes the active particle set; stages below
/// the last slow the timer and grow, the last stage clears the ring and ends
/// the shot.
pub open spec fn particle_step(s: ShotView) -> ShotView {
    if s.explosion_status != ExplosionStatus::Exploding {
        s
    } else if s.explosion_stage < NUM_EXPLOSION_STAGES {
        ShotView {
            particle_effects_coords: ring_cells(
                s.x_despawn as int,
                s.y_despawn as int,
                s.explosion_stage as int,
            ),
            explosion_stage: (s.explosion_stage + 1) as i32,
            timer: Timer { interval_ms: 250, elapsed_ms: 0 },
            ..s
        }
    } else {
        ShotView {
            particle_effects_coords: Seq::empty(),
            explosion_status: ExplosionStatus::Spent,
            ..s
        }
    }
}

/// The travel step run on every ready tick: a traveling shot moves one cell
/// toward the top, or explodes once it sits on the top row.
pub open spec fn travel_step(s: ShotView) -> ShotView {
    if s.explosion_status == ExplosionStatus::Traveling {
        if s.y > 0 {
            ShotView { y: (s.y - 1) as usize, ..s }
        } else {
            shot_exploded(s)
        }
    } else {
        s
    }
}

/// One full ready tick: particle-stage advance, then the travel step, then a
/// timer reset.
pub open spec fn shot_ready_tick(s: ShotView) -> ShotView {
    let s2 = travel_step(particle_step(s));
    ShotView { timer: Timer { interval_ms: s2.timer.interval_ms, elapsed_ms: 0 }, ..s2 }
}

/// One `update(delta)` call: the timer advances; nothing else happens unless
/// it fires.
pub open spec fn shot_step(s: ShotView, delta_ms: u64) -> ShotView {
    let t = timer_step(s.timer, delta_ms);
    if timer_ready(t) {
        shot_ready_tick(ShotView { timer: t, ..s })
    } else {
        ShotView { timer: t, ..s }
    }
}

/// Ready ticks iterated: the state after `n` updates, each with enough
/// elapsed time to fire the timer.
pub open spec fn shot_ready_ticks(s: ShotView, n: nat) -> ShotView
    decreases n,
{
    if n == 0 {
        s
    } else {
        shot_ready_ticks(shot_ready_tick(s), (n - 1) as nat)
    }
}

/// A single shot fired by the player.
pub struct Shot {
    pub x: usize,
    pub y: usize,
    pub x_despawn: usize,
    pub y_despawn: usize,
    pub particle_effects_coords: Vec<(usize, usize)>,
    pub is_explode: bool,
    pub is_despawned: bool,
    pub explosion_stage: i32,
    pub explosion_status: ExplosionStatus,
    pub timer: Timer,
}

impl View for Shot {
    type V = ShotView;

    open spec fn view(&self) -> ShotView {
        ShotView {
            x: self.x,
            y: self.y,
            x_despawn: self.x_despawn,
            y_despawn: self.y_despawn,
            particle_effects_coords: self.particle_effects_coords@,
            is_explode: self.is_explode,
            is_despawned: self.is_despawned,
            explosion_stage: self.explosion_stage,
            explosion_status: self.explosion_status,
            timer: self.timer,
        }
    }
}

impl Shot {
    /// Spawns a traveling shot at the firing position, with the fast initial
    /// tick interval.
    pub fn new(x: usize, y: usize) -> (s: Shot)
        requires
            x < NUM_COLS,
            y < NUM_ROWS,
        ensures
            s@ == new_shot_view(x, y),
            shot_wf(s@),
    {
        Shot {
            x,
            y,
            x_despawn: 0,
            y_despawn: 0,
            particle_effects_coords: Vec::new(),
            is_explode: false,
            is_despawned: false,
            explosion_stage: 1,
            explosion_status: ExplosionStatus::Traveling,
            timer: Timer::from_millis(100),
        }
    }

    /// Plays the explosion cue, freezes the despawn point at the current
    /// position, and transitions to `Exploding`. Callable externally, e.g.
    /// by collision resolution, before the shot reaches the top.
    pub fn explode<P: SoundPlayer>(&mut self, audio: &mut P)
        ensures
            final(self)@ == shot_exploded(old(self)@),
    {
        audio.play(Sound::Explode);
        self.is_explode = true;
        self.explosion_status = ExplosionStatus::Exploding;
        self.x_despawn = self.x;
        self.y_despawn = self.y;
    }

    /// True exactly when the shot is spent; the owning player purges such
    /// shots on its update.
    pub fn dead(&self) -> (r: bool)
        ensures
            r == (self@.explosion_status == ExplosionStatus::Spent),
    {
        matches!(self.explosion_status, ExplosionStatus::Spent)
    }

    fn update_particle_effects(&mut self)
        requires
            shot_wf(old(self)@),
        ensures
            final(self)@ == particle_step(old(self)@),
            shot_wf(final(self)@),
    {
        if !matches!(self.explosion_status, ExplosionStatus::Exploding) {
            return ;
        }
        let pts = get_bullet_coords(
            (self.x_despawn as i32, self.y_despawn as i32),
            self.explosion_stage,
        );
        let mut new_coords: Vec<(usize, usize)> = Vec::new();
        let mut k: usize = 0;
        while k < pts.len()
            invariant
                k <= pts@.len(),
                pts@.len() == 73,
                new_coords@.len() == k,
                forall|j: int|
                    0 <= j < k ==> #[trigger] new_coords@[j] == (
                        clamp_col(pts@[j].0 as int) as usize,
                        clamp_row(pts@[j].1 as int) as usize,
                    ),
            decreases pts@.len() - k,
        {
            let p = pts[k];
            let safe = get_safe_coords(p.0, p.1);
            new_coords.push(safe);
            k = k + 1;
        }
        if self.explosion_stage < NUM_EXPLOSION_STAGES {
            self.particle_effects_coords = new_coords;
            self.explosion_stage = self.explosion_stage + 1;
            self.timer = Timer::from_millis(250);
            proof {
                assert(self.particle_effects_coords@ =~= ring_cells(
                    old(self)@.x_despawn as int,
                    old(self)@.y_despawn as int,
                    old(self)@.explosion_stage as int,
                ));
            }
        } else {
            self.particle_effects_coords = Vec::new();
            self.explosion_status = ExplosionStatus::Spent;
            proof {
                assert(self.particle_effects_coords@ =~= Seq::<(usize, usize)>::empty());
            }
        }
    }

    /// Advances the shot's timer; on a ready tick runs the particle-stage
    /// advance, then the travel step, and resets the timer.
    pub fn update<P: SoundPlayer>(&mut self, delta_ms: u64, audio: &mut P)
        requires
            shot_wf(old(self)@),
        ensures
            final(self)@ == shot_step(old(self)@, delta_ms),
            shot_wf(final(self)@),
    {
        self.timer.update(delta_ms);
        if self.timer.ready() {
            self.update_particle_effects();
            if matches!(self.explosion_status, ExplosionStatus::Traveling) {
                if self.y > 0 {
                    self.y = self.y - 1;
                } else {
                    self.explode(audio);
                }
            }
            self.timer.reset();
        }
    }
}

/// Law: a spent shot stays spent through any further ready ticks.
pub proof fn lemma_spent_stays_spent(s: ShotView, n: nat)
    requires
        s.explosion_status == ExplosionStatus::Spent,
    ensures
        shot_ready_ticks(s, n).explosion_status == ExplosionStatus::Spent,
    decreases n,
{
    if n > 0 {
        lemma_spent_stays_spent(shot_ready_tick(s), (n - 1) as nat);
    }
}

/// Law: from the `Exploding` state the ring advances one stage per ready
/// tick and the shot is spent exactly when the stages run out.
pub proof fn lemma_exploding_runs_out(s: ShotView, n: nat)
    requires
        shot_wf(s),
        s.explosion_status == ExplosionStatus::Exploding,
    ensures
        n + s.explosion_stage <= NUM_EXPLOSION_STAGES ==> {
            let r = shot_ready_ticks(s, n);
            &&& r.explosion_status == ExplosionStatus::Exploding
            &&& r.explosion_stage == s.explosion_stage + n
            &&& shot_wf(r)
        },
        n + s.explosion_stage > NUM_EXPLOSION_STAGES ==> shot_ready_ticks(s, n).explosion_status
            == ExplosionStatus::Spent,
    decreases n,
{
    if n > 0 {
        let s1 = shot_ready_tick(s);
        if s.explosion_stage < NUM_EXPLOSION_STAGES {
            assert forall|k: int| 0 <= k < s1.particle_effects_coords.len() implies (
            #[trigger] s1.particle_effects_coords[k]).0 < NUM_COLS
                && s1.particle_effects_coords[k].1 < NUM_ROWS by {
                crate::frame::lemma_clamp_in_bounds_and_idempotent(
                    ring_point_col(s.x_despawn as int, s.explosion_stage as int, k),
                    ring_point_row(s.y_despawn as int, s.explosion_stage as int, k),
                );
            }
            lemma_exploding_runs_out(s1, (n - 1) as nat);
        } else {
            lemma_spent_stays_spent(s1, (n - 1) as nat);
        }
    }
}

/// Law: the full projectile lifecycle. A shot fired at height `y` travels
/// one cell up per ready tick, explodes on the tick after reaching the top
/// row, runs its five ring stages, and is dead exactly after `y + 6` ready
/// ticks.
pub proof fn lemma_projectile_lifecycle(x: usize, y: usize, n: nat)
    requires
        x < NUM_COLS,
        y < NUM_ROWS,
    ensures
        shot_ready_ticks(new_shot_view(x, y), n).explosion_status == ExplosionStatus::Spent <==> n
            >= y + 6,
{
    lemma_traveling_descends(new_shot_view(x, y), n);
}

proof fn lemma_traveling_descends(s: ShotView, n: nat)
    requires
        shot_wf(s),
        s.explosion_status == ExplosionStatus::Traveling,
    ensures
        n <= s.y ==> {
            let r = shot_ready_ticks(s, n);
            &&& r.explosion_status == ExplosionStatus::Traveling
            &&& r.y == s.y - n
            &&& r.explosion_stage == s.explosion_stage
            &&& shot_wf(r)
        },
        n > s.y ==> (shot_ready_ticks(s, n).explosion_status == ExplosionStatus::Spent <==> n
            > s.y + NUM_EXPLOSION_STAGES - s.explosion_stage + 1),
    decreases n,
{
    if n > 0 {
        let s1 = shot_ready_tick(s);
        if s.y > 0 {
            lemma_traveling_descends(s1, (n - 1) as nat);
        } else {
            assert(s1.explosion_status == ExplosionStatus::Exploding);
            lemma_exploding_runs_out(s1, (n - 1) as nat);
        }
    }
}

impl Drawable for Shot {
    fn draw(&self, frame: &mut Frame) {
        self.paint(frame);
    }
}

impl Shot {
    /// Paints the shot: a traveling shot is one glyph at its position; an
    /// exploding shot is a core glyph at the despawn point under a particle
    /// glyph at every active ring coordinate; a spent shot blanks its old
    /// cells.
    pub fn paint(&self, frame: &mut Frame)
        requires
            frame_wf(*old(frame)),
        ensures
            frame_wf(*final(frame)),
            forall|a: int, b: int|
                0 <= a < NUM_COLS && 0 <= b < NUM_ROWS ==> cell_at(*final(frame), a, b) == (
                match shot_paints(self@, a, b) {
                    Some(c) => c,
                    None => cell_at(*old(frame), a, b),
                }),
    {
        if matches!(self.explosion_status, ExplosionStatus::Exploding) {
            paint_cell(frame, self.x_despawn, self.y_despawn, Cell::ExplosionCore);
            paint_coords(frame, &self.particle_effects_coords, Cell::ExplosionParticle);
        } else if matches!(self.explosion_status, ExplosionStatus::Spent) {
            paint_cell(frame, self.x_despawn, self.y_despawn, Cell::Blank);
            paint_coords(frame, &self.particle_effects_coords, Cell::Blank);
        } else {
            paint_cell(frame, self.x, self.y, Cell::Shot);
        }
    }
}

/// The symbol a shot writes at a cell, if any: its paint step as a partial
/// function of the coordinate.
pub open spec fn shot_paints(s: ShotView, a: int, b: int) -> Option<Cell> {
    match s.explosion_status {
        ExplosionStatus::Traveling => if a == s.x && b == s.y {
            Some(Cell::Shot)
        } else {
            None
        },
        ExplosionStatus::Exploding => if s.particle_effects_coords.contains(
            (a as usize, b as usize),
        ) {
            Some(Cell::ExplosionParticle)
        } else if a == s.x_despawn && b == s.y_despawn {
            Some(Cell::ExplosionCore)
        } else {
            None
        },
        ExplosionStatus::Spent => if s.particle_effects_coords.contains((a as usize, b as usize)) {
            Some(Cell::Blank)
        } else if a == s.x_despawn && b == s.y_despawn {
            Some(Cell::Blank)
        } else {
            None
        },
    }
}

} // verus!
