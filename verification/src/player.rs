//! The player avatar: a grid position moved one cell at a time, and the
//! ordered collection of shots it has fired. Its per-tick update advances
//! every shot and purges the spent ones.

use vstd::prelude::*;

verus! {

use crate::NUM_COLS;
use crate::NUM_ROWS;
use crate::frame::Cell;
use crate::frame::Frame;
use crate::frame::Drawable;
use crate::frame::frame_wf;
use crate::frame::cell_at;
use crate::frame::paint_cell;
use crate::shot::ExplosionStatus;
use crate::shot::Shot;
use crate::shot::ShotView;
use crate::shot::new_shot_view;
use crate::shot::shot_paints;
use crate::shot::shot_step;
use crate::shot::shot_wf;
use crate::sound::SoundPlayer;

/// The ghost state of the player: position and the views of its shots.
pub ghost struct PlayerView {
    pub x: usize,
    pub y: usize,
    pub shots: Seq<ShotView>,
}

/// The player stays on the grid and owns only well-formed shots.
pub open spec fn player_wf(p: PlayerView) -> bool {
    &&& p.x < NUM_COLS
    &&& p.y < NUM_ROWS
    &&& forall|k: int| 0 <= k < p.shots.len() ==> shot_wf(#[trigger] p.shots[k])
}

/// What one update does to the shot collection: every shot advances by the
/// delta, then the spent ones are purged.
pub open spec fn updated_shots(shots: Seq<ShotView>, delta_ms: u64) -> Seq<ShotView> {
    shots.map_values(|v: ShotView| shot_step(v, delta_ms)).filter(
        |v: ShotView| v.explosion_status != ExplosionStatus::Spent,
    )
}

/// The player-controlled avatar.
pub struct Player {
    pub x: usize,
    pub y: usize,
    pub shots: Vec<Shot>,
}

impl View for Player {
    type V = PlayerView;

    open spec fn view(&self) -> PlayerView {
        PlayerView { x: self.x, y: self.y, shots: self.shots@.map_values(|s: Shot| s@) }
    }
}

impl Player {
    /// The player starts centered on the bottom row, with no shots fired.
    pub fn new() -> (p: Player)
        ensures
            p@.x == NUM_COLS / 2,
            p@.y == NUM_ROWS - 1,
            p@.shots == Seq::<ShotView>::empty(),
            player_wf(p@),
    {
        let p = Player { x: NUM_COLS / 2, y: NUM_ROWS - 1, shots: Vec::new() };
        proof {
            assert(p@.shots =~= Seq::<ShotView>::empty());
        }
        p
    }

    /// Moves one cell left unless already at the left edge.
    pub fn move_left(&mut self)
        ensures
            final(self)@.x as int == if old(self)@.x > 0 {
                old(self)@.x - 1
            } else {
                old(self)@.x as int
            },
            final(self)@.y == old(self)@.y,
            final(self)@.shots == old(self)@.shots,
    {
        if self.x > 0 {
            self.x = self.x - 1;
        }
    }

    /// Moves one cell right unless already at the right edge.
    pub fn move_right(&mut self)
        ensures
            final(self)@.x as int == if old(self)@.x < NUM_COLS - 1 {
                old(self)@.x + 1
            } else {
                old(self)@.x as int
            },
            final(self)@.y == old(self)@.y,
            final(self)@.shots == old(self)@.shots,
    {
        if self.x < NUM_COLS - 1 {
            self.x = self.x + 1;
        }
    }

    /// Moves one cell up unless already at the top edge.
    pub fn move_up(&mut self)
        ensures
            final(self)@.y as int == if old(self)@.y > 0 {
                old(self)@.y - 1
            } else {
                old(self)@.y as int
            },
            final(self)@.x == old(self)@.x,
            final(self)@.shots == old(self)@.shots,
    {
        if self.y > 0 {
            self.y = self.y - 1;
        }
    }

    /// Moves one cell down unless already at the bottom edge.
    pub fn move_down(&mut self)
        ensures
            final(self)@.y as int == if old(self)@.y < NUM_ROWS - 1 {
                old(self)@.y + 1
            } else {
                old(self)@.y as int
            },
            final(self)@.x == old(self)@.x,
            final(self)@.shots == old(self)@.shots,
    {
        if self.y < NUM_ROWS - 1 {
            self.y = self.y + 1;
        }
    }

    /// Fires a new shot from the player's position, appending it to the
    /// owned collection.
    pub fn shoot(&mut self)
        requires
            player_wf(old(self)@),
        ensures
            final(self)@.shots == old(self)@.shots.push(new_shot_view(old(self)@.x, old(self)@.y)),
            final(self)@.x == old(self)@.x,
            final(self)@.y == old(self)@.y,
            player_wf(final(self)@),
    {
        let shot = Shot::new(self.x, self.y);
        self.shots.push(shot);
        proof {
            assert(self@.shots =~= old(self)@.shots.push(new_shot_view(old(self)@.x, old(self)@.y)));
        }
    }

    /// Advances every owned shot by the elapsed delta, then purges the spent
    /// ones.
    pub fn update<P: SoundPlayer>(&mut self, delta_ms: u64, audio: &mut P)
        requires
            player_wf(old(self)@),
        ensures
            final(self)@.shots == updated_shots(old(self)@.shots, delta_ms),
            final(self)@.x == old(self)@.x,
            final(self)@.y == old(self)@.y,
            player_wf(final(self)@),
    {
        let ghost views0 = self@.shots;
        let mut j: usize = 0;
        while j < self.shots.len()
            invariant
                j <= views0.len(),
                self.shots@.len() == views0.len(),
                self.x == old(self).x,
                self.y == old(self).y,
                forall|k: int|
                    0 <= k < j ==> (#[trigger] self.shots@[k])@ == shot_step(views0[k], delta_ms)
                        && shot_wf(self.shots@[k]@),
                forall|k: int|
                    j <= k < views0.len() ==> (#[trigger] self.shots@[k])@ == views0[k] && shot_wf(
                        views0[k],
                    ),
            decreases views0.len() - j,
        {
            let sh = shot_at(&mut self.shots, j);
            sh.update(delta_ms, audio);
            j = j + 1;
        }
        let ghost mapped = views0.map_values(|v: ShotView| shot_step(v, delta_ms));
        proof {
            assert(self.shots@.map_values(|s: Shot| s@) =~= mapped);
        }
        let mut kept: Vec<Shot> = Vec::new();
        while self.shots.len() > 0
            invariant
                self.x == old(self).x,
                self.y == old(self).y,
                self.shots@.len() <= mapped.len(),
                forall|k: int|
                    0 <= k < self.shots@.len() ==> (#[trigger] self.shots@[k])@ == mapped[mapped.len()
                        - self.shots@.len() + k] && shot_wf(self.shots@[k]@),
                kept@.map_values(|s: Shot| s@) == mapped.subrange(
                    0,
                    mapped.len() - self.shots@.len(),
                ).filter(|v: ShotView| v.explosion_status != ExplosionStatus::Spent),
                forall|k: int| 0 <= k < kept@.len() ==> shot_wf((#[trigger] kept@[k])@),
            decreases self.shots@.len(),
        {
            let ghost t = mapped.len() - self.shots@.len();
            let sh = self.shots.remove(0);
            proof {
                let pre = mapped.subrange(0, t);
                assert(mapped.subrange(0, t + 1) =~= pre.push(mapped[t]));
                pre.lemma_filter_push(
                    mapped[t],
                    |v: ShotView| v.explosion_status != ExplosionStatus::Spent,
                );
            }
            if !sh.dead() {
                kept.push(sh);
                proof {
                    assert(kept@.map_values(|s: Shot| s@) =~= kept@.drop_last().map_values(
                        |s: Shot| s@,
                    ).push(sh@));
                }
            }
        }
        proof {
            assert(mapped.subrange(0, mapped.len() as int) =~= mapped);
        }
        self.shots = kept;
    }
}

pub(crate) fn shot_at(shots: &mut Vec<Shot>, j: usize) -> (s: &mut Shot)
    requires
        j < old(shots).len(),
    ensures
        *s == old(shots)@[j as int],
        final(shots)@ == old(shots)@.update(j as int, *final(s)),
{
    &mut shots[j]
}

/// The symbol the ordered shot collection leaves at a cell, if any: later
/// shots paint over earlier ones.
pub open spec fn shots_painted(shots: Seq<ShotView>, a: int, b: int) -> Option<Cell>
    decreases shots.len(),
{
    if shots.len() == 0 {
        None
    } else {
        match shot_paints(shots.last(), a, b) {
            Some(c) => Some(c),
            None => shots_painted(shots.drop_last(), a, b),
        }
    }
}

impl Drawable for Player {
    fn draw(&self, frame: &mut Frame) {
        self.paint(frame);
    }
}

impl Player {
    /// Paints every owned shot in order, then the avatar itself: a distinct
    /// collision symbol when it stands on a cell an enemy was drawn in,
    /// otherwise the player symbol.
    pub fn paint(&self, frame: &mut Frame)
        requires
            frame_wf(*old(frame)),
        ensures
            frame_wf(*final(frame)),
            forall|a: int, b: int|
                0 <= a < NUM_COLS && 0 <= b < NUM_ROWS ==> cell_at(*final(frame), a, b) == {
                    let base = (match shots_painted(self@.shots, a, b) {
                        Some(c) => c,
                        None => cell_at(*old(frame), a, b),
                    });
                    if a == self.x && b == self.y {
                        if base == Cell::Enemy {
                            Cell::PlayerOnEnemy
                        } else {
                            Cell::Player
                        }
                    } else {
                        base
                    }
                },
    {
        let ghost views = self@.shots;
        let mut k: usize = 0;
        while k < self.shots.len()
            invariant
                k <= views.len(),
                self.shots@.map_values(|s: Shot| s@) == views,
                frame_wf(*frame),
                forall|a: int, b: int|
                    0 <= a < NUM_COLS && 0 <= b < NUM_ROWS ==> cell_at(*frame, a, b) == (
                    match shots_painted(views.subrange(0, k as int), a, b) {
                        Some(c) => c,
                        None => cell_at(*old(frame), a, b),
                    }),
            decreases views.len() - k,
        {
            let sh = &self.shots[k];
            sh.paint(frame);
            proof {
                assert(views.subrange(0, k as int + 1).drop_last() =~= views.subrange(0, k as int));
                assert(views.subrange(0, k as int + 1).last() == sh@);
            }
            k = k + 1;
        }
        proof {
            assert(views.subrange(0, views.len() as int) =~= views);
        }
        if self.x < NUM_COLS && self.y < NUM_ROWS {
            let cur = frame[self.x][self.y];
            if matches!(cur, Cell::Enemy) {
                paint_cell(frame, self.x, self.y, Cell::PlayerOnEnemy);
            } else {
                paint_cell(frame, self.x, self.y, Cell::Player);
            }
        }
    }
}

} // verus!
