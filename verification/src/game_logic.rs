//! Per-tick collision resolution and game-state decision: an empty swarm is
//! a win, an enemy on the player's cell is a loss, and otherwise every enemy
//! touched by a shot or its particle ring is despawned while the shots that
//! hit are forced to explode.

use vstd::prelude::*;

verus! {

use crate::enemy::Enemies;
use crate::enemy::Enemy;
use crate::enemy::enemy_at;
use crate::player::Player;
use crate::player::PlayerView;
use crate::player::player_wf;
use crate::player::shot_at;
use crate::shot::ExplosionStatus;
use crate::shot::Shot;
use crate::shot::ShotView;
use crate::shot::shot_exploded;
use crate::shot::shot_wf;
use crate::sound::SoundPlayer;

/// The tri-state outcome of one resolution pass.
#[derive(Clone, Copy, PartialEq, Eq, Structural, Debug)]
pub enum GameState {
    Progress,
    Win,
    Lose,
}

/// Whether a shot touches an enemy: the enemy sits on the shot's cell or on
/// one of its active particle coordinates.
pub open spec fn shot_hits(sv: ShotView, e: Enemy) -> bool {
    (e.x == sv.x && e.y == sv.y) || sv.particle_effects_coords.contains((e.x, e.y))
}

/// Whether any shot of the collection touches the enemy.
pub open spec fn enemy_marked(shots: Seq<ShotView>, e: Enemy) -> bool {
    exists|j: int| 0 <= j < shots.len() && shot_hits(#[trigger] shots[j], e)
}

/// Whether the shot touches any enemy of the collection.
pub open spec fn shot_hits_any(sv: ShotView, es: Seq<Enemy>) -> bool {
    exists|i: int| 0 <= i < es.len() && shot_hits(sv, #[trigger] es[i])
}

/// What resolution does to one shot: a traveling shot that touched an enemy
/// is forced to explode; every other shot is untouched.
pub open spec fn resolved_shot(sv: ShotView, es: Seq<Enemy>) -> ShotView {
    if sv.explosion_status == ExplosionStatus::Traveling && shot_hits_any(sv, es) {
        shot_exploded(sv)
    } else {
        sv
    }
}

/// What resolution does to the shot collection.
pub open spec fn resolved_shots(shots: Seq<ShotView>, es: Seq<Enemy>) -> Seq<ShotView> {
    shots.map_values(|sv: ShotView| resolved_shot(sv, es))
}

/// The enemies that survive resolution: those no shot touched.
pub open spec fn surviving_enemies(es: Seq<Enemy>, shots: Seq<ShotView>) -> Seq<Enemy> {
    es.filter(|e: Enemy| !enemy_marked(shots, e))
}

/// The outcome of one resolution pass, from the pre-pass state.
pub open spec fn game_state_of(p: PlayerView, es: Seq<Enemy>) -> GameState {
    if es.len() == 0 {
        GameState::Win
    } else if enemy_at(es, p.x as int, p.y as int) {
        GameState::Lose
    } else {
        GameState::Progress
    }
}

/// The collision resolver; it owns no state of its own.
pub struct GameLogic {}

impl GameLogic {
    pub fn new() -> (g: GameLogic)
        ensures
            g == (GameLogic {  }),
    {
        GameLogic {  }
    }

    /// One resolution pass, run after all entities have moved: decides the
    /// outcome, and on `Progress` despawns every enemy a shot touched and
    /// forces the traveling shots that touched one to explode. A win or a
    /// loss mutates nothing.
    pub fn check_game_state<P: SoundPlayer>(
        &self,
        player: &mut Player,
        enemies: &mut Enemies,
        audio: &mut P,
    ) -> (state: GameState)
        requires
            player_wf(old(player)@),
        ensures
            state == game_state_of(old(player)@, old(enemies)@.enemies),
            state != GameState::Progress ==> *final(player) == *old(player) && *final(enemies)
                == *old(enemies),
            state == GameState::Progress ==> {
                &&& final(player)@.shots == resolved_shots(
                    old(player)@.shots,
                    old(enemies)@.enemies,
                )
                &&& final(player)@.x == old(player)@.x
                &&& final(player)@.y == old(player)@.y
                &&& player_wf(final(player)@)
                &&& final(enemies)@.enemies == surviving_enemies(
                    old(enemies)@.enemies,
                    old(player)@.shots,
                )
                &&& final(enemies)@.timer == old(enemies)@.timer
                &&& final(enemies)@.direction == old(enemies)@.direction
            },
    {
        if enemies.enemy_list.len() == 0 {
            return GameState::Win;
        }
        let mut i: usize = 0;
        while i < enemies.enemy_list.len()
            invariant
                i <= enemies.enemy_list@.len(),
                forall|k: int|
                    0 <= k < i ==> !((#[trigger] enemies.enemy_list@[k]).x == player.x
                        && enemies.enemy_list@[k].y == player.y),
            decreases enemies.enemy_list@.len() - i,
        {
            let e = &enemies.enemy_list[i];
            if e.x == player.x && e.y == player.y {
                return GameState::Lose;
            }
            i = i + 1;
        }
        proof {
            assert(!enemy_at(enemies.enemy_list@, player@.x as int, player@.y as int)) by {
                if enemy_at(enemies.enemy_list@, player@.x as int, player@.y as int) {
                    let k = choose|k: int|
                        0 <= k < enemies.enemy_list@.len() && (#[trigger] enemies.enemy_list@[k]).x
                            == player@.x && enemies.enemy_list@[k].y == player@.y;
                }
            }
        }

        let ghost es0 = enemies.enemy_list@;
        let ghost shots0 = player@.shots;
        let ghost t0 = enemies.timer;
        let ghost d0 = enemies.direction;

        let mut j: usize = 0;
        while j < player.shots.len()
            invariant
                j <= shots0.len(),
                player.shots@.len() == shots0.len(),
                player.x == old(player).x,
                player.y == old(player).y,
                enemies.enemy_list@ == es0,
                enemies.timer == t0,
                enemies.direction == d0,
                forall|k: int|
                    0 <= k < j ==> (#[trigger] player.shots@[k])@ == resolved_shot(
                        shots0[k],
                        es0,
                    ) && shot_wf(player.shots@[k]@),
                forall|k: int|
                    j <= k < shots0.len() ==> (#[trigger] player.shots@[k])@ == shots0[k],
                forall|k: int| 0 <= k < shots0.len() ==> shot_wf(#[trigger] shots0[k]),
            decreases shots0.len() - j,
        {
            let traveling = matches!(player.shots[j].explosion_status, ExplosionStatus::Traveling);
            let hit = shot_hits_any_x(&player.shots[j], &enemies.enemy_list);
            if traveling && hit {
                let sh = shot_at(&mut player.shots, j);
                sh.explode(audio);
            }
            j = j + 1;
        }
        proof {
            assert(player@.shots =~= resolved_shots(shots0, es0));
        }

        let mut kept: Vec<Enemy> = Vec::new();
        let mut i2: usize = 0;
        while i2 < enemies.enemy_list.len()
            invariant
                i2 <= es0.len(),
                enemies.enemy_list@ == es0,
                enemies.timer == t0,
                enemies.direction == d0,
                player.x == old(player).x,
                player.y == old(player).y,
                player@.shots == resolved_shots(shots0, es0),
                forall|k: int| 0 <= k < shots0.len() ==> shot_wf(#[trigger] shots0[k]),
                forall|k: int|
                    0 <= k < player.shots@.len() ==> shot_wf((#[trigger] player.shots@[k])@),
                kept@ == es0.subrange(0, i2 as int).filter(|e: Enemy| !enemy_marked(shots0, e)),
            decreases es0.len() - i2,
        {
            let e = enemies.enemy_list[i2];
            let marked_now = enemy_marked_x(&player.shots, &e);
            proof {
                lemma_resolved_preserves_marks(shots0, es0, e);
                let pre = es0.subrange(0, i2 as int);
                assert(es0.subrange(0, i2 as int + 1) =~= pre.push(es0[i2 as int]));
                pre.lemma_filter_push(es0[i2 as int], |e2: Enemy| !enemy_marked(shots0, e2));
            }
            if !marked_now {
                kept.push(e);
            }
            i2 = i2 + 1;
        }
        proof {
            assert(es0.subrange(0, es0.len() as int) =~= es0);
        }
        enemies.enemy_list = kept;
        GameState::Progress
    }
}

/// Forcing explosions changes no shot's position or particle ring, so the
/// marks computed against the resolved shots are the marks against the
/// pre-pass ones.
proof fn lemma_resolved_preserves_marks(shots0: Seq<ShotView>, es: Seq<Enemy>, e: Enemy)
    ensures
        enemy_marked(resolved_shots(shots0, es), e) == enemy_marked(shots0, e),
{
    let mapped = resolved_shots(shots0, es);
    assert forall|j: int| 0 <= j < shots0.len() implies shot_hits(#[trigger] mapped[j], e)
        == shot_hits(shots0[j], e) by {
        assert(mapped[j] == resolved_shot(shots0[j], es));
    }
    if enemy_marked(mapped, e) {
        let j = choose|j: int| 0 <= j < mapped.len() && shot_hits(#[trigger] mapped[j], e);
        assert(shot_hits(shots0[j], e));
    }
    if enemy_marked(shots0, e) {
        let j = choose|j: int| 0 <= j < shots0.len() && shot_hits(#[trigger] shots0[j], e);
        assert(shot_hits(mapped[j], e));
    }
}

/// Whether the shot touches this enemy, tested against the shot's cell and
/// its active particle coordinates.
fn shot_hits_enemy_x(shot: &Shot, e: &Enemy) -> (r: bool)
    ensures
        r == shot_hits(shot@, *e),
{
    if e.x == shot.x && e.y == shot.y {
        return true;
    }
    let mut k: usize = 0;
    while k < shot.particle_effects_coords.len()
        invariant
            k <= shot.particle_effects_coords@.len(),
            forall|m: int|
                0 <= m < k ==> #[trigger] shot.particle_effects_coords@[m] != (e.x, e.y),
        decreases shot.particle_effects_coords@.len() - k,
    {
        let c = shot.particle_effects_coords[k];
        if c.0 == e.x && c.1 == e.y {
            assert(shot.particle_effects_coords@[k as int] == (e.x, e.y));
            return true;
        }
        k = k + 1;
    }
    proof {
        if shot@.particle_effects_coords.contains((e.x, e.y)) {
            let m = choose|m: int|
                0 <= m < shot.particle_effects_coords@.len()
                    && shot.particle_effects_coords@[m] == (e.x, e.y);
        }
    }
    false
}

/// Whether the shot touches any enemy of the list.
fn shot_hits_any_x(shot: &Shot, es: &Vec<Enemy>) -> (r: bool)
    ensures
        r == shot_hits_any(shot@, es@),
{
    let mut i: usize = 0;
    while i < es.len()
        invariant
            i <= es@.len(),
            forall|k: int| 0 <= k < i ==> !shot_hits(shot@, #[trigger] es@[k]),
        decreases es@.len() - i,
    {
        if shot_hits_enemy_x(shot, &es[i]) {
            return true;
        }
        i = i + 1;
    }
    false
}

/// Whether any shot of the collection touches this enemy.
fn enemy_marked_x(shots: &Vec<Shot>, e: &Enemy) -> (r: bool)
    ensures
        r == enemy_marked(shots@.map_values(|s: Shot| s@), *e),
{
    let ghost views = shots@.map_values(|s: Shot| s@);
    let mut j: usize = 0;
    while j < shots.len()
        invariant
            j <= views.len(),
            shots@.len() == views.len(),
            views == shots@.map_values(|s: Shot| s@),
            forall|k: int| 0 <= k < j ==> !shot_hits(#[trigger] views[k], *e),
        decreases views.len() - j,
    {
        if shot_hits_enemy_x(&shots[j], e) {
            proof {
                assert(views[j as int] == shots@[j as int]@);
            }
            return true;
        }
        j = j + 1;
    }
    false
}

} // verus!
