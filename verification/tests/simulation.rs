use space_invaders::enemy::{Direction, Enemies, Enemy, Horizontal, Vertical};
use space_invaders::frame::{get_safe_coords, new_frame, Cell, Drawable};
use space_invaders::game_logic::{GameLogic, GameState};
use space_invaders::player::Player;
use space_invaders::render::diff_writes;
use space_invaders::shot::{get_bullet_coords, ExplosionStatus, Shot};
use space_invaders::sound::{Sound, SoundPlayer};
use space_invaders::timer::Timer;
use space_invaders::{NUM_COLS, NUM_ROWS};

struct NullAudio;

impl SoundPlayer for NullAudio {
    fn play(&mut self, _sound: Sound) {}
}

struct CountingAudio {
    moves: usize,
    explodes: usize,
}

impl SoundPlayer for CountingAudio {
    fn play(&mut self, sound: Sound) {
        match sound {
            Sound::SwarmMove => self.moves += 1,
            Sound::Explode => self.explodes += 1,
        }
    }
}

fn swarm_with(units: Vec<Enemy>) -> Enemies {
    let mut enemies = Enemies::new();
    enemies.enemy_list = units;
    enemies
}

#[test]
fn spawn_pattern_is_deterministic() {
    let enemies = Enemies::new();
    // Columns 5..=34 survive the margins; odd columns hold rows {1, 3},
    // even columns rows {0, 2, 4}: 15 * 2 + 15 * 3 units.
    assert_eq!(enemies.enemy_list.len(), 75);
    for (k, e) in enemies.enemy_list.iter().enumerate() {
        assert_eq!(e.i, k);
        assert!(e.x >= 5 && e.x <= NUM_COLS - 1 - 5);
        assert!(e.y < NUM_ROWS / 4);
        assert_eq!(e.x % 2, e.y % 2);
    }
    let first = &enemies.enemy_list[0];
    assert_eq!((first.x, first.y), (5, 1));
    let second = &enemies.enemy_list[1];
    assert_eq!((second.x, second.y), (5, 3));
    let third = &enemies.enemy_list[2];
    assert_eq!((third.x, third.y), (6, 0));
    let last = &enemies.enemy_list[74];
    assert_eq!((last.x, last.y), (34, 4));
}

#[test]
fn despawn_is_idempotent() {
    let mut enemies = Enemies::new();
    enemies.get_shot(10);
    assert_eq!(enemies.enemy_list.len(), 74);
    let after_first: Vec<(usize, usize, usize)> =
        enemies.enemy_list.iter().map(|e| (e.x, e.y, e.i)).collect();
    enemies.get_shot(10);
    let after_second: Vec<(usize, usize, usize)> =
        enemies.enemy_list.iter().map(|e| (e.x, e.y, e.i)).collect();
    assert_eq!(after_first, after_second);
    assert!(enemies.enemy_list.iter().all(|e| e.i != 10));
}

#[test]
fn despawn_of_missing_identity_is_noop() {
    let mut enemies = Enemies::new();
    enemies.get_shot(9999);
    assert_eq!(enemies.enemy_list.len(), 75);
}

#[test]
fn clamp_stays_in_bounds_and_is_idempotent() {
    assert_eq!(get_safe_coords(-5, -7), (0, 0));
    assert_eq!(get_safe_coords(1000, 1000), (NUM_COLS - 1, NUM_ROWS - 1));
    assert_eq!(get_safe_coords(10, 5), (10, 5));
    for (x, y) in [(-100, 3), (50, -2), (39, 19), (0, 0), (-1, 100)] {
        let (cx, cy) = get_safe_coords(x, y);
        assert!(cx < NUM_COLS && cy < NUM_ROWS);
        assert_eq!(get_safe_coords(cx as i32, cy as i32), (cx, cy));
    }
}

#[test]
fn horizontal_direction_is_sticky_away_from_boundaries() {
    let mut audio = NullAudio;
    for horizontal in [Horizontal::Left, Horizontal::Right] {
        let mut enemies = swarm_with(vec![Enemy::new(10, 0, 0)]);
        enemies.direction = Direction {
            moving: true,
            vertical: Vertical::Down,
            horizontal,
        };
        let ticked = enemies.update(3000, &mut audio);
        assert!(ticked);
        assert_eq!(enemies.direction.horizontal, horizontal);
    }
}

#[test]
fn swarm_reverses_at_side_boundaries() {
    let mut audio = NullAudio;

    let mut at_left = swarm_with(vec![Enemy::new(0, 0, 0)]);
    at_left.update(3000, &mut audio);
    assert_eq!(at_left.direction.horizontal, Horizontal::Right);
    assert_eq!((at_left.enemy_list[0].x, at_left.enemy_list[0].y), (1, 1));

    let mut at_right = swarm_with(vec![Enemy::new(NUM_COLS - 2, 0, 0)]);
    at_right.update(3000, &mut audio);
    assert_eq!(at_right.direction.horizontal, Horizontal::Left);
    assert_eq!(
        (at_right.enemy_list[0].x, at_right.enemy_list[0].y),
        (NUM_COLS - 3, 1)
    );
}

#[test]
fn swarm_stops_for_good_at_the_bottom() {
    let mut audio = CountingAudio {
        moves: 0,
        explodes: 0,
    };
    let mut enemies = swarm_with(vec![Enemy::new(8, NUM_ROWS - 1, 0)]);
    enemies.direction.moving = true;

    for _ in 0..3 {
        let ticked = enemies.update(3000, &mut audio);
        assert!(ticked);
        assert!(!enemies.direction.moving);
        assert_eq!((enemies.enemy_list[0].x, enemies.enemy_list[0].y), (8, NUM_ROWS - 1));
    }
    assert_eq!(audio.moves, 0);
}

#[test]
fn stopping_tick_still_reverses_at_a_side_boundary() {
    // A swarm at the bottom and a side boundary at once: the tick stops all
    // movement for good, yet the horizontal selector still flips.
    let mut audio = NullAudio;
    let mut enemies = swarm_with(vec![Enemy::new(0, NUM_ROWS - 1, 0)]);
    enemies.direction.horizontal = Horizontal::Left;
    let ticked = enemies.update(3000, &mut audio);
    assert!(ticked);
    assert!(!enemies.direction.moving);
    assert_eq!(enemies.direction.horizontal, Horizontal::Right);
    assert_eq!((enemies.enemy_list[0].x, enemies.enemy_list[0].y), (0, NUM_ROWS - 1));
}

#[test]
fn swarm_tick_waits_for_the_timer() {
    let mut audio = NullAudio;
    let mut enemies = swarm_with(vec![Enemy::new(10, 0, 0)]);
    assert!(!enemies.update(1000, &mut audio));
    assert_eq!((enemies.enemy_list[0].x, enemies.enemy_list[0].y), (10, 0));
    assert!(!enemies.update(1000, &mut audio));
    assert!(enemies.update(1000, &mut audio));
    assert_eq!((enemies.enemy_list[0].x, enemies.enemy_list[0].y), (9, 1));
}

#[test]
fn swarm_move_plays_one_cue_per_tick() {
    let mut audio = CountingAudio {
        moves: 0,
        explodes: 0,
    };
    let mut enemies = Enemies::new();
    enemies.update(3000, &mut audio);
    assert_eq!(audio.moves, 1);
    enemies.update(3000, &mut audio);
    assert_eq!(audio.moves, 2);
}

#[test]
fn projectile_lifecycle_runs_to_spent() {
    let mut audio = CountingAudio {
        moves: 0,
        explodes: 0,
    };
    let mut shot = Shot::new(5, 2);
    assert!(matches!(shot.explosion_status, ExplosionStatus::Traveling));
    assert!(!shot.dead());

    // Fired at height 2: two ticks of travel, the explosion tick, four ring
    // growth ticks, and the final tick that spends the shot.
    for tick in 1..=8 {
        assert!(!shot.dead());
        shot.update(1000, &mut audio);
        match tick {
            1 => assert_eq!(shot.y, 1),
            2 => assert_eq!(shot.y, 0),
            3 => {
                assert!(matches!(shot.explosion_status, ExplosionStatus::Exploding));
                assert_eq!((shot.x_despawn, shot.y_despawn), (5, 0));
                assert_eq!(audio.explodes, 1);
            }
            4..=7 => {
                assert!(matches!(shot.explosion_status, ExplosionStatus::Exploding));
                assert_eq!(shot.particle_effects_coords.len(), 73);
            }
            _ => {}
        }
    }
    assert!(shot.dead());
    assert!(matches!(shot.explosion_status, ExplosionStatus::Spent));
    assert!(shot.particle_effects_coords.is_empty());
}

#[test]
fn particle_ring_has_73_samples() {
    let ring = get_bullet_coords((20, 10), 3);
    assert_eq!(ring.len(), 73);
    // The first sample is the unrotated vector (radius, 0).
    assert_eq!(ring[0], (23, 10));
    // A quarter turn later the vector points straight down the rows.
    assert_eq!(ring[18], (20, 13));
    for radius in 1..=5 {
        assert_eq!(get_bullet_coords((0, 0), radius).len(), 73);
    }
}

#[test]
fn external_explosion_freezes_despawn_point() {
    let mut audio = NullAudio;
    let mut shot = Shot::new(7, 9);
    shot.explode(&mut audio);
    assert!(matches!(shot.explosion_status, ExplosionStatus::Exploding));
    assert!(shot.is_explode);
    assert_eq!((shot.x_despawn, shot.y_despawn), (7, 9));
}

#[test]
fn collision_despawns_enemy_and_explodes_shot() {
    let mut audio = NullAudio;
    let mut player = Player::new();
    player.shots.push(Shot::new(10, 5));
    let mut enemies = swarm_with(vec![Enemy::new(10, 5, 0)]);

    let state = GameLogic::new().check_game_state(&mut player, &mut enemies, &mut audio);

    assert!(matches!(state, GameState::Progress));
    assert!(enemies.enemy_list.is_empty());
    assert!(matches!(
        player.shots[0].explosion_status,
        ExplosionStatus::Exploding
    ));
    assert_eq!(
        (player.shots[0].x_despawn, player.shots[0].y_despawn),
        (10, 5)
    );
}

#[test]
fn particle_ring_hit_despawns_enemy() {
    let mut audio = NullAudio;
    let mut player = Player::new();
    let mut shot = Shot::new(10, 5);
    shot.explode(&mut audio);
    shot.update(1000, &mut audio); // first ring, radius 1
    assert_eq!(shot.particle_effects_coords.len(), 73);
    player.shots.push(shot);
    // Sits on the ring one cell right of the despawn point; not on the core.
    let mut enemies = swarm_with(vec![Enemy::new(11, 5, 0), Enemy::new(30, 2, 1)]);

    let state = GameLogic::new().check_game_state(&mut player, &mut enemies, &mut audio);

    assert!(matches!(state, GameState::Progress));
    assert_eq!(enemies.enemy_list.len(), 1);
    assert_eq!(enemies.enemy_list[0].i, 1);
}

#[test]
fn empty_swarm_is_a_win() {
    let mut audio = NullAudio;
    let mut player = Player::new();
    let mut enemies = swarm_with(vec![]);
    let state = GameLogic::new().check_game_state(&mut player, &mut enemies, &mut audio);
    assert!(matches!(state, GameState::Win));
}

#[test]
fn enemy_on_player_cell_is_a_loss() {
    let mut audio = NullAudio;
    let mut player = Player::new();
    player.shots.push(Shot::new(3, 3));
    let px = player.x;
    let py = player.y;
    let mut enemies = swarm_with(vec![Enemy::new(1, 1, 0), Enemy::new(px, py, 1)]);

    let state = GameLogic::new().check_game_state(&mut player, &mut enemies, &mut audio);

    assert!(matches!(state, GameState::Lose));
    // A loss stops the pass before any mutation.
    assert_eq!(enemies.enemy_list.len(), 2);
    assert!(matches!(
        player.shots[0].explosion_status,
        ExplosionStatus::Traveling
    ));
}

#[test]
fn one_resolver_pass_marks_all_hits() {
    let mut audio = NullAudio;
    let mut player = Player::new();
    player.shots.push(Shot::new(10, 5));
    player.shots.push(Shot::new(12, 7));
    let mut enemies = swarm_with(vec![
        Enemy::new(10, 5, 0),
        Enemy::new(12, 7, 1),
        Enemy::new(20, 2, 2),
    ]);

    let state = GameLogic::new().check_game_state(&mut player, &mut enemies, &mut audio);

    assert!(matches!(state, GameState::Progress));
    assert_eq!(enemies.enemy_list.len(), 1);
    assert_eq!(enemies.enemy_list[0].i, 2);
    assert!(matches!(
        player.shots[0].explosion_status,
        ExplosionStatus::Exploding
    ));
    assert!(matches!(
        player.shots[1].explosion_status,
        ExplosionStatus::Exploding
    ));
}

#[test]
fn diff_renderer_writes_only_changes() {
    let f1 = new_frame();
    let mut f2 = new_frame();
    assert_eq!(diff_writes(&f1, &f2, false).len(), 0);

    f2[5][3] = Cell::Enemy;
    let writes = diff_writes(&f1, &f2, false);
    assert_eq!(writes.len(), 1);
    assert_eq!(writes[0], (5, 3, Cell::Enemy));
}

#[test]
fn forced_render_writes_every_cell() {
    let f1 = new_frame();
    let writes = diff_writes(&f1, &f1, true);
    assert_eq!(writes.len(), NUM_COLS * NUM_ROWS);
    assert_eq!(writes[0], (0, 0, Cell::Blank));
    assert_eq!(writes[writes.len() - 1], (NUM_COLS - 1, NUM_ROWS - 1, Cell::Blank));
}

#[test]
fn draw_order_marks_player_on_enemy_cell() {
    let mut frame = new_frame();
    let player = Player::new();
    let enemies = swarm_with(vec![Enemy::new(player.x, player.y, 0), Enemy::new(3, 2, 1)]);
    enemies.draw(&mut frame);
    player.draw(&mut frame);
    assert_eq!(frame[player.x][player.y], Cell::PlayerOnEnemy);
    assert_eq!(frame[3][2], Cell::Enemy);
}

#[test]
fn shots_and_explosions_render_expected_symbols() {
    let mut audio = NullAudio;
    let mut frame = new_frame();
    let mut player = Player::new();
    player.shots.push(Shot::new(4, 6));
    player.draw(&mut frame);
    assert_eq!(frame[4][6], Cell::Shot);
    assert_eq!(frame[player.x][player.y], Cell::Player);

    let mut shot = player.shots.remove(0);
    shot.explode(&mut audio);
    shot.update(1000, &mut audio); // first ring, radius 1
    let mut frame2 = new_frame();
    shot.paint(&mut frame2);
    assert_eq!(frame2[4][6], Cell::ExplosionCore);
    assert_eq!(frame2[5][6], Cell::ExplosionParticle);
    assert_eq!(frame2[4][5], Cell::ExplosionParticle);
}

#[test]
fn new_frame_is_all_blank() {
    let f = new_frame();
    assert_eq!(f.len(), NUM_COLS);
    for col in &f {
        assert_eq!(col.len(), NUM_ROWS);
        for cell in col {
            assert_eq!(*cell, Cell::Blank);
        }
    }
}

#[test]
fn player_moves_are_clamped() {
    let mut player = Player::new();
    assert_eq!((player.x, player.y), (NUM_COLS / 2, NUM_ROWS - 1));
    player.move_down();
    assert_eq!(player.y, NUM_ROWS - 1);
    for _ in 0..NUM_COLS {
        player.move_left();
    }
    assert_eq!(player.x, 0);
    player.move_left();
    assert_eq!(player.x, 0);
    player.move_right();
    assert_eq!(player.x, 1);
    for _ in 0..NUM_ROWS {
        player.move_up();
    }
    assert_eq!(player.y, 0);
    player.move_up();
    assert_eq!(player.y, 0);
}

#[test]
fn enemy_moves_are_clamped() {
    let mut e = Enemy::new(0, 0, 0);
    assert!(!e.move_left());
    assert!(!e.move_up());
    assert!(e.move_right());
    assert!(e.move_down());
    assert_eq!((e.x, e.y), (1, 1));
    let mut corner = Enemy::new(NUM_COLS - 1, NUM_ROWS - 1, 1);
    assert!(!corner.move_right());
    assert!(!corner.move_down());
}

#[test]
fn player_update_purges_spent_shots() {
    let mut audio = NullAudio;
    let mut player = Player::new();
    player.shoot();
    assert_eq!(player.shots.len(), 1);
    assert_eq!((player.shots[0].x, player.shots[0].y), (player.x, player.y));

    // Fired from the bottom row: spent after (NUM_ROWS - 1) + 6 ready ticks.
    for _ in 0..(NUM_ROWS - 1 + 5) {
        player.update(1000, &mut audio);
        assert_eq!(player.shots.len(), 1);
    }
    player.update(1000, &mut audio);
    assert_eq!(player.shots.len(), 0);
}

#[test]
fn shot_timer_waits_for_its_interval() {
    let mut audio = NullAudio;
    let mut shot = Shot::new(4, 6);
    shot.update(40, &mut audio);
    assert_eq!(shot.y, 6);
    shot.update(40, &mut audio);
    assert_eq!(shot.y, 6);
    shot.update(40, &mut audio);
    assert_eq!(shot.y, 5);
}

#[test]
fn timer_accumulates_and_resets() {
    let mut t = Timer::from_millis(100);
    assert!(!t.ready());
    t.update(60);
    assert!(!t.ready());
    t.update(60);
    assert!(t.ready());
    t.update(1000);
    assert!(t.ready());
    t.reset();
    assert!(!t.ready());
    assert_eq!(t.interval_ms, 100);
}
