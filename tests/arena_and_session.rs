use spacerocks::boundary::{
    handle_meteor_intersections_with_wall, handle_player_intersections_with_wall,
    handle_shot_intersections_with_wall, spawn_walls, wall_relocation, Wall, WallContacts,
};
use spacerocks::damage::Damageable;
use spacerocks::fragmentation::{
    assemble_fragments, create_new_meteors_after_destruction, equidistant_points_on_circle, explode_meteor,
    fragments_from_draws, nudge_onto_screen, points_on_circle_with_radii,
};
use spacerocks::geometry::{ring_direction, Arena, Rotation, Vec2};
use spacerocks::registry::Entity;
use spacerocks::meteors::{Meteor, MeteorType, METEOR_MAX_SPEED};
use spacerocks::planets::{
    gravitational_velocity, simulate_meteor_gravity_toward_planets,
    simulate_player_gravity_toward_planets, spawn_planets, Planet,
};
use spacerocks::player::{
    handle_player_respawn_on_death, spawn_ship, update_player_position, DeathOutcome, PlayerLives,
    PlayerShip, ThrustInput,
};
use spacerocks::simulation::{
    run_constrain_velocity_tick, run_fire_tick, run_player_wrap_tick, run_spawn_over_time_tick,
    run_damage_tick, run_gravity_tick, toggle_simulation, AppState, GameSession, SimulationState,
};
use spacerocks::spawning::{
    constrain_meteor_velocity, random_val_outside_contraints, spawn_meteor_at_random_location,
    spawn_meteors, spawn_meteors_over_time,
};
use spacerocks::meteors::MeteorSpawnTimer;
use spacerocks::weapons::{
    middle_shot_from_transform, player_fire_weapon,
    WeaponFireTimer,
};

const SHIP: Entity = Entity { id: 1 };

const ARENA: Arena = Arena { width: 1_280_000, height: 720_000 };

fn no_walls() -> WallContacts {
    WallContacts { left: false, right: false, top: false, bottom: false }
}

fn dist_sq(a: Vec2, b: Vec2) -> i64 {
    let dx = a.x - b.x;
    let dy = a.y - b.y;
    dx * dx + dy * dy
}

#[test]
fn ring_directions_table() {
    assert_eq!(ring_direction(1, 0), Vec2::new(1000, 0));
    assert_eq!(ring_direction(2, 1), Vec2::new(-1000, 0));
    assert_eq!(ring_direction(3, 1), Vec2::new(-500, 866));
    assert_eq!(ring_direction(3, 2), Vec2::new(-500, -866));
    assert_eq!(ring_direction(4, 1), Vec2::new(0, 1000));
    assert_eq!(ring_direction(4, 3), Vec2::new(0, -1000));
}

#[test]
fn ring_points_at_given_radii() {
    let o = Vec2::new(500_000, 400_000);
    let pts = points_on_circle_with_radii(o, &vec![10_000, 20_000, 30_000, 40_000]);
    assert_eq!(pts, vec![
        Vec2::new(510_000, 400_000),
        Vec2::new(500_000, 420_000),
        Vec2::new(470_000, 400_000),
        Vec2::new(500_000, 360_000),
    ]);
    let pts = points_on_circle_with_radii(o, &vec![1000, 1000, 1000]);
    assert_eq!(pts[1], Vec2::new(499_500, 400_866));
    assert_eq!(pts[2], Vec2::new(499_500, 399_134));
}

#[test]
fn fragments_from_given_draws() {
    let o = Vec2::new(0, 0);
    let f = fragments_from_draws(o, &vec![2000, 2000], &vec![4000, 3000]);
    assert_eq!(f[0], (Vec2::new(2000, 0), Vec2::new(4000, 0)));
    assert_eq!(f[1], (Vec2::new(-2000, 0), Vec2::new(-3000, 0)));
}

#[test]
fn ring_points_lie_in_jitter_band() {
    let o = Vec2::new(640_000, 360_000);
    let r: i64 = 40_000;
    for n in 1..=4usize {
        for _ in 0..20 {
            let pts = equidistant_points_on_circle(o, r, n);
            assert_eq!(pts.len(), n);
            for (i, p) in pts.iter().enumerate() {
                let d = dist_sq(*p, o);
                assert!(d >= (3 * r / 4 - 1) * (3 * r / 4 - 1) * 9_990 / 10_000);
                assert!(d <= (3 * r / 2) * (3 * r / 2));
                // the point lies along direction i of n
                let dir = ring_direction(n, i);
                let cross = (p.x - o.x) * dir.y - (p.y - o.y) * dir.x;
                assert!(cross.abs() <= 1000 * 1000 * 2);
            }
        }
    }
}

#[test]
fn explosion_speeds_in_range() {
    let o = Vec2::new(640_000, 360_000);
    for _ in 0..20 {
        let f = explode_meteor(o, 4, 30_000, METEOR_MAX_SPEED);
        assert_eq!(f.len(), 4);
        for (_, v) in &f {
            let s2 = v.x * v.x + v.y * v.y;
            assert!(s2 >= (METEOR_MAX_SPEED / 2) * (METEOR_MAX_SPEED / 2) * 9_990 / 10_000);
            assert!(s2 < METEOR_MAX_SPEED * METEOR_MAX_SPEED);
        }
    }
}

#[test]
fn nudge_moves_outside_points_in() {
    let v = Vec2::new(7, 8);
    let f = vec![
        (Vec2::new(-5, 100), v),
        (Vec2::new(2_000_000, 720_000), v),
        (Vec2::new(300, 400), v),
    ];
    let r = nudge_onto_screen(f, 1_280_000, 720_000);
    assert_eq!(r[0], (Vec2::new(1000, 100), v));
    assert_eq!(r[1], (Vec2::new(1_278_000, 718_000), v));
    assert_eq!(r[2], (Vec2::new(300, 400), v));
}

#[test]
fn fragments_of_destroyed_meteor() {
    let p = Vec2::new(640_000, 360_000);
    for _ in 0..30 {
        let m = Meteor::new(MeteorType::Big);
        let kids = create_new_meteors_after_destruction(&m, p, 30_000, ARENA);
        assert!(kids.len() <= 4);
        for (k, pos) in &kids {
            assert!(k.meteor_type() == MeteorType::Med || k.meteor_type() == MeteorType::Small);
            assert_eq!(k.health, k.meteor_type().health());
            assert!(ARENA.contains_point(*pos));
            let d = dist_sq(*pos, p);
            assert!(d >= 22_000i64 * 22_000 && d <= 45_000i64 * 45_000);
        }
    }
    let small = Meteor::new(MeteorType::Small);
    assert!(create_new_meteors_after_destruction(&small, p, 30_000, ARENA).is_empty());
}

#[test]
fn fragments_near_a_corner_are_nudged_inside() {
    let p = Vec2::new(0, 0);
    for _ in 0..30 {
        let m = Meteor::new(MeteorType::Med);
        for (_, pos) in create_new_meteors_after_destruction(&m, p, 30_000, ARENA) {
            assert!(ARENA.contains_point(pos));
        }
    }
}

#[test]
fn left_crossing_wraps_to_right_edge() {
    let m = Meteor::new(MeteorType::Med);
    let contacts = WallContacts { left: true, ..no_walls() };
    let (moved, pos) =
        handle_meteor_intersections_with_wall(&m, Vec2::new(-100, 250_000), 20_000, contacts, ARENA)
            .unwrap();
    assert_eq!(pos, Vec2::new(1_280_000 - 20_000, 250_000));
    assert_eq!(moved.velocity, m.velocity);
    assert_eq!(moved.meteor_type(), MeteorType::Med);
    assert_eq!(moved.health, m.health);
}

#[test]
fn other_wall_crossings_and_no_crossing() {
    let hw = 10_000;
    let v = Vec2::new(3, -4);
    let right = WallContacts { right: true, ..no_walls() };
    assert_eq!(
        handle_player_intersections_with_wall(Vec2::new(1_280_500, 5), v, hw, right, ARENA),
        Some((Vec2::new(hw, 5), v))
    );
    let top = WallContacts { top: true, ..no_walls() };
    assert_eq!(wall_relocation(Vec2::new(9, 720_001), hw, top, ARENA), Some(Vec2::new(9, hw)));
    let bottom = WallContacts { bottom: true, ..no_walls() };
    assert_eq!(
        wall_relocation(Vec2::new(9, -1), hw, bottom, ARENA),
        Some(Vec2::new(9, 720_000 - hw))
    );
    // touching but not yet across: stays
    let left = WallContacts { left: true, ..no_walls() };
    assert_eq!(wall_relocation(Vec2::new(5, 100), hw, left, ARENA), None);
    // across but not touching: stays
    assert_eq!(wall_relocation(Vec2::new(-5, 100), hw, no_walls(), ARENA), None);
    // left wins over bottom
    let both = WallContacts { left: true, bottom: true, ..no_walls() };
    assert_eq!(
        wall_relocation(Vec2::new(-5, -5), hw, both, ARENA),
        Some(Vec2::new(1_280_000 - hw, -5))
    );
}

#[test]
fn shots_leaving_the_arena() {
    let walls = spawn_walls(ARENA);
    assert_eq!(walls.right_x, 1_279_000);
    assert_eq!(walls.top_y, 719_000);
    assert_eq!(handle_shot_intersections_with_wall(Vec2::new(-1, 5), walls), Some(Wall::Left));
    assert_eq!(handle_shot_intersections_with_wall(Vec2::new(1_279_001, 5), walls), Some(Wall::Right));
    assert_eq!(handle_shot_intersections_with_wall(Vec2::new(5, 719_001), walls), Some(Wall::Top));
    assert_eq!(handle_shot_intersections_with_wall(Vec2::new(5, -1), walls), Some(Wall::Bottom));
    assert_eq!(handle_shot_intersections_with_wall(Vec2::new(5, 5), walls), None);
}

#[test]
fn fire_cooldown() {
    let up = Rotation { cos: 1000, sin: 0 };
    let pos = Vec2::new(100_000, 100_000);
    let mut gate = WeaponFireTimer::default();
    let first = player_fire_weapon(&mut gate, 0, true, SHIP, pos, up).unwrap();
    assert_eq!(first.position, Vec2::new(100_000, 125_000));
    assert_eq!(first.velocity, Vec2::new(0, 1_500_000));
    assert_eq!(first.weapon.damage, 25);
    assert_eq!(first.rotation, up);
    assert_eq!(first.firer, SHIP);
    assert!(player_fire_weapon(&mut gate, 149, true, SHIP, pos, up).is_none());
    assert!(player_fire_weapon(&mut gate, 1, true, SHIP, pos, up).is_some());
    // released fire input never shoots
    assert!(player_fire_weapon(&mut gate, 1000, false, SHIP, pos, up).is_none());
    assert!(player_fire_weapon(&mut gate, 0, true, SHIP, pos, up).is_some());
    let mut gate = WeaponFireTimer::default();
    assert!(gate.try_fire(0, true));
    assert!(gate.try_fire(150, true));
}

#[test]
fn shot_geometry_follows_facing() {
    let left = Rotation { cos: 0, sin: 1000 };
    assert_eq!(middle_shot_from_transform(Vec2::new(0, 0), left), Vec2::new(-25_000, 0));
    let mut gate = WeaponFireTimer::default();
    let s = player_fire_weapon(&mut gate, 0, true, SHIP, Vec2::new(0, 0), left).unwrap();
    assert_eq!(s.velocity, Vec2::new(-1_500_000, 0));
}

#[test]
fn gravity_pull_values() {
    let f = gravitational_velocity(Vec2::new(0, 0), Vec2::new(3000, 4000), 1000);
    assert_eq!(f, Vec2::new(120, 160));
    let f = gravitational_velocity(Vec2::new(3000, 4000), Vec2::new(0, 0), 1000);
    assert_eq!(f, Vec2::new(-120, -160));
    assert_eq!(gravitational_velocity(Vec2::new(5, 5), Vec2::new(5, 5), 1000), Vec2::new(0, 0));
    let planet = Planet::new(Vec2::new(0, 0), 100_000, 50_000);
    assert_eq!(planet.gravity(100_000), 1_000_000);
    assert_eq!(planet.gravity(900), 9000);
}

#[test]
fn gravity_from_each_planet() {
    let planet_a = Planet::new(Vec2::new(10_000, 0), 1, 5000);
    let planet_b = Planet::new(Vec2::new(0, -10_000), 1, 5000);
    let planets = vec![planet_a, planet_b];
    let bodies = vec![(Vec2::new(0, 0), 5000i64), (Vec2::new(10_000, 0), 5000)];
    let r = simulate_meteor_gravity_toward_planets(&planets, &bodies);
    // strength 5000 * 5000 / 5000 = 5000; pull = d * 5000 * 1000 / |d|^2
    assert_eq!(r[0][0], Vec2::new(500, 0));
    assert_eq!(r[0][1], Vec2::new(0, 0));
    assert_eq!(r[1][0], Vec2::new(0, -500));
    let single = simulate_player_gravity_toward_planets(&planets, Vec2::new(0, 0), 5000);
    assert_eq!(single, vec![Vec2::new(500, 0), Vec2::new(0, -500)]);
    let centre = spawn_planets(1_280_000, 720_000);
    assert_eq!(centre.coordinates, Vec2::new(640_000, 360_000));
}

#[test]
fn spawn_positions_in_outer_bands() {
    for _ in 0..50 {
        let v = random_val_outside_contraints(1_000_000, 50, 950);
        assert!((10_000..50_000).contains(&v) || (950_000..990_000).contains(&v));
        let p = spawn_meteor_at_random_location(ARENA);
        assert!(ARENA.contains_point(p));
    }
    let start = spawn_meteors(ARENA);
    assert_eq!(start.len(), 4);
    for (m, _) in &start {
        assert_eq!(m.meteor_type(), MeteorType::Big);
    }
}

#[test]
fn timed_spawner_follows_timer() {
    let mut t = MeteorSpawnTimer::default();
    assert!(spawn_meteors_over_time(&t, ARENA).is_none());
    t.timer.tick(8000);
    let (m, _) = spawn_meteors_over_time(&t, ARENA).unwrap();
    assert_eq!(m.meteor_type(), MeteorType::Big);
}

#[test]
fn meteor_velocity_is_clamped() {
    let mut v = vec![Vec2::new(-9000, 4000), Vec2::new(6000, -5000)];
    constrain_meteor_velocity(&mut v);
    assert_eq!(v, vec![Vec2::new(-5000, 4000), Vec2::new(5000, -5000)]);
}

#[test]
fn thrust_and_release() {
    let facing = Vec2::new(0, 1000);
    let mut force = Vec2::new(0, 0);
    let fwd = ThrustInput { forward_pressed: true, forward_released: false, backward_pressed: false, backward_released: false };
    update_player_position(facing, fwd, &mut force);
    update_player_position(facing, fwd, &mut force);
    assert_eq!(force, Vec2::new(0, 70_000));
    let back = ThrustInput { forward_pressed: false, forward_released: false, backward_pressed: true, backward_released: false };
    update_player_position(facing, back, &mut force);
    assert_eq!(force, Vec2::new(0, 35_000));
    let release = ThrustInput { forward_pressed: false, forward_released: true, backward_pressed: false, backward_released: false };
    update_player_position(facing, release, &mut force);
    assert_eq!(force, Vec2::new(0, 0));
}

#[test]
fn lives_count_down_to_game_over_and_restart() {
    let mut session = GameSession::new();
    assert_eq!(session.lives.lives, 3);
    session.enter_game();
    let mut ship = PlayerShip { density: 900, health: 0 };
    assert_eq!(session.handle_player_death(&mut ship), DeathOutcome::Respawn);
    assert_eq!(session.lives.lives, 2);
    // the ship was replaced: asking again costs no second life
    assert_eq!(ship.health, 2000);
    assert_eq!(session.handle_player_death(&mut ship), DeathOutcome::Alive);
    assert_eq!(session.lives.lives, 2);
    ship.health = -1;
    assert_eq!(session.handle_player_death(&mut ship), DeathOutcome::Respawn);
    assert_eq!(session.lives.lives, 1);
    ship.health = 0;
    assert_eq!(session.handle_player_death(&mut ship), DeathOutcome::GameOver);
    assert_eq!(session.lives.lives, 0);
    assert_eq!(session.app_state, AppState::GameOver);
    assert!(!session.gameplay_active());
    session.interact_with_restart_button(true);
    assert_eq!(session.lives.lives, 3);
    assert_eq!(session.app_state, AppState::Game);
    assert!(session.gameplay_active());
    let mut alive = PlayerShip::new();
    assert_eq!(session.handle_player_death(&mut alive), DeathOutcome::Alive);
    assert_eq!(session.lives.lives, 3);
}

#[test]
fn respawn_decision() {
    let mut lives = PlayerLives::default();
    let mut dead = PlayerShip { density: 900, health: -5 };
    assert_eq!(handle_player_respawn_on_death(&mut dead, &mut lives), DeathOutcome::Respawn);
    assert_eq!(lives.lives, 2);
    assert_eq!(dead.health, 2000);
    assert_eq!(handle_player_respawn_on_death(&mut dead, &mut lives), DeathOutcome::Alive);
    assert_eq!(lives.lives, 2);
    let (ship, pos, velocity) = spawn_ship(ARENA);
    assert_eq!(velocity, Vec2::new(0, 0));
    assert_eq!(ship.health, 2000);
    assert_eq!(pos, Vec2::new(426_666, 240_000));
}

#[test]
fn paused_simulation_changes_nothing() {
    let mut session = GameSession::new();
    session.enter_game();
    session.handle_toggle(true);
    assert_eq!(session.simulation_state, SimulationState::Paused);
    let planets = vec![Planet::new(Vec2::new(10_000, 0), 1, 5000)];
    let bodies = vec![(Vec2::new(0, 0), 5000i64)];
    assert!(run_gravity_tick(&session, &planets, &bodies).is_empty());
    let mut ship = PlayerShip::new();
    let meteors = vec![Meteor::new(MeteorType::Big)];
    assert!(!run_damage_tick(&session, &mut ship, &meteors));
    assert_eq!(ship.health, 2000);
    let before = session.meteor_spawn_timer.timer;
    session.tick_meteor_spawn_timer(9000);
    assert_eq!(session.meteor_spawn_timer.timer, before);
    // resumed, the same ticks act
    session.handle_toggle(true);
    assert_eq!(run_gravity_tick(&session, &planets, &bodies)[0][0], Vec2::new(500, 0));
    assert!(run_damage_tick(&session, &mut ship, &meteors));
    assert_eq!(ship.health(), 2000 - 2500);
    assert_eq!(toggle_simulation(false, SimulationState::Running), SimulationState::Running);
}


#[test]
fn fragments_are_assembled_in_order() {
    let a = Meteor::new(MeteorType::Med);
    let b = Meteor::new(MeteorType::Small);
    let fr = vec![
        (Vec2::new(1, 2), Vec2::new(3, 4)),
        (Vec2::new(5, 6), Vec2::new(7, 8)),
    ];
    let r = assemble_fragments(&vec![a.clone(), b.clone()], &fr);
    assert_eq!(r.len(), 2);
    assert_eq!(r[0].1, Vec2::new(1, 2));
    assert_eq!(r[0].0.velocity, Vec2::new(3, 4));
    assert_eq!(r[0].0.meteor_type(), MeteorType::Med);
    assert_eq!(r[0].0.sprite_name, a.sprite_name);
    assert_eq!(r[1].1, Vec2::new(5, 6));
    assert_eq!(r[1].0.velocity, Vec2::new(7, 8));
    assert_eq!(r[1].0.health, b.health);
}

#[test]
fn paused_session_gates_every_system() {
    let mut session = GameSession::new();
    session.enter_game();
    session.handle_toggle(true);
    let mut timer = MeteorSpawnTimer::default();
    timer.timer.tick(8000);
    session.meteor_spawn_timer = timer;
    assert!(run_spawn_over_time_tick(&session, ARENA).is_none());
    let mut gate = WeaponFireTimer::default();
    let before = gate;
    let up = Rotation { cos: 1000, sin: 0 };
    assert!(run_fire_tick(&session, &mut gate, 500, true, SHIP, Vec2::new(5, 5), up).is_none());
    assert_eq!(gate, before);
    let mut v = vec![Vec2::new(-9000, 0)];
    run_constrain_velocity_tick(&session, &mut v);
    assert_eq!(v, vec![Vec2::new(-9000, 0)]);
    let left = WallContacts { left: true, ..no_walls() };
    assert_eq!(run_player_wrap_tick(&session, Vec2::new(-5, 5), Vec2::new(1, 1), 10, left, ARENA), None);
    // running again, the same calls act
    session.handle_toggle(true);
    assert!(run_spawn_over_time_tick(&session, ARENA).is_some());
    assert!(run_fire_tick(&session, &mut gate, 0, true, SHIP, Vec2::new(5, 5), up).is_some());
    run_constrain_velocity_tick(&session, &mut v);
    assert_eq!(v, vec![Vec2::new(-5000, 0)]);
    assert!(run_player_wrap_tick(&session, Vec2::new(-5, 5), Vec2::new(1, 1), 10, left, ARENA).is_some());
}
