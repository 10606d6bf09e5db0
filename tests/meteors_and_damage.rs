use spacerocks::damage::{handle_collision_with_damage, handle_collision_with_damageable, Damageable};
use spacerocks::meteors::{
    kept_slots, meteor_sprite_weights, next_size_weights, meteor_sprite_variant, random_meteor_sprite_name, Meteor, MeteorSpawnTimer, MeteorType,
    METEOR_MAX_ROTATION, METEOR_MAX_SPEED, NUM_METEORS_TO_SPAWN_ON_DESTRUCTION,
};
use spacerocks::planets::Planet;
use spacerocks::player::PlayerShip;
use spacerocks::weapons::Weapon;
use spacerocks::geometry::Vec2;

fn weapon_with_damage(damage: u32) -> Weapon {
    let mut w = Weapon::default();
    w.damage = damage;
    w
}

fn is_next_size(parent: MeteorType, child: MeteorType) -> bool {
    match parent {
        MeteorType::Big => child == MeteorType::Med || child == MeteorType::Small,
        MeteorType::Med => child == MeteorType::Small,
        MeteorType::Small => child == MeteorType::Small,
    }
}

fn has_class_stats(m: &Meteor, t: MeteorType) -> bool {
    m.meteor_type() == t
        && m.health == t.health()
        && m.damage == t.damage()
        && m.density == MeteorType::density(t)
}

#[test]
fn size_class_table() {
    assert_eq!(MeteorType::Big.health(), 200);
    assert_eq!(MeteorType::Med.health(), 100);
    assert_eq!(MeteorType::Small.health(), 50);
    assert_eq!(MeteorType::Big.damage(), 2500);
    assert_eq!(MeteorType::Med.damage(), 1500);
    assert_eq!(MeteorType::Small.damage(), 500);
    assert_eq!(MeteorType::density(MeteorType::Big), 100_000);
    assert_eq!(MeteorType::density(MeteorType::Med), 80_000);
    assert_eq!(MeteorType::density(MeteorType::Small), 50_000);
}

#[test]
fn next_size_choices() {
    assert_eq!(MeteorType::Big.next_size_choice(0), MeteorType::Med);
    assert_eq!(MeteorType::Big.next_size_choice(1), MeteorType::Small);
    assert_eq!(MeteorType::Med.next_size_choice(0), MeteorType::Small);
    assert_eq!(MeteorType::Small.next_size_choice(1), MeteorType::Small);
    for _ in 0..50 {
        let t = MeteorType::Big.next_size();
        assert!(t == MeteorType::Med || t == MeteorType::Small);
        assert_eq!(MeteorType::Med.next_size(), MeteorType::Small);
    }
}

#[test]
fn new_meteor_has_class_stats_and_ranges() {
    for t in [MeteorType::Big, MeteorType::Med, MeteorType::Small] {
        for _ in 0..30 {
            let m = Meteor::new(t);
            assert!(has_class_stats(&m, t));
            assert!(m.velocity.x.abs() <= METEOR_MAX_SPEED);
            assert!(m.velocity.y.abs() <= METEOR_MAX_SPEED);
            assert!(m.rotation.abs() <= METEOR_MAX_ROTATION);
            assert_eq!((m.frame_cols, m.frame_rows, m.start_frame), (1, 1, 0));
        }
    }
    assert_eq!(Meteor::default().meteor_type(), MeteorType::Big);
}

#[test]
fn sprite_names_per_class() {
    assert_eq!(meteor_sprite_variant(MeteorType::Big, 3), "meteorBrown_big4.png");
    assert_eq!(meteor_sprite_variant(MeteorType::Med, 1), "meteorBrown_med3.png");
    assert_eq!(meteor_sprite_variant(MeteorType::Small, 0), "meteorBrown_small1.png");
    let big = ["meteorBrown_big1.png", "meteorBrown_big2.png", "meteorBrown_big3.png", "meteorBrown_big4.png"];
    let med = ["meteorBrown_med1.png", "meteorBrown_med3.png"];
    let small = ["meteorBrown_small1.png", "meteorBrown_small2.png"];
    for _ in 0..40 {
        assert!(big.contains(&random_meteor_sprite_name(MeteorType::Big).as_str()));
        assert!(med.contains(&random_meteor_sprite_name(MeteorType::Med).as_str()));
        assert!(small.contains(&random_meteor_sprite_name(MeteorType::Small).as_str()));
    }
}

#[test]
fn fragments_are_next_size_with_fixed_stats() {
    for parent in [MeteorType::Big, MeteorType::Med] {
        for _ in 0..40 {
            let children = Meteor::new(parent).spawn_next_size();
            assert!(children.len() <= NUM_METEORS_TO_SPAWN_ON_DESTRUCTION as usize + 1);
            for c in &children {
                assert!(is_next_size(parent, c.meteor_type()));
                assert!(has_class_stats(c, c.meteor_type()));
            }
        }
    }
}

#[test]
fn terminal_meteor_has_no_fragments() {
    for _ in 0..20 {
        assert!(Meteor::new(MeteorType::Small).spawn_next_size().is_empty());
    }
}

#[test]
fn big_meteor_dies_on_third_hit() {
    // 2 * 80 < 200 <= 3 * 80
    let shot = weapon_with_damage(80);
    let mut m = Meteor::new(MeteorType::Big);
    m.damage(&shot);
    assert!(!m.is_dead());
    m.damage(&shot);
    assert!(!m.is_dead());
    m.damage(&shot);
    assert!(m.is_dead());
    assert_eq!(m.health(), -40);
    let children = m.spawn_next_size();
    assert!(children.len() <= 4);
    for c in &children {
        assert!(c.meteor_type() == MeteorType::Med || c.meteor_type() == MeteorType::Small);
        assert!(has_class_stats(c, c.meteor_type()));
    }
}

#[test]
fn zero_damage_never_kills_and_exact_damage_kills() {
    let mut m = Meteor::new(MeteorType::Small);
    m.damage(&weapon_with_damage(0));
    assert_eq!(m.health(), 50);
    assert!(!m.is_dead());
    m.damage(&weapon_with_damage(50));
    assert_eq!(m.health(), 0);
    assert!(m.is_dead());
}

#[test]
fn simultaneous_contacts_sum_before_death_check() {
    let mut ship = PlayerShip::new();
    let sources = vec![weapon_with_damage(900), weapon_with_damage(900), weapon_with_damage(200)];
    let dead = handle_collision_with_damageable(&mut ship, &sources);
    assert!(dead);
    assert_eq!(ship.health, 0);
    let mut ship = PlayerShip::new();
    let dead = handle_collision_with_damageable(&mut ship, &sources[..2].to_vec());
    assert!(!dead);
    assert_eq!(ship.health, 200);
    assert_eq!(ship.density, 900);
}

#[test]
fn planet_contact_is_lethal() {
    let mut ship = PlayerShip::new();
    let planet = Planet::new(Vec2::new(0, 0), 100_000, 50_000);
    assert!(handle_collision_with_damageable(&mut ship, &vec![planet]));
    assert_eq!(ship.health, 2000 - 1_000_000);
}

#[test]
fn damage_source_side_dispatch() {
    let sources = vec![weapon_with_damage(30), weapon_with_damage(60)];
    let mut targets = vec![Meteor::new(MeteorType::Small), Meteor::new(MeteorType::Med)];
    // source 0 and 1 both touch target 0; source 1 touches target 1; a stale pair is skipped
    let contacts = vec![(0usize, 0usize), (1, 0), (1, 1), (5, 1), (0, 9)];
    let dead = handle_collision_with_damage(&sources, &contacts, &mut targets);
    assert_eq!(targets[0].health, 50 - 90);
    assert_eq!(targets[1].health, 100 - 60);
    assert_eq!(dead, vec![true, false]);
}

#[test]
fn spawn_timer_repeats_every_eight_seconds() {
    let mut t = MeteorSpawnTimer::default();
    assert_eq!(t.timer.duration_ms, 8000);
    t.timer.tick(7999);
    assert!(!t.timer.finished());
    t.timer.tick(2);
    assert!(t.timer.finished());
    assert_eq!(t.timer.elapsed_ms, 1);
    t.timer.tick(10);
    assert!(!t.timer.finished());
    t.timer.tick(16_000);
    assert!(t.timer.finished());
    assert_eq!(t.timer.elapsed_ms, 11);
}

#[test]
fn big_and_medium_meteors_do_fragment() {
    for parent in [MeteorType::Big, MeteorType::Med] {
        let mut seen = false;
        for _ in 0..1000 {
            if !Meteor::new(parent).spawn_next_size().is_empty() {
                seen = true;
                break;
            }
        }
        assert!(seen, "no fragment in 1000 destructions of {:?}", parent);
    }
}

#[test]
fn slot_draws_keep_slots_at_or_above_the_drop_chance() {
    assert_eq!(kept_slots(&vec![1, 29, 30, 99]), 2);
    assert_eq!(kept_slots(&vec![29, 29, 29, 29]), 0);
    assert_eq!(kept_slots(&vec![30, 31, 50, 99]), 4);
    assert_eq!(kept_slots(&vec![]), 0);
}

#[test]
fn weight_tables() {
    assert_eq!(next_size_weights(), vec![2, 1]);
    assert_eq!(meteor_sprite_weights(MeteorType::Big), vec![4, 3, 3, 2]);
    assert_eq!(meteor_sprite_weights(MeteorType::Med), vec![4, 3]);
    assert_eq!(meteor_sprite_weights(MeteorType::Small), vec![5, 5]);
}
