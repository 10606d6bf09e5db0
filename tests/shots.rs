use spacerocks::boundary::{spawn_walls, WallContacts};
use spacerocks::geometry::{Arena, Vec2};
use spacerocks::meteor_field::{handle_weapon_collision, resolve_shot, spawn_fragments, wrap_meteor, MeteorBody};
use spacerocks::meteors::{meteor_sprite_variant, Meteor, MeteorType};
use spacerocks::simulation::{run_meteor_wrap_tick, run_shot_tick, GameSession};
use spacerocks::registry::{Entity, EntityRegistry};
use spacerocks::sprites::{Sprite, XMLSpriteSheetLoader};
use spacerocks::weapons::{first_counting_hit, Weapon};

const SHIP: Entity = Entity { id: 1_000_000 };

const ARENA: Arena = Arena { width: 1_280_000, height: 720_000 };

fn meteor_sheet() -> XMLSpriteSheetLoader {
    let mut sheet = XMLSpriteSheetLoader::new("sheet.png");
    for (t, n) in [(MeteorType::Big, 4), (MeteorType::Med, 2), (MeteorType::Small, 2)] {
        for v in 0..n {
            sheet.insert_sprite(Sprite {
                name: meteor_sprite_variant(t, v),
                x: 0,
                y: 0,
                width: 100,
                height: 100,
            });
        }
    }
    sheet
}

fn field_with(types: &[MeteorType]) -> (EntityRegistry<MeteorBody>, Vec<Entity>) {
    let mut field = EntityRegistry::new();
    let handles = types
        .iter()
        .map(|t| field.spawn(MeteorBody { meteor: Meteor::new(*t), position: Vec2::new(640_000, 360_000) }))
        .collect();
    (field, handles)
}

#[test]
fn counting_hit_is_the_first_close_one() {
    let e = Entity { id: 4 };
    assert_eq!(first_counting_hit(&vec![(e, 500), (e, 100), (e, 0)], SHIP), Some(1));
    assert_eq!(first_counting_hit(&vec![(e, 101)], SHIP), None);
    assert_eq!(first_counting_hit(&vec![], SHIP), None);
}

#[test]
fn shot_hits_once_and_is_removed() {
    let sheet = meteor_sheet();
    let shot = Weapon::default();
    let (mut field, h) = field_with(&[MeteorType::Big, MeteorType::Small]);
    // a late hit on meteor 0 does not count; the first counting one is meteor 1
    let hits = vec![(h[0], 500u64), (h[1], 50), (h[0], 10)];
    let out = handle_weapon_collision(&shot, SHIP, &hits, &mut field, &sheet, ARENA);
    assert!(out.consumed);
    assert_eq!(out.target, Some(h[1]));
    assert!(!out.destroyed);
    assert_eq!(field.get(h[1]).unwrap().meteor.health, 25);
    assert_eq!(field.get(h[0]).unwrap().meteor.health, 200);
    // a second shot kills it; a small meteor leaves no fragments
    let out = handle_weapon_collision(&shot, SHIP, &vec![(h[1], 0)], &mut field, &sheet, ARENA);
    assert!(out.destroyed);
    assert!(out.fragments.is_empty());
    assert!(!field.contains(h[1]));
    assert_eq!(field.len(), 1);
}

#[test]
fn lethal_hit_breaks_a_big_meteor_up() {
    let sheet = meteor_sheet();
    let mut shot = Weapon::default();
    shot.damage = 80;
    let (mut field, h) = field_with(&[MeteorType::Big]);
    // 2 * 80 < 200 <= 3 * 80: survives two hits, dies on the third
    for _ in 0..2 {
        let out = handle_weapon_collision(&shot, SHIP, &vec![(h[0], 0)], &mut field, &sheet, ARENA);
        assert!(out.consumed && !out.destroyed);
    }
    let out = handle_weapon_collision(&shot, SHIP, &vec![(h[0], 0)], &mut field, &sheet, ARENA);
    assert!(out.destroyed);
    assert!(out.fragments.len() <= 4);
    assert!(!field.contains(h[0]));
    assert_eq!(field.len(), out.fragments.len());
    for f in &out.fragments {
        let child = field.get(*f).unwrap();
        let t = child.meteor.meteor_type();
        assert!(t == MeteorType::Med || t == MeteorType::Small);
        assert_eq!(child.meteor.health, t.health());
        assert_eq!(child.meteor.damage, t.damage());
        assert_eq!(child.meteor.density, MeteorType::density(t));
        // ring of radius 100 px * 0.3 = 30 px, jittered between 3/4 and 3/2
        let dx = child.position.x - 640_000;
        let dy = child.position.y - 360_000;
        let d2 = dx * dx + dy * dy;
        assert!(d2 >= 22_000i64 * 22_000 && d2 <= 45_000i64 * 45_000);
    }
}

#[test]
fn shot_without_hit_changes_nothing() {
    let sheet = meteor_sheet();
    let shot = Weapon::default();
    let (mut field, h) = field_with(&[MeteorType::Big]);
    let out = handle_weapon_collision(&shot, SHIP, &vec![(h[0], 101)], &mut field, &sheet, ARENA);
    assert!(!out.consumed);
    assert_eq!(out.target, None);
    assert_eq!(field.get(h[0]).unwrap().meteor.health, 200);
    // a hit on something that is not a live meteor uses the shot up, harmlessly
    let out = handle_weapon_collision(&shot, SHIP, &vec![(Entity { id: 77 }, 0)], &mut field, &sheet, ARENA);
    assert!(out.consumed);
    assert_eq!(out.target, None);
    assert_eq!(field.get(h[0]).unwrap().meteor.health, 200);
}

#[test]
fn shot_leaving_arena_is_removed_without_damage() {
    let sheet = meteor_sheet();
    let walls = spawn_walls(ARENA);
    let shot = Weapon::default();
    let (mut field, h) = field_with(&[MeteorType::Big]);
    let out = resolve_shot(&shot, SHIP, Vec2::new(-10, 500), walls, &vec![], &mut field, &sheet, ARENA);
    assert!(out.consumed);
    assert_eq!(out.target, None);
    assert_eq!(field.get(h[0]).unwrap().meteor.health, 200);
    // inside and hitting nothing: flies on
    let out = resolve_shot(&shot, SHIP, Vec2::new(10, 500), walls, &vec![(h[0], 900)], &mut field, &sheet, ARENA);
    assert!(!out.consumed);
    assert_eq!(field.get(h[0]).unwrap().meteor.health, 200);
    // a hit deals its damage once and removes the shot, however many it overlaps
    let out = resolve_shot(&shot, SHIP, Vec2::new(10, 500), walls, &vec![(h[0], 0), (h[0], 0)], &mut field, &sheet, ARENA);
    assert!(out.consumed);
    assert_eq!(out.target, Some(h[0]));
    assert_eq!(field.get(h[0]).unwrap().meteor.health, 175);
}

#[test]
fn meteor_wraps_in_place() {
    let sheet = meteor_sheet();
    let mut field = EntityRegistry::new();
    let m = Meteor::new(MeteorType::Med);
    let velocity = m.velocity;
    let e = field.spawn(MeteorBody { meteor: m, position: Vec2::new(-100, 250_000) });
    let left = WallContacts { left: true, right: false, top: false, bottom: false };
    assert!(wrap_meteor(&mut field, e, left, &sheet, ARENA));
    let b = field.get(e).unwrap();
    // sprite 100 px wide: half width 50 px
    assert_eq!(b.position, Vec2::new(1_280_000 - 50_000, 250_000));
    assert_eq!(b.meteor.velocity, velocity);
    assert_eq!(b.meteor.meteor_type(), MeteorType::Med);
    // now inside: stays
    assert!(!wrap_meteor(&mut field, e, left, &sheet, ARENA));
    // stale handle: nothing
    field.despawn(e);
    assert!(!wrap_meteor(&mut field, e, left, &sheet, ARENA));
}

#[test]
fn hits_on_the_firer_never_count() {
    let e = Entity { id: 4 };
    assert_eq!(first_counting_hit(&vec![(SHIP, 0), (e, 50)], SHIP), Some(1));
    assert_eq!(first_counting_hit(&vec![(SHIP, 0)], SHIP), None);
    let sheet = meteor_sheet();
    let shot = Weapon::default();
    let (mut field, h) = field_with(&[MeteorType::Big]);
    // the shot overlaps its own ship only: it flies on
    let out = handle_weapon_collision(&shot, h[0], &vec![(h[0], 0)], &mut field, &sheet, ARENA);
    assert!(!out.consumed);
    assert_eq!(field.get(h[0]).unwrap().meteor.health, 200);
}

#[test]
fn fragments_get_fresh_handles_in_order() {
    let (mut field, h) = field_with(&[MeteorType::Big]);
    let fr = vec![
        (Meteor::new(MeteorType::Med), Vec2::new(1, 1)),
        (Meteor::new(MeteorType::Small), Vec2::new(2, 2)),
    ];
    let spawned = spawn_fragments(&mut field, &fr);
    assert_eq!(spawned, vec![Entity { id: h[0].id + 1 }, Entity { id: h[0].id + 2 }]);
    assert_eq!(field.get(spawned[0]).unwrap().position, Vec2::new(1, 1));
    assert_eq!(field.get(spawned[1]).unwrap().meteor.meteor_type(), MeteorType::Small);
    assert!(field.contains(h[0]));
    assert_eq!(field.len(), 3);
}

#[test]
fn paused_session_leaves_shots_and_meteors_alone() {
    let sheet = meteor_sheet();
    let walls = spawn_walls(ARENA);
    let shot = Weapon::default();
    let (mut field, h) = field_with(&[MeteorType::Big]);
    let mut session = GameSession::new();
    session.enter_game();
    session.handle_toggle(true);
    assert!(run_shot_tick(&session, &shot, SHIP, Vec2::new(10, 10), walls, &vec![(h[0], 0)], &mut field, &sheet, ARENA).is_none());
    assert_eq!(field.get(h[0]).unwrap().meteor.health, 200);
    let left = WallContacts { left: true, right: false, top: false, bottom: false };
    field.update(h[0], MeteorBody { meteor: Meteor::new(MeteorType::Big), position: Vec2::new(-100, 5) });
    assert!(!run_meteor_wrap_tick(&session, &mut field, h[0], left, &sheet, ARENA));
    assert_eq!(field.get(h[0]).unwrap().position, Vec2::new(-100, 5));
    session.handle_toggle(true);
    assert!(run_meteor_wrap_tick(&session, &mut field, h[0], left, &sheet, ARENA));
    let out = run_shot_tick(&session, &shot, SHIP, Vec2::new(10, 10), walls, &vec![(h[0], 0)], &mut field, &sheet, ARENA).unwrap();
    assert!(out.consumed);
    assert_eq!(field.get(h[0]).unwrap().meteor.health, 175);
}
