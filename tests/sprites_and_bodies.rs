use spacerocks::geometry::{isqrt, Arena, Vec2};
use spacerocks::meteor_field::{destroy_meteor, MeteorBody};
use spacerocks::meteors::{Meteor, MeteorType};
use spacerocks::player::update_player_position_from_coordinates;
use spacerocks::registry::EntityRegistry;
use spacerocks::sprites::{Shape, Sprite, XMLSpriteSheetLoader};
use spacerocks::world::{RigidBody, RigidBodyBehaviors};

fn sprite(name: &str, v: i64) -> Sprite {
    Sprite { name: name.to_string(), x: v, y: v, width: v, height: v }
}

#[test]
fn test_get_sprite() {
    let mut loader = XMLSpriteSheetLoader::new("");
    loader.insert_sprite(sprite("test_1", 1));
    loader.insert_sprite(sprite("test_2", 2));
    loader.insert_sprite(sprite("test_3", 3));

    for i in 1..=3 {
        let test_name = format!("test_{i}");
        match loader.get_sprite(&test_name) {
            Some(sprite) => {
                assert_eq!(sprite.x, i as i64);
                assert_eq!(sprite.y, i as i64);
                assert_eq!(sprite.width, i as i64);
                assert_eq!(sprite.height, i as i64);
            }
            None => {
                panic!("sprite not found for {test_name}");
            }
        }
    }

    let negative_test = "test_not_real";
    if let Some(_) = loader.get_sprite(negative_test) {
        panic!("expected nothing, but found something");
    }
}

#[test]
fn reinserting_a_name_replaces_it() {
    let mut loader = XMLSpriteSheetLoader::new("sheet.png");
    assert_eq!(loader.file, "sheet.png");
    loader.insert_sprite(sprite("ship", 10));
    loader.insert_sprite(sprite("ship", 20));
    assert_eq!(loader.get_sprite("ship").unwrap().width, 20);
}

#[test]
fn missing_sprite_is_an_error() {
    let mut loader = XMLSpriteSheetLoader::new("sheet.png");
    loader.insert_sprite(sprite("laserGreen02.png", 4));
    assert_eq!(loader.require_sprite("laserGreen02.png").unwrap().height, 4);
    let err = loader.require_sprite("meteorBrown_big1.png").unwrap_err();
    assert_eq!(err.name, "meteorBrown_big1.png");
}

#[test]
fn sprite_half_sizes() {
    let s = Sprite { name: "a".to_string(), x: 0, y: 0, width: 99, height: 40 };
    assert_eq!(s.half_width(), 49);
    assert_eq!(s.half_height(), 20);
}

#[test]
fn collider_points_to_sprite_origin() {
    let s = Sprite { name: "a".to_string(), x: 100, y: 200, width: 20, height: 10 };
    let shape = Shape {
        name: "shape".to_string(),
        points: vec![Vec2::new(100, 200), Vec2::new(120, 210)],
    };
    assert_eq!(shape.get_points(&s, false), shape.points);
    assert_eq!(shape.get_points(&s, true), vec![Vec2::new(-10, 5), Vec2::new(10, -5)]);
}

#[test]
fn spawn_descriptor_builder() {
    let mut b = RigidBodyBehaviors::default();
    assert_eq!(b.body_type, RigidBody::Dynamic);
    assert_eq!(b.gravity, 0);
    assert_eq!(b.mass, 1000);
    b.with_velocity(Vec2::new(1, 2))
        .with_density(900)
        .with_external_force(Vec2::new(0, 0))
        .with_rigid_body_type(RigidBody::Kinematic);
    assert_eq!(b.velocity, Some(Vec2::new(1, 2)));
    assert_eq!(b.mass, 900);
    assert_eq!(b.external_force, Some(Vec2::new(0, 0)));
    assert_eq!(b.body_type, RigidBody::Kinematic);
}

#[test]
fn integer_square_roots() {
    assert_eq!(isqrt(0), 0);
    assert_eq!(isqrt(1), 1);
    assert_eq!(isqrt(24), 4);
    assert_eq!(isqrt(25), 5);
    assert_eq!(isqrt(u64::MAX), 4_294_967_295);
}

#[test]
fn ship_turns_toward_cursor() {
    let ship = Vec2::new(0, 0);
    let up = update_player_position_from_coordinates(Vec2::new(0, 5000), ship);
    assert_eq!((up.cos, up.sin), (1000, 0));
    let right = update_player_position_from_coordinates(Vec2::new(5000, 0), ship);
    assert_eq!((right.cos, right.sin), (0, -1000));
    let diag = update_player_position_from_coordinates(Vec2::new(3000, 4000), ship);
    assert_eq!((diag.cos, diag.sin), (800, -600));
    let same = update_player_position_from_coordinates(ship, ship);
    assert_eq!((same.cos, same.sin), (0, -1000));
}

#[test]
fn registry_handles_are_never_reused() {
    let mut reg: EntityRegistry<&str> = EntityRegistry::new();
    let a = reg.spawn("ship");
    let b = reg.spawn("meteor");
    assert_ne!(a, b);
    assert_eq!(reg.len(), 2);
    assert_eq!(reg.despawn(a), Some("ship"));
    // a stale handle is simply not found
    assert_eq!(reg.despawn(a), None);
    assert_eq!(reg.get(a), None);
    assert!(!reg.contains(a));
    let c = reg.spawn("ship");
    assert_ne!(c, a);
    assert_eq!(reg.get(c), Some(&"ship"));
    assert_eq!(reg.get(b), Some(&"meteor"));
    assert_eq!(reg.len(), 2);
}

#[test]
fn destroying_a_meteor_swaps_it_for_its_fragments() {
    let arena = Arena::new(1_280_000, 720_000);
    let mut field: EntityRegistry<MeteorBody> = EntityRegistry::new();
    let keep = field.spawn(MeteorBody { meteor: Meteor::new(MeteorType::Small), position: Vec2::new(5, 5) });
    let big = field.spawn(MeteorBody {
        meteor: Meteor::new(MeteorType::Big),
        position: Vec2::new(640_000, 360_000),
    });
    let spawned = destroy_meteor(&mut field, big, 30_000, arena);
    assert!(spawned.len() <= 4);
    assert!(!field.contains(big));
    assert!(field.contains(keep));
    assert_eq!(field.len(), 1 + spawned.len());
    for h in &spawned {
        let child = field.get(*h).unwrap();
        let t = child.meteor.meteor_type();
        assert!(t == MeteorType::Med || t == MeteorType::Small);
        assert!(arena.contains_point(child.position));
    }
    // the handle is stale now: nothing happens
    let before = field.len();
    assert!(destroy_meteor(&mut field, big, 30_000, arena).is_empty());
    assert_eq!(field.len(), before);
    // a small meteor leaves no fragments
    assert!(destroy_meteor(&mut field, keep, 30_000, arena).is_empty());
    assert!(!field.contains(keep));
}
