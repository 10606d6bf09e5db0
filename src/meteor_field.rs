//! The meteors in play, kept in an entity registry: what a shot does to them,
//! and the destruction of one, where the parent leaves and its fragments enter
//! in the same step.
use crate::boundary::{
    exited_through, handle_shot_intersections_with_wall, relocating_wall, wall_relocation, wrapped,
    WallContacts, WallLayout,
};
use crate::damage::Damageable;
use crate::fragmentation::{create_new_meteors_after_destruction, flies_outward, placed_fragment};
use crate::geometry::{Arena, Vec2, COORD_LIMIT, UNITS_PER_PIXEL};
use crate::meteors::{is_meteor_sprite_of, is_next_size, Meteor, MeteorType, METEOR_MAX_SPEED, NUM_METEORS_TO_SPAWN_ON_DESTRUCTION};
use crate::registry::{Entity, EntityRegistry};
use crate::sprites::{sprite_index, Sprite, XMLSpriteSheetLoader};
use crate::weapons::{first_counting_hit, first_hit, Weapon};
use vstd::prelude::*;

verus! {

/// A meteor in play and where it is.
#[derive(Clone, Debug)]
pub struct MeteorBody {
    pub meteor: Meteor,
    pub position: Vec2,
}

/// Most fragments a single destruction can spawn.
pub open spec fn max_fragments() -> int {
    NUM_METEORS_TO_SPAWN_ON_DESTRUCTION + 1
}

/// Whether `new_view` and `new_next` are `old_view` and `old_next` after the meteor
/// `parent` under handle number `h`, drawn with explosion radius `radius`, was
/// replaced by the fragments under the handles `spawned`: the parent is gone, every
/// other meteor is unchanged, and fragment `i` of `n` is a next-size meteor with its
/// class's stats, placed on the jittered ring around the parent and flying outward.
pub open spec fn replaced_by_fragments(
    old_view: Map<u64, MeteorBody>,
    old_next: u64,
    new_view: Map<u64, MeteorBody>,
    new_next: u64,
    h: u64,
    parent: MeteorBody,
    radius: int,
    arena: Arena,
    spawned: Seq<Entity>,
) -> bool {
    let n = spawned.len() as int;
    &&& n <= max_fragments()
    &&& parent.meteor.meteor_type.is_terminal() ==> n == 0
    &&& new_next == old_next + n
    &&& forall|i: int| 0 <= i < n ==> (#[trigger] spawned[i]).id == old_next + i
    &&& forall|id: u64|
        #[trigger] new_view.contains_key(id) <==> (id != h && old_view.contains_key(id)) || (
        old_next <= id < old_next + n)
    &&& forall|id: u64|
        id != h && #[trigger] old_view.contains_key(id) ==> new_view[id] == old_view[id]
    &&& forall|i: int|
        0 <= i < n ==> {
            let child = #[trigger] new_view[spawned[i].id];
            &&& is_next_size(parent.meteor.meteor_type, child.meteor.meteor_type)
            &&& child.meteor.has_class_stats(child.meteor.meteor_type)
            &&& is_meteor_sprite_of(child.meteor.meteor_type, child.meteor.sprite_name@)
            &&& placed_fragment(parent.position, radius, n, i, arena, child.position)
            &&& flies_outward(METEOR_MAX_SPEED as int, n, i, child.meteor.velocity)
        }
}

/// Adds each meteor of `fragments` at its position under a fresh handle, in
/// order, and returns the handles: fragment `i` gets handle number
/// `next_handle() + i`, and nothing else changes.
pub fn spawn_fragments(meteors: &mut EntityRegistry<MeteorBody>, fragments: &Vec<(Meteor, Vec2)>) -> (spawned: Vec<Entity>)
    requires
        old(meteors).wf(),
        old(meteors).next_handle() + fragments@.len() < u64::MAX,
    ensures
        final(meteors).wf(),
        spawned@.len() == fragments@.len(),
        final(meteors).next_handle() == old(meteors).next_handle() + fragments@.len(),
        forall|k: int|
            0 <= k < spawned@.len() ==> (#[trigger] spawned@[k]).id == old(meteors).next_handle()
                + k,
        forall|id: u64|
            #[trigger] final(meteors).view().contains_key(id) <==> old(meteors).view().contains_key(
                id,
            ) || (old(meteors).next_handle() <= id < old(meteors).next_handle()
                + fragments@.len()),
        forall|id: u64|
            #[trigger] old(meteors).view().contains_key(id) ==> final(meteors).view()[id] == old(
                meteors,
            ).view()[id],
        forall|k: int|
            0 <= k < spawned@.len() ==> #[trigger] final(meteors).view()[spawned@[k].id] == (
            MeteorBody { meteor: fragments@[k].0, position: fragments@[k].1 }),
{
    let mut spawned: Vec<Entity> = Vec::new();
    let ghost start = meteors.view();
    let ghost first = meteors.next_handle();
    let n = fragments.len();
    let mut i: usize = 0;
    proof {
        meteors.lemma_live_below_next();
    }
    while i < n
        invariant
            n == fragments@.len(),
            i <= n,
            spawned@.len() == i,
            meteors.wf(),
            first == old(meteors).next_handle(),
            start == old(meteors).view(),
            first + n < u64::MAX,
            meteors.next_handle() == first + i,
            forall|k: int| 0 <= k < i ==> (#[trigger] spawned@[k]).id == first + k,
            forall|id: u64| #[trigger] start.contains_key(id) ==> id < first,
            forall|id: u64|
                #[trigger] meteors.view().contains_key(id) <==> start.contains_key(id) || (first
                    <= id < first + i),
            forall|id: u64| #[trigger] start.contains_key(id) ==> meteors.view()[id] == start[id],
            forall|k: int|
                0 <= k < i ==> #[trigger] meteors.view()[spawned@[k].id] == (MeteorBody {
                    meteor: fragments@[k].0,
                    position: fragments@[k].1,
                }),
        decreases n - i,
    {
        let (m, p) = &fragments[i];
        let body = MeteorBody { meteor: m.duplicate(), position: *p };
        let h = meteors.spawn(body);
        spawned.push(h);
        i = i + 1;
    }
    spawned
}

/// Destroys the meteor behind `e`, which was drawn with the given explosion radius:
/// it leaves the registry and its fragments (see
/// `create_new_meteors_after_destruction`) enter under fresh handles, returned in
/// fragment order. A stale handle changes nothing.
pub fn destroy_meteor(
    meteors: &mut EntityRegistry<MeteorBody>,
    e: Entity,
    explosion_radius: i64,
    arena: Arena,
) -> (spawned: Vec<Entity>)
    requires
        old(meteors).wf(),
        old(meteors).next_handle() + max_fragments() < u64::MAX,
        arena.wf(),
        0 <= explosion_radius <= COORD_LIMIT,
        old(meteors).view().contains_key(e.id) ==> {
            let p = old(meteors).view()[e.id].position;
            -COORD_LIMIT <= p.x <= COORD_LIMIT && -COORD_LIMIT <= p.y <= COORD_LIMIT
        },
    ensures
        final(meteors).wf(),
        !old(meteors).view().contains_key(e.id) ==> spawned@.len() == 0 && final(meteors).view()
            == old(meteors).view() && final(meteors).next_handle() == old(meteors).next_handle(),
        old(meteors).view().contains_key(e.id) ==> replaced_by_fragments(
            old(meteors).view(),
            old(meteors).next_handle(),
            final(meteors).view(),
            final(meteors).next_handle(),
            e.id,
            old(meteors).view()[e.id],
            explosion_radius as int,
            arena,
            spawned@,
        ),
{
    let parent = match meteors.despawn(e) {
        Some(p) => p,
        None => {
            return Vec::new();
        },
    };
    let fragments = create_new_meteors_after_destruction(
        &parent.meteor,
        parent.position,
        explosion_radius,
        arena,
    );
    let ghost after_removal = meteors.view();
    let n = fragments.len();
    let spawned = spawn_fragments(meteors, &fragments);
    proof {
        let pb = old(meteors).view()[e.id];
        assert(parent == pb);
        assert forall|id: u64|
            id != e.id && #[trigger] old(meteors).view().contains_key(id) implies meteors.view()[id]
            == old(meteors).view()[id] by {
            assert(after_removal.contains_key(id));
        }
        assert forall|k: int| 0 <= k < n implies {
            let child = #[trigger] meteors.view()[spawned@[k].id];
            &&& is_next_size(pb.meteor.meteor_type, child.meteor.meteor_type)
            &&& child.meteor.has_class_stats(child.meteor.meteor_type)
            &&& is_meteor_sprite_of(child.meteor.meteor_type, child.meteor.sprite_name@)
            &&& placed_fragment(
                pb.position,
                explosion_radius as int,
                n as int,
                k,
                arena,
                child.position,
            )
            &&& flies_outward(METEOR_MAX_SPEED as int, n as int, k, child.meteor.velocity)
        } by {
            let f = fragments@[k];
            assert(meteors.view()[spawned@[k].id] == (MeteorBody { meteor: f.0, position: f.1 }));
        }
    }
    spawned
}

/// A meteor is drawn at this many tenths of its size on the sprite sheet.
pub const METEORS_SCALE_TENTHS: i64 = 3;

/// Radius of the ring a meteor drawn with `sprite` breaks into: its drawn width,
/// in fixed-point units.
pub open spec fn explosion_radius_of(sprite: Sprite) -> int {
    sprite.width * UNITS_PER_PIXEL * METEORS_SCALE_TENTHS / 10
}

/// The sprite a meteor is drawn with, as registered.
pub open spec fn sprite_of(b: MeteorBody, sprites: &XMLSpriteSheetLoader) -> Sprite {
    sprites.sprites()[sprite_index(sprites.sprites(), b.meteor.sprite_name@).unwrap()]
}

/// A meteor fit for play: within the coordinate bound, able to take one more hit,
/// and drawn with a registered sprite of its class.
pub open spec fn body_ok(b: MeteorBody, sprites: &XMLSpriteSheetLoader) -> bool {
    &&& -COORD_LIMIT <= b.position.x <= COORD_LIMIT
    &&& -COORD_LIMIT <= b.position.y <= COORD_LIMIT
    &&& b.meteor.health >= i64::MIN + u32::MAX
    &&& sprite_index(sprites.sprites(), b.meteor.sprite_name@).is_some()
}

/// Every sprite a meteor of any class can be drawn with is registered.
pub open spec fn meteor_sprites_registered(sprites: &XMLSpriteSheetLoader) -> bool {
    forall|name: Seq<char>|
        (exists|t: MeteorType| #[trigger] is_meteor_sprite_of(t, name)) ==> #[trigger] sprite_index(
            sprites.sprites(),
            name,
        ).is_some()
}

/// The meteors in play, and the sprites they are drawn with, are fit for play.
pub open spec fn field_ok(field: &EntityRegistry<MeteorBody>, sprites: &XMLSpriteSheetLoader) -> bool {
    &&& field.wf()
    &&& sprites.wf()
    &&& meteor_sprites_registered(sprites)
    &&& forall|id: u64| #[trigger] field.view().contains_key(id) ==> body_ok(field.view()[id], sprites)
}

/// What a shot did this tick.
#[derive(Debug)]
pub struct WeaponHit {
    /// The shot is used up and must be removed.
    pub consumed: bool,
    /// The meteor it damaged, if the hit that counts was on a live meteor.
    pub target: Option<Entity>,
    /// Whether that meteor died and was replaced by its fragments.
    pub destroyed: bool,
    /// Handles of the fragments, in fragment order.
    pub fragments: Vec<Entity>,
}

/// `b` after taking the shot's damage.
pub open spec fn after_hit(b: MeteorBody, shot: Weapon) -> MeteorBody {
    MeteorBody { meteor: Meteor { health: (b.meteor.health - shot.damage) as i64, ..b.meteor }, ..b }
}

/// What a shot does to the meteors in play given its ray hits: with no hit that
/// counts, nothing; otherwise the shot is used up, and if that hit is on a live
/// meteor, the meteor takes the shot's damage once and, if that kills it, is
/// replaced by its fragments.
pub open spec fn shot_effect(
    hits: Seq<(Entity, u64)>,
    firer: Entity,
    shot: Weapon,
    old_view: Map<u64, MeteorBody>,
    old_next: u64,
    new_view: Map<u64, MeteorBody>,
    new_next: u64,
    sprites: &XMLSpriteSheetLoader,
    arena: Arena,
    r: WeaponHit,
) -> bool {
    match first_hit(hits, firer) {
        None => !r.consumed && r.target.is_none() && !r.destroyed && r.fragments@.len() == 0
            && new_view == old_view && new_next == old_next,
        Some(k) => {
            let h = hits[k].0;
            &&& r.consumed
            &&& !old_view.contains_key(h.id) ==> r.target.is_none() && !r.destroyed
                && r.fragments@.len() == 0 && new_view == old_view && new_next == old_next
            &&& old_view.contains_key(h.id) ==> {
                let hit = after_hit(old_view[h.id], shot);
                &&& r.target == Some(h)
                &&& r.destroyed == (hit.meteor.health <= 0)
                &&& !r.destroyed ==> r.fragments@.len() == 0 && new_view == old_view.insert(h.id, hit)
                    && new_next == old_next
                &&& r.destroyed ==> replaced_by_fragments(
                    old_view,
                    old_next,
                    new_view,
                    new_next,
                    h.id,
                    hit,
                    explosion_radius_of(sprite_of(old_view[h.id], sprites)),
                    arena,
                    r.fragments@,
                )
            }
        },
    }
}

/// A fragment replacement keeps the meteors in play fit for play.
proof fn lemma_fragments_keep_field_ok(
    field: &EntityRegistry<MeteorBody>,
    old_view: Map<u64, MeteorBody>,
    old_next: u64,
    h: u64,
    parent: MeteorBody,
    radius: int,
    arena: Arena,
    spawned: Seq<Entity>,
    sprites: &XMLSpriteSheetLoader,
)
    requires
        field.wf(),
        sprites.wf(),
        meteor_sprites_registered(sprites),
        arena.wf(),
        forall|id: u64|
            id != h && #[trigger] old_view.contains_key(id) ==> body_ok(old_view[id], sprites),
        replaced_by_fragments(
            old_view,
            old_next,
            field.view(),
            field.next_handle(),
            h,
            parent,
            radius,
            arena,
            spawned,
        ),
    ensures
        field_ok(field, sprites),
{
    let n = spawned.len() as int;
    assert forall|id: u64| #[trigger] field.view().contains_key(id) implies body_ok(
        field.view()[id],
        sprites,
    ) by {
        if !(id != h && old_view.contains_key(id)) {
            let i = id - old_next;
            assert(spawned[i].id == id);
            let child = field.view()[spawned[i].id];
            assert(placed_fragment(parent.position, radius, n, i, arena, child.position));
            let q = choose|q: Vec2|
                #[trigger] crate::fragmentation::on_ring(parent.position, radius, n, i, q)
                    && crate::fragmentation::at(
                    child.position,
                    crate::fragmentation::nudge_point(q, arena.width as int, arena.height as int),
                );
            crate::fragmentation::lemma_nudge_lands_inside(q, arena);
            assert(is_meteor_sprite_of(child.meteor.meteor_type, child.meteor.sprite_name@));
            assert(sprite_index(sprites.sprites(), child.meteor.sprite_name@).is_some());
        }
    }
}

/// Resolves the ray hits of a shot fired by `firer` against the meteors in play:
/// see `shot_effect`. A
/// lethal hit breaks the meteor up on a ring as wide as its sprite is drawn.
pub fn handle_weapon_collision(
    shot: &Weapon,
    firer: Entity,
    hits: &Vec<(Entity, u64)>,
    field: &mut EntityRegistry<MeteorBody>,
    sprites: &XMLSpriteSheetLoader,
    arena: Arena,
) -> (r: WeaponHit)
    requires
        field_ok(old(field), sprites),
        arena.wf(),
        old(field).next_handle() + max_fragments() < u64::MAX,
    ensures
        field_ok(final(field), sprites),
        shot_effect(
            hits@,
            firer,
            *shot,
            old(field).view(),
            old(field).next_handle(),
            final(field).view(),
            final(field).next_handle(),
            sprites,
            arena,
            r,
        ),
{
    let k = match first_counting_hit(hits, firer) {
        None => {
            return WeaponHit { consumed: false, target: None, destroyed: false, fragments: Vec::new() };
        },
        Some(k) => k,
    };
    let h = hits[k].0;
    let (mut meteor, position) = match field.get(h) {
        None => {
            return WeaponHit { consumed: true, target: None, destroyed: false, fragments: Vec::new() };
        },
        Some(b) => (b.meteor.duplicate(), b.position),
    };
    let ghost before = field.view()[h.id];
    meteor.damage(shot);
    let dead = meteor.is_dead();
    let sprite = sprites.get_sprite(meteor.sprite_name.as_str()).unwrap();
    assert(sprite.wf());
    let radius = sprite.width * UNITS_PER_PIXEL * METEORS_SCALE_TENTHS / 10;
    let ghost old_view = field.view();
    let ghost old_next = field.next_handle();
    let hit = MeteorBody { meteor, position };
    assert(hit == after_hit(before, *shot));
    field.update(h, hit);
    if !dead {
        proof {
            assert forall|id: u64| #[trigger] field.view().contains_key(id) implies body_ok(
                field.view()[id],
                sprites,
            ) by {
                if id != h.id {
                    assert(old_view.contains_key(id));
                }
            }
        }
        return WeaponHit { consumed: true, target: Some(h), destroyed: false, fragments: Vec::new() };
    }
    let ghost updated = field.view();
    let fragments = destroy_meteor(field, h, radius, arena);
    proof {
        assert(updated[h.id] == after_hit(before, *shot));
        lemma_fragments_keep_field_ok(
            field,
            updated,
            old_next,
            h.id,
            updated[h.id],
            radius as int,
            arena,
            fragments@,
            sprites,
        );
        assert forall|id: u64|
            id != h.id && #[trigger] old_view.contains_key(id) implies field.view()[id]
            == old_view[id] by {
            assert(updated.contains_key(id));
        }
    }
    WeaponHit { consumed: true, target: Some(h), destroyed: true, fragments }
}

/// One tick of a flying shot: it first resolves its hits as `handle_weapon_collision`
/// does; a shot that hit nothing but is past a wall is removed as well, having
/// dealt no damage; otherwise it flies on.
pub fn resolve_shot(
    shot: &Weapon,
    firer: Entity,
    position: Vec2,
    walls: WallLayout,
    hits: &Vec<(Entity, u64)>,
    field: &mut EntityRegistry<MeteorBody>,
    sprites: &XMLSpriteSheetLoader,
    arena: Arena,
) -> (r: WeaponHit)
    requires
        field_ok(old(field), sprites),
        arena.wf(),
        old(field).next_handle() + max_fragments() < u64::MAX,
    ensures
        field_ok(final(field), sprites),
        r.consumed == (first_hit(hits@, firer).is_some() || exited_through(position, walls).is_some()),
        first_hit(hits@, firer).is_none() ==> r.target.is_none() && final(field).view() == old(
            field,
        ).view() && final(field).next_handle() == old(field).next_handle(),
        first_hit(hits@, firer).is_some() ==> shot_effect(
            hits@,
            firer,
            *shot,
            old(field).view(),
            old(field).next_handle(),
            final(field).view(),
            final(field).next_handle(),
            sprites,
            arena,
            r,
        ),
{
    let outcome = handle_weapon_collision(shot, firer, hits, field, sprites, arena);
    if outcome.consumed {
        return outcome;
    }
    let exit = handle_shot_intersections_with_wall(position, walls);
    WeaponHit { consumed: exit.is_some(), target: None, destroyed: false, fragments: Vec::new() }
}

/// Half the width of the sprite a meteor is drawn with, in fixed-point units.
pub open spec fn half_width_of(b: MeteorBody, sprites: &XMLSpriteSheetLoader) -> int {
    sprite_of(b, sprites).width / 2 * UNITS_PER_PIXEL
}

/// Whether `new_view` is `old_view` after the containment step for the meteor
/// behind `e`: a live meteor that touches and has crossed a wall moves to the
/// opposite edge, half its sprite's width inside, keeping everything else;
/// otherwise nothing changes. `moved` tells which.
pub open spec fn wrap_effect(
    old_view: Map<u64, MeteorBody>,
    new_view: Map<u64, MeteorBody>,
    e: Entity,
    contacts: WallContacts,
    sprites: &XMLSpriteSheetLoader,
    arena: Arena,
    moved: bool,
) -> bool {
    if !old_view.contains_key(e.id) {
        !moved && new_view == old_view
    } else {
        let b = old_view[e.id];
        let hw = half_width_of(b, sprites);
        match relocating_wall(contacts, b.position, hw, arena) {
            None => !moved && new_view == old_view,
            Some(w) => moved && new_view == old_view.insert(
                e.id,
                MeteorBody {
                    position: Vec2 {
                        x: wrapped(w, b.position, hw, arena).0 as i64,
                        y: wrapped(w, b.position, hw, arena).1 as i64,
                    },
                    ..b
                },
            ),
        }
    }
}

/// Keeps the meteor behind `e` in the arena: if it touches and has crossed a wall
/// (see `wall_relocation`), it moves in place to the opposite edge, half its
/// sprite's width inside, keeping everything else. Returns whether it moved; a
/// stale handle changes nothing.
pub fn wrap_meteor(
    field: &mut EntityRegistry<MeteorBody>,
    e: Entity,
    contacts: WallContacts,
    sprites: &XMLSpriteSheetLoader,
    arena: Arena,
) -> (moved: bool)
    requires
        field_ok(old(field), sprites),
        arena.wf(),
    ensures
        field_ok(final(field), sprites),
        final(field).next_handle() == old(field).next_handle(),
        wrap_effect(old(field).view(), final(field).view(), e, contacts, sprites, arena, moved),
{
    let (meteor, position) = match field.get(e) {
        None => {
            return false;
        },
        Some(b) => (b.meteor.duplicate(), b.position),
    };
    let sprite = sprites.get_sprite(meteor.sprite_name.as_str()).unwrap();
    assert(sprite.wf());
    let half_width = sprite.half_width() * UNITS_PER_PIXEL;
    match wall_relocation(position, half_width, contacts, arena) {
        None => false,
        Some(p) => {
            let ghost old_view = field.view();
            field.update(e, MeteorBody { meteor, position: p });
            proof {
                assert forall|id: u64| #[trigger] field.view().contains_key(id) implies body_ok(
                    field.view()[id],
                    sprites,
                ) by {
                    if id != e.id {
                        assert(old_view.contains_key(id));
                    }
                }
            }
            true
        },
    }
}

} // verus!
