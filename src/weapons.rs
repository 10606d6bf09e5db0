//! The ship's weapon: fire-rate gating, where a shot starts and how fast it
//! flies, and which of its ray hits counts.
use crate::damage::Damage;
use crate::geometry::{quot, Rotation, Vec2, COORD_LIMIT};
use crate::registry::Entity;
use crate::timing::Stopwatch;
use vstd::prelude::*;

verus! {

/// Least time between two shots, in milliseconds.
pub const DEFAULT_WEAPON_FIRE_DELAY_MS: u64 = 150;

pub const DEFAULT_WEAPON_DAMAGE: u32 = 25;

/// Speed of a shot, in fixed-point units.
pub const DEFAULT_WEAPON_SPEED: i64 = 1_500_000;

/// Distance ahead of the ship where a shot appears, in fixed-point units.
pub const FIRE_DISTANCE_FROM_PLAYER: i64 = 25_000;

/// Density of a shot, in thousandths.
pub const SHOT_DENSITY: i64 = 1;

/// Latest time of impact, in thousandths of a second, at which a ray hit counts.
pub const HIT_TIME_OF_IMPACT_LIMIT: u64 = 100;

/// A projectile.
#[derive(Clone, Debug)]
pub struct Weapon {
    pub sprite_name: String,
    pub damage: u32,
    pub speed: i64,
    pub density: i64,
    pub frame_cols: usize,
    pub frame_rows: usize,
    pub start_frame: usize,
}

impl Default for Weapon {
    fn default() -> (r: Weapon)
        ensures
            r.sprite_name@ == "laserGreen02.png"@,
            r.damage == DEFAULT_WEAPON_DAMAGE,
            r.speed == DEFAULT_WEAPON_SPEED,
            r.density == SHOT_DENSITY,
            r.frame_cols == 1,
            r.frame_rows == 1,
            r.start_frame == 0,
    {
        Weapon {
            sprite_name: "laserGreen02.png".to_owned(),
            damage: DEFAULT_WEAPON_DAMAGE,
            speed: DEFAULT_WEAPON_SPEED,
            density: SHOT_DENSITY,
            frame_cols: 1,
            frame_rows: 1,
            start_frame: 0,
        }
    }
}

impl Damage for Weapon {
    open spec fn hit_points_spec(&self) -> nat {
        self.damage as nat
    }

    fn hit_points(&self) -> (r: u32) {
        self.damage
    }
}

/// The fire-rate cooldown of a ship.
#[derive(Clone, Copy, Debug, PartialEq, Eq, Structural)]
pub struct WeaponFireTimer {
    pub timer: Stopwatch,
    pub fire_delay_ms: u64,
}

impl Default for WeaponFireTimer {
    /// A cooldown that lets the first shot through at once.
    fn default() -> (r: WeaponFireTimer)
        ensures
            r.fire_delay_ms == DEFAULT_WEAPON_FIRE_DELAY_MS,
            r.timer.elapsed_ms == DEFAULT_WEAPON_FIRE_DELAY_MS,
    {
        let mut timer = Stopwatch::new();
        timer.tick(DEFAULT_WEAPON_FIRE_DELAY_MS);
        WeaponFireTimer { timer, fire_delay_ms: DEFAULT_WEAPON_FIRE_DELAY_MS }
    }
}

/// The cooldown after `delta_ms` more time and this tick's fire input, and whether a
/// shot leaves: the time is added first, then a shot leaves if fire is held and at
/// least the delay has passed since the last one, which restarts the count.
pub open spec fn fire_step(t: WeaponFireTimer, delta_ms: int, fire: bool) -> (WeaponFireTimer, bool) {
    let e = if t.timer.elapsed_ms + delta_ms <= u64::MAX {
        t.timer.elapsed_ms + delta_ms
    } else {
        u64::MAX as int
    };
    if fire && e >= t.fire_delay_ms {
        (WeaponFireTimer { timer: Stopwatch { elapsed_ms: 0 }, ..t }, true)
    } else {
        (WeaponFireTimer { timer: Stopwatch { elapsed_ms: e as u64 }, ..t }, false)
    }
}

impl WeaponFireTimer {
    /// Advances the cooldown by `delta_ms` and reports whether a shot leaves this tick.
    pub fn try_fire(&mut self, delta_ms: u64, fire: bool) -> (fired: bool)
        ensures
            (*final(self), fired) == fire_step(*old(self), delta_ms as int, fire),
    {
        self.timer.tick(delta_ms);
        if fire && self.timer.elapsed() >= self.fire_delay_ms {
            self.timer.reset();
            true
        } else {
            false
        }
    }
}

/// Two fire inputs: after one that fired, the next fires exactly when at least the
/// delay has passed; so inputs closer than the delay give one shot, and inputs the
/// delay or more apart give two.
pub proof fn lemma_fire_cooldown(t: WeaponFireTimer, first_delta: int, second_delta: int)
    requires
        0 <= first_delta <= u64::MAX,
        0 <= second_delta <= u64::MAX,
        t.timer.elapsed_ms >= t.fire_delay_ms,
    ensures
        fire_step(t, first_delta, true).1,
        fire_step(fire_step(t, first_delta, true).0, second_delta, true).1 <==> second_delta
            >= t.fire_delay_ms,
{
}

/// The point `offset` from `position`, with the offset turned by `rotation`.
pub open spec fn rotated_offset(position: Vec2, offset: Vec2, rotation: Rotation) -> (int, int) {
    (
        position.x + quot(rotation.cos * offset.x - rotation.sin * offset.y, 1000),
        position.y + quot(rotation.sin * offset.x + rotation.cos * offset.y, 1000),
    )
}

/// The point `shot_vec` from a ship at `position`, in the ship's own frame.
pub fn shot_from_transform(shot_vec: Vec2, position: Vec2, rotation: Rotation) -> (r: Vec2)
    requires
        rotation.wf(),
        -COORD_LIMIT <= shot_vec.x <= COORD_LIMIT,
        -COORD_LIMIT <= shot_vec.y <= COORD_LIMIT,
        -COORD_LIMIT <= position.x <= COORD_LIMIT,
        -COORD_LIMIT <= position.y <= COORD_LIMIT,
    ensures
        r.x == rotated_offset(position, shot_vec, rotation).0,
        r.y == rotated_offset(position, shot_vec, rotation).1,
{
    let c = rotation.cos;
    let s = rotation.sin;
    let x = shot_vec.x;
    let y = shot_vec.y;
    assert(-1_000_000_000_000 <= c * x <= 1_000_000_000_000) by (nonlinear_arith)
        requires
            -1000 <= c <= 1000,
            -1_000_000_000 <= x <= 1_000_000_000,
    ;
    assert(-1_000_000_000_000 <= s * y <= 1_000_000_000_000) by (nonlinear_arith)
        requires
            -1000 <= s <= 1000,
            -1_000_000_000 <= y <= 1_000_000_000,
    ;
    assert(-1_000_000_000_000 <= s * x <= 1_000_000_000_000) by (nonlinear_arith)
        requires
            -1000 <= s <= 1000,
            -1_000_000_000 <= x <= 1_000_000_000,
    ;
    assert(-1_000_000_000_000 <= c * y <= 1_000_000_000_000) by (nonlinear_arith)
        requires
            -1000 <= c <= 1000,
            -1_000_000_000 <= y <= 1_000_000_000,
    ;
    Vec2 { x: position.x + (c * x - s * y) / 1000, y: position.y + (s * x + c * y) / 1000 }
}

/// Where a shot appears: the fire distance straight ahead of the ship.
pub fn middle_shot_from_transform(position: Vec2, rotation: Rotation) -> (r: Vec2)
    requires
        rotation.wf(),
        -COORD_LIMIT <= position.x <= COORD_LIMIT,
        -COORD_LIMIT <= position.y <= COORD_LIMIT,
    ensures
        r.x == rotated_offset(position, Vec2 { x: 0, y: FIRE_DISTANCE_FROM_PLAYER }, rotation).0,
        r.y == rotated_offset(position, Vec2 { x: 0, y: FIRE_DISTANCE_FROM_PLAYER }, rotation).1,
{
    shot_from_transform(Vec2 { x: 0, y: FIRE_DISTANCE_FROM_PLAYER }, position, rotation)
}

/// A shot as it leaves the ship.
#[derive(Clone, Debug)]
pub struct Shot {
    pub weapon: Weapon,
    pub position: Vec2,
    /// The firing ship's orientation, which the shot keeps.
    pub rotation: Rotation,
    pub velocity: Vec2,
    /// The ship that fired it: its hits on that ship never count.
    pub firer: Entity,
}

/// Velocity of a shot fired at `speed` by a ship turned by `rotation`: along the
/// ship's facing direction, the turned up-axis `(-sin, cos)`.
pub open spec fn shot_velocity(speed: int, rotation: Rotation) -> (int, int) {
    (quot(-rotation.sin * speed, 1000), quot(rotation.cos * speed, 1000))
}

/// Whether `shot` is the default shot a ship `ship` at `position`, turned by
/// `rotation`, fires: the fire distance straight ahead, turned as the ship is,
/// flying along its facing direction, and blind to its firer.
pub open spec fn fired_shot(shot: Shot, ship: Entity, position: Vec2, rotation: Rotation) -> bool {
    &&& shot.weapon.damage == DEFAULT_WEAPON_DAMAGE
    &&& shot.weapon.speed == DEFAULT_WEAPON_SPEED
    &&& shot.position.x == rotated_offset(
        position,
        Vec2 { x: 0, y: FIRE_DISTANCE_FROM_PLAYER },
        rotation,
    ).0
    &&& shot.position.y == rotated_offset(
        position,
        Vec2 { x: 0, y: FIRE_DISTANCE_FROM_PLAYER },
        rotation,
    ).1
    &&& shot.velocity.x == shot_velocity(DEFAULT_WEAPON_SPEED as int, rotation).0
    &&& shot.velocity.y == shot_velocity(DEFAULT_WEAPON_SPEED as int, rotation).1
    &&& shot.rotation == rotation
    &&& shot.firer == ship
}

/// One tick of the weapon of the ship `ship`: the cooldown advances by `delta_ms`,
/// and if fire is held and the delay has passed, exactly one default shot leaves
/// from straight ahead of the ship, turned as the ship is, flying along its facing
/// direction, and blind to the ship that fired it.
pub fn player_fire_weapon(
    fire_timer: &mut WeaponFireTimer,
    delta_ms: u64,
    fire: bool,
    ship: Entity,
    position: Vec2,
    rotation: Rotation,
) -> (r: Option<Shot>)
    requires
        rotation.wf(),
        -COORD_LIMIT <= position.x <= COORD_LIMIT,
        -COORD_LIMIT <= position.y <= COORD_LIMIT,
    ensures
        (*final(fire_timer), r.is_some()) == fire_step(*old(fire_timer), delta_ms as int, fire),
        r.is_some() ==> fired_shot(r.unwrap(), ship, position, rotation),
{
    if !fire_timer.try_fire(delta_ms, fire) {
        return None;
    }
    let weapon = Weapon::default();
    let speed = weapon.speed;
    assert(-1_500_000_000 <= rotation.sin * speed <= 1_500_000_000) by (nonlinear_arith)
        requires
            -1000 <= rotation.sin <= 1000,
            speed == 1_500_000,
    ;
    assert(-1_500_000_000 <= rotation.cos * speed <= 1_500_000_000) by (nonlinear_arith)
        requires
            -1000 <= rotation.cos <= 1000,
            speed == 1_500_000,
    ;
    let velocity = Vec2 { x: (-rotation.sin * speed) / 1000, y: (rotation.cos * speed) / 1000 };
    let start = middle_shot_from_transform(position, rotation);
    Some(Shot { weapon, position: start, rotation, velocity, firer: ship })
}

/// Whether a ray hit counts for a shot fired by `firer`: it is close enough in
/// time, and not on the firer, which the shot never hits.
pub open spec fn counts(hit: (Entity, u64), firer: Entity) -> bool {
    hit.1 <= HIT_TIME_OF_IMPACT_LIMIT && hit.0 != firer
}

/// The first ray hit `(entity, time of impact in thousandths of a second)`, in the
/// order reported, that counts for a shot fired by `firer`.
pub open spec fn first_hit(hits: Seq<(Entity, u64)>, firer: Entity) -> Option<int>
    decreases hits.len(),
{
    if hits.len() == 0 {
        None
    } else {
        match first_hit(hits.drop_last(), firer) {
            Some(k) => Some(k),
            None => if counts(hits.last(), firer) {
                Some(hits.len() - 1)
            } else {
                None
            },
        }
    }
}

proof fn lemma_first_hit_extend(hits: Seq<(Entity, u64)>, firer: Entity, k: int)
    requires
        0 <= k < hits.len(),
        first_hit(hits.take(k), firer).is_none(),
    ensures
        first_hit(hits.take(k + 1), firer) == if counts(hits[k], firer) {
            Some(k)
        } else {
            None::<int>
        },
{
    assert(hits.take(k + 1).drop_last() =~= hits.take(k));
}

/// A hit found in a prefix is the first hit of the whole sequence.
proof fn lemma_first_hit_prefix(hits: Seq<(Entity, u64)>, firer: Entity, k: int)
    requires
        0 <= k <= hits.len(),
        first_hit(hits.take(k), firer).is_some(),
    ensures
        first_hit(hits, firer) == first_hit(hits.take(k), firer),
    decreases hits.len(),
{
    if k < hits.len() {
        assert(hits.drop_last().take(k) =~= hits.take(k));
        lemma_first_hit_prefix(hits.drop_last(), firer, k);
    } else {
        assert(hits.take(k) =~= hits);
    }
}

/// Position of the hit that counts among the ray hits of a shot fired by `firer`,
/// if any: a shot deals damage to at most this one target, however many it
/// overlaps, and never to its firer.
pub fn first_counting_hit(hits: &Vec<(Entity, u64)>, firer: Entity) -> (r: Option<usize>)
    ensures
        r.is_some() == first_hit(hits@, firer).is_some(),
        r.is_some() ==> r.unwrap() as int == first_hit(hits@, firer).unwrap() && r.unwrap()
            < hits@.len(),
{
    let mut k: usize = 0;
    while k < hits.len()
        invariant
            k <= hits@.len(),
            first_hit(hits@.take(k as int), firer).is_none(),
        decreases hits@.len() - k,
    {
        proof {
            lemma_first_hit_extend(hits@, firer, k as int);
        }
        if hits[k].1 <= HIT_TIME_OF_IMPACT_LIMIT && hits[k].0 != firer {
            proof {
                lemma_first_hit_prefix(hits@, firer, k as int + 1);
            }
            return Some(k);
        }
        k = k + 1;
    }
    assert(hits@.take(k as int) =~= hits@);
    None
}

} // verus!
