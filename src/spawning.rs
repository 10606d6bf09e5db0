//! Where and when meteors enter the arena, and the limit on their speed.
use crate::geometry::{Arena, Vec2};
use crate::meteors::{Meteor, MeteorSpawnTimer, MeteorType, METEOR_MAX_SPEED, NUMBER_OF_METEORS};
use crate::randomness::{coin_flip, random_between};
use vstd::prelude::*;

verus! {

/// Meteors enter in the outer bands of the arena: within the first or the last
/// this many thousandths of its size along one axis.
pub const METEOR_SPAWN_BAND_LOW: i64 = 50;

pub const METEOR_SPAWN_BAND_HIGH: i64 = 950;

/// The position `f` thousandths of the way along `size`.
pub open spec fn permille_of(f: int, size: int) -> int {
    f * size / 1000
}

/// Whether `v` lies `f` thousandths of the way along `size`, with `f` from 10 up to
/// `low` or from `high` up to 990 (upper ends excluded).
pub open spec fn in_outer_band(v: int, size: int, low: int, high: int) -> bool {
    exists|f: int| ((10 <= f < low) || (high <= f < 990)) && v == #[trigger] permille_of(f, size)
}

/// A random position along `window_size` in one of its two outer bands: from 1%
/// up to `left_bound` thousandths, or from `right_bound` thousandths up to 99%.
pub fn random_val_outside_contraints(window_size: i64, left_bound: i64, right_bound: i64) -> (r: i64)
    requires
        0 <= window_size <= 1_000_000_000,
        10 < left_bound <= right_bound < 990,
    ensures
        in_outer_band(r as int, window_size as int, left_bound as int, right_bound as int),
{
    let f = if coin_flip() {
        random_between(10, left_bound - 1)
    } else {
        random_between(right_bound, 989)
    };
    assert(0 <= f * window_size <= 1_000_000_000_000) by (nonlinear_arith)
        requires
            10 <= f <= 989,
            0 <= window_size <= 1_000_000_000,
    ;
    let r = f * window_size / 1000;
    assert(r == permille_of(f as int, window_size as int));
    r
}

/// Whether `p` is a spawn position: in an outer band along one axis and anywhere
/// inside the arena along the other.
pub open spec fn is_spawn_position(p: Vec2, arena: Arena) -> bool {
    ||| in_outer_band(
        p.x as int,
        arena.width as int,
        METEOR_SPAWN_BAND_LOW as int,
        METEOR_SPAWN_BAND_HIGH as int,
    ) && 0 <= p.y < arena.height
    ||| in_outer_band(
        p.y as int,
        arena.height as int,
        METEOR_SPAWN_BAND_LOW as int,
        METEOR_SPAWN_BAND_HIGH as int,
    ) && 0 <= p.x < arena.width
}

/// A random spawn position near an edge of the arena.
pub fn spawn_meteor_at_random_location(arena: Arena) -> (r: Vec2)
    requires
        arena.wf(),
    ensures
        is_spawn_position(r, arena),
{
    if coin_flip() {
        let x = random_val_outside_contraints(
            arena.width,
            METEOR_SPAWN_BAND_LOW,
            METEOR_SPAWN_BAND_HIGH,
        );
        let y = random_between(0, arena.height - 1);
        Vec2 { x, y }
    } else {
        let x = random_between(0, arena.width - 1);
        let y = random_val_outside_contraints(
            arena.height,
            METEOR_SPAWN_BAND_LOW,
            METEOR_SPAWN_BAND_HIGH,
        );
        Vec2 { x, y }
    }
}

/// The meteors that start a game: `NUMBER_OF_METEORS + 1` fresh big meteors at
/// random spawn positions.
pub fn spawn_meteors(arena: Arena) -> (r: Vec<(Meteor, Vec2)>)
    requires
        arena.wf(),
    ensures
        r@.len() == NUMBER_OF_METEORS + 1,
        forall|i: int|
            0 <= i < r@.len() ==> (#[trigger] r@[i]).0.is_fresh(MeteorType::Big)
                && is_spawn_position(r@[i].1, arena),
{
    let mut r: Vec<(Meteor, Vec2)> = Vec::new();
    let mut i: u32 = 0;
    while i <= NUMBER_OF_METEORS
        invariant
            i <= NUMBER_OF_METEORS + 1,
            r@.len() == i,
            arena.wf(),
            forall|k: int|
                0 <= k < r@.len() ==> (#[trigger] r@[k]).0.is_fresh(MeteorType::Big)
                    && is_spawn_position(r@[k].1, arena),
        decreases NUMBER_OF_METEORS + 1 - i,
    {
        let m = Meteor::default();
        let p = spawn_meteor_at_random_location(arena);
        r.push((m, p));
        i = i + 1;
    }
    r
}

/// The meteor the timed spawner adds this tick: a fresh big one at a random spawn
/// position when the timer has just finished, otherwise none.
pub fn spawn_meteors_over_time(spawn_timer: &MeteorSpawnTimer, arena: Arena) -> (r: Option<(Meteor, Vec2)>)
    requires
        arena.wf(),
    ensures
        r.is_some() == spawn_timer.timer.finished,
        r.is_some() ==> r.unwrap().0.is_fresh(MeteorType::Big) && is_spawn_position(
            r.unwrap().1,
            arena,
        ),
{
    if spawn_timer.timer.finished() {
        let m = Meteor::default();
        let p = spawn_meteor_at_random_location(arena);
        Some((m, p))
    } else {
        None
    }
}

/// A speed clamped to the meteor speed range.
pub open spec fn clamp_speed(v: int) -> int {
    if v < -METEOR_MAX_SPEED {
        -METEOR_MAX_SPEED as int
    } else if v > METEOR_MAX_SPEED {
        METEOR_MAX_SPEED as int
    } else {
        v
    }
}

/// Clamps each component of every meteor velocity to the meteor speed range.
pub fn constrain_meteor_velocity(velocities: &mut Vec<Vec2>)
    ensures
        final(velocities)@.len() == old(velocities)@.len(),
        forall|i: int|
            0 <= i < old(velocities)@.len() ==> (#[trigger] final(velocities)@[i]).x == clamp_speed(
                old(velocities)@[i].x as int,
            ) && final(velocities)@[i].y == clamp_speed(old(velocities)@[i].y as int),
{
    let mut i: usize = 0;
    while i < velocities.len()
        invariant
            i <= velocities@.len(),
            velocities@.len() == old(velocities)@.len(),
            forall|k: int|
                0 <= k < i ==> (#[trigger] velocities@[k]).x == clamp_speed(
                    old(velocities)@[k].x as int,
                ) && velocities@[k].y == clamp_speed(old(velocities)@[k].y as int),
            forall|k: int| i <= k < velocities@.len() ==> #[trigger] velocities@[k] == old(velocities)@[k],
        decreases velocities@.len() - i,
    {
        let v = velocities[i];
        let x = if v.x < -METEOR_MAX_SPEED {
            -METEOR_MAX_SPEED
        } else if v.x > METEOR_MAX_SPEED {
            METEOR_MAX_SPEED
        } else {
            v.x
        };
        let y = if v.y < -METEOR_MAX_SPEED {
            -METEOR_MAX_SPEED
        } else if v.y > METEOR_MAX_SPEED {
            METEOR_MAX_SPEED
        } else {
            v.y
        };
        velocities.set(i, Vec2 { x, y });
        i = i + 1;
    }
}

} // verus!
