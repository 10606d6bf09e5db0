//! Meteor fragmentation: where the fragments of a destroyed meteor appear and
//! how fast they fly apart.
//!
//! Fragments sit on a ring around the point of destruction, at equal angular
//! steps of `2 * pi / n`; only each fragment's distance from the centre is jittered.
use crate::geometry::{
    lemma_ring_is_equiangular, quot, ring_cos, ring_direction, ring_sin, Arena, Vec2, COORD_LIMIT,
    MAX_RING_POINTS, UNITS_PER_PIXEL,
};
use crate::meteors::{is_meteor_sprite_of, is_next_size, Meteor, METEOR_MAX_SPEED, NUM_METEORS_TO_SPAWN_ON_DESTRUCTION};
use crate::randomness::random_between;
use vstd::prelude::*;

verus! {

/// The point at distance `r` from `origin` in ring direction `i` of `n`.
pub open spec fn ring_point(origin: Vec2, r: int, n: int, i: int) -> (int, int) {
    (origin.x + quot(r * ring_cos(n, i), 1000), origin.y + quot(r * ring_sin(n, i), 1000))
}

/// Whether `p` is `origin` moved by `v`, componentwise.
pub open spec fn at(p: Vec2, v: (int, int)) -> bool {
    p.x == v.0 && p.y == v.1
}

/// Lower end of the jittered ring radius: three quarters of the nominal one.
pub open spec fn ring_radius_min(radius: int) -> int {
    quot(3 * radius, 4)
}

/// Upper end of the jittered ring radius: one and a half times the nominal one.
pub open spec fn ring_radius_max(radius: int) -> int {
    quot(3 * radius, 2)
}

/// Whether `p` is ring point `i` of `n` around `origin`, at a distance within the
/// jitter band of the nominal `radius`.
pub open spec fn on_ring(origin: Vec2, radius: int, n: int, i: int, p: Vec2) -> bool {
    exists|r: int|
        ring_radius_min(radius) <= r <= ring_radius_max(radius) && at(
            p,
            #[trigger] ring_point(origin, r, n, i),
        )
}

/// Bounds on the inputs of the ring construction.
pub open spec fn ring_inputs_ok(origin: Vec2, radius: int, n: int) -> bool {
    &&& 1 <= n <= MAX_RING_POINTS
    &&& -COORD_LIMIT <= origin.x <= COORD_LIMIT
    &&& -COORD_LIMIT <= origin.y <= COORD_LIMIT
    &&& 0 <= radius <= COORD_LIMIT
}

/// Ring points around `origin`, one per entry of `radii`, each at the distance
/// its entry gives, in direction `i` of `radii.len()` equal steps.
pub fn points_on_circle_with_radii(origin: Vec2, radii: &Vec<i64>) -> (points: Vec<Vec2>)
    requires
        1 <= radii@.len() <= MAX_RING_POINTS,
        -COORD_LIMIT <= origin.x <= COORD_LIMIT,
        -COORD_LIMIT <= origin.y <= COORD_LIMIT,
        forall|i: int| 0 <= i < radii@.len() ==> 0 <= #[trigger] radii@[i] <= 2 * COORD_LIMIT,
    ensures
        points@.len() == radii@.len(),
        forall|i: int|
            0 <= i < radii@.len() ==> at(
                #[trigger] points@[i],
                ring_point(origin, radii@[i] as int, radii@.len() as int, i),
            ),
{
    let n = radii.len();
    let mut points: Vec<Vec2> = Vec::with_capacity(n);
    let mut i: usize = 0;
    while i < n
        invariant
            n == radii@.len(),
            1 <= n <= MAX_RING_POINTS,
            i <= n,
            points@.len() == i,
            -COORD_LIMIT <= origin.x <= COORD_LIMIT,
            -COORD_LIMIT <= origin.y <= COORD_LIMIT,
            forall|k: int| 0 <= k < n ==> 0 <= #[trigger] radii@[k] <= 2 * COORD_LIMIT,
            forall|k: int|
                0 <= k < i ==> at(
                    #[trigger] points@[k],
                    ring_point(origin, radii@[k] as int, n as int, k),
                ),
        decreases n - i,
    {
        let d = ring_direction(n, i);
        let r = radii[i];
        assert(-1000 <= d.x <= 1000 && -1000 <= d.y <= 1000);
        assert(-2_000_000_000_000 <= r * d.x <= 2_000_000_000_000) by (nonlinear_arith)
            requires
                0 <= r <= 2_000_000_000,
                -1000 <= d.x <= 1000,
        ;
        assert(-2_000_000_000_000 <= r * d.y <= 2_000_000_000_000) by (nonlinear_arith)
            requires
                0 <= r <= 2_000_000_000,
                -1000 <= d.y <= 1000,
        ;
        let p = Vec2 { x: origin.x + (r * d.x) / 1000, y: origin.y + (r * d.y) / 1000 };
        points.push(p);
        i = i + 1;
    }
    points
}

/// `n` ring points around `origin`, each at a random distance within the jitter
/// band of `radius` (from three quarters to one and a half times it).
pub fn equidistant_points_on_circle(origin: Vec2, radius: i64, num_points: usize) -> (points: Vec<
    Vec2,
>)
    requires
        ring_inputs_ok(origin, radius as int, num_points as int),
    ensures
        points@.len() == num_points,
        forall|i: int|
            0 <= i < num_points ==> on_ring(
                origin,
                radius as int,
                num_points as int,
                i,
                #[trigger] points@[i],
            ),
{
    let lo = (3 * radius) / 4;
    let hi = (3 * radius) / 2;
    let mut radii: Vec<i64> = Vec::with_capacity(num_points);
    let mut i: usize = 0;
    while i < num_points
        invariant
            i <= num_points,
            radii@.len() == i,
            lo == ring_radius_min(radius as int),
            hi == ring_radius_max(radius as int),
            0 <= lo <= hi <= 2 * COORD_LIMIT,
            forall|k: int| 0 <= k < i ==> lo <= #[trigger] radii@[k] <= hi,
        decreases num_points - i,
    {
        radii.push(random_between(lo, hi));
        i = i + 1;
    }
    let points = points_on_circle_with_radii(origin, &radii);
    assert forall|k: int| 0 <= k < num_points implies on_ring(
        origin,
        radius as int,
        num_points as int,
        k,
        #[trigger] points@[k],
    ) by {
        let r = radii@[k] as int;
        assert(at(points@[k], ring_point(origin, r, num_points as int, k)));
    }
    points
}

/// Velocity of fragment `i` of `n` flying outward at `speed`.
pub open spec fn fragment_velocity(speed: int, n: int, i: int) -> (int, int) {
    (quot(speed * ring_cos(n, i), 1000), quot(speed * ring_sin(n, i), 1000))
}

/// Fragments flying apart from `origin`: fragment `i` starts at ring point `i` of
/// `radii.len()` at distance `radii[i]` and moves outward in that direction at `speeds[i]`.
pub fn fragments_from_draws(origin: Vec2, radii: &Vec<i64>, speeds: &Vec<i64>) -> (fragments: Vec<
    (Vec2, Vec2),
>)
    requires
        1 <= radii@.len() <= MAX_RING_POINTS,
        speeds@.len() == radii@.len(),
        -COORD_LIMIT <= origin.x <= COORD_LIMIT,
        -COORD_LIMIT <= origin.y <= COORD_LIMIT,
        forall|i: int| 0 <= i < radii@.len() ==> 0 <= #[trigger] radii@[i] <= 2 * COORD_LIMIT,
        forall|i: int| 0 <= i < speeds@.len() ==> 0 <= #[trigger] speeds@[i] <= COORD_LIMIT,
    ensures
        fragments@.len() == radii@.len(),
        forall|i: int|
            0 <= i < radii@.len() ==> at(
                (#[trigger] fragments@[i]).0,
                ring_point(origin, radii@[i] as int, radii@.len() as int, i),
            ) && at(fragments@[i].1, fragment_velocity(speeds@[i] as int, radii@.len() as int, i)),
{
    let n = radii.len();
    let points = points_on_circle_with_radii(origin, radii);
    let mut fragments: Vec<(Vec2, Vec2)> = Vec::with_capacity(n);
    let mut i: usize = 0;
    while i < n
        invariant
            n == radii@.len(),
            n == speeds@.len(),
            n == points@.len(),
            1 <= n <= MAX_RING_POINTS,
            i <= n,
            fragments@.len() == i,
            forall|k: int| 0 <= k < n ==> 0 <= #[trigger] speeds@[k] <= COORD_LIMIT,
            forall|k: int|
                0 <= k < n ==> at(
                    #[trigger] points@[k],
                    ring_point(origin, radii@[k] as int, n as int, k),
                ),
            forall|k: int|
                0 <= k < i ==> at(
                    (#[trigger] fragments@[k]).0,
                    ring_point(origin, radii@[k] as int, n as int, k),
                ) && at(fragments@[k].1, fragment_velocity(speeds@[k] as int, n as int, k)),
        decreases n - i,
    {
        let d = ring_direction(n, i);
        let s = speeds[i];
        assert(-1000 <= d.x <= 1000 && -1000 <= d.y <= 1000);
        assert(-1_000_000_000_000 <= s * d.x <= 1_000_000_000_000) by (nonlinear_arith)
            requires
                0 <= s <= 1_000_000_000,
                -1000 <= d.x <= 1000,
        ;
        assert(-1_000_000_000_000 <= s * d.y <= 1_000_000_000_000) by (nonlinear_arith)
            requires
                0 <= s <= 1_000_000_000,
                -1000 <= d.y <= 1000,
        ;
        let v = Vec2 { x: (s * d.x) / 1000, y: (s * d.y) / 1000 };
        fragments.push((points[i], v));
        i = i + 1;
    }
    fragments
}

/// Whether `v` is the velocity of fragment `i` of `n` at a speed from half of
/// `max_speed` up to, but excluding, `max_speed`.
pub open spec fn flies_outward(max_speed: int, n: int, i: int, v: Vec2) -> bool {
    exists|s: int|
        max_speed / 2 <= s < max_speed && at(v, #[trigger] fragment_velocity(s, n, i))
}

/// Fragments of an explosion at `origin`: ring points at jittered distances from
/// `explosion_radius`, each flying outward at a random speed from half of
/// `max_speed` up to `max_speed`.
pub fn explode_meteor(origin: Vec2, num_fragments: usize, explosion_radius: i64, max_speed: i64) -> (fragments: Vec<(Vec2, Vec2)>)
    requires
        ring_inputs_ok(origin, explosion_radius as int, num_fragments as int),
        2 <= max_speed <= COORD_LIMIT,
    ensures
        fragments@.len() == num_fragments,
        forall|i: int|
            0 <= i < num_fragments ==> on_ring(
                origin,
                explosion_radius as int,
                num_fragments as int,
                i,
                (#[trigger] fragments@[i]).0,
            ) && flies_outward(max_speed as int, num_fragments as int, i, fragments@[i].1),
{
    let lo = (3 * explosion_radius) / 4;
    let hi = (3 * explosion_radius) / 2;
    let mut radii: Vec<i64> = Vec::with_capacity(num_fragments);
    let mut speeds: Vec<i64> = Vec::with_capacity(num_fragments);
    let mut i: usize = 0;
    while i < num_fragments
        invariant
            i <= num_fragments,
            radii@.len() == i,
            speeds@.len() == i,
            lo == ring_radius_min(explosion_radius as int),
            hi == ring_radius_max(explosion_radius as int),
            0 <= lo <= hi <= 2 * COORD_LIMIT,
            2 <= max_speed <= COORD_LIMIT,
            forall|k: int| 0 <= k < i ==> lo <= #[trigger] radii@[k] <= hi,
            forall|k: int| 0 <= k < i ==> max_speed / 2 <= #[trigger] speeds@[k] < max_speed,
        decreases num_fragments - i,
    {
        radii.push(random_between(lo, hi));
        speeds.push(random_between(max_speed / 2, max_speed - 1));
        i = i + 1;
    }
    let fragments = fragments_from_draws(origin, &radii, &speeds);
    assert forall|k: int| 0 <= k < num_fragments implies on_ring(
        origin,
        explosion_radius as int,
        num_fragments as int,
        k,
        (#[trigger] fragments@[k]).0,
    ) && flies_outward(max_speed as int, num_fragments as int, k, fragments@[k].1) by {
        let r = radii@[k] as int;
        let s = speeds@[k] as int;
        assert(at(fragments@[k].0, ring_point(origin, r, num_fragments as int, k)));
        assert(at(fragments@[k].1, fragment_velocity(s, num_fragments as int, k)));
    }
    fragments
}

/// One coordinate moved back inside `[0, size)`: below zero it becomes one pixel,
/// at or past `size` it becomes two pixels short of `size`.
pub open spec fn nudge_coord(c: int, size: int) -> int {
    if c < 0 {
        UNITS_PER_PIXEL as int
    } else if c >= size {
        size - 2 * UNITS_PER_PIXEL
    } else {
        c
    }
}

/// A point moved back inside the arena, each coordinate on its own.
pub open spec fn nudge_point(p: Vec2, max_width: int, max_height: int) -> (int, int) {
    (nudge_coord(p.x as int, max_width), nudge_coord(p.y as int, max_height))
}

/// Moves every fragment position that lies outside `[0, max_width) x [0, max_height)`
/// back inside, next to the edge it crossed; velocities are kept.
pub fn nudge_onto_screen(fragments: Vec<(Vec2, Vec2)>, max_width: i64, max_height: i64) -> (r: Vec<
    (Vec2, Vec2),
>)
    requires
        2 * UNITS_PER_PIXEL <= max_width <= COORD_LIMIT,
        2 * UNITS_PER_PIXEL <= max_height <= COORD_LIMIT,
    ensures
        r@.len() == fragments@.len(),
        forall|i: int|
            0 <= i < fragments@.len() ==> at(
                (#[trigger] r@[i]).0,
                nudge_point(fragments@[i].0, max_width as int, max_height as int),
            ) && r@[i].1 == fragments@[i].1,
{
    let mut r: Vec<(Vec2, Vec2)> = Vec::with_capacity(fragments.len());
    let mut i: usize = 0;
    while i < fragments.len()
        invariant
            i <= fragments@.len(),
            r@.len() == i,
            2 * UNITS_PER_PIXEL <= max_width <= COORD_LIMIT,
            2 * UNITS_PER_PIXEL <= max_height <= COORD_LIMIT,
            forall|k: int|
                0 <= k < i ==> at(
                    (#[trigger] r@[k]).0,
                    nudge_point(fragments@[k].0, max_width as int, max_height as int),
                ) && r@[k].1 == fragments@[k].1,
        decreases fragments@.len() - i,
    {
        let (p, v) = fragments[i];
        let x = if p.x < 0 {
            UNITS_PER_PIXEL
        } else if p.x >= max_width {
            max_width - 2 * UNITS_PER_PIXEL
        } else {
            p.x
        };
        let y = if p.y < 0 {
            UNITS_PER_PIXEL
        } else if p.y >= max_height {
            max_height - 2 * UNITS_PER_PIXEL
        } else {
            p.y
        };
        r.push((Vec2 { x, y }, v));
        i = i + 1;
    }
    r
}

/// A nudged point lies inside the arena, and a point already inside is left where it is.
pub proof fn lemma_nudge_lands_inside(p: Vec2, arena: Arena)
    requires
        arena.wf(),
    ensures
        ({
            let q = nudge_point(p, arena.width as int, arena.height as int);
            &&& 0 <= q.0 < arena.width
            &&& 0 <= q.1 < arena.height
            &&& arena.contains(p) ==> q == (p.x as int, p.y as int)
        }),
{
}

/// Puts fragment meteors and their ring placements together: meteor `i` starts at
/// the position of fragment `i` and takes its velocity, keeping all else.
pub fn assemble_fragments(children: &Vec<Meteor>, fragments: &Vec<(Vec2, Vec2)>) -> (r: Vec<
    (Meteor, Vec2),
>)
    requires
        children@.len() == fragments@.len(),
    ensures
        r@.len() == children@.len(),
        forall|i: int|
            0 <= i < r@.len() ==> (#[trigger] r@[i]).1 == fragments@[i].0 && r@[i].0 == (Meteor {
                velocity: fragments@[i].1,
                ..children@[i]
            }),
{
    let n = children.len();
    let mut r: Vec<(Meteor, Vec2)> = Vec::with_capacity(n);
    let mut i: usize = 0;
    while i < n
        invariant
            n == children@.len(),
            n == fragments@.len(),
            i <= n,
            r@.len() == i,
            forall|k: int|
                0 <= k < i ==> (#[trigger] r@[k]).1 == fragments@[k].0 && r@[k].0 == (Meteor {
                    velocity: fragments@[k].1,
                    ..children@[k]
                }),
        decreases n - i,
    {
        let (position, velocity) = fragments[i];
        let mut child = children[i].duplicate();
        child.velocity = velocity;
        r.push((child, position));
        i = i + 1;
    }
    r
}

/// Whether `p` is where fragment `i` of `n` lands: a ring point around `origin`
/// within the jitter band of `radius`, nudged back inside the arena if it fell outside.
pub open spec fn placed_fragment(
    origin: Vec2,
    radius: int,
    n: int,
    i: int,
    arena: Arena,
    p: Vec2,
) -> bool {
    exists|q: Vec2|
        #[trigger] on_ring(origin, radius, n, i, q) && at(
            p,
            nudge_point(q, arena.width as int, arena.height as int),
        )
}

/// The meteors that replace `meteor`, destroyed at `position`: the fragments of
/// `spawn_next_size`, each placed on a jittered ring of nominal radius
/// `explosion_radius` around `position` (nudged back into the arena) and flying
/// outward at from half to all of the largest meteor speed.
pub fn create_new_meteors_after_destruction(
    meteor: &Meteor,
    position: Vec2,
    explosion_radius: i64,
    arena: Arena,
) -> (r: Vec<(Meteor, Vec2)>)
    requires
        arena.wf(),
        -COORD_LIMIT <= position.x <= COORD_LIMIT,
        -COORD_LIMIT <= position.y <= COORD_LIMIT,
        0 <= explosion_radius <= COORD_LIMIT,
    ensures
        meteor.meteor_type.is_terminal() ==> r@.len() == 0,
        r@.len() <= NUM_METEORS_TO_SPAWN_ON_DESTRUCTION + 1,
        forall|i: int|
            0 <= i < r@.len() ==> {
                let m = (#[trigger] r@[i]).0;
                &&& is_next_size(meteor.meteor_type, m.meteor_type)
                &&& m.has_class_stats(m.meteor_type)
                &&& is_meteor_sprite_of(m.meteor_type, m.sprite_name@)
                &&& placed_fragment(
                    position,
                    explosion_radius as int,
                    r@.len() as int,
                    i,
                    arena,
                    r@[i].1,
                )
                &&& flies_outward(METEOR_MAX_SPEED as int, r@.len() as int, i, m.velocity)
            },
{
    let children = meteor.spawn_next_size();
    let n = children.len();
    if n == 0 {
        return Vec::new();
    }
    let fragments = explode_meteor(position, n, explosion_radius, METEOR_MAX_SPEED);
    let fragments = nudge_onto_screen(fragments, arena.width, arena.height);
    let r = assemble_fragments(&children, &fragments);
    proof {
        assert forall|k: int| 0 <= k < n implies {
            let m = (#[trigger] r@[k]).0;
            &&& is_next_size(meteor.meteor_type, m.meteor_type)
            &&& m.has_class_stats(m.meteor_type)
            &&& is_meteor_sprite_of(m.meteor_type, m.sprite_name@)
            &&& placed_fragment(position, explosion_radius as int, n as int, k, arena, r@[k].1)
            &&& flies_outward(METEOR_MAX_SPEED as int, n as int, k, m.velocity)
        } by {
            assert(children@[k].is_fresh(children@[k].meteor_type));
        }
    }
    r
}

/// Dividing by 1000 with rounding toward zero loses less than 1000 in magnitude:
/// `1000 * quot(a, 1000)` squared lies between `a^2 - 1998 |a|` and `a^2`.
proof fn lemma_thousandths_square(a: int)
    ensures
        1_000_000 * quot(a, 1000) * quot(a, 1000) <= a * a,
        1_000_000 * quot(a, 1000) * quot(a, 1000) >= a * a - 1998 * (if a >= 0 {
            a
        } else {
            -a
        }),
{
    let b = if a >= 0 {
        a
    } else {
        -a
    };
    let q = b / 1000;
    assert(0 <= 1000 * q <= b && b - 1000 * q < 1000) by (nonlinear_arith)
        requires
            b >= 0,
            q == b / 1000,
    ;
    assert((1000 * q) * (1000 * q) <= b * b) by (nonlinear_arith)
        requires
            0 <= 1000 * q <= b,
    ;
    assert((1000 * q) * (1000 * q) >= b * b - 1998 * b) by (nonlinear_arith)
        requires
            0 <= 1000 * q <= b,
            b - 1000 * q < 1000,
    ;
    assert(quot(a, 1000) * quot(a, 1000) == q * q) by (nonlinear_arith)
        requires
            quot(a, 1000) == q || quot(a, 1000) == -q,
    ;
    assert(a * a == b * b) by (nonlinear_arith)
        requires
            b == a || b == -a,
    ;
    assert(1_000_000 * quot(a, 1000) * quot(a, 1000) == (1000 * q) * (1000 * q)) by (nonlinear_arith)
        requires
            quot(a, 1000) * quot(a, 1000) == q * q,
    ;
}

/// Ring point `i` of `n` at distance `r` lies at squared distance at most `r^2` from
/// the centre, and at least `0.9999 r^2 - 3.996 r`: on the circle of radius `r`
/// up to the rounding of the direction table and of fixed-point division.
pub proof fn lemma_ring_point_distance(origin: Vec2, r: int, n: int, i: int)
    requires
        1 <= n <= MAX_RING_POINTS,
        0 <= i < n,
        r >= 0,
    ensures
        ({
            let p = ring_point(origin, r, n, i);
            let d2 = (p.0 - origin.x) * (p.0 - origin.x) + (p.1 - origin.y) * (p.1 - origin.y);
            &&& d2 <= r * r
            &&& 1_000_000 * d2 >= 999_900 * r * r - 3_996_000 * r
        }),
{
    let c = ring_cos(n, i);
    let s = ring_sin(n, i);
    lemma_ring_is_equiangular(n, i);
    let a = r * c;
    let b = r * s;
    lemma_thousandths_square(a);
    lemma_thousandths_square(b);
    let qa = quot(a, 1000);
    let qb = quot(b, 1000);
    let p = ring_point(origin, r, n, i);
    assert(p.0 - origin.x == qa && p.1 - origin.y == qb);
    assert(a * a + b * b == r * r * (c * c + s * s)) by (nonlinear_arith)
        requires
            a == r * c,
            b == r * s,
    ;
    assert(r * r * (c * c + s * s) <= 1_000_000 * (r * r)) by (nonlinear_arith)
        requires
            c * c + s * s <= 1_000_000,
    ;
    assert(r * r * (c * c + s * s) >= 999_900 * (r * r)) by (nonlinear_arith)
        requires
            c * c + s * s >= 999_900,
    ;
    assert(-1000 <= c <= 1000 && -1000 <= s <= 1000);
    let abs_a = if a >= 0 {
        a
    } else {
        -a
    };
    let abs_b = if b >= 0 {
        b
    } else {
        -b
    };
    assert(abs_a <= 1000 * r) by (nonlinear_arith)
        requires
            a == r * c,
            -1000 <= c <= 1000,
            r >= 0,
            abs_a == a || abs_a == -a,
            abs_a >= 0,
    ;
    assert(abs_b <= 1000 * r) by (nonlinear_arith)
        requires
            b == r * s,
            -1000 <= s <= 1000,
            r >= 0,
            abs_b == b || abs_b == -b,
            abs_b >= 0,
    ;
    assert(1_000_000 * (qa * qa + qb * qb) <= 1_000_000 * (r * r)) by (nonlinear_arith)
        requires
            1_000_000 * qa * qa <= a * a,
            1_000_000 * qb * qb <= b * b,
            a * a + b * b <= 1_000_000 * (r * r),
    ;
    assert(1_000_000 * (qa * qa + qb * qb) >= 999_900 * r * r - 3_996_000 * r) by (nonlinear_arith)
        requires
            1_000_000 * qa * qa >= a * a - 1998 * abs_a,
            1_000_000 * qb * qb >= b * b - 1998 * abs_b,
            a * a + b * b >= 999_900 * (r * r),
            abs_a <= 1000 * r,
            abs_b <= 1000 * r,
    ;
}

/// Every point placed on a jittered ring of nominal radius `radius` around
/// `origin` lies between the band's ends from the centre: at squared distance at
/// most `ring_radius_max(radius)^2`, and at least `0.9999 rmin^2 - 3.996 rmax` with
/// `rmin`, `rmax` the band's ends.
pub proof fn lemma_on_ring_within_band(origin: Vec2, radius: int, n: int, i: int, p: Vec2)
    requires
        1 <= n <= MAX_RING_POINTS,
        0 <= i < n,
        0 <= radius,
        on_ring(origin, radius, n, i, p),
    ensures
        ({
            let d2 = (p.x - origin.x) * (p.x - origin.x) + (p.y - origin.y) * (p.y - origin.y);
            let lo = ring_radius_min(radius);
            let hi = ring_radius_max(radius);
            &&& d2 <= hi * hi
            &&& 1_000_000 * d2 >= 999_900 * lo * lo - 3_996_000 * hi
        }),
{
    let r = choose|r: int|
        ring_radius_min(radius) <= r <= ring_radius_max(radius) && at(
            p,
            #[trigger] ring_point(origin, r, n, i),
        );
    let lo = ring_radius_min(radius);
    let hi = ring_radius_max(radius);
    assert(0 <= lo) by (nonlinear_arith)
        requires
            lo == (3 * radius) / 4,
            radius >= 0,
    ;
    lemma_ring_point_distance(origin, r, n, i);
    let d2 = (p.x - origin.x) * (p.x - origin.x) + (p.y - origin.y) * (p.y - origin.y);
    assert(d2 <= hi * hi) by (nonlinear_arith)
        requires
            d2 <= r * r,
            0 <= r <= hi,
    ;
    assert(1_000_000 * d2 >= 999_900 * lo * lo - 3_996_000 * hi) by (nonlinear_arith)
        requires
            1_000_000 * d2 >= 999_900 * r * r - 3_996_000 * r,
            0 <= lo <= r <= hi,
    ;
}

} // verus!
