//! Planets and their gravity.
//!
//! A planet pulls every mobile body toward its centre with a force of magnitude
//! `G * density_planet * density_body / distance`. Written over the offset `d`
//! from body to planet this is `d * strength / |d|^2`, which needs no square root.
use crate::damage::{Damage, Damageable};
use crate::geometry::{quot, Vec2, COORD_LIMIT};
use vstd::prelude::*;

verus! {

/// Densities are in thousandths, so with `G = 1/5` the product of two densities
/// is divided by this to give a gravity strength in thousandths.
pub const GRAVITY_DIVISOR: i64 = 5000;

/// Largest density, in thousandths, that a body may have.
pub const MAX_DENSITY: i64 = 1_000_000;

/// Damage a planet deals on contact: enough to destroy anything in one hit.
pub const PLANET_DAMAGE: u32 = 1_000_000;

pub const PLANET_HEALTH: i64 = 10_000;

/// Radius of the planet placed at the arena's centre, in fixed-point units.
pub const MAIN_PLANET_RADIUS: i64 = 100_000;

/// Density of the planet placed at the arena's centre, in thousandths.
pub const MAIN_PLANET_DENSITY: i64 = 50_000;

/// A static body that attracts the mobile ones.
#[derive(Clone, Copy, Debug, PartialEq, Eq, Structural)]
pub struct Planet {
    pub coordinates: Vec2,
    pub radius: i64,
    pub density: i64,
    pub health: i64,
}

impl Planet {
    pub open spec fn wf(self) -> bool {
        &&& -COORD_LIMIT <= self.coordinates.x <= COORD_LIMIT
        &&& -COORD_LIMIT <= self.coordinates.y <= COORD_LIMIT
        &&& 0 <= self.density <= MAX_DENSITY
    }

    pub fn new(coordinates: Vec2, radius: i64, density: i64) -> (r: Planet)
        ensures
            r.coordinates == coordinates,
            r.radius == radius,
            r.density == density,
            r.health == PLANET_HEALTH,
    {
        Planet { coordinates, radius, density, health: PLANET_HEALTH }
    }

    pub open spec fn gravity_spec(self, other_density: int) -> int {
        self.density * other_density / GRAVITY_DIVISOR as int
    }

    /// Strength of the pull on a body of density `other_density`.
    pub fn gravity(&self, other_density: i64) -> (r: i64)
        requires
            0 <= self.density <= MAX_DENSITY,
            0 <= other_density <= MAX_DENSITY,
        ensures
            r == self.gravity_spec(other_density as int),
            0 <= r <= max_strength(),
    {
        assert(0 <= self.density * other_density <= MAX_DENSITY * MAX_DENSITY) by (nonlinear_arith)
            requires
                0 <= self.density <= MAX_DENSITY,
                0 <= other_density <= MAX_DENSITY,
        ;
        let r = self.density * other_density / GRAVITY_DIVISOR;
        assert(r <= max_strength()) by (nonlinear_arith)
            requires
                r == self.density * other_density / (GRAVITY_DIVISOR as int),
                self.density * other_density <= MAX_DENSITY * MAX_DENSITY,
        ;
        r
    }
}

impl Damageable for Planet {
    open spec fn health_spec(&self) -> int {
        self.health as int
    }

    open spec fn without_health(&self) -> Self {
        Planet { health: 0, ..*self }
    }

    fn health(&self) -> (r: i64) {
        self.health
    }

    fn damage<D: Damage>(&mut self, source: &D) {
        self.health = self.health - source.hit_points() as i64;
    }
}

impl Damage for Planet {
    open spec fn hit_points_spec(&self) -> nat {
        PLANET_DAMAGE as nat
    }

    fn hit_points(&self) -> (r: u32) {
        PLANET_DAMAGE
    }
}

/// The main planet, at the centre of an arena of the given size.
pub fn spawn_planets(width: i64, height: i64) -> (r: Planet)
    requires
        0 <= width <= COORD_LIMIT,
        0 <= height <= COORD_LIMIT,
    ensures
        r.coordinates.x == width / 2,
        r.coordinates.y == height / 2,
        r.radius == MAIN_PLANET_RADIUS,
        r.density == MAIN_PLANET_DENSITY,
        r.health == PLANET_HEALTH,
        r.wf(),
{
    Planet::new(Vec2 { x: width / 2, y: height / 2 }, MAIN_PLANET_RADIUS, MAIN_PLANET_DENSITY)
}

/// Largest gravity strength, in thousandths.
pub open spec fn max_strength() -> int {
    MAX_DENSITY * MAX_DENSITY / GRAVITY_DIVISOR as int
}

/// The pull on a body at `body` toward a planet at `planet` with the given
/// strength: `d * strength / |d|^2` (in thousandths), with `d` the offset from the
/// body to the planet; zero when the two coincide.
pub open spec fn gravity_pull(body: Vec2, planet: Vec2, strength: int) -> (int, int) {
    let dx = planet.x - body.x;
    let dy = planet.y - body.y;
    let dsq = dx * dx + dy * dy;
    if dsq == 0 {
        (0, 0)
    } else {
        (quot(dx * strength * 1000, dsq), quot(dy * strength * 1000, dsq))
    }
}

proof fn lemma_component_bound(a: int, dsq: int, k: int)
    requires
        dsq >= a * a,
        dsq > 0,
        0 <= k,
    ensures
        -k <= quot(a * k, dsq) <= k,
{
    if a >= 0 {
        assert(a * k <= dsq * k) by (nonlinear_arith)
            requires
                dsq >= a * a,
                a >= 0,
                k >= 0,
                dsq > 0,
        ;
        assert(0 <= a * k) by (nonlinear_arith)
            requires
                a >= 0,
                k >= 0,
        ;
        assert((a * k) / dsq <= k) by (nonlinear_arith)
            requires
                a * k <= dsq * k,
                dsq > 0,
        ;
        assert((a * k) / dsq >= 0) by (nonlinear_arith)
            requires
                a * k >= 0,
                dsq > 0,
        ;
    } else {
        let b = -a;
        assert(b * k <= dsq * k) by (nonlinear_arith)
            requires
                dsq >= a * a,
                b == -a,
                b > 0,
                k >= 0,
                dsq > 0,
        ;
        assert(0 <= b * k) by (nonlinear_arith)
            requires
                b > 0,
                k >= 0,
        ;
        assert(a * k == -(b * k)) by (nonlinear_arith)
            requires
                b == -a,
        ;
        assert((b * k) / dsq <= k) by (nonlinear_arith)
            requires
                b * k <= dsq * k,
                dsq > 0,
        ;
        assert((b * k) / dsq >= 0) by (nonlinear_arith)
            requires
                b * k >= 0,
                dsq > 0,
        ;
        if a * k >= 0 {
            assert(a * k == 0);
        }
    }
}

/// The pull on a body at `moving_object_pos` toward a planet at
/// `stationary_object_pos`, of the given strength.
pub fn gravitational_velocity(
    moving_object_pos: Vec2,
    stationary_object_pos: Vec2,
    gravity_strength: i64,
) -> (r: Vec2)
    requires
        -COORD_LIMIT <= moving_object_pos.x <= COORD_LIMIT,
        -COORD_LIMIT <= moving_object_pos.y <= COORD_LIMIT,
        -COORD_LIMIT <= stationary_object_pos.x <= COORD_LIMIT,
        -COORD_LIMIT <= stationary_object_pos.y <= COORD_LIMIT,
        0 <= gravity_strength <= max_strength(),
    ensures
        r.x == gravity_pull(moving_object_pos, stationary_object_pos, gravity_strength as int).0,
        r.y == gravity_pull(moving_object_pos, stationary_object_pos, gravity_strength as int).1,
{
    let dx = stationary_object_pos.x as i128 - moving_object_pos.x as i128;
    let dy = stationary_object_pos.y as i128 - moving_object_pos.y as i128;
    assert(0 <= dx * dx <= 4_000_000_000_000_000_000) by (nonlinear_arith)
        requires
            -2_000_000_000 <= dx <= 2_000_000_000,
    ;
    assert(0 <= dy * dy <= 4_000_000_000_000_000_000) by (nonlinear_arith)
        requires
            -2_000_000_000 <= dy <= 2_000_000_000,
    ;
    let dsq = dx * dx + dy * dy;
    if dsq == 0 {
        return Vec2 { x: 0, y: 0 };
    }
    let k = gravity_strength as i128 * 1000;
    assert(-8_000_000_000_000_000_000_000 <= dx * k <= 8_000_000_000_000_000_000_000)
        by (nonlinear_arith)
        requires
            -2_000_000_000 <= dx <= 2_000_000_000,
            0 <= k <= 4_000_000_000_000,
    ;
    assert(-8_000_000_000_000_000_000_000 <= dy * k <= 8_000_000_000_000_000_000_000)
        by (nonlinear_arith)
        requires
            -2_000_000_000 <= dy <= 2_000_000_000,
            0 <= k <= 4_000_000_000_000,
    ;
    let fx = (dx * k) / dsq;
    let fy = (dy * k) / dsq;
    proof {
        lemma_component_bound(dx as int, dsq as int, k as int);
        lemma_component_bound(dy as int, dsq as int, k as int);
        assert(dx * gravity_strength * 1000 == dx * k) by (nonlinear_arith)
            requires
                k == gravity_strength * 1000,
        ;
        assert(dy * gravity_strength * 1000 == dy * k) by (nonlinear_arith)
            requires
                k == gravity_strength * 1000,
        ;
    }
    Vec2 { x: fx as i64, y: fy as i64 }
}

/// A mobile body as gravity sees it: where it is and how dense it is.
pub open spec fn body_ok(b: (Vec2, i64)) -> bool {
    &&& -COORD_LIMIT <= b.0.x <= COORD_LIMIT
    &&& -COORD_LIMIT <= b.0.y <= COORD_LIMIT
    &&& 0 <= b.1 <= MAX_DENSITY
}

/// Whether `f` is the pull of `planet` on a body at `position` of density `density`.
pub open spec fn is_pull_of(planet: Planet, position: Vec2, density: int, f: Vec2) -> bool {
    let g = gravity_pull(position, planet.coordinates, planet.gravity_spec(density));
    f.x == g.0 && f.y == g.1
}

/// The pulls of each planet on one body, in the order of the planets.
pub fn simulate_player_gravity_toward_planets(planets: &Vec<Planet>, position: Vec2, density: i64) -> (r: Vec<Vec2>)
    requires
        forall|p: int| 0 <= p < planets@.len() ==> (#[trigger] planets@[p]).wf(),
        body_ok((position, density)),
    ensures
        r@.len() == planets@.len(),
        forall|p: int|
            0 <= p < planets@.len() ==> is_pull_of(
                planets@[p],
                position,
                density as int,
                #[trigger] r@[p],
            ),
{
    let mut r: Vec<Vec2> = Vec::with_capacity(planets.len());
    let mut p: usize = 0;
    while p < planets.len()
        invariant
            p <= planets@.len(),
            r@.len() == p,
            forall|q: int| 0 <= q < planets@.len() ==> (#[trigger] planets@[q]).wf(),
            body_ok((position, density)),
            forall|q: int|
                0 <= q < p ==> is_pull_of(planets@[q], position, density as int, #[trigger] r@[q]),
        decreases planets@.len() - p,
    {
        let planet = &planets[p];
        let strength = planet.gravity(density);
        r.push(gravitational_velocity(position, planet.coordinates, strength));
        p = p + 1;
    }
    r
}

/// The pulls of every planet on every body: entry `[p][b]` is the pull of planet
/// `p` on body `b`. Each is applied as its own persistent force, re-applied every tick.
pub fn simulate_meteor_gravity_toward_planets(planets: &Vec<Planet>, bodies: &Vec<(Vec2, i64)>) -> (r: Vec<Vec<Vec2>>)
    requires
        forall|p: int| 0 <= p < planets@.len() ==> (#[trigger] planets@[p]).wf(),
        forall|b: int| 0 <= b < bodies@.len() ==> body_ok(#[trigger] bodies@[b]),
    ensures
        r@.len() == planets@.len(),
        forall|p: int| 0 <= p < planets@.len() ==> (#[trigger] r@[p])@.len() == bodies@.len(),
        forall|p: int, b: int|
            0 <= p < planets@.len() && 0 <= b < bodies@.len() ==> is_pull_of(
                planets@[p],
                bodies@[b].0,
                bodies@[b].1 as int,
                #[trigger] r@[p]@[b],
            ),
{
    let mut r: Vec<Vec<Vec2>> = Vec::with_capacity(planets.len());
    let mut p: usize = 0;
    while p < planets.len()
        invariant
            p <= planets@.len(),
            r@.len() == p,
            forall|q: int| 0 <= q < planets@.len() ==> (#[trigger] planets@[q]).wf(),
            forall|b: int| 0 <= b < bodies@.len() ==> body_ok(#[trigger] bodies@[b]),
            forall|q: int| 0 <= q < p ==> (#[trigger] r@[q])@.len() == bodies@.len(),
            forall|q: int, b: int|
                0 <= q < p && 0 <= b < bodies@.len() ==> is_pull_of(
                    planets@[q],
                    bodies@[b].0,
                    bodies@[b].1 as int,
                    #[trigger] r@[q]@[b],
                ),
        decreases planets@.len() - p,
    {
        let planet = &planets[p];
        let mut row: Vec<Vec2> = Vec::with_capacity(bodies.len());
        let mut b: usize = 0;
        while b < bodies.len()
            invariant
                b <= bodies@.len(),
                row@.len() == b,
                planet.wf(),
                forall|c: int| 0 <= c < bodies@.len() ==> body_ok(#[trigger] bodies@[c]),
                forall|c: int|
                    0 <= c < b ==> is_pull_of(
                        *planet,
                        bodies@[c].0,
                        bodies@[c].1 as int,
                        #[trigger] row@[c],
                    ),
            decreases bodies@.len() - b,
        {
            let (position, density) = bodies[b];
            let strength = planet.gravity(density);
            row.push(gravitational_velocity(position, planet.coordinates, strength));
            b = b + 1;
        }
        r.push(row);
        p = p + 1;
    }
    r
}

} // verus!
