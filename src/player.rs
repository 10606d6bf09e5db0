//! The player's ship: its health, its lives, respawning after death, and thrust.
use crate::damage::{handle_collision_with_damageable, total_hit_points, Damage, Damageable};
use crate::geometry::{is_isqrt, isqrt, quot, Arena, Rotation, Vec2, COORD_LIMIT};
use crate::meteors::Meteor;
use crate::planets::Planet;
use vstd::prelude::*;

verus! {

/// Lives at the start of a game.
pub const PLAYER_LIVES: i8 = 3;

pub const PLAYER_HEALTH: i64 = 2000;

/// Density of the ship, in thousandths.
pub const PLAYER_SHIP_DENSITY: i64 = 900;

/// Thrust of the engine, in fixed-point units.
pub const PLAYER_ACCELERATION: i64 = 35_000;

/// The player's ship.
#[derive(Clone, Copy, Debug, PartialEq, Eq, Structural)]
pub struct PlayerShip {
    pub density: i64,
    pub health: i64,
}

impl PlayerShip {
    /// A ship as it enters the game: full health.
    pub fn new() -> (r: PlayerShip)
        ensures
            r.density == PLAYER_SHIP_DENSITY,
            r.health == PLAYER_HEALTH,
    {
        PlayerShip { density: PLAYER_SHIP_DENSITY, health: PLAYER_HEALTH }
    }
}

impl Damageable for PlayerShip {
    open spec fn health_spec(&self) -> int {
        self.health as int
    }

    open spec fn without_health(&self) -> Self {
        PlayerShip { health: 0, ..*self }
    }

    fn health(&self) -> (r: i64) {
        self.health
    }

    fn damage<D: Damage>(&mut self, source: &D) {
        self.health = self.health - source.hit_points() as i64;
    }
}

/// The lives left in the current game.
#[derive(Clone, Copy, Debug, PartialEq, Eq, Structural)]
pub struct PlayerLives {
    pub lives: i8,
}

impl Default for PlayerLives {
    fn default() -> (r: PlayerLives)
        ensures
            r.lives == PLAYER_LIVES,
    {
        PlayerLives { lives: PLAYER_LIVES }
    }
}

impl PlayerLives {
    /// Lives are never negative and never above the starting count.
    pub open spec fn wf(self) -> bool {
        0 <= self.lives <= PLAYER_LIVES
    }

    /// Back to the starting count, as a restart does.
    pub fn reset(&mut self)
        ensures
            final(self).lives == PLAYER_LIVES,
    {
        self.lives = PLAYER_LIVES;
    }
}

/// What follows the death of the ship.
#[derive(Clone, Copy, Debug, PartialEq, Eq, Structural)]
pub enum DeathOutcome {
    /// The ship lives on; nothing happens.
    Alive,
    /// A life was lost and a new ship takes its place.
    Respawn,
    /// The last life was lost: the game is over.
    GameOver,
}

/// A new ship: full health, a third of the way across and up the arena, at rest.
pub fn spawn_ship(arena: Arena) -> (r: (PlayerShip, Vec2, Vec2))
    requires
        arena.wf(),
    ensures
        r.0.density == PLAYER_SHIP_DENSITY,
        r.0.health == PLAYER_HEALTH,
        r.1.x == arena.width / 3,
        r.1.y == arena.height / 3,
        r.2.x == 0 && r.2.y == 0,
{
    (PlayerShip::new(), Vec2 { x: arena.width / 3, y: arena.height / 3 }, Vec2 { x: 0, y: 0 })
}

/// Handles the ship's death: a dead ship costs one life; if lives remain, the
/// ship is replaced by a new one at full health (placed by `spawn_ship`), and
/// if none do, the game is over and the dead ship is left as it is. A living
/// ship changes nothing.
pub fn handle_player_respawn_on_death(ship: &mut PlayerShip, lives: &mut PlayerLives) -> (r:
    DeathOutcome)
    requires
        old(lives).wf(),
    ensures
        final(lives).wf(),
        old(ship).health > 0 ==> r == DeathOutcome::Alive && *final(lives) == *old(lives)
            && *final(ship) == *old(ship),
        old(ship).health <= 0 ==> final(lives).lives == if old(lives).lives > 0 {
            old(lives).lives - 1
        } else {
            0
        },
        old(ship).health <= 0 ==> (r == DeathOutcome::GameOver <==> final(lives).lives == 0),
        old(ship).health <= 0 ==> (r == DeathOutcome::Respawn <==> final(lives).lives > 0),
        r == DeathOutcome::Respawn ==> final(ship).health == PLAYER_HEALTH && final(ship).density
            == PLAYER_SHIP_DENSITY,
        r == DeathOutcome::GameOver ==> *final(ship) == *old(ship),
{
    if !ship.is_dead() {
        return DeathOutcome::Alive;
    }
    if lives.lives > 0 {
        lives.lives = lives.lives - 1;
    }
    if lives.lives > 0 {
        *ship = PlayerShip::new();
        DeathOutcome::Respawn
    } else {
        DeathOutcome::GameOver
    }
}

/// Meteors touching the ship damage it; returns whether the ship is dead.
pub fn handle_player_collision_with_meteor(ship: &mut PlayerShip, meteors: &Vec<Meteor>) -> (dead:
    bool)
    requires
        old(ship).health - total_hit_points(meteors@) >= i64::MIN,
    ensures
        final(ship).density == old(ship).density,
        final(ship).health == old(ship).health - total_hit_points(meteors@),
        dead == (final(ship).health <= 0),
{
    handle_collision_with_damageable(ship, meteors)
}

/// Planets touching the ship damage it; returns whether the ship is dead.
pub fn handle_player_collision_with_planet(ship: &mut PlayerShip, planets: &Vec<Planet>) -> (dead:
    bool)
    requires
        old(ship).health - total_hit_points(planets@) >= i64::MIN,
    ensures
        final(ship).density == old(ship).density,
        final(ship).health == old(ship).health - total_hit_points(planets@),
        dead == (final(ship).health <= 0),
{
    handle_collision_with_damageable(ship, planets)
}

/// The thrust keys this tick: held, or let go this very tick.
#[derive(Clone, Copy, Debug, PartialEq, Eq, Structural)]
pub struct ThrustInput {
    pub forward_pressed: bool,
    pub forward_released: bool,
    pub backward_pressed: bool,
    pub backward_released: bool,
}

/// The engine force after this tick's input. Holding forward adds thrust along the
/// facing direction (a vector of length 1000), holding backward adds it against;
/// letting go of either clears the force. The steps apply in that order.
pub open spec fn thrust_after(force: Vec2, facing: Vec2, input: ThrustInput) -> (int, int) {
    let tx = quot(facing.x * PLAYER_ACCELERATION, 1000);
    let ty = quot(facing.y * PLAYER_ACCELERATION, 1000);
    let f1 = if input.forward_pressed {
        (force.x + tx, force.y + ty)
    } else {
        (force.x as int, force.y as int)
    };
    let f2 = if input.forward_released {
        (0, 0)
    } else {
        f1
    };
    let f3 = if input.backward_pressed {
        (f2.0 - tx, f2.1 - ty)
    } else {
        f2
    };
    if input.backward_released {
        (0, 0)
    } else {
        f3
    }
}

/// Applies this tick's thrust input to the ship's engine force.
pub fn update_player_position(facing: Vec2, input: ThrustInput, force: &mut Vec2)
    requires
        -1000 <= facing.x <= 1000,
        -1000 <= facing.y <= 1000,
        -1_000_000_000 <= old(force).x <= 1_000_000_000,
        -1_000_000_000 <= old(force).y <= 1_000_000_000,
    ensures
        final(force).x == thrust_after(*old(force), facing, input).0,
        final(force).y == thrust_after(*old(force), facing, input).1,
{
    assert(-35_000_000 <= facing.x * PLAYER_ACCELERATION <= 35_000_000) by (nonlinear_arith)
        requires
            -1000 <= facing.x <= 1000,
    ;
    assert(-35_000_000 <= facing.y * PLAYER_ACCELERATION <= 35_000_000) by (nonlinear_arith)
        requires
            -1000 <= facing.y <= 1000,
    ;
    let tx = (facing.x * PLAYER_ACCELERATION) / 1000;
    let ty = (facing.y * PLAYER_ACCELERATION) / 1000;
    if input.forward_pressed {
        force.x = force.x + tx;
        force.y = force.y + ty;
    }
    if input.forward_released {
        force.x = 0;
        force.y = 0;
    }
    if input.backward_pressed {
        force.x = force.x - tx;
        force.y = force.y - ty;
    }
    if input.backward_released {
        force.x = 0;
        force.y = 0;
    }
}

/// Turns the ship to face the cursor: its facing direction `(-sin, cos)` points
/// from the ship at `ship` to the cursor at `cursor`, scaled to length 1000 and
/// rounded toward zero. With the cursor on the ship, the ship faces along the x axis.
pub fn update_player_position_from_coordinates(cursor: Vec2, ship: Vec2) -> (r: Rotation)
    requires
        -COORD_LIMIT <= cursor.x <= COORD_LIMIT,
        -COORD_LIMIT <= cursor.y <= COORD_LIMIT,
        -COORD_LIMIT <= ship.x <= COORD_LIMIT,
        -COORD_LIMIT <= ship.y <= COORD_LIMIT,
    ensures
        r.wf(),
        ({
            let dx = cursor.x - ship.x;
            let dy = cursor.y - ship.y;
            let dsq = dx * dx + dy * dy;
            &&& dsq == 0 ==> r.cos == 0 && r.sin == -1000
            &&& dsq > 0 ==> exists|len: int|
                #[trigger] is_isqrt(dsq, len) && r.cos == quot(dy * 1000, len) && r.sin == quot(
                    -dx * 1000,
                    len,
                )
        }),
{
    let dx = cursor.x - ship.x;
    let dy = cursor.y - ship.y;
    assert(0 <= dx * dx <= 4_000_000_000_000_000_000) by (nonlinear_arith)
        requires
            -2_000_000_000 <= dx <= 2_000_000_000,
    ;
    assert(0 <= dy * dy <= 4_000_000_000_000_000_000) by (nonlinear_arith)
        requires
            -2_000_000_000 <= dy <= 2_000_000_000,
    ;
    let dsq = (dx * dx) as u64 + (dy * dy) as u64;
    if dsq == 0 {
        return Rotation { cos: 0, sin: -1000 };
    }
    let len = isqrt(dsq);
    proof {
        lemma_component_within_length(dx as int, dsq as int, len as int);
        lemma_component_within_length(dy as int, dsq as int, len as int);
    }
    let l = len as i64;
    let cos = (dy * 1000) / l;
    let sin = (-dx * 1000) / l;
    proof {
        lemma_scaled_ratio_bound(dy as int, len as int);
        lemma_scaled_ratio_bound(-dx as int, len as int);
    }
    Rotation { cos, sin }
}

/// A component of a vector is at most its length: `a^2 <= dsq` and `len` the
/// integer square root of a positive `dsq` give `|a| <= len`, and `len >= 1`.
proof fn lemma_component_within_length(a: int, dsq: int, len: int)
    requires
        a * a <= dsq,
        0 < dsq <= 8_000_000_000_000_000_000,
        is_isqrt(dsq, len),
    ensures
        -len <= a <= len,
        1 <= len <= 3_000_000_000,
{
    if len == 0 {
        assert((len + 1) * (len + 1) == 1) by (nonlinear_arith)
            requires
                len == 0,
        ;
    }
    if a > len {
        assert(a * a >= (len + 1) * (len + 1)) by (nonlinear_arith)
            requires
                a >= len + 1,
                len >= 0,
        ;
    }
    if a < -len {
        assert(a * a >= (len + 1) * (len + 1)) by (nonlinear_arith)
            requires
                -a >= len + 1,
                len >= 0,
        ;
    }
    if len > 3_000_000_000 {
        assert(len * len > 9_000_000_000_000_000_000) by (nonlinear_arith)
            requires
                len > 3_000_000_000,
        ;
        assert(false);
    }
}

/// `|a| <= len` keeps `a * 1000 / len`, rounded toward zero, within 1000 either way.
proof fn lemma_scaled_ratio_bound(a: int, len: int)
    requires
        1 <= len,
        -len <= a <= len,
    ensures
        -1000 <= quot(a * 1000, len) <= 1000,
{
    if a >= 0 {
        assert((a * 1000) / len <= 1000) by (nonlinear_arith)
            requires
                0 <= a <= len,
                len >= 1,
        ;
        assert((a * 1000) / len >= 0) by (nonlinear_arith)
            requires
                0 <= a,
                len >= 1,
        ;
    } else {
        assert(((-a) * 1000) / len <= 1000) by (nonlinear_arith)
            requires
                0 <= -a <= len,
                len >= 1,
        ;
        assert(((-a) * 1000) / len >= 0) by (nonlinear_arith)
            requires
                0 <= -a,
                len >= 1,
        ;
        assert(-(a * 1000) == (-a) * 1000);
    }
}

} // verus!
