//! The run/pause gate and the state of a game session: which screen is up,
//! whether the simulation runs, the lives left and the spawn timer. Every
//! gameplay system is a no-op unless a game is on screen and running.
use crate::damage::{handle_collision_with_damageable, total_hit_points, Damage, Damageable};
use crate::boundary::{
    containment_inputs_ok, exited_through, handle_player_intersections_with_wall, relocating_wall,
    wrapped, WallContacts, WallLayout,
};
use crate::geometry::{Arena, Rotation, Vec2, COORD_LIMIT};
use crate::meteor_field::{
    field_ok, max_fragments, resolve_shot, shot_effect, wrap_effect, wrap_meteor, MeteorBody,
    WeaponHit,
};
use crate::meteors::{Meteor, MeteorType};
use crate::registry::{Entity, EntityRegistry};
use crate::spawning::{clamp_speed, constrain_meteor_velocity, is_spawn_position, spawn_meteors_over_time};
use crate::sprites::XMLSpriteSheetLoader;
use crate::weapons::{first_hit, fire_step, fired_shot, player_fire_weapon, Shot, Weapon, WeaponFireTimer};
use crate::meteors::MeteorSpawnTimer;
use crate::planets::{body_ok, is_pull_of, simulate_meteor_gravity_toward_planets, Planet};
use crate::player::{
    handle_player_respawn_on_death, DeathOutcome, PlayerLives, PlayerShip, PLAYER_HEALTH,
    PLAYER_LIVES,
};
use vstd::prelude::*;

verus! {

/// Which screen the application shows.
#[derive(Clone, Copy, Debug, PartialEq, Eq, Structural)]
pub enum AppState {
    MainMenu,
    Game,
    GameOver,
}

/// Whether the simulation advances.
#[derive(Clone, Copy, Debug, PartialEq, Eq, Structural)]
pub enum SimulationState {
    Running,
    Paused,
}

pub fn pause_simulation() -> (r: SimulationState)
    ensures
        r == SimulationState::Paused,
{
    SimulationState::Paused
}

pub fn resume_simulation() -> (r: SimulationState)
    ensures
        r == SimulationState::Running,
{
    SimulationState::Running
}

/// The state after this tick's toggle input: pressing the toggle key flips it.
pub fn toggle_simulation(toggle_pressed: bool, current: SimulationState) -> (r: SimulationState)
    ensures
        !toggle_pressed ==> r == current,
        toggle_pressed ==> (r == SimulationState::Paused <==> current == SimulationState::Running),
{
    if !toggle_pressed {
        current
    } else {
        match current {
            SimulationState::Running => SimulationState::Paused,
            SimulationState::Paused => SimulationState::Running,
        }
    }
}

/// Lives after the death of the ship, starting from `lives`.
pub open spec fn lives_after_death(lives: int) -> int {
    if lives > 0 {
        lives - 1
    } else {
        0
    }
}

/// The state of one game session.
#[derive(Clone, Copy, Debug)]
pub struct GameSession {
    pub app_state: AppState,
    pub simulation_state: SimulationState,
    pub lives: PlayerLives,
    pub meteor_spawn_timer: MeteorSpawnTimer,
}

impl GameSession {
    pub open spec fn wf(self) -> bool {
        self.lives.wf() && self.meteor_spawn_timer.timer.wf()
    }

    /// Gameplay systems run only while a game is on screen and not paused.
    pub open spec fn is_active(self) -> bool {
        self.app_state == AppState::Game && self.simulation_state == SimulationState::Running
    }

    /// A session at the main menu, with full lives.
    pub fn new() -> (r: GameSession)
        ensures
            r.wf(),
            r.app_state == AppState::MainMenu,
            r.simulation_state == SimulationState::Running,
            r.lives.lives == PLAYER_LIVES,
            !r.is_active(),
    {
        GameSession {
            app_state: AppState::MainMenu,
            simulation_state: SimulationState::Running,
            lives: PlayerLives::default(),
            meteor_spawn_timer: MeteorSpawnTimer::default(),
        }
    }

    pub fn gameplay_active(&self) -> (r: bool)
        ensures
            r == self.is_active(),
    {
        self.app_state == AppState::Game && self.simulation_state == SimulationState::Running
    }

    /// Enters the game screen, running.
    pub fn enter_game(&mut self)
        requires
            old(self).wf(),
        ensures
            final(self).wf(),
            final(self).app_state == AppState::Game,
            final(self).simulation_state == SimulationState::Running,
            final(self).lives == old(self).lives,
            final(self).meteor_spawn_timer == old(self).meteor_spawn_timer,
    {
        self.app_state = AppState::Game;
        self.simulation_state = resume_simulation();
    }

    /// Handles this tick's toggle input, while a game is on screen.
    pub fn handle_toggle(&mut self, toggle_pressed: bool)
        requires
            old(self).wf(),
        ensures
            final(self).wf(),
            final(self).app_state == old(self).app_state,
            final(self).lives == old(self).lives,
            final(self).meteor_spawn_timer == old(self).meteor_spawn_timer,
            (old(self).app_state == AppState::Game && toggle_pressed) ==> (
            final(self).simulation_state == SimulationState::Paused <==> old(self).simulation_state
                == SimulationState::Running),
            !(old(self).app_state == AppState::Game && toggle_pressed) ==> final(self).simulation_state
                == old(self).simulation_state,
    {
        if self.app_state == AppState::Game {
            self.simulation_state = toggle_simulation(toggle_pressed, self.simulation_state);
        }
    }

    /// Advances the meteor spawn timer, only while gameplay is active.
    pub fn tick_meteor_spawn_timer(&mut self, delta_ms: u64)
        requires
            old(self).wf(),
        ensures
            final(self).wf(),
            final(self).app_state == old(self).app_state,
            final(self).simulation_state == old(self).simulation_state,
            final(self).lives == old(self).lives,
            !old(self).is_active() ==> final(self).meteor_spawn_timer == old(self).meteor_spawn_timer,
            old(self).is_active() ==> final(self).meteor_spawn_timer.timer.finished == (
            old(self).meteor_spawn_timer.timer.elapsed_ms + delta_ms
                >= old(self).meteor_spawn_timer.timer.duration_ms),
    {
        if self.gameplay_active() {
            self.meteor_spawn_timer.timer.tick(delta_ms);
        }
    }

    /// Reacts to the ship's state while gameplay is active: a dead ship costs a
    /// life and is replaced by a new one at full health, or, with no lives left,
    /// ends the game on the game-over screen with the simulation paused.
    pub fn handle_player_death(&mut self, ship: &mut PlayerShip) -> (r: DeathOutcome)
        requires
            old(self).wf(),
        ensures
            final(self).wf(),
            final(self).meteor_spawn_timer == old(self).meteor_spawn_timer,
            !old(self).is_active() ==> r == DeathOutcome::Alive && *final(self) == *old(self)
                && *final(ship) == *old(ship),
            old(self).is_active() && old(ship).health > 0 ==> r == DeathOutcome::Alive
                && *final(self) == *old(self) && *final(ship) == *old(ship),
            old(self).is_active() && old(ship).health <= 0 ==> {
                &&& final(self).lives.lives == lives_after_death(old(self).lives.lives as int)
                &&& (r == DeathOutcome::GameOver <==> final(self).lives.lives == 0)
                &&& (r == DeathOutcome::Respawn <==> final(self).lives.lives > 0)
                &&& r == DeathOutcome::GameOver ==> final(self).app_state == AppState::GameOver
                    && final(self).simulation_state == SimulationState::Paused
                &&& r == DeathOutcome::Respawn ==> final(self).app_state == AppState::Game
                    && final(self).simulation_state == SimulationState::Running
                    && final(ship).health == PLAYER_HEALTH
            },
    {
        if !self.gameplay_active() {
            return DeathOutcome::Alive;
        }
        let r = handle_player_respawn_on_death(ship, &mut self.lives);
        if r == DeathOutcome::GameOver {
            self.app_state = AppState::GameOver;
            self.simulation_state = pause_simulation();
        }
        r
    }

    /// Restarts after a game over when the restart button is pressed: full lives,
    /// back in the game, running.
    pub fn interact_with_restart_button(&mut self, pressed: bool)
        requires
            old(self).wf(),
        ensures
            final(self).wf(),
            final(self).meteor_spawn_timer == old(self).meteor_spawn_timer,
            !pressed ==> *final(self) == *old(self),
            pressed ==> final(self).lives.lives == PLAYER_LIVES && final(self).app_state
                == AppState::Game && final(self).simulation_state == SimulationState::Running,
    {
        if pressed {
            self.lives.reset();
            self.enter_game();
        }
    }
}

/// Lives count down by one per death from the starting count; the game ends at the
/// death that takes the last life, and not before; a restart brings back the
/// starting count.
pub proof fn lemma_lives_count_down(lives: int)
    requires
        0 < lives <= PLAYER_LIVES,
    ensures
        lives_after_death(lives) == lives - 1,
        lives_after_death(lives) == 0 <==> lives == 1,
        lives_after_death(lives_after_death(lives_after_death(PLAYER_LIVES as int))) == 0,
        lives_after_death(lives_after_death(PLAYER_LIVES as int)) > 0,
{
}

/// The gravity pulls of one tick: those of every planet on every body while
/// gameplay is active, and none at all otherwise.
pub fn run_gravity_tick(session: &GameSession, planets: &Vec<Planet>, bodies: &Vec<(Vec2, i64)>) -> (r: Vec<Vec<Vec2>>)
    requires
        forall|p: int| 0 <= p < planets@.len() ==> (#[trigger] planets@[p]).wf(),
        forall|b: int| 0 <= b < bodies@.len() ==> body_ok(#[trigger] bodies@[b]),
    ensures
        !session.is_active() ==> r@.len() == 0,
        session.is_active() ==> r@.len() == planets@.len() && (forall|p: int|
            0 <= p < planets@.len() ==> (#[trigger] r@[p])@.len() == bodies@.len()) && (forall|
            p: int,
            b: int,
        |
            0 <= p < planets@.len() && 0 <= b < bodies@.len() ==> is_pull_of(
                planets@[p],
                bodies@[b].0,
                bodies@[b].1 as int,
                #[trigger] r@[p]@[b],
            )),
{
    if session.gameplay_active() {
        simulate_meteor_gravity_toward_planets(planets, bodies)
    } else {
        Vec::new()
    }
}

/// The contact damage of one tick on one entity: applied while gameplay is active,
/// with nothing changed otherwise. Returns whether the entity is dead.
pub fn run_damage_tick<T: Damage, Q: Damageable>(session: &GameSession, target: &mut Q, touching: &Vec<T>) -> (dead: bool)
    requires
        old(target).health_spec() - total_hit_points(touching@) >= i64::MIN,
    ensures
        !session.is_active() ==> *final(target) == *old(target) && dead == (
        old(target).health_spec() <= 0),
        session.is_active() ==> final(target).health_spec() == old(target).health_spec()
            - total_hit_points(touching@) && final(target).without_health()
            == old(target).without_health(),
        dead == (final(target).health_spec() <= 0),
{
    if session.gameplay_active() {
        handle_collision_with_damageable(target, touching)
    } else {
        target.is_dead()
    }
}

/// One tick of a flying shot (see `resolve_shot`) while gameplay is active; `None`,
/// with nothing changed, otherwise.
pub fn run_shot_tick(
    session: &GameSession,
    shot: &Weapon,
    firer: Entity,
    position: Vec2,
    walls: WallLayout,
    hits: &Vec<(Entity, u64)>,
    field: &mut EntityRegistry<MeteorBody>,
    sprites: &XMLSpriteSheetLoader,
    arena: Arena,
) -> (r: Option<WeaponHit>)
    requires
        field_ok(old(field), sprites),
        arena.wf(),
        old(field).next_handle() + max_fragments() < u64::MAX,
    ensures
        field_ok(final(field), sprites),
        !session.is_active() ==> r.is_none() && final(field).view() == old(field).view()
            && final(field).next_handle() == old(field).next_handle(),
        session.is_active() ==> r.is_some() && {
            let h = r.unwrap();
            &&& h.consumed == (first_hit(hits@, firer).is_some() || exited_through(
                position,
                walls,
            ).is_some())
            &&& first_hit(hits@, firer).is_none() ==> h.target.is_none() && final(field).view()
                == old(field).view() && final(field).next_handle() == old(field).next_handle()
            &&& first_hit(hits@, firer).is_some() ==> shot_effect(
                hits@,
                firer,
                *shot,
                old(field).view(),
                old(field).next_handle(),
                final(field).view(),
                final(field).next_handle(),
                sprites,
                arena,
                h,
            )
        },
{
    if session.gameplay_active() {
        Some(resolve_shot(shot, firer, position, walls, hits, field, sprites, arena))
    } else {
        None
    }
}

/// The containment step for one meteor (see `wrap_meteor`) while gameplay is
/// active; no move, with nothing changed, otherwise.
pub fn run_meteor_wrap_tick(
    session: &GameSession,
    field: &mut EntityRegistry<MeteorBody>,
    e: Entity,
    contacts: WallContacts,
    sprites: &XMLSpriteSheetLoader,
    arena: Arena,
) -> (moved: bool)
    requires
        field_ok(old(field), sprites),
        arena.wf(),
    ensures
        field_ok(final(field), sprites),
        final(field).next_handle() == old(field).next_handle(),
        !session.is_active() ==> !moved && final(field).view() == old(field).view(),
        session.is_active() ==> wrap_effect(
            old(field).view(),
            final(field).view(),
            e,
            contacts,
            sprites,
            arena,
            moved,
        ),
{
    if session.gameplay_active() {
        wrap_meteor(field, e, contacts, sprites, arena)
    } else {
        false
    }
}

/// The containment step for the ship (see `handle_player_intersections_with_wall`)
/// while gameplay is active; `None` otherwise.
pub fn run_player_wrap_tick(
    session: &GameSession,
    position: Vec2,
    velocity: Vec2,
    half_width: i64,
    contacts: WallContacts,
    arena: Arena,
) -> (r: Option<(Vec2, Vec2)>)
    requires
        containment_inputs_ok(position, half_width as int, arena),
    ensures
        !session.is_active() ==> r.is_none(),
        session.is_active() ==> match relocating_wall(contacts, position, half_width as int, arena) {
            None => r.is_none(),
            Some(w) => r.is_some() && r.unwrap().0.x == wrapped(w, position, half_width as int, arena).0
                && r.unwrap().0.y == wrapped(w, position, half_width as int, arena).1
                && r.unwrap().1 == velocity,
        },
{
    if session.gameplay_active() {
        handle_player_intersections_with_wall(position, velocity, half_width, contacts, arena)
    } else {
        None
    }
}

/// The ship's weapon for one tick (see `player_fire_weapon`) while gameplay is
/// active; otherwise no shot, and the cooldown does not advance.
pub fn run_fire_tick(
    session: &GameSession,
    fire_timer: &mut WeaponFireTimer,
    delta_ms: u64,
    fire: bool,
    ship: Entity,
    position: Vec2,
    rotation: Rotation,
) -> (r: Option<Shot>)
    requires
        rotation.wf(),
        -COORD_LIMIT <= position.x <= COORD_LIMIT,
        -COORD_LIMIT <= position.y <= COORD_LIMIT,
    ensures
        !session.is_active() ==> r.is_none() && *final(fire_timer) == *old(fire_timer),
        session.is_active() ==> (*final(fire_timer), r.is_some()) == fire_step(
            *old(fire_timer),
            delta_ms as int,
            fire,
        ),
        r.is_some() ==> fired_shot(r.unwrap(), ship, position, rotation),
{
    if session.gameplay_active() {
        player_fire_weapon(fire_timer, delta_ms, fire, ship, position, rotation)
    } else {
        None
    }
}

/// Clamps meteor velocities (see `constrain_meteor_velocity`) while gameplay is
/// active; leaves them as they are otherwise.
pub fn run_constrain_velocity_tick(session: &GameSession, velocities: &mut Vec<Vec2>)
    ensures
        final(velocities)@.len() == old(velocities)@.len(),
        !session.is_active() ==> final(velocities)@ == old(velocities)@,
        session.is_active() ==> forall|i: int|
            0 <= i < old(velocities)@.len() ==> (#[trigger] final(velocities)@[i]).x == clamp_speed(
                old(velocities)@[i].x as int,
            ) && final(velocities)@[i].y == clamp_speed(old(velocities)@[i].y as int),
{
    if session.gameplay_active() {
        constrain_meteor_velocity(velocities);
    }
}

/// The timed spawner for one tick (see `spawn_meteors_over_time`) while gameplay
/// is active; no meteor otherwise, even if the timer last finished.
pub fn run_spawn_over_time_tick(session: &GameSession, arena: Arena) -> (r: Option<(Meteor, Vec2)>)
    requires
        arena.wf(),
    ensures
        !session.is_active() ==> r.is_none(),
        session.is_active() ==> r.is_some() == session.meteor_spawn_timer.timer.finished,
        r.is_some() ==> r.unwrap().0.is_fresh(MeteorType::Big) && is_spawn_position(
            r.unwrap().1,
            arena,
        ),
{
    if session.gameplay_active() {
        spawn_meteors_over_time(&session.meteor_spawn_timer, arena)
    } else {
        None
    }
}

} // verus!
