//! What the physics engine is handed when a body is spawned.
use crate::geometry::Vec2;
use vstd::prelude::*;

verus! {

/// How the physics engine moves a body.
#[derive(Clone, Copy, Debug, PartialEq, Eq, Structural)]
pub enum RigidBody {
    Dynamic,
    Static,
    Kinematic,
}

/// The physical description of a body to spawn: its kind, gravity scale, mass
/// (in thousandths), and optionally a starting velocity and a persistent force.
#[derive(Clone, Copy, Debug, PartialEq, Eq, Structural)]
pub struct RigidBodyBehaviors {
    pub body_type: RigidBody,
    pub gravity: i64,
    pub mass: i64,
    pub velocity: Option<Vec2>,
    pub external_force: Option<Vec2>,
}

impl RigidBodyBehaviors {
    /// A dynamic body of unit mass, untouched by the engine's global gravity
    /// (planets pull through forces of their own), with no velocity or force given.
    pub fn default() -> (r: RigidBodyBehaviors)
        ensures
            r.body_type == RigidBody::Dynamic,
            r.gravity == 0,
            r.mass == 1000,
            r.velocity.is_none(),
            r.external_force.is_none(),
    {
        RigidBodyBehaviors {
            body_type: RigidBody::Dynamic,
            gravity: 0,
            mass: 1000,
            velocity: None,
            external_force: None,
        }
    }

    pub fn with_velocity(&mut self, v: Vec2) -> (r: &mut Self)
        ensures
            *r == (RigidBodyBehaviors { velocity: Some(v), ..*old(self) }),
            *final(self) == *final(r),
    {
        self.velocity = Some(v);
        self
    }

    pub fn with_external_force(&mut self, f: Vec2) -> (r: &mut Self)
        ensures
            *r == (RigidBodyBehaviors { external_force: Some(f), ..*old(self) }),
            *final(self) == *final(r),
    {
        self.external_force = Some(f);
        self
    }

    /// Sets the mass from a density, both in thousandths.
    pub fn with_density(&mut self, d: i64) -> (r: &mut Self)
        ensures
            *r == (RigidBodyBehaviors { mass: d, ..*old(self) }),
            *final(self) == *final(r),
    {
        self.mass = d;
        self
    }

    pub fn with_rigid_body_type(&mut self, bt: RigidBody) -> (r: &mut Self)
        ensures
            *r == (RigidBodyBehaviors { body_type: bt, ..*old(self) }),
            *final(self) == *final(r),
    {
        self.body_type = bt;
        self
    }
}

} // verus!
