//! Meteors: size classes with their fixed stats, meteor construction, sprite
//! variant choice, fragmentation into the next size class, and the spawn timer.
use crate::damage::{Damage, Damageable};
use crate::geometry::Vec2;
use crate::randomness::{random_between, weighted_pick};
use crate::timing::RepeatingTimer;
use vstd::prelude::*;

verus! {

/// Meteors placed when a game starts, counted from zero (so one more than this).
pub const NUMBER_OF_METEORS: u32 = 3;

/// Largest speed of a meteor along either axis, in fixed-point units.
pub const METEOR_MAX_SPEED: i64 = 5000;

/// Largest spin of a new meteor either way, in thousandths of a radian.
pub const METEOR_MAX_ROTATION: i64 = 3000;

/// Candidate fragment slots of a destroyed meteor, counted from zero (so one more than this).
pub const NUM_METEORS_TO_SPAWN_ON_DESTRUCTION: u32 = 3;

/// Percent chance that a candidate fragment slot stays empty.
pub const CHANCE_TO_SPAWN_METEOR_ON_DESTRUCTION: i64 = 30;

/// Period of the timed meteor spawner, in milliseconds.
pub const METEOR_SPAWN_TIME_MS: u64 = 8000;

/// Size class of a meteor; it fixes health, damage and density.
#[derive(Clone, Copy, Debug, PartialEq, Eq, Structural)]
pub enum MeteorType {
    Big,
    Med,
    Small,
}

/// Whether `child` is a size class that a meteor of class `parent` breaks into.
pub open spec fn is_next_size(parent: MeteorType, child: MeteorType) -> bool {
    match parent {
        MeteorType::Big => child == MeteorType::Med || child == MeteorType::Small,
        MeteorType::Med => child == MeteorType::Small,
        MeteorType::Small => child == MeteorType::Small,
    }
}

impl MeteorType {
    pub open spec fn density_spec(self) -> int {
        match self {
            MeteorType::Big => 100_000,
            MeteorType::Med => 80_000,
            MeteorType::Small => 50_000,
        }
    }

    pub open spec fn health_spec(self) -> int {
        match self {
            MeteorType::Big => 200,
            MeteorType::Med => 100,
            MeteorType::Small => 50,
        }
    }

    pub open spec fn damage_spec(self) -> nat {
        match self {
            MeteorType::Big => 2500,
            MeteorType::Med => 1500,
            MeteorType::Small => 500,
        }
    }

    /// The class that no longer breaks up.
    pub open spec fn is_terminal(self) -> bool {
        self == MeteorType::Small
    }

    /// Density of a class, in thousandths.
    pub fn density(meteor_type: MeteorType) -> (r: i64)
        ensures
            r == meteor_type.density_spec(),
    {
        match meteor_type {
            MeteorType::Big => 100_000,
            MeteorType::Med => 80_000,
            MeteorType::Small => 50_000,
        }
    }

    pub fn health(&self) -> (r: i64)
        ensures
            r == self.health_spec(),
    {
        match self {
            MeteorType::Big => 200,
            MeteorType::Med => 100,
            MeteorType::Small => 50,
        }
    }

    pub fn damage(&self) -> (r: u32)
        ensures
            r == self.damage_spec(),
    {
        match self {
            MeteorType::Big => 2500,
            MeteorType::Med => 1500,
            MeteorType::Small => 500,
        }
    }

    /// The class a fragment takes, given the index drawn from the weights
    /// `[2, 1]` over `[Med, Small]`; only a big meteor has a choice.
    pub fn next_size_choice(&self, pick: usize) -> (r: MeteorType)
        requires
            pick < 2,
        ensures
            is_next_size(*self, r),
            *self == MeteorType::Big ==> (r == MeteorType::Med <==> pick == 0),
    {
        match self {
            MeteorType::Big => if pick == 0 {
                MeteorType::Med
            } else {
                MeteorType::Small
            },
            MeteorType::Med => MeteorType::Small,
            MeteorType::Small => MeteorType::Small,
        }
    }

    /// The class a fragment takes: a big meteor breaks into medium ones twice as
    /// often as into small ones; the others break into small ones.
    pub fn next_size(&self) -> (r: MeteorType)
        ensures
            is_next_size(*self, r),
    {
        let weights = next_size_weights();
        let pick = weighted_pick(&weights);
        self.next_size_choice(pick)
    }
}

/// Weights of the classes a big meteor breaks into, over `[Med, Small]`.
pub fn next_size_weights() -> (w: Vec<u32>)
    ensures
        w@ == seq![2u32, 1u32],
{
    vec![2, 1]
}

/// Weights of the sprite variants of a size class, in variant order.
pub open spec fn sprite_weights(t: MeteorType) -> Seq<u32> {
    match t {
        MeteorType::Big => seq![4u32, 3u32, 3u32, 2u32],
        MeteorType::Med => seq![4u32, 3u32],
        MeteorType::Small => seq![5u32, 5u32],
    }
}

/// Weights of the sprite variants of a size class, in variant order.
pub fn meteor_sprite_weights(meteor_type: MeteorType) -> (w: Vec<u32>)
    ensures
        w@ == sprite_weights(meteor_type),
        w@.len() == sprite_variant_count(meteor_type),
{
    let w: Vec<u32> = match meteor_type {
        MeteorType::Big => vec![4, 3, 3, 2],
        MeteorType::Med => vec![4, 3],
        MeteorType::Small => vec![5, 5],
    };
    assert(w@ =~= sprite_weights(meteor_type));
    w
}

/// Number of fragment slot draws, each a percentage, that keep their slot: those
/// at or above the drop chance.
pub open spec fn kept_count(chances: Seq<i64>) -> nat
    decreases chances.len(),
{
    if chances.len() == 0 {
        0
    } else {
        kept_count(chances.drop_last()) + if chances.last() >= CHANCE_TO_SPAWN_METEOR_ON_DESTRUCTION {
            1nat
        } else {
            0nat
        }
    }
}

/// Whether `chances` is a possible set of slot draws: one per candidate slot, each
/// a percentage from 1 to 99.
pub open spec fn slot_draws(chances: Seq<i64>) -> bool {
    &&& chances.len() == NUM_METEORS_TO_SPAWN_ON_DESTRUCTION + 1
    &&& forall|i: int| 0 <= i < chances.len() ==> 1 <= #[trigger] chances[i] <= 99
}

proof fn lemma_kept_count_bounded(chances: Seq<i64>)
    ensures
        kept_count(chances) <= chances.len(),
    decreases chances.len(),
{
    if chances.len() > 0 {
        lemma_kept_count_bounded(chances.drop_last());
    }
}

/// How many fragment slots the draws `chances` keep.
pub fn kept_slots(chances: &Vec<i64>) -> (n: usize)
    requires
        chances@.len() <= NUM_METEORS_TO_SPAWN_ON_DESTRUCTION + 1,
    ensures
        n == kept_count(chances@),
{
    let mut n: usize = 0;
    let mut i: usize = 0;
    while i < chances.len()
        invariant
            i <= chances@.len(),
            chances@.len() <= NUM_METEORS_TO_SPAWN_ON_DESTRUCTION + 1,
            n == kept_count(chances@.take(i as int)),
            n <= i,
        decreases chances@.len() - i,
    {
        assert(chances@.take(i as int + 1).drop_last() =~= chances@.take(i as int));
        if chances[i] >= CHANCE_TO_SPAWN_METEOR_ON_DESTRUCTION {
            n = n + 1;
        }
        i = i + 1;
    }
    assert(chances@.take(i as int) =~= chances@);
    n
}

/// Number of sprite variants of a size class.
pub open spec fn sprite_variant_count(t: MeteorType) -> int {
    match t {
        MeteorType::Big => 4,
        MeteorType::Med => 2,
        MeteorType::Small => 2,
    }
}

/// Name of sprite variant `i` of a size class.
pub open spec fn meteor_sprite_name(t: MeteorType, i: int) -> Seq<char> {
    match t {
        MeteorType::Big => if i == 0 {
            "meteorBrown_big1.png"@
        } else if i == 1 {
            "meteorBrown_big2.png"@
        } else if i == 2 {
            "meteorBrown_big3.png"@
        } else {
            "meteorBrown_big4.png"@
        },
        MeteorType::Med => if i == 0 {
            "meteorBrown_med1.png"@
        } else {
            "meteorBrown_med3.png"@
        },
        MeteorType::Small => if i == 0 {
            "meteorBrown_small1.png"@
        } else {
            "meteorBrown_small2.png"@
        },
    }
}

/// Whether `name` is one of the sprite names of a size class.
pub open spec fn is_meteor_sprite_of(t: MeteorType, name: Seq<char>) -> bool {
    exists|i: int| 0 <= i < sprite_variant_count(t) && name == meteor_sprite_name(t, i)
}

/// Name of sprite variant `variant` of a size class.
pub fn meteor_sprite_variant(meteor_type: MeteorType, variant: usize) -> (r: String)
    requires
        variant < sprite_variant_count(meteor_type),
    ensures
        r@ == meteor_sprite_name(meteor_type, variant as int),
{
    match meteor_type {
        MeteorType::Big => if variant == 0 {
            "meteorBrown_big1.png".to_owned()
        } else if variant == 1 {
            "meteorBrown_big2.png".to_owned()
        } else if variant == 2 {
            "meteorBrown_big3.png".to_owned()
        } else {
            "meteorBrown_big4.png".to_owned()
        },
        MeteorType::Med => if variant == 0 {
            "meteorBrown_med1.png".to_owned()
        } else {
            "meteorBrown_med3.png".to_owned()
        },
        MeteorType::Small => if variant == 0 {
            "meteorBrown_small1.png".to_owned()
        } else {
            "meteorBrown_small2.png".to_owned()
        },
    }
}

/// A sprite name for a size class, drawn with weights `[4, 3, 3, 2]` for big
/// meteors, `[4, 3]` for medium ones and `[5, 5]` for small ones.
pub fn random_meteor_sprite_name(meteor_type: MeteorType) -> (r: String)
    ensures
        is_meteor_sprite_of(meteor_type, r@),
{
    let weights = meteor_sprite_weights(meteor_type);
    let variant = weighted_pick(&weights);
    let r = meteor_sprite_variant(meteor_type, variant);
    assert(0 <= variant < sprite_variant_count(meteor_type) && r@ == meteor_sprite_name(
        meteor_type,
        variant as int,
    ));
    r
}

/// A meteor, with its own health and velocity; its damage and density follow
/// from its size class.
#[derive(Clone, Debug)]
pub struct Meteor {
    pub meteor_type: MeteorType,
    pub sprite_name: String,
    /// Fixed-point units per second along each axis.
    pub velocity: Vec2,
    /// In thousandths.
    pub density: i64,
    /// Spin, in thousandths of a radian per second.
    pub rotation: i64,
    pub frame_cols: usize,
    pub frame_rows: usize,
    pub start_frame: usize,
    pub health: i64,
    /// Damage dealt on contact.
    pub damage: u32,
}

impl Meteor {
    /// Size class, health, damage and density are those of class `t`.
    pub open spec fn has_class_stats(&self, t: MeteorType) -> bool {
        &&& self.meteor_type == t
        &&& self.health == t.health_spec()
        &&& self.damage == t.damage_spec()
        &&& self.density == t.density_spec()
    }

    /// A meteor as it is created: every stat is that of its size class.
    pub open spec fn is_fresh(&self, t: MeteorType) -> bool {
        &&& self.has_class_stats(t)
        &&& -METEOR_MAX_SPEED <= self.velocity.x <= METEOR_MAX_SPEED
        &&& -METEOR_MAX_SPEED <= self.velocity.y <= METEOR_MAX_SPEED
        &&& -METEOR_MAX_ROTATION <= self.rotation <= METEOR_MAX_ROTATION
        &&& is_meteor_sprite_of(t, self.sprite_name@)
        &&& self.frame_cols == 1 && self.frame_rows == 1 && self.start_frame == 0
    }

    /// A new meteor of a size class, with a random velocity, spin and sprite.
    pub fn new(meteor_type: MeteorType) -> (r: Meteor)
        ensures
            r.is_fresh(meteor_type),
    {
        let speed_x = random_between(-METEOR_MAX_SPEED, METEOR_MAX_SPEED);
        let speed_y = random_between(-METEOR_MAX_SPEED, METEOR_MAX_SPEED);
        let rotation = random_between(-METEOR_MAX_ROTATION, METEOR_MAX_ROTATION);
        Meteor {
            meteor_type,
            sprite_name: random_meteor_sprite_name(meteor_type),
            velocity: Vec2 { x: speed_x, y: speed_y },
            density: MeteorType::density(meteor_type),
            rotation,
            frame_cols: 1,
            frame_rows: 1,
            start_frame: 0,
            health: meteor_type.health(),
            damage: meteor_type.damage(),
        }
    }

    /// A copy of this meteor, field for field.
    pub fn duplicate(&self) -> (r: Meteor)
        ensures
            r == *self,
    {
        Meteor {
            meteor_type: self.meteor_type,
            sprite_name: self.sprite_name.clone(),
            velocity: self.velocity,
            density: self.density,
            rotation: self.rotation,
            frame_cols: self.frame_cols,
            frame_rows: self.frame_rows,
            start_frame: self.start_frame,
            health: self.health,
            damage: self.damage,
        }
    }

    pub fn meteor_type(&self) -> (r: MeteorType)
        ensures
            r == self.meteor_type,
    {
        self.meteor_type
    }

    /// The fragments of this meteor once destroyed: none for the terminal size
    /// class; otherwise one draw from 1 to 99 per candidate slot, `kept_slots` of
    /// them keep their slot, and each kept slot is a fresh meteor of a next size class.
    pub fn spawn_next_size(&self) -> (r: Vec<Meteor>)
        ensures
            self.meteor_type.is_terminal() ==> r@.len() == 0,
            !self.meteor_type.is_terminal() ==> exists|chances: Seq<i64>|
                slot_draws(chances) && r@.len() == #[trigger] kept_count(chances),
            r@.len() <= NUM_METEORS_TO_SPAWN_ON_DESTRUCTION + 1,
            forall|i: int|
                0 <= i < r@.len() ==> is_next_size(self.meteor_type, #[trigger] r@[i].meteor_type)
                    && r@[i].is_fresh(r@[i].meteor_type),
    {
        let mut children: Vec<Meteor> = Vec::new();
        if self.meteor_type == MeteorType::Small {
            return children;
        }
        let mut chances: Vec<i64> = Vec::new();
        let mut slot: u32 = 0;
        while slot <= NUM_METEORS_TO_SPAWN_ON_DESTRUCTION
            invariant
                slot <= NUM_METEORS_TO_SPAWN_ON_DESTRUCTION + 1,
                chances@.len() == slot,
                forall|i: int| 0 <= i < chances@.len() ==> 1 <= #[trigger] chances@[i] <= 99,
            decreases NUM_METEORS_TO_SPAWN_ON_DESTRUCTION + 1 - slot,
        {
            chances.push(random_between(1, 99));
            slot = slot + 1;
        }
        let n = kept_slots(&chances);
        proof {
            lemma_kept_count_bounded(chances@);
        }
        let mut k: usize = 0;
        while k < n
            invariant
                k <= n,
                n <= NUM_METEORS_TO_SPAWN_ON_DESTRUCTION + 1,
                children@.len() == k,
                forall|i: int|
                    0 <= i < children@.len() ==> is_next_size(
                        self.meteor_type,
                        #[trigger] children@[i].meteor_type,
                    ) && children@[i].is_fresh(children@[i].meteor_type),
            decreases n - k,
        {
            let t = self.meteor_type.next_size();
            let child = Meteor::new(t);
            children.push(child);
            assert(children@[children@.len() - 1].is_fresh(t));
            k = k + 1;
        }
        assert(slot_draws(chances@));
        children
    }
}

impl Default for Meteor {
    fn default() -> (r: Meteor)
        ensures
            r.is_fresh(MeteorType::Big),
    {
        Meteor::new(MeteorType::Big)
    }
}

impl Damageable for Meteor {
    open spec fn health_spec(&self) -> int {
        self.health as int
    }

    open spec fn without_health(&self) -> Self {
        Meteor { health: 0, ..*self }
    }

    fn health(&self) -> (r: i64) {
        self.health
    }

    fn damage<D: Damage>(&mut self, source: &D) {
        self.health = self.health - source.hit_points() as i64;
    }
}

impl Damage for Meteor {
    open spec fn hit_points_spec(&self) -> nat {
        self.damage as nat
    }

    fn hit_points(&self) -> (r: u32) {
        self.damage
    }
}

/// Drives the timed meteor spawner: a new meteor is due each time the timer finishes.
#[derive(Clone, Copy, Debug)]
pub struct MeteorSpawnTimer {
    pub timer: RepeatingTimer,
}

impl Default for MeteorSpawnTimer {
    fn default() -> (r: MeteorSpawnTimer)
        ensures
            r.timer.wf(),
            r.timer.duration_ms == METEOR_SPAWN_TIME_MS,
            r.timer.elapsed_ms == 0,
            !r.timer.finished,
    {
        MeteorSpawnTimer { timer: RepeatingTimer::new(METEOR_SPAWN_TIME_MS) }
    }
}

} // verus!
