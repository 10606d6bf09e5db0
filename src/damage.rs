//! The damage model: things that deal damage, things that take it, and the two
//! ways contacts between them are resolved in one tick.
//!
//! Damage accumulates: each contact subtracts its hit points from the target's
//! health, and a target is dead once its health is at most zero. Death is
//! observed by the caller, which decides when to reap the entity.
use vstd::prelude::*;

verus! {

/// Something that deals a fixed amount of damage on contact.
pub trait Damage {
    spec fn hit_points_spec(&self) -> nat;

    fn hit_points(&self) -> (r: u32)
        ensures
            r as nat == self.hit_points_spec(),
    ;
}

/// Something with health that damage wears down.
pub trait Damageable: Sized {
    spec fn health_spec(&self) -> int;

    /// The value with its health set to zero: what damage leaves unchanged.
    spec fn without_health(&self) -> Self;

    fn health(&self) -> (r: i64)
        ensures
            r as int == self.health_spec(),
    ;

    /// Subtracts the source's hit points from the health.
    fn damage<D: Damage>(&mut self, source: &D)
        requires
            old(self).health_spec() - source.hit_points_spec() >= i64::MIN,
        ensures
            final(self).health_spec() == old(self).health_spec() - source.hit_points_spec(),
            final(self).without_health() == old(self).without_health(),
    ;

    /// Dead means health at or below zero.
    fn is_dead(&self) -> (r: bool)
        ensures
            r == (self.health_spec() <= 0),
    {
        self.health() <= 0
    }
}

/// Total hit points of a sequence of damage sources.
pub open spec fn total_hit_points<T: Damage>(sources: Seq<T>) -> nat
    decreases sources.len(),
{
    if sources.len() == 0 {
        0
    } else {
        total_hit_points(sources.drop_last()) + sources.last().hit_points_spec()
    }
}

/// Resolves the contacts of one damageable entity: every damage source touching it
/// contributes its hit points once, and the damage sums before the death check.
/// Returns whether the entity is dead afterwards and must be reaped.
pub fn handle_collision_with_damageable<T: Damage, Q: Damageable>(
    target: &mut Q,
    touching: &Vec<T>,
) -> (dead: bool)
    requires
        old(target).health_spec() - total_hit_points(touching@) >= i64::MIN,
    ensures
        final(target).health_spec() == old(target).health_spec() - total_hit_points(touching@),
        final(target).without_health() == old(target).without_health(),
        dead == (final(target).health_spec() <= 0),
{
    let ghost start = target.health_spec();
    let ghost rest = target.without_health();
    let mut k: usize = 0;
    while k < touching.len()
        invariant
            k <= touching@.len(),
            start - total_hit_points(touching@) >= i64::MIN,
            target.health_spec() == start - total_hit_points(touching@.take(k as int)),
            target.without_health() == rest,
        decreases touching@.len() - k,
    {
        proof {
            lemma_total_prefix_grows(touching@, k as int + 1);
            assert(touching@.take(k as int + 1).drop_last() =~= touching@.take(k as int));
        }
        target.damage(&touching[k]);
        k = k + 1;
    }
    assert(touching@.take(k as int) =~= touching@);
    target.is_dead()
}

/// Totals over a prefix never exceed the total of the whole sequence.
pub proof fn lemma_total_prefix_grows<T: Damage>(sources: Seq<T>, k: int)
    requires
        0 <= k <= sources.len(),
    ensures
        total_hit_points(sources.take(k)) <= total_hit_points(sources),
    decreases sources.len(),
{
    if k < sources.len() {
        assert(sources.drop_last().take(k) =~= sources.take(k));
        lemma_total_prefix_grows(sources.drop_last(), k);
    } else {
        assert(sources.take(k) =~= sources);
    }
}

/// Damage that the contact pairs `(source, target)` deal to the target at index `j`.
/// A pair naming a source or target that does not exist deals nothing.
pub open spec fn damage_dealt_to<T: Damage>(
    sources: Seq<T>,
    contacts: Seq<(usize, usize)>,
    target_count: int,
    j: int,
) -> nat
    decreases contacts.len(),
{
    if contacts.len() == 0 {
        0
    } else {
        let c = contacts.last();
        damage_dealt_to(sources, contacts.drop_last(), target_count, j) + if c.1 as int == j
            && (c.0 as int) < sources.len() && (c.1 as int) < target_count {
            sources[c.0 as int].hit_points_spec()
        } else {
            0nat
        }
    }
}

/// Damage dealt over a prefix of the contacts never exceeds that of all of them.
pub proof fn lemma_dealt_prefix_grows<T: Damage>(
    sources: Seq<T>,
    contacts: Seq<(usize, usize)>,
    target_count: int,
    j: int,
    k: int,
)
    requires
        0 <= k <= contacts.len(),
    ensures
        damage_dealt_to(sources, contacts.take(k), target_count, j) <= damage_dealt_to(
            sources,
            contacts,
            target_count,
            j,
        ),
    decreases contacts.len(),
{
    if k < contacts.len() {
        assert(contacts.drop_last().take(k) =~= contacts.take(k));
        lemma_dealt_prefix_grows(sources, contacts.drop_last(), target_count, j, k);
    } else {
        assert(contacts.take(k) =~= contacts);
    }
}

/// Resolves contacts from the damage sources' side: for each contact pair
/// `(source, target)` the target takes the source's hit points, so a target touched
/// by several sources takes the sum. Pairs that name a missing entity are skipped.
/// Returns, for each target, whether it is dead afterwards and must be reaped.
pub fn handle_collision_with_damage<T: Damage, Q: Damageable>(
    sources: &Vec<T>,
    contacts: &Vec<(usize, usize)>,
    targets: &mut Vec<Q>,
) -> (dead: Vec<bool>)
    requires
        forall|j: int|
            0 <= j < old(targets)@.len() ==> #[trigger] old(targets)@[j].health_spec()
                - damage_dealt_to(sources@, contacts@, old(targets)@.len() as int, j)
                >= i64::MIN,
    ensures
        final(targets)@.len() == old(targets)@.len(),
        dead@.len() == old(targets)@.len(),
        forall|j: int|
            0 <= j < old(targets)@.len() ==> #[trigger] final(targets)@[j].health_spec()
                == old(targets)@[j].health_spec() - damage_dealt_to(
                sources@,
                contacts@,
                old(targets)@.len() as int,
                j,
            ),
        forall|j: int|
            0 <= j < old(targets)@.len() ==> (#[trigger] final(targets)@[j]).without_health()
                == old(targets)@[j].without_health(),
        forall|j: int|
            0 <= j < old(targets)@.len() ==> #[trigger] dead@[j] == (
            final(targets)@[j].health_spec() <= 0),
{
    let ghost start = targets@;
    let ghost n = targets@.len() as int;
    let mut k: usize = 0;
    while k < contacts.len()
        invariant
            k <= contacts@.len(),
            targets@.len() == n,
            n == start.len(),
            forall|j: int|
                0 <= j < n ==> #[trigger] start[j].health_spec() - damage_dealt_to(
                    sources@,
                    contacts@,
                    n,
                    j,
                ) >= i64::MIN,
            forall|j: int|
                0 <= j < n ==> #[trigger] targets@[j].health_spec() == start[j].health_spec()
                    - damage_dealt_to(sources@, contacts@.take(k as int), n, j),
            forall|j: int|
                0 <= j < n ==> (#[trigger] targets@[j]).without_health()
                    == start[j].without_health(),
        decreases contacts@.len() - k,
    {
        let (s, t) = contacts[k];
        proof {
            assert(contacts@.take(k as int + 1).drop_last() =~= contacts@.take(k as int));
            assert forall|j: int| 0 <= j < n implies damage_dealt_to(
                sources@,
                contacts@.take(k as int + 1),
                n,
                j,
            ) <= damage_dealt_to(sources@, contacts@, n, j) by {
                lemma_dealt_prefix_grows(sources@, contacts@, n, j, k as int + 1);
            }
        }
        if s < sources.len() && t < targets.len() {
            targets[t].damage(&sources[s]);
        }
        k = k + 1;
        proof {
            assert forall|j: int| 0 <= j < n implies #[trigger] targets@[j].health_spec()
                == start[j].health_spec() - damage_dealt_to(
                sources@,
                contacts@.take(k as int),
                n,
                j,
            ) by {
                assert(contacts@.take(k as int).last() == contacts@[k - 1]);
            }
        }
    }
    assert(contacts@.take(k as int) =~= contacts@);
    let mut dead: Vec<bool> = Vec::new();
    let mut j: usize = 0;
    while j < targets.len()
        invariant
            j <= targets@.len(),
            dead@.len() == j,
            forall|i: int| 0 <= i < j ==> #[trigger] dead@[i] == (targets@[i].health_spec() <= 0),
        decreases targets@.len() - j,
    {
        let d = targets[j].is_dead();
        dead.push(d);
        j = j + 1;
    }
    dead
}

/// Death is reached exactly when the damage taken adds up to at least the starting
/// health: after the contacts `sources`, an entity that started with
/// `start_health` is dead if and only if their total reaches it. Sources that deal
/// no damage never kill a living entity, and damage equal to the health kills.
pub proof fn lemma_dead_iff_damage_reaches_health<T: Damage>(start_health: int, sources: Seq<T>)
    ensures
        (start_health - total_hit_points(sources) <= 0) <==> total_hit_points(sources)
            >= start_health,
        (forall|i: int| 0 <= i < sources.len() ==> (#[trigger] sources[i]).hit_points_spec() == 0)
            ==> total_hit_points(sources) == 0,
        (forall|i: int| 0 <= i < sources.len() ==> (#[trigger] sources[i]).hit_points_spec() == 0)
            && start_health > 0 ==> start_health - total_hit_points(sources) > 0,
        total_hit_points(sources) == start_health ==> start_health - total_hit_points(sources)
            <= 0,
    decreases sources.len(),
{
    if sources.len() > 0 {
        lemma_dead_iff_damage_reaches_health(start_health, sources.drop_last());
        if forall|i: int| 0 <= i < sources.len() ==> (#[trigger] sources[i]).hit_points_spec() == 0 {
            assert forall|i: int| 0 <= i < sources.drop_last().len() implies (
            #[trigger] sources.drop_last()[i]).hit_points_spec() == 0 by {
                assert(sources.drop_last()[i] == sources[i]);
            }
            assert(sources.last() == sources[sources.len() - 1]);
        }
    }
}

} // verus!
