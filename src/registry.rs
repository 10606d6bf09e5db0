//! The entity registry: spawning hands out a fresh handle, despawning removes
//! an entity, and a handle whose entity is gone is simply not found. Handles are
//! never reused, so a stale handle can never reach a newer entity.
use vstd::prelude::*;

verus! {

/// A handle to an entity in a registry.
#[derive(Clone, Copy, Debug, PartialEq, Eq, Structural)]
pub struct Entity {
    pub id: u64,
}

/// The live entities, as a map from handle number to payload.
pub open spec fn entries_map<T>(s: Seq<(u64, T)>) -> Map<u64, T>
    decreases s.len(),
{
    if s.len() == 0 {
        Map::empty()
    } else {
        entries_map(s.drop_last()).insert(s.last().0, s.last().1)
    }
}

/// Handle numbers strictly increase along the entries, and all lie below `bound`.
pub open spec fn ids_ordered_below<T>(s: Seq<(u64, T)>, bound: u64) -> bool {
    &&& forall|i: int, j: int| 0 <= i < j < s.len() ==> (#[trigger] s[i]).0 < (#[trigger] s[j]).0
    &&& forall|i: int| 0 <= i < s.len() ==> (#[trigger] s[i]).0 < bound
}

/// An entry with handle number `id` is where the map finds it, and no other
/// handle number is in the map.
pub proof fn lemma_entries_map_lookup<T>(s: Seq<(u64, T)>, bound: u64)
    requires
        ids_ordered_below(s, bound),
    ensures
        forall|i: int|
            0 <= i < s.len() ==> entries_map(s).contains_key((#[trigger] s[i]).0) && entries_map(
                s,
            )[s[i].0] == s[i].1,
        forall|id: u64|
            #[trigger] entries_map(s).contains_key(id) ==> exists|i: int|
                0 <= i < s.len() && (#[trigger] s[i]).0 == id,
    decreases s.len(),
{
    if s.len() > 0 {
        let t = s.drop_last();
        assert(ids_ordered_below(t, bound)) by {
            assert forall|i: int, j: int| 0 <= i < j < t.len() implies (#[trigger] t[i]).0 < (
            #[trigger] t[j]).0 by {
                assert(t[i] == s[i] && t[j] == s[j]);
            }
            assert forall|i: int| 0 <= i < t.len() implies (#[trigger] t[i]).0 < bound by {
                assert(t[i] == s[i]);
            }
        }
        lemma_entries_map_lookup(t, bound);
        assert forall|i: int| 0 <= i < s.len() implies entries_map(s).contains_key(
            (#[trigger] s[i]).0,
        ) && entries_map(s)[s[i].0] == s[i].1 by {
            if i < s.len() - 1 {
                assert(t[i] == s[i]);
                assert(s[i].0 < s[s.len() - 1].0);
            }
        }
        assert forall|id: u64| #[trigger] entries_map(s).contains_key(id) implies exists|i: int|
            0 <= i < s.len() && (#[trigger] s[i]).0 == id by {
            if id != s.last().0 {
                assert(entries_map(t).contains_key(id));
                let i = choose|i: int| 0 <= i < t.len() && (#[trigger] t[i]).0 == id;
                assert(s[i] == t[i]);
            } else {
                assert(s[s.len() - 1].0 == id);
            }
        }
    }
}

/// Removing the entry at `k` removes its handle number from the map.
pub proof fn lemma_entries_map_remove<T>(s: Seq<(u64, T)>, bound: u64, k: int)
    requires
        ids_ordered_below(s, bound),
        0 <= k < s.len(),
    ensures
        entries_map(s.remove(k)) =~= entries_map(s).remove(s[k].0),
        ids_ordered_below(s.remove(k), bound),
    decreases s.len(),
{
    let r = s.remove(k);
    assert(ids_ordered_below(r, bound)) by {
        assert forall|i: int, j: int| 0 <= i < j < r.len() implies (#[trigger] r[i]).0 < (
        #[trigger] r[j]).0 by {
            let si = if i < k { i } else { i + 1 };
            let sj = if j < k { j } else { j + 1 };
            assert(r[i] == s[si] && r[j] == s[sj]);
        }
        assert forall|i: int| 0 <= i < r.len() implies (#[trigger] r[i]).0 < bound by {
            let si = if i < k { i } else { i + 1 };
            assert(r[i] == s[si]);
        }
    }
    lemma_entries_map_lookup(s, bound);
    lemma_entries_map_lookup(r, bound);
    assert forall|id: u64| #[trigger] entries_map(r).contains_key(id) <==> entries_map(
        s,
    ).remove(s[k].0).contains_key(id) by {
        if entries_map(r).contains_key(id) {
            let i = choose|i: int| 0 <= i < r.len() && (#[trigger] r[i]).0 == id;
            let si = if i < k { i } else { i + 1 };
            assert(r[i] == s[si]);
            assert(si != k);
            if si < k {
                assert(s[si].0 < s[k].0);
            } else {
                assert(s[k].0 < s[si].0);
            }
        }
        if entries_map(s).remove(s[k].0).contains_key(id) {
            let i = choose|i: int| 0 <= i < s.len() && (#[trigger] s[i]).0 == id;
            assert(i != k);
            let ri = if i < k { i } else { i - 1 };
            assert(r[ri] == s[i]);
        }
    }
    assert forall|id: u64| #[trigger] entries_map(r).contains_key(id) implies entries_map(r)[id]
        == entries_map(s)[id] by {
        let i = choose|i: int| 0 <= i < r.len() && (#[trigger] r[i]).0 == id;
        let si = if i < k { i } else { i + 1 };
        assert(r[i] == s[si]);
    }
}

/// A set of live entities, each with a payload of type `T`.
pub struct EntityRegistry<T> {
    entries: Vec<(u64, T)>,
    next_id: u64,
}

impl<T> EntityRegistry<T> {
    /// The live entities, by handle number.
    pub closed spec fn view(&self) -> Map<u64, T> {
        entries_map(self.entries@)
    }

    /// The handle number the next spawn hands out; every handle handed out so far
    /// is below it.
    pub closed spec fn next_handle(&self) -> u64 {
        self.next_id
    }

    pub closed spec fn wf(&self) -> bool {
        ids_ordered_below(self.entries@, self.next_id)
    }

    pub fn new() -> (r: EntityRegistry<T>)
        ensures
            r.wf(),
            r.view() == Map::<u64, T>::empty(),
            r.next_handle() == 0,
    {
        EntityRegistry { entries: Vec::new(), next_id: 0 }
    }

    /// Every live handle was handed out before `next_handle`.
    pub proof fn lemma_live_below_next(&self)
        requires
            self.wf(),
        ensures
            forall|id: u64| #[trigger] self.view().contains_key(id) ==> id < self.next_handle(),
    {
        lemma_entries_map_lookup(self.entries@, self.next_id);
    }

    /// Adds an entity and returns its fresh handle.
    pub fn spawn(&mut self, item: T) -> (e: Entity)
        requires
            old(self).wf(),
            old(self).next_handle() < u64::MAX,
        ensures
            final(self).wf(),
            e.id == old(self).next_handle(),
            !old(self).view().contains_key(e.id),
            final(self).view() == old(self).view().insert(e.id, item),
            final(self).next_handle() == old(self).next_handle() + 1,
    {
        proof {
            lemma_entries_map_lookup(self.entries@, self.next_id);
        }
        let id = self.next_id;
        self.entries.push((id, item));
        self.next_id = self.next_id + 1;
        proof {
            assert(self.entries@.drop_last() =~= old(self).entries@);
        }
        Entity { id }
    }

    fn position_of(&self, e: Entity) -> (r: Option<usize>)
        requires
            self.wf(),
        ensures
            r.is_some() ==> r.unwrap() < self.entries@.len() && self.entries@[r.unwrap() as int].0
                == e.id,
            r.is_none() ==> !self.view().contains_key(e.id),
    {
        proof {
            lemma_entries_map_lookup(self.entries@, self.next_id);
        }
        let mut i: usize = 0;
        while i < self.entries.len()
            invariant
                i <= self.entries@.len(),
                forall|k: int| 0 <= k < i ==> (#[trigger] self.entries@[k]).0 != e.id,
            decreases self.entries@.len() - i,
        {
            if self.entries[i].0 == e.id {
                return Some(i);
            }
            i = i + 1;
        }
        None
    }

    /// Whether the entity behind `e` is live.
    pub fn contains(&self, e: Entity) -> (r: bool)
        requires
            self.wf(),
        ensures
            r == self.view().contains_key(e.id),
    {
        proof {
            lemma_entries_map_lookup(self.entries@, self.next_id);
        }
        self.position_of(e).is_some()
    }

    /// The payload of the entity behind `e`; `None` for a stale handle.
    pub fn get(&self, e: Entity) -> (r: Option<&T>)
        requires
            self.wf(),
        ensures
            r.is_some() == self.view().contains_key(e.id),
            r.is_some() ==> *r.unwrap() == self.view()[e.id],
    {
        proof {
            lemma_entries_map_lookup(self.entries@, self.next_id);
        }
        match self.position_of(e) {
            Some(i) => Some(&self.entries[i].1),
            None => None,
        }
    }

    /// Removes the entity behind `e` and returns its payload; a stale handle changes
    /// nothing and gives `None`.
    pub fn despawn(&mut self, e: Entity) -> (r: Option<T>)
        requires
            old(self).wf(),
        ensures
            final(self).wf(),
            final(self).next_handle() == old(self).next_handle(),
            r.is_some() == old(self).view().contains_key(e.id),
            r.is_some() ==> r.unwrap() == old(self).view()[e.id],
            final(self).view() == old(self).view().remove(e.id),
    {
        proof {
            lemma_entries_map_lookup(self.entries@, self.next_id);
        }
        match self.position_of(e) {
            Some(i) => {
                proof {
                    lemma_entries_map_remove(self.entries@, self.next_id, i as int);
                }
                let (_, item) = self.entries.remove(i);
                Some(item)
            },
            None => {
                assert(old(self).view().remove(e.id) =~= old(self).view());
                None
            },
        }
    }

    /// Replaces the payload of the entity behind `e`; a stale handle changes nothing.
    /// Returns whether the entity was live.
    pub fn update(&mut self, e: Entity, item: T) -> (r: bool)
        requires
            old(self).wf(),
        ensures
            final(self).wf(),
            final(self).next_handle() == old(self).next_handle(),
            r == old(self).view().contains_key(e.id),
            r ==> final(self).view() == old(self).view().insert(e.id, item),
            !r ==> final(self).view() == old(self).view(),
    {
        proof {
            lemma_entries_map_lookup(self.entries@, self.next_id);
        }
        match self.position_of(e) {
            Some(i) => {
                proof {
                    lemma_entries_map_remove(self.entries@, self.next_id, i as int);
                }
                let ghost before = self.entries@;
                self.entries.set(i, (e.id, item));
                proof {
                    assert(self.entries@.remove(i as int) =~= before.remove(i as int));
                    assert(ids_ordered_below(self.entries@, self.next_id)) by {
                        assert forall|a: int, b: int|
                            0 <= a < b < self.entries@.len() implies (
                            #[trigger] self.entries@[a]).0 < (#[trigger] self.entries@[b]).0 by {
                            assert(before[a].0 < before[b].0);
                        }
                        assert forall|a: int| 0 <= a < self.entries@.len() implies (
                        #[trigger] self.entries@[a]).0 < self.next_id by {
                            assert(before[a].0 < self.next_id);
                        }
                    }
                    lemma_entries_map_remove(self.entries@, self.next_id, i as int);
                    lemma_entries_map_lookup(self.entries@, self.next_id);
                    assert(self.view() =~= old(self).view().insert(e.id, item)) by {
                        assert forall|id: u64| #[trigger] self.view().contains_key(id)
                            <==> old(self).view().insert(e.id, item).contains_key(id) by {
                            if id != e.id {
                                assert(self.view().remove(e.id).contains_key(id)
                                    == old(self).view().remove(e.id).contains_key(id));
                            }
                        }
                        assert forall|id: u64| #[trigger] self.view().contains_key(id) implies self.view()[id]
                            == old(self).view().insert(e.id, item)[id] by {
                            if id != e.id {
                                assert(self.view().remove(e.id)[id] == old(self).view().remove(
                                    e.id,
                                )[id]);
                            }
                        }
                    }
                }
                true
            },
            None => false,
        }
    }

    /// Number of live entities.
    pub fn len(&self) -> (r: usize)
        requires
            self.wf(),
        ensures
            r == self.view().len(),
    {
        proof {
            lemma_len(self.entries@, self.next_id);
        }
        self.entries.len()
    }
}

/// With distinct handle numbers the map has one key per entry.
proof fn lemma_len<T>(s: Seq<(u64, T)>, bound: u64)
    requires
        ids_ordered_below(s, bound),
    ensures
        entries_map(s).len() == s.len(),
        entries_map(s).dom().finite(),
    decreases s.len(),
{
    if s.len() > 0 {
        let t = s.drop_last();
        assert(ids_ordered_below(t, bound)) by {
            assert forall|i: int, j: int| 0 <= i < j < t.len() implies (#[trigger] t[i]).0 < (
            #[trigger] t[j]).0 by {
                assert(t[i] == s[i] && t[j] == s[j]);
            }
            assert forall|i: int| 0 <= i < t.len() implies (#[trigger] t[i]).0 < bound by {
                assert(t[i] == s[i]);
            }
        }
        lemma_len(t, bound);
        lemma_entries_map_lookup(t, bound);
        if entries_map(t).contains_key(s.last().0) {
            let i = choose|i: int| 0 <= i < t.len() && (#[trigger] t[i]).0 == s.last().0;
            assert(t[i] == s[i]);
            assert(s[i].0 < s[s.len() - 1].0);
        }
    }
}

} // verus!
