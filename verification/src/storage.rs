//! Component storage and the deferred mutation queue.
//!
//! `Storage` models the host's per-component-type table: at most one record
//! per entity, with insert-or-replace, removal and lookup. Its mathematical
//! view is a `Map<Entity, C>`.
//!
//! `UpdateQueue` is the commit side of the inspection pass: during the
//! read-only pass every requested mutation is queued, and `apply` replays the
//! queue against a storage only after the pass is over. A queued insert always
//! carries a whole record; partial writes cannot be expressed.

use vstd::prelude::*;

use crate::Entity;

verus! {

/// No entity owns two entries of the list.
pub open spec fn unique_keys<C>(s: Seq<(Entity, C)>) -> bool {
    forall|i: int, j: int| 0 <= i < j < s.len() ==> (#[trigger] s[i]).0 != (#[trigger] s[j]).0
}

/// The map described by an association list; a later entry for the same
/// entity overrides an earlier one.
pub open spec fn entries_map<C>(s: Seq<(Entity, C)>) -> Map<Entity, C>
    decreases s.len(),
{
    if s.len() == 0 {
        Map::empty()
    } else {
        entries_map(s.drop_last()).insert(s.last().0, s.last().1)
    }
}

pub proof fn lemma_entries_map_dom<C>(s: Seq<(Entity, C)>, e: Entity)
    ensures
        entries_map(s).contains_key(e) <==> exists|i: int|
            0 <= i < s.len() && (#[trigger] s[i]).0 == e,
    decreases s.len(),
{
    if s.len() > 0 {
        lemma_entries_map_dom(s.drop_last(), e);
        if s.last().0 == e {
            assert(s[s.len() - 1].0 == e);
        } else if entries_map(s).contains_key(e) {
            let i = choose|i: int| 0 <= i < s.drop_last().len() && (#[trigger] s.drop_last()[i]).0 == e;
            assert(s[i].0 == e);
        } else {
            assert forall|i: int| 0 <= i < s.len() implies (#[trigger] s[i]).0 != e by {
                if i < s.len() - 1 {
                    assert(s.drop_last()[i].0 != e);
                }
            }
        }
    }
}

pub proof fn lemma_entries_map_index<C>(s: Seq<(Entity, C)>, i: int)
    requires
        unique_keys(s),
        0 <= i < s.len(),
    ensures
        entries_map(s).contains_key(s[i].0),
        entries_map(s)[s[i].0] == s[i].1,
    decreases s.len(),
{
    if i == s.len() - 1 {
    } else {
        assert(s.drop_last()[i] == s[i]);
        lemma_entries_map_index(s.drop_last(), i);
        assert(s[i].0 != s.last().0);
    }
}

pub proof fn lemma_entries_map_remove<C>(s: Seq<(Entity, C)>, i: int)
    requires
        unique_keys(s),
        0 <= i < s.len(),
    ensures
        entries_map(s.remove(i)) == entries_map(s).remove(s[i].0),
    decreases s.len(),
{
    let e = s[i].0;
    if i == s.len() - 1 {
        assert(s.remove(i) =~= s.drop_last());
        lemma_entries_map_dom(s.drop_last(), e);
        assert forall|j: int| 0 <= j < s.drop_last().len() implies (#[trigger] s.drop_last()[j]).0 != e by {
            assert(s[j] == s.drop_last()[j]);
        }
        assert(!entries_map(s.drop_last()).contains_key(e));
        assert(entries_map(s).remove(e) =~= entries_map(s.drop_last()));
    } else {
        assert(s.remove(i).drop_last() =~= s.drop_last().remove(i));
        assert(s.remove(i).last() == s.last());
        assert(s.drop_last()[i] == s[i]);
        assert(unique_keys(s.drop_last())) by {
            assert forall|p: int, q: int|
                0 <= p < q < s.drop_last().len() implies (#[trigger] s.drop_last()[p]).0
                != (#[trigger] s.drop_last()[q]).0 by {
                assert(s[p] == s.drop_last()[p]);
                assert(s[q] == s.drop_last()[q]);
            }
        }
        lemma_entries_map_remove(s.drop_last(), i);
        assert(s[i].0 != s.last().0);
        assert(entries_map(s.remove(i)) =~= entries_map(s).remove(e));
    }
}

/// A table of component records, at most one per entity.
pub struct Storage<C> {
    entries: Vec<(Entity, C)>,
}

impl<C> View for Storage<C> {
    type V = Map<Entity, C>;

    closed spec fn view(&self) -> Map<Entity, C> {
        entries_map(self.entries@)
    }
}

impl<C> Storage<C> {
    /// The one-entry-per-entity invariant; constructors establish it and
    /// every method preserves it.
    pub closed spec fn wf(&self) -> bool {
        unique_keys(self.entries@)
    }

    pub fn new() -> (r: Storage<C>)
        ensures
            r.wf(),
            r@ == Map::<Entity, C>::empty(),
    {
        Storage { entries: Vec::new() }
    }

    fn index_of(&self, entity: Entity) -> (r: Option<usize>)
        requires
            self.wf(),
        ensures
            match r {
                Some(i) => i < self.entries@.len() && self.entries@[i as int].0 == entity,
                None => forall|i: int|
                    0 <= i < self.entries@.len() ==> (#[trigger] self.entries@[i]).0 != entity,
            },
    {
        let ghost s = self.entries@;
        let n: usize = self.entries.len();
        let mut i: usize = 0;
        while i < n
            invariant
                n == s.len(),
                i <= n,
                s == self.entries@,
                forall|j: int| 0 <= j < i ==> (#[trigger] s[j]).0 != entity,
            decreases n - i,
        {
            if self.entries[i].0 == entity {
                return Some(i);
            }
            i = i + 1;
        }
        None
    }

    pub fn contains(&self, entity: Entity) -> (r: bool)
        requires
            self.wf(),
        ensures
            r == self@.contains_key(entity),
    {
        proof {
            lemma_entries_map_dom(self.entries@, entity);
        }
        match self.index_of(entity) {
            Some(_) => true,
            None => false,
        }
    }

    pub fn get(&self, entity: Entity) -> (r: Option<&C>)
        requires
            self.wf(),
        ensures
            match r {
                Some(c) => self@.contains_key(entity) && *c == self@[entity],
                None => !self@.contains_key(entity),
            },
    {
        proof {
            lemma_entries_map_dom(self.entries@, entity);
        }
        match self.index_of(entity) {
            Some(i) => {
                proof {
                    lemma_entries_map_index(self.entries@, i as int);
                }
                Some(&self.entries[i].1)
            },
            None => None,
        }
    }

    /// Insert or replace the whole record held by `entity`.
    pub fn insert(&mut self, entity: Entity, record: C)
        requires
            old(self).wf(),
        ensures
            final(self).wf(),
            final(self)@ == old(self)@.insert(entity, record),
    {
        let ghost s0 = self.entries@;
        match self.index_of(entity) {
            Some(i) => {
                proof {
                    lemma_entries_map_remove(s0, i as int);
                }
                self.entries.remove(i);
                proof {
                    assert(unique_keys(self.entries@)) by {
                        assert forall|p: int, q: int|
                            0 <= p < q < self.entries@.len() implies (#[trigger] self.entries@[p]).0
                            != (#[trigger] self.entries@[q]).0 by {
                            let pp = if p < i { p } else { p + 1 };
                            let qq = if q < i { q } else { q + 1 };
                            assert(self.entries@[p] == s0[pp]);
                            assert(self.entries@[q] == s0[qq]);
                        }
                    }
                    assert forall|j: int|
                        0 <= j < self.entries@.len() implies (#[trigger] self.entries@[j]).0
                        != entity by {
                        let jj = if j < i { j } else { j + 1 };
                        assert(self.entries@[j] == s0[jj]);
                    }
                }
                let ghost s1 = self.entries@;
                self.entries.push((entity, record));
                proof {
                    assert(self.entries@.drop_last() =~= s1);
                    assert(entries_map(self.entries@) =~= entries_map(s0).insert(entity, record));
                    assert forall|p: int, q: int|
                        0 <= p < q < self.entries@.len() implies (#[trigger] self.entries@[p]).0
                        != (#[trigger] self.entries@[q]).0 by {
                        if q == self.entries@.len() - 1 {
                            assert(self.entries@[p] == s1[p]);
                        } else {
                            assert(self.entries@[p] == s1[p]);
                            assert(self.entries@[q] == s1[q]);
                        }
                    }
                }
            },
            None => {
                self.entries.push((entity, record));
                proof {
                    assert(self.entries@.drop_last() =~= s0);
                    assert(entries_map(self.entries@) =~= entries_map(s0).insert(entity, record));
                    assert forall|p: int, q: int|
                        0 <= p < q < self.entries@.len() implies (#[trigger] self.entries@[p]).0
                        != (#[trigger] self.entries@[q]).0 by {
                        if q == self.entries@.len() - 1 {
                            assert(self.entries@[p] == s0[p]);
                        } else {
                            assert(self.entries@[p] == s0[p]);
                            assert(self.entries@[q] == s0[q]);
                        }
                    }
                }
            },
        }
    }

    /// Remove the record held by `entity`, if any.
    pub fn remove(&mut self, entity: Entity)
        requires
            old(self).wf(),
        ensures
            final(self).wf(),
            final(self)@ == old(self)@.remove(entity),
    {
        let ghost s0 = self.entries@;
        match self.index_of(entity) {
            Some(i) => {
                proof {
                    lemma_entries_map_remove(s0, i as int);
                }
                self.entries.remove(i);
                proof {
                    assert forall|p: int, q: int|
                        0 <= p < q < self.entries@.len() implies (#[trigger] self.entries@[p]).0
                        != (#[trigger] self.entries@[q]).0 by {
                        let pp = if p < i { p } else { p + 1 };
                        let qq = if q < i { q } else { q + 1 };
                        assert(self.entries@[p] == s0[pp]);
                        assert(self.entries@[q] == s0[qq]);
                    }
                }
            },
            None => {
                proof {
                    lemma_entries_map_dom(s0, entity);
                    assert(self@ =~= old(self)@.remove(entity));
                }
            },
        }
    }
}

/// One queued mutation of a component storage. An insert carries the entire
/// replacement record.
pub enum Update<C> {
    Insert(Entity, C),
    Remove(Entity),
}

/// The effect of one queued mutation on the storage's map view.
pub open spec fn apply_update<C>(m: Map<Entity, C>, u: Update<C>) -> Map<Entity, C> {
    match u {
        Update::Insert(e, c) => m.insert(e, c),
        Update::Remove(e) => m.remove(e),
    }
}

/// The effect of a whole queue, applied in order.
pub open spec fn apply_updates<C>(m: Map<Entity, C>, s: Seq<Update<C>>) -> Map<Entity, C>
    decreases s.len(),
{
    if s.len() == 0 {
        m
    } else {
        apply_update(apply_updates(m, s.drop_last()), s.last())
    }
}

proof fn lemma_apply_updates_first<C>(m: Map<Entity, C>, s: Seq<Update<C>>)
    requires
        s.len() > 0,
    ensures
        apply_updates(m, s) == apply_updates(apply_update(m, s[0]), s.subrange(1, s.len() as int)),
    decreases s.len(),
{
    let rest = s.subrange(1, s.len() as int);
    if s.len() == 1 {
        assert(s.drop_last().len() == 0);
        assert(rest.len() == 0);
        assert(s.last() == s[0]);
        assert(apply_updates(m, s.drop_last()) == m);
        assert(apply_updates(m, s) == apply_update(m, s.last()));
        assert(apply_updates(apply_update(m, s[0]), rest) == apply_update(m, s[0]));
    } else {
        assert(s.drop_last()[0] == s[0]);
        lemma_apply_updates_first(m, s.drop_last());
        assert(s.drop_last().subrange(1, s.drop_last().len() as int) =~= rest.drop_last());
        assert(apply_updates(m, s.drop_last()) == apply_updates(
            apply_update(m, s[0]),
            rest.drop_last(),
        ));
        assert(rest.last() == s.last());
        assert(rest.len() > 0);
        assert(apply_updates(apply_update(m, s[0]), rest) == apply_update(
            apply_updates(apply_update(m, s[0]), rest.drop_last()),
            rest.last(),
        ));
        assert(apply_updates(m, s) == apply_update(apply_updates(m, s.drop_last()), s.last()));
    }
}

/// Mutations staged during a read-only inspection pass, applied afterwards.
pub struct UpdateQueue<C> {
    updates: Vec<Update<C>>,
}

impl<C> View for UpdateQueue<C> {
    type V = Seq<Update<C>>;

    closed spec fn view(&self) -> Seq<Update<C>> {
        self.updates@
    }
}

impl<C> UpdateQueue<C> {
    pub fn new() -> (r: UpdateQueue<C>)
        ensures
            r@ == Seq::<Update<C>>::empty(),
    {
        UpdateQueue { updates: Vec::new() }
    }

    pub fn push_insert(&mut self, entity: Entity, record: C)
        ensures
            final(self)@ == old(self)@.push(Update::Insert(entity, record)),
    {
        self.updates.push(Update::Insert(entity, record));
    }

    pub fn push_remove(&mut self, entity: Entity)
        ensures
            final(self)@ == old(self)@.push(Update::Remove(entity)),
    {
        self.updates.push(Update::Remove(entity));
    }

    /// The commit gate of the inspection pass: the staged record is queued
    /// as a whole exactly when some widget reported a change, and the queue
    /// is left untouched otherwise.
    pub fn commit_record(&mut self, entity: Entity, staged: C, changed: bool)
        ensures
            changed ==> final(self)@ == old(self)@.push(Update::Insert(entity, staged)),
            !changed ==> final(self)@ == old(self)@,
    {
        if changed {
            self.updates.push(Update::Insert(entity, staged));
        }
    }

    /// Replay the queue against a storage, in order, after the read pass.
    pub fn apply(self, storage: &mut Storage<C>)
        requires
            old(storage).wf(),
        ensures
            final(storage).wf(),
            final(storage)@ == apply_updates(old(storage)@, self@),
    {
        let mut queue = self;
        let ghost m0 = storage@;
        let ghost all = queue.updates@;
        proof {
            assert(queue.updates@ =~= all.subrange(0, all.len() as int));
        }
        while queue.updates.len() > 0
            invariant
                storage.wf(),
                apply_updates(m0, all) == apply_updates(storage@, queue.updates@),
            decreases queue.updates@.len(),
        {
            let ghost pending = queue.updates@;
            let u = queue.updates.remove(0);
            proof {
                assert(queue.updates@ =~= pending.subrange(1, pending.len() as int));
                lemma_apply_updates_first(storage@, pending);
            }
            match u {
                Update::Insert(e, c) => storage.insert(e, c),
                Update::Remove(e) => storage.remove(e),
            }
        }
    }
}

/// A pass that queued nothing writes nothing: applying an empty queue
/// leaves the storage exactly as it was.
pub proof fn lemma_empty_queue_writes_nothing<C>(m: Map<Entity, C>)
    ensures
        apply_updates(m, Seq::<Update<C>>::empty()) == m,
{
}

/// A committed record replaces the stored value as one unit: applying an
/// insert update for `entity` leaves the map holding exactly the staged
/// record there — all fields at once, never a subset — and touches no other
/// entity's record.
pub proof fn lemma_commit_replaces_whole_record<C>(m: Map<Entity, C>, entity: Entity, staged: C)
    ensures
        apply_update(m, Update::Insert(entity, staged)) == m.insert(entity, staged),
        apply_update(m, Update::Insert(entity, staged))[entity] == staged,
        forall|e: Entity|
            e != entity && m.contains_key(e) ==> apply_update(
                m,
                Update::Insert(entity, staged),
            )[e] == m[e],
{
}

} // verus!
