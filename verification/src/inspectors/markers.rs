//! Stable cross-session identifiers ("markers"). An entity's transient id is
//! reused across sessions; a marker is a serializable value issued once by
//! an allocator and never shared between entities. The allocator hands an
//! already-marked entity its existing value back and otherwise issues the
//! next fresh one.

use vstd::prelude::*;

use crate::Entity;
use crate::storage::Storage;

verus! {

/// The allocator's invariant over the marker storage: every issued value
/// lies below the high-water mark, and no two entities share one.
pub open spec fn allocator_wf(next: u64, markers: Map<Entity, u64>) -> bool {
    &&& forall|e: Entity| #[trigger] markers.contains_key(e) ==> markers[e] < next
    &&& forall|e1: Entity, e2: Entity|
        markers.contains_key(e1) && markers.contains_key(e2) && e1 != e2 ==> #[trigger] markers[e1]
            != #[trigger] markers[e2]
}

/// Issues marker values in order, starting from zero.
#[derive(Clone, Copy, PartialEq, Eq, Structural, Debug)]
pub struct MarkerAllocator {
    pub next: u64,
}

impl MarkerAllocator {
    pub fn new() -> (r: MarkerAllocator)
        ensures
            r.next == 0,
            allocator_wf(r.next, Map::<Entity, u64>::empty()),
    {
        MarkerAllocator { next: 0 }
    }

    /// Mark `entity`: hand back its existing marker, or issue the next
    /// fresh value and record it. The flag reports whether a new value was
    /// issued. Freshly issued values never collide with existing ones.
    pub fn mark(&mut self, markers: &mut Storage<u64>, entity: Entity) -> (r: (u64, bool))
        requires
            old(markers).wf(),
            allocator_wf(old(self).next, old(markers)@),
            old(self).next < u64::MAX,
        ensures
            final(markers).wf(),
            allocator_wf(final(self).next, final(markers)@),
            old(markers)@.contains_key(entity) ==> r == (old(markers)@[entity], false)
                && final(markers)@ == old(markers)@ && *final(self) == *old(self),
            !old(markers)@.contains_key(entity) ==> r == (old(self).next, true) && final(markers)@
                == old(markers)@.insert(entity, old(self).next) && final(self).next == old(
                self,
            ).next + 1,
    {
        let existing: Option<u64> = match markers.get(entity) {
            Some(m) => Some(*m),
            None => None,
        };
        match existing {
            Some(m) => (m, false),
            None => {
                let issued = self.next;
                self.next = self.next + 1;
                markers.insert(entity, issued);
                proof {
                    assert forall|e1: Entity, e2: Entity|
                        markers@.contains_key(e1) && markers@.contains_key(e2) && e1
                            != e2 implies #[trigger] markers@[e1] != #[trigger] markers@[e2] by {
                        if e1 == entity {
                            assert(old(markers)@.contains_key(e2));
                            assert(old(markers)@[e2] < issued);
                        } else if e2 == entity {
                            assert(old(markers)@.contains_key(e1));
                            assert(old(markers)@[e1] < issued);
                        } else {
                            assert(old(markers)@.contains_key(e1));
                            assert(old(markers)@.contains_key(e2));
                        }
                    }
                }
                (issued, true)
            },
        }
    }
}

/// A marker can always be added.
pub fn marker_can_add(entity: Entity) -> (r: bool)
    ensures
        r,
{
    true
}

/// The add hook of the marker record: marking the entity, idempotently.
pub fn marker_add(allocator: &mut MarkerAllocator, markers: &mut Storage<u64>, entity: Entity)
    requires
        old(markers).wf(),
        allocator_wf(old(allocator).next, old(markers)@),
        old(allocator).next < u64::MAX,
    ensures
        final(markers).wf(),
        allocator_wf(final(allocator).next, final(markers)@),
        final(markers)@.contains_key(entity),
        old(markers)@.contains_key(entity) ==> final(markers)@ == old(markers)@
            && *final(allocator) == *old(allocator),
        !old(markers)@.contains_key(entity) ==> final(markers)@ == old(markers)@.insert(
            entity,
            old(allocator).next,
        ) && final(allocator).next == old(allocator).next + 1,
{
    let _ = allocator.mark(markers, entity);
}

/// Marking the same entity twice issues nothing new the second time: the
/// identifier is stable.
pub proof fn lemma_mark_is_stable(next: u64, markers: Map<Entity, u64>, entity: Entity)
    requires
        allocator_wf(next, markers),
        markers.contains_key(entity),
    ensures
        markers.insert(entity, markers[entity]) == markers,
{
    assert(markers.insert(entity, markers[entity]) =~= markers);
}

} // verus!
