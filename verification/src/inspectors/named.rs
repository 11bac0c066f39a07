//! The name record: a single free-form text buffer. Unlike the numeric
//! records, an edit only counts as a change when the edited text actually
//! differs from the stored name, so retyping the same name never
//! re-commits.

use vstd::prelude::*;

use crate::Entity;
use crate::storage::Storage;
use crate::storage::Update;
use crate::storage::UpdateQueue;

verus! {

#[derive(Clone, PartialEq, Eq, Debug)]
pub struct Named {
    pub name: String,
}

/// One frame's interaction with the name inspector: the text buffer as the
/// user left it, when they typed in it at all.
#[derive(Clone, PartialEq, Eq, Debug)]
pub struct NamedInput {
    pub edit: Option<String>,
}

/// The staged record after one frame.
pub open spec fn named_stepped(me: Named, input: NamedInput) -> Named {
    match input.edit {
        Some(s) => Named { name: s },
        None => me,
    }
}

/// An edit counts as a change only when the text differs from the stored
/// name.
pub open spec fn named_touched(me: Named, input: NamedInput) -> bool {
    input.edit matches Some(s) && s@ != me.name@
}

pub fn inspect_named(me: &Named, input: NamedInput) -> (r: (Named, bool))
    ensures
        r.0 == named_stepped(*me, input),
        r.1 == named_touched(*me, input),
{
    match input.edit {
        Some(s) => {
            let differs = !(s == me.name);
            (Named { name: s }, differs)
        },
        None => ((Named { name: me.name.clone() }), false),
    }
}

/// One inspection pass over the name of `entity`: a silent no-op when the
/// entity no longer holds the record; otherwise the whole staged record is
/// queued exactly when the text was edited to something different.
pub fn named_pass(
    storage: &Storage<Named>,
    entity: Entity,
    input: NamedInput,
    queue: &mut UpdateQueue<Named>,
)
    requires
        storage.wf(),
    ensures
        !storage@.contains_key(entity) ==> final(queue)@ == old(queue)@,
        storage@.contains_key(entity) && named_touched(storage@[entity], input) ==> final(queue)@
            == old(queue)@.push(Update::Insert(entity, named_stepped(storage@[entity], input))),
        storage@.contains_key(entity) && !named_touched(storage@[entity], input) ==> final(queue)@
            == old(queue)@,
{
    match storage.get(entity) {
        Some(me) => {
            let (staged, changed) = inspect_named(me, input);
            queue.commit_record(entity, staged, changed);
        },
        None => {},
    }
}

pub fn named_can_add(entity: Entity) -> (r: bool)
    ensures
        r,
{
    true
}

/// Adding a name queues the caller's initial label (the embedding derives
/// it from the entity's id) as the whole record.
pub fn named_add(queue: &mut UpdateQueue<Named>, entity: Entity, initial: String)
    ensures
        final(queue)@ == old(queue)@.push(Update::Insert(entity, Named { name: initial })),
{
    queue.push_insert(entity, Named { name: initial });
}

/// Retyping the stored name stages an equal record and reports no change:
/// the record is never re-committed for it.
pub proof fn lemma_named_same_text_no_commit(me: Named, input: NamedInput)
    requires
        input.edit matches Some(s) && s@ == me.name@,
    ensures
        !named_touched(me, input),
{
}

} // verus!
