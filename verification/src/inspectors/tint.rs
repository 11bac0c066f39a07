//! The colour tint record: one 8-bit-per-channel colour edited as a
//! four-component drag row whose reset sentinel is opaque white.

use vstd::prelude::*;

use crate::Entity;
use crate::controls::Vec4;
use crate::controls::Vec4ControlBuilder;
use crate::controls::Vec4Input;
use crate::controls::vec4_stepped;
use crate::controls::vec4_touched;
use crate::storage::Storage;
use crate::storage::Update;
use crate::storage::UpdateQueue;

verus! {

#[derive(Clone, Copy, PartialEq, Eq, Structural, Debug)]
pub struct Tint {
    pub color: Vec4,
}

/// The record a freshly added tint holds: opaque white.
pub open spec fn default_tint() -> Tint {
    Tint { color: Vec4 { x: 255, y: 255, z: 255, w: 255 } }
}

impl Default for Tint {
    fn default() -> (r: Tint)
        ensures
            r == default_tint(),
    {
        Tint { color: Vec4 { x: 255, y: 255, z: 255, w: 255 } }
    }
}

/// The staged record after one frame: each channel follows the scalar rule
/// with the white sentinel.
pub open spec fn tint_stepped(me: Tint, input: Vec4Input) -> Tint {
    Tint { color: vec4_stepped(me.color, 255, input) }
}

pub fn inspect_tint(me: &Tint, input: &Vec4Input) -> (r: (Tint, bool))
    ensures
        r.0 == tint_stepped(*me, *input),
        r.1 == vec4_touched(*input),
{
    let (color, changed) = Vec4ControlBuilder::new(me.color).null_to(255).changed(false).build(
        input,
    );
    (Tint { color }, changed)
}

/// One inspection pass over the tint of `entity`: a silent no-op when the
/// entity no longer holds the record; otherwise the whole staged record is
/// queued exactly when some channel widget reported a change.
pub fn tint_pass(
    storage: &Storage<Tint>,
    entity: Entity,
    input: &Vec4Input,
    queue: &mut UpdateQueue<Tint>,
)
    requires
        storage.wf(),
    ensures
        !storage@.contains_key(entity) ==> final(queue)@ == old(queue)@,
        storage@.contains_key(entity) && vec4_touched(*input) ==> final(queue)@ == old(
            queue,
        )@.push(Update::Insert(entity, tint_stepped(storage@[entity], *input))),
        storage@.contains_key(entity) && !vec4_touched(*input) ==> final(queue)@ == old(queue)@,
{
    match storage.get(entity) {
        Some(me) => {
            let current = *me;
            let (staged, changed) = inspect_tint(&current, input);
            queue.commit_record(entity, staged, changed);
        },
        None => {},
    }
}

pub fn tint_can_add(entity: Entity) -> (r: bool)
    ensures
        r,
{
    true
}

pub fn tint_add(queue: &mut UpdateQueue<Tint>, entity: Entity)
    ensures
        final(queue)@ == old(queue)@.push(Update::Insert(entity, default_tint())),
{
    queue.push_insert(entity, Tint::default());
}

} // verus!
