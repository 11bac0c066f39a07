//! The legacy colour record: one 8-bit-per-channel colour edited as a
//! four-component drag row whose widget reports nothing, so this record
//! commits on value difference: a frame that drags a channel back onto its
//! stored value queues nothing.

use vstd::prelude::*;

use crate::Entity;
use crate::controls::Vec4;
use crate::controls::Vec4ControlBuilder;
use crate::controls::Vec4Input;
use crate::controls::vec4_stepped;
use crate::storage::Storage;
use crate::storage::Update;
use crate::storage::UpdateQueue;

verus! {

#[derive(Clone, Copy, PartialEq, Eq, Structural, Debug)]
pub struct Rgba {
    pub color: Vec4,
}

/// The record a freshly added colour holds: opaque white.
pub open spec fn default_rgba() -> Rgba {
    Rgba { color: Vec4 { x: 255, y: 255, z: 255, w: 255 } }
}

impl Default for Rgba {
    fn default() -> (r: Rgba)
        ensures
            r == default_rgba(),
    {
        Rgba { color: Vec4 { x: 255, y: 255, z: 255, w: 255 } }
    }
}

/// The staged record after one frame: each channel follows the scalar rule.
pub open spec fn rgba_stepped(me: Rgba, input: Vec4Input) -> Rgba {
    Rgba { color: vec4_stepped(me.color, 0, input) }
}

pub fn inspect_rgba(me: &Rgba, input: &Vec4Input) -> (r: (Rgba, bool))
    ensures
        r.0 == rgba_stepped(*me, *input),
        r.1 == (r.0 != *me),
{
    let (color, _) = Vec4ControlBuilder::new(me.color).changed(false).build(input);
    let staged = Rgba { color };
    let differs = staged != *me;
    (staged, differs)
}

/// One inspection pass over the colour of `entity`: a silent no-op when the
/// entity no longer holds the record; a replacement is queued exactly when
/// the staged colour differs from the stored one.
pub fn rgba_pass(
    storage: &Storage<Rgba>,
    entity: Entity,
    input: &Vec4Input,
    queue: &mut UpdateQueue<Rgba>,
)
    requires
        storage.wf(),
    ensures
        !storage@.contains_key(entity) ==> final(queue)@ == old(queue)@,
        storage@.contains_key(entity) && rgba_stepped(storage@[entity], *input)
            != storage@[entity] ==> final(queue)@ == old(queue)@.push(
            Update::Insert(entity, rgba_stepped(storage@[entity], *input)),
        ),
        storage@.contains_key(entity) && rgba_stepped(storage@[entity], *input)
            == storage@[entity] ==> final(queue)@ == old(queue)@,
{
    match storage.get(entity) {
        Some(me) => {
            let current = *me;
            let (staged, changed) = inspect_rgba(&current, input);
            queue.commit_record(entity, staged, changed);
        },
        None => {},
    }
}

pub fn rgba_can_add(entity: Entity) -> (r: bool)
    ensures
        r,
{
    true
}

pub fn rgba_add(queue: &mut UpdateQueue<Rgba>, entity: Entity)
    ensures
        final(queue)@ == old(queue)@.push(Update::Insert(entity, default_rgba())),
{
    queue.push_insert(entity, Rgba::default());
}

} // verus!
