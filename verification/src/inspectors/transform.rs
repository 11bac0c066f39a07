//! The spatial transform record: translation, one planar rotation angle and
//! per-axis scale, each edited by a drag row with a reset sentinel
//! (translation and rotation reset to 0, scale to 1).

use vstd::prelude::*;

use crate::Entity;
use crate::controls::ControlInput;
use crate::controls::IntControlBuilder;
use crate::controls::Vec3;
use crate::controls::Vec3ControlBuilder;
use crate::controls::Vec3Input;
use crate::controls::checkbox;
use crate::controls::stepped_i32;
use crate::controls::vec3_stepped;
use crate::controls::vec3_touched;
use crate::storage::Storage;
use crate::storage::Update;
use crate::storage::UpdateQueue;

verus! {

/// Inspector-side display preference for the transform record: whether the
/// rotation widget works in radians rather than degrees. Toggling it never
/// touches the record itself.
#[derive(Clone, Copy, PartialEq, Eq, Structural, Debug)]
pub struct TransformInspectorData {
    pub radians: bool,
}

impl Default for TransformInspectorData {
    fn default() -> (r: TransformInspectorData)
        ensures
            !r.radians,
    {
        TransformInspectorData { radians: false }
    }
}

/// A spatial transform record.
#[derive(Clone, Copy, PartialEq, Eq, Structural, Debug)]
pub struct Transform {
    pub translation: Vec3,
    pub rotation: i32,
    pub scale: Vec3,
}

/// The record a freshly added transform holds: no offset, no rotation, unit
/// scale.
pub open spec fn default_transform() -> Transform {
    Transform {
        translation: Vec3 { x: 0, y: 0, z: 0 },
        rotation: 0,
        scale: Vec3 { x: 1, y: 1, z: 1 },
    }
}

impl Default for Transform {
    fn default() -> (r: Transform)
        ensures
            r == default_transform(),
    {
        Transform {
            translation: Vec3 { x: 0, y: 0, z: 0 },
            rotation: 0,
            scale: Vec3 { x: 1, y: 1, z: 1 },
        }
    }
}

/// One frame's interaction with the transform inspector's widgets.
#[derive(Clone, Copy, PartialEq, Eq, Structural, Debug)]
pub struct TransformInput {
    pub translation: Vec3Input,
    pub rotation: ControlInput,
    pub radians_clicked: bool,
    pub scale: Vec3Input,
}

/// The staged record after one frame: every field flows through its control,
/// untouched fields keeping their prior value.
pub open spec fn transform_stepped(me: Transform, input: TransformInput) -> Transform {
    Transform {
        translation: vec3_stepped(me.translation, 0, input.translation),
        rotation: stepped_i32(me.rotation, 0, input.rotation),
        scale: vec3_stepped(me.scale, 1, input.scale),
    }
}

/// Did any widget of the record report a change? The radians checkbox is
/// inspector state, not record data, and does not count.
pub open spec fn transform_touched(input: TransformInput) -> bool {
    vec3_touched(input.translation) || input.rotation.touched() || vec3_touched(input.scale)
}

/// Draw every field of a cloned transform against this frame's interaction:
/// the staged record, the aggregated change flag, and the toggled display
/// preference.
pub fn inspect_transform(
    me: &Transform,
    data: &mut TransformInspectorData,
    input: &TransformInput,
) -> (r: (Transform, bool))
    ensures
        r.0 == transform_stepped(*me, *input),
        r.1 == transform_touched(*input),
        final(data).radians == (if input.radians_clicked {
            !old(data).radians
        } else {
            old(data).radians
        }),
{
    let (translation, changed) = Vec3ControlBuilder::new(me.translation).null_to(0).speed(
        1,
    ).changed(false).build(&input.translation);
    let (rotation, changed) = IntControlBuilder::new(me.rotation).null_to(0).changed(
        changed,
    ).build(&input.rotation);
    let (radians, _) = checkbox(data.radians, input.radians_clicked);
    data.radians = radians;
    let (scale, changed) = Vec3ControlBuilder::new(me.scale).null_to(1).changed(changed).build(
        &input.scale,
    );
    (Transform { translation, rotation, scale }, changed)
}

/// One inspection pass over the transform of `entity`: a silent no-op when
/// the entity no longer holds the record; otherwise the whole staged record
/// is queued exactly when some widget reported a change.
pub fn transform_pass(
    storage: &Storage<Transform>,
    entity: Entity,
    data: &mut TransformInspectorData,
    input: &TransformInput,
    queue: &mut UpdateQueue<Transform>,
)
    requires
        storage.wf(),
    ensures
        !storage@.contains_key(entity) ==> final(queue)@ == old(queue)@ && *final(data) == *old(
            data,
        ),
        storage@.contains_key(entity) && transform_touched(*input) ==> final(queue)@ == old(
            queue,
        )@.push(Update::Insert(entity, transform_stepped(storage@[entity], *input))),
        storage@.contains_key(entity) && !transform_touched(*input) ==> final(queue)@ == old(
            queue,
        )@,
        storage@.contains_key(entity) ==> final(data).radians == (if input.radians_clicked {
            !old(data).radians
        } else {
            old(data).radians
        }),
{
    match storage.get(entity) {
        Some(me) => {
            let current = *me;
            let (staged, changed) = inspect_transform(&current, data, input);
            queue.commit_record(entity, staged, changed);
        },
        None => {},
    }
}

/// A whole read-then-commit cycle for the transform of `entity`, with the
/// deferred queue applied at the end: nothing is written unless some widget
/// reported a change, and a change writes the staged record as one unit —
/// never a subset of its fields, and never another entity's record.
pub fn transform_commit_frame(
    storage: &mut Storage<Transform>,
    entity: Entity,
    data: &mut TransformInspectorData,
    input: &TransformInput,
)
    requires
        old(storage).wf(),
    ensures
        final(storage).wf(),
        !old(storage)@.contains_key(entity) ==> final(storage)@ == old(storage)@ && *final(data)
            == *old(data),
        old(storage)@.contains_key(entity) && transform_touched(*input) ==> final(storage)@ == old(
            storage,
        )@.insert(entity, transform_stepped(old(storage)@[entity], *input)),
        old(storage)@.contains_key(entity) && !transform_touched(*input) ==> final(storage)@
            == old(storage)@,
{
    let ghost m0 = storage@;
    let mut queue: UpdateQueue<Transform> = UpdateQueue::new();
    transform_pass(storage, entity, data, input, &mut queue);
    let ghost q = queue@;
    queue.apply(storage);
    proof {
        assert(storage@ == crate::storage::apply_updates(m0, q));
        if m0.contains_key(entity) && transform_touched(*input) {
            let staged = transform_stepped(m0[entity], *input);
            assert(q =~= Seq::<Update<Transform>>::empty().push(Update::Insert(entity, staged)));
            assert(q.drop_last() =~= Seq::<Update<Transform>>::empty());
            assert(q.last() == Update::Insert(entity, staged));
            assert(crate::storage::apply_updates(m0, q.drop_last()) == m0);
            assert(crate::storage::apply_updates(m0, q) == m0.insert(entity, staged));
        } else {
            assert(q =~= Seq::<Update<Transform>>::empty());
            assert(crate::storage::apply_updates(m0, q) == m0);
        }
    }
}

/// A transform can always be added; adding queues the default record.
pub fn transform_can_add(entity: Entity) -> (r: bool)
    ensures
        r,
{
    true
}

pub fn transform_add(queue: &mut UpdateQueue<Transform>, entity: Entity)
    ensures
        final(queue)@ == old(queue)@.push(Update::Insert(entity, default_transform())),
{
    queue.push_insert(entity, Transform::default());
}

/// A frame in which no transform widget reports a change stages the record
/// exactly as it was: nothing is ever re-committed for it.
pub proof fn lemma_transform_untouched_keeps_record(me: Transform, input: TransformInput)
    requires
        !transform_touched(input),
    ensures
        transform_stepped(me, input) == me,
{
}

/// One changed field commits the record as one unit: even when only the
/// rotation widget was touched, the staged record still carries the
/// translation and scale fields — with their prior values — rather than a
/// partial write.
pub proof fn lemma_transform_commits_whole_record(me: Transform, input: TransformInput)
    requires
        input.rotation.touched(),
        !vec3_touched(input.translation),
        !vec3_touched(input.scale),
    ensures
        transform_touched(input),
        transform_stepped(me, input).translation == me.translation,
        transform_stepped(me, input).scale == me.scale,
{
}

} // verus!
