//! The UI overlay-debug record: which camera to project through, the
//! overlay colour, and whether the overlay draws for children and for
//! unselected entities. Its setup hook decides per entity whether the
//! overlay rectangle is drawn at all; the rectangle's screen-space corners
//! are plain arithmetic on the UI transform's position and size.

use vstd::prelude::*;

use crate::Entity;
use crate::controls::Vec4;
use crate::controls::Vec4ControlBuilder;
use crate::controls::Vec4Input;
use crate::controls::checkbox;
use crate::controls::vec4_stepped;
use crate::picker::combo_entity_req;
use crate::picker::display_index;
use crate::storage::Storage;
use crate::storage::Update;
use crate::storage::UpdateQueue;

verus! {

#[derive(Clone, Copy, PartialEq, Eq, Structural, Debug)]
pub struct UiTransformDebug {
    /// The camera entity whose projection places the overlay.
    pub camera: Entity,
    pub color: Vec4,
    /// Draw the overlay for the entity's children too.
    pub children: bool,
    /// Draw the overlay even while the entity is not selected.
    pub always: bool,
}

/// The setup hook's per-entity decision: the overlay draws only for the
/// inspected entity (or always-marked records), and only while the entity
/// still has a UI transform and the configured camera is whole.
pub fn should_draw_overlay(
    is_inspectee: bool,
    always: bool,
    has_ui_transform: bool,
    has_camera: bool,
    has_camera_transform: bool,
) -> (r: bool)
    ensures
        r == ((is_inspectee || always) && has_ui_transform && has_camera && has_camera_transform),
{
    (is_inspectee || always) && has_ui_transform && has_camera && has_camera_transform
}

/// The overlay rectangle's screen-space corners, counter-clockwise from the
/// top-left, around the centre `(x, y)` of a box `w` wide and `h` tall.
pub fn overlay_corners(x: i64, y: i64, w: i64, h: i64) -> (r: Vec<(i64, i64)>)
    requires
        -0x4000_0000_0000 <= x <= 0x4000_0000_0000,
        -0x4000_0000_0000 <= y <= 0x4000_0000_0000,
        0 <= w <= 0x4000_0000_0000,
        0 <= h <= 0x4000_0000_0000,
    ensures
        r@.len() == 4,
        r@[0].0 == x - w / 2 && r@[0].1 == y - h / 2,
        r@[1].0 == x + w / 2 && r@[1].1 == y - h / 2,
        r@[2].0 == x + w / 2 && r@[2].1 == y + h / 2,
        r@[3].0 == x - w / 2 && r@[3].1 == y + h / 2,
{
    let half_w: i64 = w / 2;
    let half_h: i64 = h / 2;
    let mut r: Vec<(i64, i64)> = Vec::new();
    r.push((x - half_w, y - half_h));
    r.push((x + half_w, y - half_h));
    r.push((x + half_w, y + half_h));
    r.push((x - half_w, y + half_h));
    r
}

/// One frame's interaction with the overlay-debug inspector's widgets.
#[derive(Clone, Copy, PartialEq, Eq, Structural, Debug)]
pub struct UiTransformDebugInput {
    pub camera_choice: Option<usize>,
    pub color: Vec4Input,
    pub children_clicked: bool,
    pub always_clicked: bool,
}

/// The camera the record holds after one frame: with one camera or none the
/// picker is not drawn; otherwise a selection picks from the camera list
/// and no selection keeps the camera at the displayed index.
pub open spec fn camera_combo_result(
    current: Entity,
    cameras: Seq<Entity>,
    choice: Option<usize>,
) -> Entity {
    if cameras.len() <= 1 {
        current
    } else {
        match choice {
            Some(i) => cameras[i as int],
            None => cameras[display_index(cameras, current)],
        }
    }
}

/// The staged record after one frame.
pub open spec fn ui_transform_debug_stepped(
    me: UiTransformDebug,
    cameras: Seq<Entity>,
    input: UiTransformDebugInput,
) -> UiTransformDebug {
    UiTransformDebug {
        camera: camera_combo_result(me.camera, cameras, input.camera_choice),
        color: vec4_stepped(me.color, 0, input.color),
        children: if input.children_clicked {
            !me.children
        } else {
            me.children
        },
        always: if input.always_clicked {
            !me.always
        } else {
            me.always
        },
    }
}

pub fn inspect_ui_transform_debug(
    me: &UiTransformDebug,
    cameras: &Vec<Entity>,
    input: UiTransformDebugInput,
) -> (r: (UiTransformDebug, bool))
    requires
        input.camera_choice matches Some(i) ==> cameras@.len() > 1 && i < cameras@.len(),
    ensures
        r.0 == ui_transform_debug_stepped(*me, cameras@, input),
        r.1 == (r.0 != *me),
{
    let mut camera = me.camera;
    if cameras.len() > 1 {
        let picked = combo_entity_req(cameras, me.camera, input.camera_choice);
        camera = picked.0;
    }
    let (color, _) = Vec4ControlBuilder::new(me.color).changed(false).build(&input.color);
    let (children, _) = checkbox(me.children, input.children_clicked);
    let (always, _) = checkbox(me.always, input.always_clicked);
    let staged = UiTransformDebug { camera, color, children, always };
    let differs = staged != *me;
    (staged, differs)
}

/// One inspection pass over the overlay-debug record of `entity`: a silent
/// no-op when the entity no longer holds it; a replacement is queued
/// exactly when the staged record differs from the stored one.
pub fn ui_transform_debug_pass(
    storage: &Storage<UiTransformDebug>,
    entity: Entity,
    cameras: &Vec<Entity>,
    input: UiTransformDebugInput,
    queue: &mut UpdateQueue<UiTransformDebug>,
)
    requires
        storage.wf(),
        input.camera_choice matches Some(i) ==> cameras@.len() > 1 && i < cameras@.len(),
    ensures
        !storage@.contains_key(entity) ==> final(queue)@ == old(queue)@,
        storage@.contains_key(entity) && ui_transform_debug_stepped(
            storage@[entity],
            cameras@,
            input,
        ) != storage@[entity] ==> final(queue)@ == old(queue)@.push(
            Update::Insert(
                entity,
                ui_transform_debug_stepped(storage@[entity], cameras@, input),
            ),
        ),
        storage@.contains_key(entity) && ui_transform_debug_stepped(
            storage@[entity],
            cameras@,
            input,
        ) == storage@[entity] ==> final(queue)@ == old(queue)@,
{
    match storage.get(entity) {
        Some(me) => {
            let current = *me;
            let (staged, changed) = inspect_ui_transform_debug(&current, cameras, input);
            queue.commit_record(entity, staged, changed);
        },
        None => {},
    }
}

/// An untouched frame stages the record unchanged — provided the camera
/// picker either is not drawn (one camera or none) or still lists the
/// record's camera — so nothing is ever re-committed for it.
pub proof fn lemma_debug_untouched_keeps_record(
    me: UiTransformDebug,
    cameras: Seq<Entity>,
    input: UiTransformDebugInput,
)
    requires
        input.camera_choice is None,
        !crate::controls::vec4_touched(input.color),
        !input.children_clicked,
        !input.always_clicked,
        cameras.len() <= 1 || cameras.contains(me.camera),
    ensures
        ui_transform_debug_stepped(me, cameras, input) == me,
{
    crate::picker::lemma_display_index_default(cameras, me.camera);
}

/// Addable only while some camera exists and the entity has a UI transform
/// to outline.
pub fn ui_transform_debug_can_add(has_camera: bool, has_ui_transform: bool) -> (r: bool)
    ensures
        r == (has_camera && has_ui_transform),
{
    has_camera && has_ui_transform
}

/// Adding queues a record aimed at the first listed camera, in red, drawn
/// always; with no camera to aim at, nothing is queued.
pub fn ui_transform_debug_add(
    queue: &mut UpdateQueue<UiTransformDebug>,
    entity: Entity,
    cameras: &Vec<Entity>,
)
    ensures
        cameras@.len() == 0 ==> final(queue)@ == old(queue)@,
        cameras@.len() > 0 ==> final(queue)@ == old(queue)@.push(
            Update::Insert(
                entity,
                UiTransformDebug {
                    camera: cameras@[0],
                    color: Vec4 { x: 255, y: 0, z: 0, w: 255 },
                    children: false,
                    always: true,
                },
            ),
        ),
{
    if cameras.len() > 0 {
        let camera = cameras[0];
        queue.push_insert(
            entity,
            UiTransformDebug {
                camera,
                color: Vec4 { x: 255, y: 0, z: 0, w: 255 },
                children: false,
                always: true,
            },
        );
    }
}

} // verus!
