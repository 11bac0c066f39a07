//! The UI transform record: screen-space position and size, anchor and
//! pivot picked from the shared anchor list, and a scale mode picked from
//! its own two-variant list. The size row's reset sentinel depends on the
//! record's current scale mode: 100 in pixel mode, 1 in percent mode.

use vstd::prelude::*;

use crate::Entity;
use crate::controls::Vec2;
use crate::controls::Vec2ControlBuilder;
use crate::controls::Vec2Input;
use crate::controls::Vec3;
use crate::controls::Vec3ControlBuilder;
use crate::controls::Vec3Input;
use crate::controls::vec2_stepped;
use crate::controls::vec2_touched;
use crate::controls::vec3_stepped;
use crate::controls::vec3_touched;
use crate::inspectors::anchors::Anchor;
use crate::inspectors::anchors::anchor_list;
use crate::inspectors::anchors::anchor_variants;
use crate::inspectors::anchors::combo_anchor;
use crate::picker::display_index;
use crate::picker::lemma_display_index_default;
use crate::picker::select_at;
use crate::storage::Storage;
use crate::storage::Update;
use crate::storage::UpdateQueue;

verus! {

#[derive(Clone, Copy, PartialEq, Eq, Structural, Debug)]
pub enum ScaleMode {
    Pixel,
    Percent,
}

/// The statically declared candidate list of the scale-mode picker.
pub open spec fn scale_mode_variants() -> Seq<ScaleMode> {
    seq![ScaleMode::Pixel, ScaleMode::Percent]
}

pub fn scale_mode_list() -> (r: Vec<ScaleMode>)
    ensures
        r@ == scale_mode_variants(),
{
    let mut r: Vec<ScaleMode> = Vec::new();
    r.push(ScaleMode::Pixel);
    r.push(ScaleMode::Percent);
    proof {
        assert(r@ =~= scale_mode_variants());
    }
    r
}

pub fn current_index_scale_mode(items: &Vec<ScaleMode>, current: ScaleMode) -> (r: usize)
    ensures
        r as int == display_index(items@, current),
{
    let n: usize = items.len();
    let mut r: usize = 0;
    let mut i: usize = 0;
    while i < n
        invariant
            n == items@.len(),
            i <= n,
            r as int == display_index(items@.subrange(0, i as int), current),
            r <= i,
        decreases n - i,
    {
        proof {
            assert(items@.subrange(0, i + 1).drop_last() =~= items@.subrange(0, i as int));
            assert(items@.subrange(0, i + 1).last() == items@[i as int]);
        }
        if items[i] == current {
            r = i;
        }
        i = i + 1;
    }
    proof {
        assert(items@.subrange(0, n as int) =~= items@);
    }
    r
}

pub fn combo_scale_mode(items: &Vec<ScaleMode>, current: ScaleMode, choice: Option<usize>) -> (r: (
    ScaleMode,
    bool,
))
    requires
        items@.len() > 0,
        choice matches Some(i) ==> i < items@.len(),
    ensures
        choice matches Some(i) ==> r.0 == items@[i as int] && r.1,
        choice is None ==> r.0 == items@[display_index(items@, current)] && !r.1,
{
    proof {
        lemma_display_index_default(items@, current);
    }
    match choice {
        Some(i) => (select_at(items, i), true),
        None => {
            let shown = current_index_scale_mode(items, current);
            (select_at(items, shown), false)
        },
    }
}

/// What an anchor combo leaves in the field: the chosen variant, or the
/// variant at the displayed index when nothing was chosen.
pub open spec fn anchor_combo_result(current: Anchor, choice: Option<usize>) -> Anchor {
    match choice {
        Some(i) => anchor_variants()[i as int],
        None => anchor_variants()[display_index(anchor_variants(), current)],
    }
}

pub open spec fn scale_mode_combo_result(current: ScaleMode, choice: Option<usize>) -> ScaleMode {
    match choice {
        Some(i) => scale_mode_variants()[i as int],
        None => scale_mode_variants()[display_index(scale_mode_variants(), current)],
    }
}

/// The UI transform record.
#[derive(Clone, Copy, PartialEq, Eq, Structural, Debug)]
pub struct UiTransform {
    pub translation: Vec3,
    pub size: Vec2,
    pub anchor: Anchor,
    pub pivot: Anchor,
    pub scale_mode: ScaleMode,
}

/// The record a freshly added UI transform holds: centred, 100 by 100
/// pixels.
pub open spec fn default_ui_transform() -> UiTransform {
    UiTransform {
        translation: Vec3 { x: 0, y: 0, z: 0 },
        size: Vec2 { x: 100, y: 100 },
        anchor: Anchor::Middle,
        pivot: Anchor::Middle,
        scale_mode: ScaleMode::Pixel,
    }
}

impl Default for UiTransform {
    fn default() -> (r: UiTransform)
        ensures
            r == default_ui_transform(),
    {
        UiTransform {
            translation: Vec3 { x: 0, y: 0, z: 0 },
            size: Vec2 { x: 100, y: 100 },
            anchor: Anchor::Middle,
            pivot: Anchor::Middle,
            scale_mode: ScaleMode::Pixel,
        }
    }
}

/// One frame's interaction with the UI transform inspector's widgets.
#[derive(Clone, Copy, PartialEq, Eq, Structural, Debug)]
pub struct UiTransformInput {
    pub translation: Vec3Input,
    pub size: Vec2Input,
    pub anchor_choice: Option<usize>,
    pub pivot_choice: Option<usize>,
    pub scale_mode_choice: Option<usize>,
}

/// The size row's reset sentinel depends on the current scale mode.
pub open spec fn size_null_to(mode: ScaleMode) -> i32 {
    if mode is Pixel {
        100
    } else {
        1
    }
}

/// The staged record after one frame.
pub open spec fn ui_transform_stepped(me: UiTransform, input: UiTransformInput) -> UiTransform {
    UiTransform {
        translation: vec3_stepped(me.translation, 0, input.translation),
        size: vec2_stepped(me.size, size_null_to(me.scale_mode), input.size),
        anchor: anchor_combo_result(me.anchor, input.anchor_choice),
        pivot: anchor_combo_result(me.pivot, input.pivot_choice),
        scale_mode: scale_mode_combo_result(me.scale_mode, input.scale_mode_choice),
    }
}

pub open spec fn ui_transform_touched(input: UiTransformInput) -> bool {
    vec3_touched(input.translation) || vec2_touched(input.size) || input.anchor_choice is Some
        || input.pivot_choice is Some || input.scale_mode_choice is Some
}

pub fn inspect_ui_transform(me: &UiTransform, input: &UiTransformInput) -> (r: (UiTransform, bool))
    requires
        input.anchor_choice matches Some(i) ==> i < anchor_variants().len(),
        input.pivot_choice matches Some(i) ==> i < anchor_variants().len(),
        input.scale_mode_choice matches Some(i) ==> i < scale_mode_variants().len(),
    ensures
        r.0 == ui_transform_stepped(*me, *input),
        r.1 == ui_transform_touched(*input),
{
    let size_reset: i32 = match me.scale_mode {
        ScaleMode::Pixel => 100,
        ScaleMode::Percent => 1,
    };
    let (translation, changed) = Vec3ControlBuilder::new(me.translation).null_to(0).changed(
        false,
    ).build(&input.translation);
    let (size, changed) = Vec2ControlBuilder::new(me.size).null_to(size_reset).changed(
        changed,
    ).build(&input.size);
    let anchors = anchor_list();
    let (anchor, anchor_changed) = combo_anchor(&anchors, me.anchor, input.anchor_choice);
    let (pivot, pivot_changed) = combo_anchor(&anchors, me.pivot, input.pivot_choice);
    let modes = scale_mode_list();
    let (scale_mode, mode_changed) = combo_scale_mode(
        &modes,
        me.scale_mode,
        input.scale_mode_choice,
    );
    (
        UiTransform { translation, size, anchor, pivot, scale_mode },
        changed || anchor_changed || pivot_changed || mode_changed,
    )
}

/// One inspection pass over the UI transform of `entity`: a silent no-op
/// when the entity no longer holds the record; otherwise the whole staged
/// record is queued exactly when some widget reported a change.
pub fn ui_transform_pass(
    storage: &Storage<UiTransform>,
    entity: Entity,
    input: &UiTransformInput,
    queue: &mut UpdateQueue<UiTransform>,
)
    requires
        storage.wf(),
        input.anchor_choice matches Some(i) ==> i < anchor_variants().len(),
        input.pivot_choice matches Some(i) ==> i < anchor_variants().len(),
        input.scale_mode_choice matches Some(i) ==> i < scale_mode_variants().len(),
    ensures
        !storage@.contains_key(entity) ==> final(queue)@ == old(queue)@,
        storage@.contains_key(entity) && ui_transform_touched(*input) ==> final(queue)@ == old(
            queue,
        )@.push(Update::Insert(entity, ui_transform_stepped(storage@[entity], *input))),
        storage@.contains_key(entity) && !ui_transform_touched(*input) ==> final(queue)@ == old(
            queue,
        )@,
{
    match storage.get(entity) {
        Some(me) => {
            let current = *me;
            let (staged, changed) = inspect_ui_transform(&current, input);
            queue.commit_record(entity, staged, changed);
        },
        None => {},
    }
}

pub fn ui_transform_can_add(entity: Entity) -> (r: bool)
    ensures
        r,
{
    true
}

pub fn ui_transform_add(queue: &mut UpdateQueue<UiTransform>, entity: Entity)
    ensures
        final(queue)@ == old(queue)@.push(Update::Insert(entity, default_ui_transform())),
{
    queue.push_insert(entity, UiTransform::default());
}

/// An untouched frame stages the record unchanged: every enum field's combo
/// shows the index of the current value, and every anchor and scale mode is
/// in its own candidate list, so nothing drifts.
pub proof fn lemma_ui_transform_untouched_keeps_record(me: UiTransform, input: UiTransformInput)
    requires
        !ui_transform_touched(input),
    ensures
        ui_transform_stepped(me, input) == me,
{
    lemma_display_index_default(anchor_variants(), me.anchor);
    lemma_display_index_default(anchor_variants(), me.pivot);
    lemma_display_index_default(scale_mode_variants(), me.scale_mode);
    assert(anchor_variants().contains(me.anchor)) by {
        anchor_in_variants(me.anchor);
    }
    assert(anchor_variants().contains(me.pivot)) by {
        anchor_in_variants(me.pivot);
    }
    assert(scale_mode_variants().contains(me.scale_mode)) by {
        scale_mode_in_variants(me.scale_mode);
    }
}

/// Every anchor appears in the picker's candidate list.
pub proof fn anchor_in_variants(a: Anchor)
    ensures
        anchor_variants().contains(a),
{
    match a {
        Anchor::TopLeft => assert(anchor_variants()[0] == a),
        Anchor::TopMiddle => assert(anchor_variants()[1] == a),
        Anchor::TopRight => assert(anchor_variants()[2] == a),
        Anchor::MiddleLeft => assert(anchor_variants()[3] == a),
        Anchor::Middle => assert(anchor_variants()[4] == a),
        Anchor::MiddleRight => assert(anchor_variants()[5] == a),
        Anchor::BottomLeft => assert(anchor_variants()[6] == a),
        Anchor::BottomMiddle => assert(anchor_variants()[7] == a),
        Anchor::BottomRight => assert(anchor_variants()[8] == a),
    }
}

/// Every scale mode appears in the picker's candidate list.
pub proof fn scale_mode_in_variants(m: ScaleMode)
    ensures
        scale_mode_variants().contains(m),
{
    match m {
        ScaleMode::Pixel => assert(scale_mode_variants()[0] == m),
        ScaleMode::Percent => assert(scale_mode_variants()[1] == m),
    }
}

} // verus!
