//! The UI text record: the text buffer, a font handle picked from the
//! embedding's labelled font list (when that list is non-empty), the font
//! size, an 8-bit-per-channel colour, a password flag, a line mode and an
//! alignment anchor.

use vstd::prelude::*;

use crate::Entity;
use crate::controls::ControlInput;
use crate::controls::IntControlBuilder;
use crate::controls::Vec4;
use crate::controls::Vec4ControlBuilder;
use crate::controls::Vec4Input;
use crate::controls::checkbox;
use crate::controls::stepped_i32;
use crate::controls::text_input;
use crate::controls::vec4_touched;
use crate::controls::vec4_stepped;
use crate::inspectors::anchors::Anchor;
use crate::inspectors::anchors::anchor_list;
use crate::inspectors::anchors::anchor_variants;
use crate::inspectors::anchors::combo_anchor;
use crate::inspectors::ui_transform::UiTransform;
use crate::inspectors::ui_transform::anchor_combo_result;
use crate::inspectors::ui_transform::default_ui_transform;
use crate::picker::combo_u64;
use crate::picker::display_index;
use crate::picker::handle_list;
use crate::picker::handles_of;
use crate::picker::lemma_display_index_default;
use crate::picker::select_at;
use crate::storage::Storage;
use crate::storage::Update;
use crate::storage::UpdateQueue;

verus! {

#[derive(Clone, Copy, PartialEq, Eq, Structural, Debug)]
pub enum LineMode {
    Single,
    Wrap,
}

/// The statically declared candidate list of the line-mode picker.
pub open spec fn line_mode_variants() -> Seq<LineMode> {
    seq![LineMode::Single, LineMode::Wrap]
}

pub fn line_mode_list() -> (r: Vec<LineMode>)
    ensures
        r@ == line_mode_variants(),
{
    let mut r: Vec<LineMode> = Vec::new();
    r.push(LineMode::Single);
    r.push(LineMode::Wrap);
    proof {
        assert(r@ =~= line_mode_variants());
    }
    r
}

pub fn current_index_line_mode(items: &Vec<LineMode>, current: LineMode) -> (r: usize)
    ensures
        r as int == display_index(items@, current),
{
    let n: usize = items.len();
    let mut r: usize = 0;
    let mut i: usize = 0;
    while i < n
        invariant
            n == items@.len(),
            i <= n,
            r as int == display_index(items@.subrange(0, i as int), current),
            r <= i,
        decreases n - i,
    {
        proof {
            assert(items@.subrange(0, i + 1).drop_last() =~= items@.subrange(0, i as int));
            assert(items@.subrange(0, i + 1).last() == items@[i as int]);
        }
        if items[i] == current {
            r = i;
        }
        i = i + 1;
    }
    proof {
        assert(items@.subrange(0, n as int) =~= items@);
    }
    r
}

pub fn combo_line_mode(items: &Vec<LineMode>, current: LineMode, choice: Option<usize>) -> (r: (
    LineMode,
    bool,
))
    requires
        items@.len() > 0,
        choice matches Some(i) ==> i < items@.len(),
    ensures
        choice matches Some(i) ==> r.0 == items@[i as int] && r.1,
        choice is None ==> r.0 == items@[display_index(items@, current)] && !r.1,
{
    proof {
        lemma_display_index_default(items@, current);
    }
    match choice {
        Some(i) => (select_at(items, i), true),
        None => {
            let shown = current_index_line_mode(items, current);
            (select_at(items, shown), false)
        },
    }
}

pub open spec fn line_mode_combo_result(current: LineMode, choice: Option<usize>) -> LineMode {
    match choice {
        Some(i) => line_mode_variants()[i as int],
        None => line_mode_variants()[display_index(line_mode_variants(), current)],
    }
}

/// The UI text record. The colour is 8-bit-per-channel.
#[derive(Clone, PartialEq, Eq, Debug)]
pub struct UiText {
    pub text: String,
    pub font: u64,
    pub font_size: i32,
    pub color: Vec4,
    pub password: bool,
    pub line_mode: LineMode,
    pub align: Anchor,
}

/// One frame's interaction with the UI text inspector's widgets.
#[derive(Clone, PartialEq, Eq, Debug)]
pub struct UiTextInput {
    pub text_edit: Option<String>,
    pub font_choice: Option<usize>,
    pub font_size: ControlInput,
    pub color: Vec4Input,
    pub password_clicked: bool,
    pub line_mode_choice: Option<usize>,
    pub align_choice: Option<usize>,
}

/// The font handle left in the record: with an empty font list the widget
/// is not drawn at all; otherwise a selection picks from the list and no
/// selection keeps the handle at the displayed index.
pub open spec fn font_combo_result(
    current: u64,
    fonts: Seq<(String, u64)>,
    choice: Option<usize>,
) -> u64 {
    if fonts.len() == 0 {
        current
    } else {
        match choice {
            Some(i) => handles_of(fonts)[i as int],
            None => handles_of(fonts)[display_index(handles_of(fonts), current)],
        }
    }
}

/// The staged record after one frame.
pub open spec fn ui_text_stepped(me: UiText, fonts: Seq<(String, u64)>, input: UiTextInput) -> UiText {
    UiText {
        text: match input.text_edit {
            Some(s) => s,
            None => me.text,
        },
        font: font_combo_result(me.font, fonts, input.font_choice),
        font_size: stepped_i32(me.font_size, 0, input.font_size),
        color: vec4_stepped(me.color, 0, input.color),
        password: if input.password_clicked {
            !me.password
        } else {
            me.password
        },
        line_mode: line_mode_combo_result(me.line_mode, input.line_mode_choice),
        align: anchor_combo_result(me.align, input.align_choice),
    }
}

pub open spec fn ui_text_touched(fonts: Seq<(String, u64)>, input: UiTextInput) -> bool {
    ||| input.text_edit is Some
    ||| (fonts.len() > 0 && input.font_choice is Some)
    ||| input.font_size.touched()
    ||| vec4_touched(input.color)
    ||| input.password_clicked
    ||| input.line_mode_choice is Some
    ||| input.align_choice is Some
}

pub fn inspect_ui_text(me: &UiText, fonts: &Vec<(String, u64)>, input: UiTextInput) -> (r: (
    UiText,
    bool,
))
    requires
        input.font_choice matches Some(i) ==> fonts@.len() > 0 && i < fonts@.len(),
        input.line_mode_choice matches Some(i) ==> i < line_mode_variants().len(),
        input.align_choice matches Some(i) ==> i < anchor_variants().len(),
    ensures
        r.0 == ui_text_stepped(*me, fonts@, input),
        r.1 == ui_text_touched(fonts@, input),
{
    let (text, text_changed) = text_input(&me.text, input.text_edit);
    let mut font = me.font;
    let mut font_changed = false;
    if fonts.len() > 0 {
        let handles = handle_list(fonts);
        let picked = combo_u64(&handles, me.font, input.font_choice);
        font = picked.0;
        font_changed = picked.1;
    }
    let (font_size, size_changed) = IntControlBuilder::new(me.font_size).changed(false).build(
        &input.font_size,
    );
    let (color, color_changed) = Vec4ControlBuilder::new(me.color).changed(false).build(
        &input.color,
    );
    let (password, password_changed) = checkbox(me.password, input.password_clicked);
    let modes = line_mode_list();
    let (line_mode, mode_changed) = combo_line_mode(&modes, me.line_mode, input.line_mode_choice);
    let anchors = anchor_list();
    let (align, align_changed) = combo_anchor(&anchors, me.align, input.align_choice);
    (
        UiText { text, font, font_size, color, password, line_mode, align },
        text_changed || font_changed || size_changed || color_changed || password_changed
            || mode_changed || align_changed,
    )
}

/// One inspection pass over the UI text of `entity`: a silent no-op when
/// the entity no longer holds the record; otherwise the whole staged record
/// is queued exactly when some widget reported a change.
pub fn ui_text_pass(
    storage: &Storage<UiText>,
    entity: Entity,
    fonts: &Vec<(String, u64)>,
    input: UiTextInput,
    queue: &mut UpdateQueue<UiText>,
)
    requires
        storage.wf(),
        input.font_choice matches Some(i) ==> fonts@.len() > 0 && i < fonts@.len(),
        input.line_mode_choice matches Some(i) ==> i < line_mode_variants().len(),
        input.align_choice matches Some(i) ==> i < anchor_variants().len(),
    ensures
        !storage@.contains_key(entity) ==> final(queue)@ == old(queue)@,
        storage@.contains_key(entity) && ui_text_touched(fonts@, input) ==> final(queue)@ == old(
            queue,
        )@.push(Update::Insert(entity, ui_text_stepped(storage@[entity], fonts@, input))),
        storage@.contains_key(entity) && !ui_text_touched(fonts@, input) ==> final(queue)@ == old(
            queue,
        )@,
{
    match storage.get(entity) {
        Some(me) => {
            let (staged, changed) = inspect_ui_text(me, fonts, input);
            queue.commit_record(entity, staged, changed);
        },
        None => {},
    }
}

pub fn ui_text_can_add(entity: Entity) -> (r: bool)
    ensures
        r,
{
    true
}

/// Adding UI text also queues a default UI transform when the entity lacks
/// one (text cannot be laid out without it), and stages a sample record
/// using the first listed font, or the embedding's default font when the
/// list is empty.
pub fn ui_text_add(
    entity: Entity,
    fonts: &Vec<(String, u64)>,
    default_font: u64,
    transforms: &Storage<UiTransform>,
    queue: &mut UpdateQueue<UiText>,
    transform_queue: &mut UpdateQueue<UiTransform>,
)
    requires
        transforms.wf(),
    ensures
        !transforms@.contains_key(entity) ==> final(transform_queue)@ == old(
            transform_queue,
        )@.push(Update::Insert(entity, default_ui_transform())),
        transforms@.contains_key(entity) ==> final(transform_queue)@ == old(transform_queue)@,
        final(queue)@.len() == old(queue)@.len() + 1,
        final(queue)@.subrange(0, old(queue)@.len() as int) == old(queue)@,
        (final(queue)@.last() matches Update::Insert(e, r) && e == entity && r.text@
            == "Sample text"@ && r.font == (if fonts@.len() > 0 {
            fonts@[0].1
        } else {
            default_font
        }) && r.font_size == 30 && r.color == (Vec4 { x: 255, y: 255, z: 255, w: 255 })
            && !r.password && r.line_mode is Single && r.align is Middle),
{
    if !transforms.contains(entity) {
        transform_queue.push_insert(entity, UiTransform::default());
    }
    let font: u64 = if fonts.len() > 0 {
        fonts[0].1
    } else {
        default_font
    };
    let sample = UiText {
        text: "Sample text".to_owned(),
        font,
        font_size: 30,
        color: Vec4 { x: 255, y: 255, z: 255, w: 255 },
        password: false,
        line_mode: LineMode::Single,
        align: Anchor::Middle,
    };
    queue.push_insert(entity, sample);
    proof {
        assert(queue@.subrange(0, old(queue)@.len() as int) =~= old(queue)@);
    }
}

/// An untouched frame stages the record unchanged, provided the record's
/// font still appears in the font list (or the list is empty): the pickers
/// all display the current value's own index.
pub proof fn lemma_ui_text_untouched_keeps_record(
    me: UiText,
    fonts: Seq<(String, u64)>,
    input: UiTextInput,
)
    requires
        !ui_text_touched(fonts, input),
        fonts.len() == 0 || handles_of(fonts).contains(me.font),
    ensures
        ui_text_stepped(me, fonts, input) == me,
{
    lemma_display_index_default(handles_of(fonts), me.font);
    lemma_display_index_default(line_mode_variants(), me.line_mode);
    lemma_display_index_default(anchor_variants(), me.align);
    assert(line_mode_variants().contains(me.line_mode)) by {
        line_mode_in_variants(me.line_mode);
    }
    assert(anchor_variants().contains(me.align)) by {
        crate::inspectors::ui_transform::anchor_in_variants(me.align);
    }
}

/// Every line mode appears in the picker's candidate list.
pub proof fn line_mode_in_variants(m: LineMode)
    ensures
        line_mode_variants().contains(m),
{
    match m {
        LineMode::Single => assert(line_mode_variants()[0] == m),
        LineMode::Wrap => assert(line_mode_variants()[1] == m),
    }
}

} // verus!
