//! The sprite-render record: a sprite-sheet handle picked from the
//! embedding's labelled sheet list, and a sprite index within that sheet.
//! Switching sheets resets the index to 0; the index slider is bounded by
//! the chosen sheet's sprite count, which must be known and positive.

use vstd::prelude::*;

use crate::Entity;
use crate::picker::combo_handle;
use crate::picker::handle_combo_result;
use crate::storage::Storage;
use crate::storage::Update;
use crate::storage::UpdateQueue;

verus! {

#[derive(Clone, Copy, PartialEq, Eq, Structural, Debug)]
pub struct SpriteRender {
    pub sprite_sheet: u64,
    pub sprite_number: usize,
}

/// The sprite count of `handle` in the loaded-sheet table: the first entry
/// with that handle, as a lookup scan sees it.
pub open spec fn sheet_count_of(sheets: Seq<(u64, usize)>, handle: u64) -> Option<usize>
    decreases sheets.len(),
{
    if sheets.len() == 0 {
        None
    } else if sheets.first().0 == handle {
        Some(sheets.first().1)
    } else {
        sheet_count_of(sheets.drop_first(), handle)
    }
}

pub fn sheet_count(sheets: &Vec<(u64, usize)>, handle: u64) -> (r: Option<usize>)
    ensures
        r == sheet_count_of(sheets@, handle),
{
    let n: usize = sheets.len();
    proof {
        assert(sheets@.skip(0) =~= sheets@);
    }
    let mut i: usize = 0;
    while i < n
        invariant
            n == sheets@.len(),
            i <= n,
            sheet_count_of(sheets@, handle) == sheet_count_of(sheets@.skip(i as int), handle),
        decreases n - i,
    {
        proof {
            assert(sheets@.skip(i as int).first() == sheets@[i as int]);
            assert(sheets@.skip(i as int).drop_first() =~= sheets@.skip(i + 1));
        }
        if sheets[i].0 == handle {
            return Some(sheets[i].1);
        }
        i = i + 1;
    }
    proof {
        assert(sheets@.skip(n as int).len() == 0);
    }
    None
}

/// One frame's interaction with the sprite-render inspector: the sheet
/// dropdown's selection and the index slider's new position.
#[derive(Clone, Copy, PartialEq, Eq, Structural, Debug)]
pub struct SpriteRenderInput {
    pub sheet_choice: Option<usize>,
    pub number_slide: Option<i64>,
}

/// A slider position clamped to the valid sprite indices of a sheet with
/// `count` sprites.
pub open spec fn clamped_sprite_number(v: i64, count: usize) -> usize {
    if v < 0 {
        0
    } else if v > count - 1 {
        (count - 1) as usize
    } else {
        v as usize
    }
}

/// The staged record after one frame: the sheet flows through its dropdown,
/// and the index resets to 0 on a sheet switch before the slider applies.
pub open spec fn sprite_render_stepped(
    me: SpriteRender,
    sheet_list: Seq<(String, u64)>,
    counts: Seq<(u64, usize)>,
    input: SpriteRenderInput,
) -> SpriteRender {
    let sheet = handle_combo_result(me.sprite_sheet, sheet_list, input.sheet_choice);
    let base = if sheet == me.sprite_sheet {
        me.sprite_number
    } else {
        0
    };
    let number = match input.number_slide {
        Some(v) => clamped_sprite_number(v, sheet_count_of(counts, sheet)->Some_0),
        None => base,
    };
    SpriteRender { sprite_sheet: sheet, sprite_number: number }
}

pub open spec fn sprite_render_touched(sheet_list: Seq<(String, u64)>, input: SpriteRenderInput) -> bool {
    (sheet_list.len() > 0 && input.sheet_choice is Some) || input.number_slide is Some
}

pub fn inspect_sprite_render(
    me: &SpriteRender,
    sheet_list: &Vec<(String, u64)>,
    counts: &Vec<(u64, usize)>,
    input: SpriteRenderInput,
) -> (r: (SpriteRender, bool))
    requires
        input.sheet_choice matches Some(i) ==> sheet_list@.len() > 0 && i < sheet_list@.len(),
        sheet_count_of(
            counts@,
            handle_combo_result(me.sprite_sheet, sheet_list@, input.sheet_choice),
        ) matches Some(c) && 1 <= c <= i32::MAX,
    ensures
        r.0 == sprite_render_stepped(*me, sheet_list@, counts@, input),
        r.1 == sprite_render_touched(sheet_list@, input),
{
    let (sheet, sheet_changed) = combo_handle(sheet_list, me.sprite_sheet, input.sheet_choice);
    let base: usize = if sheet == me.sprite_sheet {
        me.sprite_number
    } else {
        0
    };
    let count = sheet_count(counts, sheet);
    let limit: usize = match count {
        Some(c) => c,
        None => 1,
    };
    let number: usize = match input.number_slide {
        Some(v) => {
            if v < 0 {
                0
            } else if v > (limit - 1) as i64 {
                limit - 1
            } else {
                v as usize
            }
        },
        None => base,
    };
    let touched = sheet_changed || input.number_slide.is_some();
    (SpriteRender { sprite_sheet: sheet, sprite_number: number }, touched)
}

/// One inspection pass over the sprite render of `entity`: a silent no-op
/// when the entity no longer holds the record; otherwise the whole staged
/// record is queued exactly when the dropdown or the slider was touched.
pub fn sprite_render_pass(
    storage: &Storage<SpriteRender>,
    entity: Entity,
    sheet_list: &Vec<(String, u64)>,
    counts: &Vec<(u64, usize)>,
    input: SpriteRenderInput,
    queue: &mut UpdateQueue<SpriteRender>,
)
    requires
        storage.wf(),
        input.sheet_choice matches Some(i) ==> sheet_list@.len() > 0 && i < sheet_list@.len(),
        storage@.contains_key(entity) ==> (sheet_count_of(
            counts@,
            handle_combo_result(storage@[entity].sprite_sheet, sheet_list@, input.sheet_choice),
        ) matches Some(c) && 1 <= c <= i32::MAX),
    ensures
        !storage@.contains_key(entity) ==> final(queue)@ == old(queue)@,
        storage@.contains_key(entity) && sprite_render_touched(sheet_list@, input)
            ==> final(queue)@ == old(queue)@.push(
            Update::Insert(
                entity,
                sprite_render_stepped(storage@[entity], sheet_list@, counts@, input),
            ),
        ),
        storage@.contains_key(entity) && !sprite_render_touched(sheet_list@, input)
            ==> final(queue)@ == old(queue)@,
{
    match storage.get(entity) {
        Some(me) => {
            let current = *me;
            let (staged, changed) = inspect_sprite_render(&current, sheet_list, counts, input);
            queue.commit_record(entity, staged, changed);
        },
        None => {},
    }
}

/// An untouched frame stages the record unchanged — provided the sheet
/// still appears in the sheet list (or the list is empty) — so nothing is
/// ever re-committed for it.
pub proof fn lemma_sprite_render_untouched_keeps_record(
    me: SpriteRender,
    sheet_list: Seq<(String, u64)>,
    counts: Seq<(u64, usize)>,
    input: SpriteRenderInput,
)
    requires
        !sprite_render_touched(sheet_list, input),
        sheet_list.len() == 0 || crate::picker::handles_of(sheet_list).contains(me.sprite_sheet),
        input.sheet_choice is None,
    ensures
        sprite_render_stepped(me, sheet_list, counts, input) == me,
{
    crate::picker::lemma_display_index_default(
        crate::picker::handles_of(sheet_list),
        me.sprite_sheet,
    );
}

/// A sprite render is addable only while the embedding's sheet list is
/// non-empty.
pub fn sprite_render_can_add(sheet_list: &Vec<(String, u64)>) -> (r: bool)
    ensures
        r == (sheet_list@.len() > 0),
{
    sheet_list.len() > 0
}

/// Adding queues the first listed sheet at sprite index 0 as the whole
/// record.
pub fn sprite_render_add(
    queue: &mut UpdateQueue<SpriteRender>,
    entity: Entity,
    sheet_list: &Vec<(String, u64)>,
)
    requires
        sheet_list@.len() > 0,
    ensures
        final(queue)@ == old(queue)@.push(
            Update::Insert(
                entity,
                SpriteRender { sprite_sheet: sheet_list@[0].1, sprite_number: 0 },
            ),
        ),
{
    let sheet: u64 = sheet_list[0].1;
    queue.push_insert(entity, SpriteRender { sprite_sheet: sheet, sprite_number: 0 });
}

} // verus!
