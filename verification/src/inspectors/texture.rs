//! The texture-handle record: a bare handle picked from the embedding's
//! labelled texture list. This record commits on value difference rather
//! than on the widget's report: selecting the entry the field already holds
//! queues nothing.

use vstd::prelude::*;

use crate::Entity;
use crate::picker::combo_handle;
use crate::picker::handle_combo_result;
use crate::storage::Storage;
use crate::storage::Update;
use crate::storage::UpdateQueue;

verus! {

/// A handle to a texture resource of the embedding.
#[derive(Clone, Copy, PartialEq, Eq, Structural, Debug)]
pub struct TextureHandle {
    pub handle: u64,
}

/// One frame's interaction with the texture inspector: the dropdown's
/// selection, if any.
#[derive(Clone, Copy, PartialEq, Eq, Structural, Debug)]
pub struct TextureInput {
    pub choice: Option<usize>,
}

/// The staged handle after one frame.
pub open spec fn texture_stepped(
    me: TextureHandle,
    textures: Seq<(String, u64)>,
    input: TextureInput,
) -> TextureHandle {
    TextureHandle { handle: handle_combo_result(me.handle, textures, input.choice) }
}

pub fn inspect_texture(me: &TextureHandle, textures: &Vec<(String, u64)>, input: TextureInput) -> (r:
    (TextureHandle, bool))
    requires
        input.choice matches Some(i) ==> textures@.len() > 0 && i < textures@.len(),
    ensures
        r.0 == texture_stepped(*me, textures@, input),
        r.1 == (r.0 != *me),
{
    let (handle, _) = combo_handle(textures, me.handle, input.choice);
    let staged = TextureHandle { handle };
    let differs = staged.handle != me.handle;
    (staged, differs)
}

/// One inspection pass over the texture handle of `entity`: a silent no-op
/// when the entity no longer holds the record; a replacement is queued
/// exactly when the staged handle differs from the stored one.
pub fn texture_pass(
    storage: &Storage<TextureHandle>,
    entity: Entity,
    textures: &Vec<(String, u64)>,
    input: TextureInput,
    queue: &mut UpdateQueue<TextureHandle>,
)
    requires
        storage.wf(),
        input.choice matches Some(i) ==> textures@.len() > 0 && i < textures@.len(),
    ensures
        !storage@.contains_key(entity) ==> final(queue)@ == old(queue)@,
        storage@.contains_key(entity) && texture_stepped(storage@[entity], textures@, input)
            != storage@[entity] ==> final(queue)@ == old(queue)@.push(
            Update::Insert(entity, texture_stepped(storage@[entity], textures@, input)),
        ),
        storage@.contains_key(entity) && texture_stepped(storage@[entity], textures@, input)
            == storage@[entity] ==> final(queue)@ == old(queue)@,
{
    match storage.get(entity) {
        Some(me) => {
            let current = *me;
            let (staged, changed) = inspect_texture(&current, textures, input);
            queue.commit_record(entity, staged, changed);
        },
        None => {},
    }
}

/// An untouched dropdown stages the stored handle unchanged — provided the
/// handle still appears in the texture list (or the list is empty, in which
/// case the widget is not drawn) — so nothing is ever re-committed for it.
pub proof fn lemma_texture_untouched_keeps_record(
    me: TextureHandle,
    textures: Seq<(String, u64)>,
    input: TextureInput,
)
    requires
        input.choice is None,
        textures.len() == 0 || crate::picker::handles_of(textures).contains(me.handle),
    ensures
        texture_stepped(me, textures, input) == me,
{
    crate::picker::lemma_display_index_default(crate::picker::handles_of(textures), me.handle);
}

/// A texture handle is addable only while the embedding's texture list is
/// non-empty.
pub fn texture_can_add(textures: &Vec<(String, u64)>) -> (r: bool)
    ensures
        r == (textures@.len() > 0),
{
    textures.len() > 0
}

/// Adding queues the first listed texture as the whole record.
pub fn texture_add(
    queue: &mut UpdateQueue<TextureHandle>,
    entity: Entity,
    textures: &Vec<(String, u64)>,
)
    requires
        textures@.len() > 0,
    ensures
        final(queue)@ == old(queue)@.push(
            Update::Insert(entity, TextureHandle { handle: textures@[0].1 }),
        ),
{
    let handle: u64 = textures[0].1;
    queue.push_insert(entity, TextureHandle { handle });
}

} // verus!
