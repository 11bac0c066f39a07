//! A typed, composable property-inspection library with change detection and
//! delegated editing.
//!
//! An inspector shows the component records attached to a selected entity and
//! lets the user edit them through widgets. Each widget reports whether it was
//! touched this frame; a record is re-committed only when some widget reports a
//! change, and always as a whole. All mutations are staged in deferred update
//! queues and applied after the read-only pass, never during it.

use vstd::prelude::*;

mod controls;
mod driver;
mod hierarchy;
mod inspectors;
mod picker;
mod storage;

pub use controls::ControlInput;
pub use controls::DurationControlBuilder;
pub use controls::IntControlBuilder;
pub use controls::Vec2;
pub use controls::Vec2ControlBuilder;
pub use controls::Vec2Input;
pub use controls::Vec3;
pub use controls::Vec3ControlBuilder;
pub use controls::Vec3Input;
pub use controls::Vec4;
pub use controls::Vec4ControlBuilder;
pub use controls::Vec4Input;
pub use controls::vec2_stepped;
pub use controls::vec2_touched;
pub use controls::vec3_stepped;
pub use controls::vec3_touched;
pub use controls::vec4_stepped;
pub use controls::vec4_touched;
pub use controls::checkbox;
pub use controls::clamped_i32;
pub use controls::lemma_idle_keeps_value;
pub use controls::lemma_reset_overrides_all;
pub use controls::stepped_i32;
pub use controls::stepped_millis;
pub use controls::text_input;
pub use driver::EntityCommand;
pub use driver::SectionOutcome;
pub use driver::TypeDecision;
pub use driver::TypeFrameInput;
pub use driver::decide_types;
pub use driver::draw_add_component;
pub use driver::draw_inspect_component;
pub use driver::entity_button_commands;
pub use driver::entity_buttons;
pub use driver::inspection_target;
pub use driver::run_type_decision;
pub use driver::section_outcome;
pub use driver::type_decision;
pub use inspectors::anchors::Anchor;
pub use inspectors::anchors::anchor_list;
pub use inspectors::anchors::anchor_variants;
pub use inspectors::anchors::combo_anchor;
pub use inspectors::anchors::current_index_anchor;
pub use inspectors::blink::Blink;
pub use inspectors::blink::BlinkInput;
pub use inspectors::blink::blink_add;
pub use inspectors::blink::blink_can_add;
pub use inspectors::blink::blink_pass;
pub use inspectors::blink::blink_stepped;
pub use inspectors::blink::blink_touched;
pub use inspectors::blink::default_blink;
pub use inspectors::blink::inspect_blink;
pub use inspectors::blink::lemma_blink_commits_whole_record;
pub use inspectors::blink::lemma_blink_untouched_keeps_record;
pub use inspectors::markers::MarkerAllocator;
pub use inspectors::markers::allocator_wf;
pub use inspectors::markers::lemma_mark_is_stable;
pub use inspectors::markers::marker_add;
pub use inspectors::markers::marker_can_add;
pub use inspectors::named::Named;
pub use inspectors::named::NamedInput;
pub use inspectors::named::inspect_named;
pub use inspectors::named::lemma_named_same_text_no_commit;
pub use inspectors::named::named_add;
pub use inspectors::named::named_can_add;
pub use inspectors::named::named_pass;
pub use inspectors::named::named_stepped;
pub use inspectors::named::named_touched;
pub use inspectors::rgba::Rgba;
pub use inspectors::rgba::default_rgba;
pub use inspectors::rgba::inspect_rgba;
pub use inspectors::rgba::rgba_add;
pub use inspectors::rgba::rgba_can_add;
pub use inspectors::rgba::rgba_pass;
pub use inspectors::rgba::rgba_stepped;
pub use inspectors::sprite_render::SpriteRender;
pub use inspectors::sprite_render::SpriteRenderInput;
pub use inspectors::sprite_render::clamped_sprite_number;
pub use inspectors::sprite_render::inspect_sprite_render;
pub use inspectors::sprite_render::sheet_count;
pub use inspectors::sprite_render::sheet_count_of;
pub use inspectors::sprite_render::lemma_sprite_render_untouched_keeps_record;
pub use inspectors::sprite_render::sprite_render_add;
pub use inspectors::sprite_render::sprite_render_can_add;
pub use inspectors::sprite_render::sprite_render_pass;
pub use inspectors::sprite_render::sprite_render_stepped;
pub use inspectors::sprite_render::sprite_render_touched;
pub use inspectors::texture::TextureHandle;
pub use inspectors::texture::TextureInput;
pub use inspectors::texture::inspect_texture;
pub use inspectors::texture::lemma_texture_untouched_keeps_record;
pub use inspectors::texture::texture_add;
pub use inspectors::texture::texture_can_add;
pub use inspectors::texture::texture_pass;
pub use inspectors::texture::texture_stepped;
pub use inspectors::tint::Tint;
pub use inspectors::tint::default_tint;
pub use inspectors::tint::inspect_tint;
pub use inspectors::tint::tint_add;
pub use inspectors::tint::tint_can_add;
pub use inspectors::tint::tint_pass;
pub use inspectors::tint::tint_stepped;
pub use inspectors::transform::Transform;
pub use inspectors::transform::TransformInput;
pub use inspectors::transform::TransformInspectorData;
pub use inspectors::transform::default_transform;
pub use inspectors::transform::inspect_transform;
pub use inspectors::transform::lemma_transform_commits_whole_record;
pub use inspectors::transform::lemma_transform_untouched_keeps_record;
pub use inspectors::transform::transform_add;
pub use inspectors::transform::transform_can_add;
pub use inspectors::transform::transform_commit_frame;
pub use inspectors::transform::transform_pass;
pub use inspectors::transform::transform_stepped;
pub use inspectors::transform::transform_touched;
pub use inspectors::ui_text::LineMode;
pub use inspectors::ui_text::UiText;
pub use inspectors::ui_text::UiTextInput;
pub use inspectors::ui_text::combo_line_mode;
pub use inspectors::ui_text::current_index_line_mode;
pub use inspectors::ui_text::font_combo_result;
pub use inspectors::ui_text::inspect_ui_text;
pub use inspectors::ui_text::lemma_ui_text_untouched_keeps_record;
pub use inspectors::ui_text::line_mode_combo_result;
pub use inspectors::ui_text::line_mode_list;
pub use inspectors::ui_text::line_mode_variants;
pub use inspectors::ui_text::ui_text_add;
pub use inspectors::ui_text::ui_text_can_add;
pub use inspectors::ui_text::ui_text_pass;
pub use inspectors::ui_text::ui_text_stepped;
pub use inspectors::ui_text::ui_text_touched;
pub use inspectors::ui_transform::ScaleMode;
pub use inspectors::ui_transform::UiTransform;
pub use inspectors::ui_transform::UiTransformInput;
pub use inspectors::ui_transform::anchor_combo_result;
pub use inspectors::ui_transform::combo_scale_mode;
pub use inspectors::ui_transform::current_index_scale_mode;
pub use inspectors::ui_transform::default_ui_transform;
pub use inspectors::ui_transform::inspect_ui_transform;
pub use inspectors::ui_transform::lemma_ui_transform_untouched_keeps_record;
pub use inspectors::ui_transform::scale_mode_combo_result;
pub use inspectors::ui_transform::scale_mode_list;
pub use inspectors::ui_transform::scale_mode_variants;
pub use inspectors::ui_transform::size_null_to;
pub use inspectors::ui_transform::ui_transform_add;
pub use inspectors::ui_transform::ui_transform_can_add;
pub use inspectors::ui_transform::ui_transform_pass;
pub use inspectors::ui_transform::ui_transform_stepped;
pub use inspectors::ui_transform::ui_transform_touched;
pub use inspectors::ui_transform_debug::UiTransformDebug;
pub use inspectors::ui_transform_debug::UiTransformDebugInput;
pub use inspectors::ui_transform_debug::camera_combo_result;
pub use inspectors::ui_transform_debug::inspect_ui_transform_debug;
pub use inspectors::ui_transform_debug::lemma_debug_untouched_keeps_record;
pub use inspectors::ui_transform_debug::overlay_corners;
pub use inspectors::ui_transform_debug::should_draw_overlay;
pub use inspectors::ui_transform_debug::ui_transform_debug_add;
pub use inspectors::ui_transform_debug::ui_transform_debug_can_add;
pub use inspectors::ui_transform_debug::ui_transform_debug_pass;
pub use inspectors::ui_transform_debug::ui_transform_debug_stepped;
pub use hierarchy::InspectorHierarchy;
pub use hierarchy::ParentUpdate;
pub use hierarchy::apply_parent_update;
pub use hierarchy::children_of;
pub use hierarchy::drag_outcome;
pub use hierarchy::lemma_drag_onto_other_sets_parent;
pub use hierarchy::lemma_drag_onto_self_is_noop;
pub use hierarchy::lemma_drag_to_empty_clears_parent;
pub use hierarchy::node_label;
pub use hierarchy::root_entities;
pub use picker::combo_entity;
pub use picker::combo_entity_req;
pub use picker::combo_marker;
pub use picker::combo_u64;
pub use picker::current_index_entity;
pub use picker::current_index_entity_req;
pub use picker::current_index_marker;
pub use picker::current_index_u64;
pub use picker::display_index;
pub use picker::entity_candidate_list;
pub use picker::entity_candidate_list_req;
pub use picker::entity_candidates;
pub use picker::entity_candidates_req;
pub use picker::combo_handle;
pub use picker::handle_combo_result;
pub use picker::handle_list;
pub use picker::handles_of;
pub use picker::holds_both;
pub use picker::lemma_display_index_default;
pub use picker::lemma_entity_candidates_exact;
pub use picker::marker_candidate_list;
pub use picker::marker_candidates;
pub use picker::select_at;
pub use storage::Storage;
pub use storage::Update;
pub use storage::UpdateQueue;
pub use storage::apply_update;
pub use storage::apply_updates;
pub use storage::entries_map;
pub use storage::lemma_commit_replaces_whole_record;
pub use storage::lemma_empty_queue_writes_nothing;
pub use storage::unique_keys;

verus! {

/// An opaque reference into the host's object table: a slot index plus a
/// generation counter that distinguishes reuses of the same slot.
#[derive(Clone, Copy, PartialEq, Eq, Structural, Debug, Hash)]
pub struct Entity {
    pub id: u32,
    pub gen: u32,
}

impl Entity {
    pub fn new(id: u32, gen: u32) -> (r: Entity)
        ensures
            r.id == id,
            r.gen == gen,
    {
        Entity { id, gen }
    }
}

/// Transient UI state of the inspector: the currently selected entity and the
/// free-form save/load text buffers with their preset list. Created once at
/// startup and mutated every frame; never persisted here.
pub struct InspectorState {
    pub selected: Option<Entity>,
    pub save_text: String,
    pub load_text: String,
    pub presets: Vec<String>,
}

impl InspectorState {
    pub fn new() -> (r: InspectorState)
        ensures
            r.selected is None,
            r.save_text@ == Seq::<char>::empty(),
            r.load_text@ == Seq::<char>::empty(),
            r.presets@ == Seq::<String>::empty(),
    {
        InspectorState {
            selected: None,
            save_text: String::new(),
            load_text: String::new(),
            presets: Vec::new(),
        }
    }
}

} // verus!
