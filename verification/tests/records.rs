use inspect_core::Anchor;
use inspect_core::Blink;
use inspect_core::BlinkInput;
use inspect_core::ControlInput;
use inspect_core::Entity;
use inspect_core::LineMode;
use inspect_core::MarkerAllocator;
use inspect_core::Named;
use inspect_core::NamedInput;
use inspect_core::ScaleMode;
use inspect_core::SpriteRender;
use inspect_core::SpriteRenderInput;
use inspect_core::Storage;
use inspect_core::TextureHandle;
use inspect_core::TextureInput;
use inspect_core::Tint;
use inspect_core::Transform;
use inspect_core::TransformInput;
use inspect_core::TransformInspectorData;
use inspect_core::UiText;
use inspect_core::UiTextInput;
use inspect_core::UiTransform;
use inspect_core::UiTransformDebug;
use inspect_core::UiTransformDebugInput;
use inspect_core::UiTransformInput;
use inspect_core::UpdateQueue;
use inspect_core::Vec2;
use inspect_core::Vec2Input;
use inspect_core::Vec3;
use inspect_core::Vec3Input;
use inspect_core::Vec4;
use inspect_core::Vec4Input;
use inspect_core::blink_pass;
use inspect_core::marker_add;
use inspect_core::named_pass;
use inspect_core::overlay_corners;
use inspect_core::should_draw_overlay;
use inspect_core::sprite_render_pass;
use inspect_core::texture_pass;
use inspect_core::tint_pass;
use inspect_core::transform_add;
use inspect_core::transform_pass;
use inspect_core::ui_text_add;
use inspect_core::ui_text_pass;
use inspect_core::ui_transform_debug_pass;
use inspect_core::ui_transform_pass;

fn idle3() -> Vec3Input {
    Vec3Input { x: ControlInput::idle(), y: ControlInput::idle(), z: ControlInput::idle() }
}

fn idle2() -> Vec2Input {
    Vec2Input { x: ControlInput::idle(), y: ControlInput::idle() }
}

fn idle4() -> Vec4Input {
    Vec4Input {
        x: ControlInput::idle(),
        y: ControlInput::idle(),
        z: ControlInput::idle(),
        w: ControlInput::idle(),
    }
}

fn sample_transform() -> Transform {
    Transform {
        translation: Vec3 { x: 3, y: 4, z: 5 },
        rotation: 90,
        scale: Vec3 { x: 2, y: 2, z: 2 },
    }
}

#[test]
fn untouched_transform_is_never_recommitted() {
    let e = Entity::new(1, 0);
    let mut storage: Storage<Transform> = Storage::new();
    storage.insert(e, sample_transform());
    let mut data = TransformInspectorData { radians: false };
    let mut queue: UpdateQueue<Transform> = UpdateQueue::new();
    let input = TransformInput {
        translation: idle3(),
        rotation: ControlInput::idle(),
        radians_clicked: false,
        scale: idle3(),
    };
    transform_pass(&storage, e, &mut data, &input, &mut queue);
    queue.apply(&mut storage);
    assert_eq!(storage.get(e), Some(&sample_transform()));
}

#[test]
fn one_touched_field_commits_the_whole_transform() {
    let e = Entity::new(1, 0);
    let mut storage: Storage<Transform> = Storage::new();
    storage.insert(e, sample_transform());
    let mut data = TransformInspectorData { radians: false };
    let mut queue: UpdateQueue<Transform> = UpdateQueue::new();
    let input = TransformInput {
        translation: idle3(),
        rotation: ControlInput::dragged(45),
        radians_clicked: false,
        scale: idle3(),
    };
    transform_pass(&storage, e, &mut data, &input, &mut queue);
    queue.apply(&mut storage);
    let committed = storage.get(e).unwrap();
    assert_eq!(committed.rotation, 45);
    assert_eq!(committed.translation, Vec3 { x: 3, y: 4, z: 5 });
    assert_eq!(committed.scale, Vec3 { x: 2, y: 2, z: 2 });
}

#[test]
fn transform_pass_is_a_noop_for_a_missing_record() {
    let e = Entity::new(1, 0);
    let storage: Storage<Transform> = Storage::new();
    let mut data = TransformInspectorData { radians: false };
    let mut queue: UpdateQueue<Transform> = UpdateQueue::new();
    let input = TransformInput {
        translation: idle3(),
        rotation: ControlInput::dragged(45),
        radians_clicked: true,
        scale: idle3(),
    };
    transform_pass(&storage, e, &mut data, &input, &mut queue);
    assert!(!data.radians);
    let mut target: Storage<Transform> = Storage::new();
    queue.apply(&mut target);
    assert!(!target.contains(e));
}

#[test]
fn radians_toggle_changes_preference_not_record() {
    let e = Entity::new(1, 0);
    let mut storage: Storage<Transform> = Storage::new();
    storage.insert(e, sample_transform());
    let mut data = TransformInspectorData { radians: false };
    let mut queue: UpdateQueue<Transform> = UpdateQueue::new();
    let input = TransformInput {
        translation: idle3(),
        rotation: ControlInput::idle(),
        radians_clicked: true,
        scale: idle3(),
    };
    transform_pass(&storage, e, &mut data, &input, &mut queue);
    assert!(data.radians);
    queue.apply(&mut storage);
    assert_eq!(storage.get(e), Some(&sample_transform()));
}

#[test]
fn scale_resets_to_one_translation_to_zero() {
    let e = Entity::new(1, 0);
    let mut storage: Storage<Transform> = Storage::new();
    storage.insert(e, sample_transform());
    let mut data = TransformInspectorData { radians: false };
    let mut queue: UpdateQueue<Transform> = UpdateQueue::new();
    let input = TransformInput {
        translation: Vec3Input {
            x: ControlInput::reset_gesture(),
            y: ControlInput::idle(),
            z: ControlInput::idle(),
        },
        rotation: ControlInput::idle(),
        radians_clicked: false,
        scale: Vec3Input {
            x: ControlInput::reset_gesture(),
            y: ControlInput::idle(),
            z: ControlInput::idle(),
        },
    };
    transform_pass(&storage, e, &mut data, &input, &mut queue);
    queue.apply(&mut storage);
    let committed = storage.get(e).unwrap();
    assert_eq!(committed.translation.x, 0);
    assert_eq!(committed.scale.x, 1);
}

#[test]
fn transform_add_queues_the_default_record() {
    let e = Entity::new(1, 0);
    let mut queue: UpdateQueue<Transform> = UpdateQueue::new();
    transform_add(&mut queue, e);
    let mut storage: Storage<Transform> = Storage::new();
    queue.apply(&mut storage);
    assert_eq!(
        storage.get(e),
        Some(&Transform {
            translation: Vec3 { x: 0, y: 0, z: 0 },
            rotation: 0,
            scale: Vec3 { x: 1, y: 1, z: 1 },
        })
    );
}

#[test]
fn blink_commits_whole_record_with_untouched_timer() {
    let e = Entity::new(1, 0);
    let mut storage: Storage<Blink> = Storage::new();
    storage.insert(e, Blink { delay: 100, timer: 55, absolute_time: false });
    let mut queue: UpdateQueue<Blink> = UpdateQueue::new();
    let input = BlinkInput { delay: ControlInput::dragged(200), absolute_clicked: false };
    blink_pass(&storage, e, &input, &mut queue);
    queue.apply(&mut storage);
    assert_eq!(storage.get(e), Some(&Blink { delay: 200, timer: 55, absolute_time: false }));
}

#[test]
fn untouched_blink_is_never_recommitted() {
    let e = Entity::new(1, 0);
    let original = Blink { delay: 100, timer: 55, absolute_time: true };
    let mut storage: Storage<Blink> = Storage::new();
    storage.insert(e, original);
    let mut queue: UpdateQueue<Blink> = UpdateQueue::new();
    let input = BlinkInput { delay: ControlInput::idle(), absolute_clicked: false };
    blink_pass(&storage, e, &input, &mut queue);
    queue.apply(&mut storage);
    assert_eq!(storage.get(e), Some(&original));
}

#[test]
fn named_retyping_same_text_does_not_commit() {
    let e = Entity::new(1, 0);
    let mut storage: Storage<Named> = Storage::new();
    storage.insert(e, Named { name: String::from("hero") });
    let mut queue: UpdateQueue<Named> = UpdateQueue::new();
    named_pass(&storage, e, NamedInput { edit: Some(String::from("hero")) }, &mut queue);
    queue.apply(&mut storage);
    assert_eq!(storage.get(e).unwrap().name, "hero");
}

#[test]
fn named_different_text_commits() {
    let e = Entity::new(1, 0);
    let mut storage: Storage<Named> = Storage::new();
    storage.insert(e, Named { name: String::from("hero") });
    let mut queue: UpdateQueue<Named> = UpdateQueue::new();
    named_pass(&storage, e, NamedInput { edit: Some(String::from("villain")) }, &mut queue);
    queue.apply(&mut storage);
    assert_eq!(storage.get(e).unwrap().name, "villain");
}

#[test]
fn texture_selecting_current_entry_does_not_commit() {
    let e = Entity::new(1, 0);
    let mut storage: Storage<TextureHandle> = Storage::new();
    storage.insert(e, TextureHandle { handle: 60 });
    let textures = vec![(String::from("a"), 50), (String::from("b"), 60)];
    let mut queue: UpdateQueue<TextureHandle> = UpdateQueue::new();
    texture_pass(&storage, e, &textures, TextureInput { choice: Some(1) }, &mut queue);
    queue.apply(&mut storage);
    assert_eq!(storage.get(e), Some(&TextureHandle { handle: 60 }));
}

#[test]
fn texture_selecting_other_entry_commits() {
    let e = Entity::new(1, 0);
    let mut storage: Storage<TextureHandle> = Storage::new();
    storage.insert(e, TextureHandle { handle: 60 });
    let textures = vec![(String::from("a"), 50), (String::from("b"), 60)];
    let mut queue: UpdateQueue<TextureHandle> = UpdateQueue::new();
    texture_pass(&storage, e, &textures, TextureInput { choice: Some(0) }, &mut queue);
    queue.apply(&mut storage);
    assert_eq!(storage.get(e), Some(&TextureHandle { handle: 50 }));
}

#[test]
fn tint_reset_snaps_channel_to_white() {
    let e = Entity::new(1, 0);
    let mut storage: Storage<Tint> = Storage::new();
    storage.insert(e, Tint { color: Vec4 { x: 10, y: 20, z: 30, w: 40 } });
    let mut queue: UpdateQueue<Tint> = UpdateQueue::new();
    let input = Vec4Input {
        x: ControlInput::reset_gesture(),
        y: ControlInput::idle(),
        z: ControlInput::idle(),
        w: ControlInput::idle(),
    };
    tint_pass(&storage, e, &input, &mut queue);
    queue.apply(&mut storage);
    assert_eq!(storage.get(e), Some(&Tint { color: Vec4 { x: 255, y: 20, z: 30, w: 40 } }));
}

#[test]
fn sprite_sheet_switch_resets_sprite_number() {
    let e = Entity::new(1, 0);
    let mut storage: Storage<SpriteRender> = Storage::new();
    storage.insert(e, SpriteRender { sprite_sheet: 50, sprite_number: 7 });
    let sheets = vec![(String::from("a"), 50), (String::from("b"), 60)];
    let counts = vec![(50, 10), (60, 4)];
    let mut queue: UpdateQueue<SpriteRender> = UpdateQueue::new();
    let input = SpriteRenderInput { sheet_choice: Some(1), number_slide: None };
    sprite_render_pass(&storage, e, &sheets, &counts, input, &mut queue);
    queue.apply(&mut storage);
    assert_eq!(storage.get(e), Some(&SpriteRender { sprite_sheet: 60, sprite_number: 0 }));
}

#[test]
fn sprite_slider_clamps_to_sheet_size() {
    let e = Entity::new(1, 0);
    let mut storage: Storage<SpriteRender> = Storage::new();
    storage.insert(e, SpriteRender { sprite_sheet: 50, sprite_number: 0 });
    let sheets = vec![(String::from("a"), 50)];
    let counts = vec![(50, 4)];
    let mut queue: UpdateQueue<SpriteRender> = UpdateQueue::new();
    let input = SpriteRenderInput { sheet_choice: None, number_slide: Some(99) };
    sprite_render_pass(&storage, e, &sheets, &counts, input, &mut queue);
    queue.apply(&mut storage);
    assert_eq!(storage.get(e), Some(&SpriteRender { sprite_sheet: 50, sprite_number: 3 }));
}

#[test]
fn ui_transform_anchor_selection_yields_ith_variant() {
    let e = Entity::new(1, 0);
    let mut storage: Storage<UiTransform> = Storage::new();
    storage.insert(e, UiTransform::default());
    let mut queue: UpdateQueue<UiTransform> = UpdateQueue::new();
    let input = UiTransformInput {
        translation: idle3(),
        size: idle2(),
        anchor_choice: Some(0),
        pivot_choice: None,
        scale_mode_choice: None,
    };
    ui_transform_pass(&storage, e, &input, &mut queue);
    queue.apply(&mut storage);
    let committed = storage.get(e).unwrap();
    assert!(matches!(committed.anchor, Anchor::TopLeft));
    assert!(matches!(committed.pivot, Anchor::Middle));
    assert!(matches!(committed.scale_mode, ScaleMode::Pixel));
}

#[test]
fn ui_transform_size_sentinel_follows_scale_mode() {
    let e = Entity::new(1, 0);
    let mut storage: Storage<UiTransform> = Storage::new();
    let mut record = UiTransform::default();
    record.size = Vec2 { x: 17, y: 18 };
    record.scale_mode = ScaleMode::Percent;
    storage.insert(e, record);
    let mut queue: UpdateQueue<UiTransform> = UpdateQueue::new();
    let input = UiTransformInput {
        translation: idle3(),
        size: Vec2Input { x: ControlInput::reset_gesture(), y: ControlInput::idle() },
        anchor_choice: None,
        pivot_choice: None,
        scale_mode_choice: None,
    };
    ui_transform_pass(&storage, e, &input, &mut queue);
    queue.apply(&mut storage);
    assert_eq!(storage.get(e).unwrap().size, Vec2 { x: 1, y: 18 });
}

#[test]
fn untouched_ui_transform_is_never_recommitted() {
    let e = Entity::new(1, 0);
    let mut storage: Storage<UiTransform> = Storage::new();
    storage.insert(e, UiTransform::default());
    let mut queue: UpdateQueue<UiTransform> = UpdateQueue::new();
    let input = UiTransformInput {
        translation: idle3(),
        size: idle2(),
        anchor_choice: None,
        pivot_choice: None,
        scale_mode_choice: None,
    };
    ui_transform_pass(&storage, e, &input, &mut queue);
    queue.apply(&mut storage);
    assert_eq!(storage.get(e), Some(&UiTransform::default()));
}

fn sample_ui_text() -> UiText {
    UiText {
        text: String::from("hello"),
        font: 60,
        font_size: 24,
        color: Vec4 { x: 255, y: 255, z: 255, w: 255 },
        password: false,
        line_mode: LineMode::Single,
        align: Anchor::Middle,
    }
}

fn idle_ui_text_input() -> UiTextInput {
    UiTextInput {
        text_edit: None,
        font_choice: None,
        font_size: ControlInput::idle(),
        color: idle4(),
        password_clicked: false,
        line_mode_choice: None,
        align_choice: None,
    }
}

#[test]
fn untouched_ui_text_is_never_recommitted() {
    let e = Entity::new(1, 0);
    let mut storage: Storage<UiText> = Storage::new();
    storage.insert(e, sample_ui_text());
    let fonts = vec![(String::from("serif"), 50), (String::from("mono"), 60)];
    let mut queue: UpdateQueue<UiText> = UpdateQueue::new();
    ui_text_pass(&storage, e, &fonts, idle_ui_text_input(), &mut queue);
    queue.apply(&mut storage);
    assert_eq!(storage.get(e), Some(&sample_ui_text()));
}

#[test]
fn ui_text_edit_commits_whole_record() {
    let e = Entity::new(1, 0);
    let mut storage: Storage<UiText> = Storage::new();
    storage.insert(e, sample_ui_text());
    let fonts = vec![(String::from("serif"), 50), (String::from("mono"), 60)];
    let mut queue: UpdateQueue<UiText> = UpdateQueue::new();
    let mut input = idle_ui_text_input();
    input.text_edit = Some(String::from("bye"));
    input.font_choice = Some(0);
    ui_text_pass(&storage, e, &fonts, input, &mut queue);
    queue.apply(&mut storage);
    let committed = storage.get(e).unwrap();
    assert_eq!(committed.text, "bye");
    assert_eq!(committed.font, 50);
    assert_eq!(committed.font_size, 24);
    assert!(!committed.password);
}

#[test]
fn ui_text_add_also_supplies_missing_ui_transform() {
    let e = Entity::new(1, 0);
    let fonts: Vec<(String, u64)> = Vec::new();
    let transforms: Storage<UiTransform> = Storage::new();
    let mut text_queue: UpdateQueue<UiText> = UpdateQueue::new();
    let mut transform_queue: UpdateQueue<UiTransform> = UpdateQueue::new();
    ui_text_add(e, &fonts, 42, &transforms, &mut text_queue, &mut transform_queue);
    let mut texts: Storage<UiText> = Storage::new();
    text_queue.apply(&mut texts);
    let added = texts.get(e).unwrap();
    assert_eq!(added.text, "Sample text");
    assert_eq!(added.font, 42);
    assert_eq!(added.font_size, 30);
    let mut target: Storage<UiTransform> = Storage::new();
    transform_queue.apply(&mut target);
    assert_eq!(target.get(e), Some(&UiTransform::default()));
}

#[test]
fn marker_values_are_stable_and_unique() {
    let e1 = Entity::new(1, 0);
    let e2 = Entity::new(2, 0);
    let mut allocator = MarkerAllocator::new();
    let mut markers: Storage<u64> = Storage::new();
    marker_add(&mut allocator, &mut markers, e1);
    marker_add(&mut allocator, &mut markers, e2);
    marker_add(&mut allocator, &mut markers, e1);
    assert_eq!(markers.get(e1), Some(&0));
    assert_eq!(markers.get(e2), Some(&1));
    assert_eq!(allocator.next, 2);
}

#[test]
fn overlay_decision_and_corners() {
    assert!(should_draw_overlay(true, false, true, true, true));
    assert!(should_draw_overlay(false, true, true, true, true));
    assert!(!should_draw_overlay(false, false, true, true, true));
    assert!(!should_draw_overlay(true, true, false, true, true));
    let corners = overlay_corners(100, 200, 40, 20);
    assert_eq!(corners, vec![(80, 190), (120, 190), (120, 210), (80, 210)]);
}

#[test]
fn debug_record_commits_only_on_difference() {
    let e = Entity::new(1, 0);
    let camera = Entity::new(9, 0);
    let me = UiTransformDebug {
        camera,
        color: Vec4 { x: 255, y: 0, z: 0, w: 255 },
        children: false,
        always: true,
    };
    let mut storage: Storage<UiTransformDebug> = Storage::new();
    storage.insert(e, me);
    let cameras = vec![camera];
    let mut queue: UpdateQueue<UiTransformDebug> = UpdateQueue::new();
    let input = UiTransformDebugInput {
        camera_choice: None,
        color: idle4(),
        children_clicked: false,
        always_clicked: false,
    };
    ui_transform_debug_pass(&storage, e, &cameras, input, &mut queue);
    queue.apply(&mut storage);
    assert_eq!(storage.get(e), Some(&me));
    let toggled = UiTransformDebugInput {
        camera_choice: None,
        color: idle4(),
        children_clicked: true,
        always_clicked: false,
    };
    let mut second_queue: UpdateQueue<UiTransformDebug> = UpdateQueue::new();
    ui_transform_debug_pass(&storage, e, &cameras, toggled, &mut second_queue);
    second_queue.apply(&mut storage);
    assert!(storage.get(e).unwrap().children);
}

#[test]
fn commit_frame_writes_only_on_change() {
    let e = Entity::new(1, 0);
    let mut storage: Storage<Transform> = Storage::new();
    storage.insert(e, sample_transform());
    let mut data = TransformInspectorData { radians: false };
    let idle = TransformInput {
        translation: idle3(),
        rotation: ControlInput::idle(),
        radians_clicked: false,
        scale: idle3(),
    };
    inspect_core::transform_commit_frame(&mut storage, e, &mut data, &idle);
    assert_eq!(storage.get(e), Some(&sample_transform()));
    let dragged = TransformInput {
        translation: idle3(),
        rotation: ControlInput::dragged(10),
        radians_clicked: false,
        scale: idle3(),
    };
    inspect_core::transform_commit_frame(&mut storage, e, &mut data, &dragged);
    let committed = storage.get(e).unwrap();
    assert_eq!(committed.rotation, 10);
    assert_eq!(committed.scale, Vec3 { x: 2, y: 2, z: 2 });
}

#[test]
fn rgba_dragging_back_to_stored_value_does_not_commit() {
    let e = Entity::new(1, 0);
    let me = inspect_core::Rgba { color: Vec4 { x: 10, y: 20, z: 30, w: 40 } };
    let mut storage: Storage<inspect_core::Rgba> = Storage::new();
    storage.insert(e, me);
    let mut queue: UpdateQueue<inspect_core::Rgba> = UpdateQueue::new();
    let same = Vec4Input {
        x: ControlInput::dragged(10),
        y: ControlInput::idle(),
        z: ControlInput::idle(),
        w: ControlInput::idle(),
    };
    inspect_core::rgba_pass(&storage, e, &same, &mut queue);
    queue.apply(&mut storage);
    assert_eq!(storage.get(e), Some(&me));
    let different = Vec4Input {
        x: ControlInput::dragged(99),
        y: ControlInput::idle(),
        z: ControlInput::idle(),
        w: ControlInput::idle(),
    };
    let mut second_queue: UpdateQueue<inspect_core::Rgba> = UpdateQueue::new();
    inspect_core::rgba_pass(&storage, e, &different, &mut second_queue);
    second_queue.apply(&mut storage);
    assert_eq!(
        storage.get(e),
        Some(&inspect_core::Rgba { color: Vec4 { x: 99, y: 20, z: 30, w: 40 } })
    );
}
