use inspect_core::ControlInput;
use inspect_core::DurationControlBuilder;
use inspect_core::IntControlBuilder;
use inspect_core::Vec3;
use inspect_core::Vec3Input;
use inspect_core::Vec3ControlBuilder;
use inspect_core::checkbox;
use inspect_core::text_input;

#[test]
fn reset_gesture_sets_sentinel_and_changed() {
    let (value, changed) = IntControlBuilder::new(42)
        .null_to(7)
        .build(&ControlInput::reset_gesture());
    assert_eq!(value, 7);
    assert!(changed);
}

#[test]
fn reset_gesture_wins_over_drag_in_same_frame() {
    let input = ControlInput { drag: Some(1000), reset: true };
    let (value, changed) = IntControlBuilder::new(42).null_to(-3).build(&input);
    assert_eq!(value, -3);
    assert!(changed);
}

#[test]
fn reset_gesture_is_unconditional_on_prior_value() {
    for prior in [i32::MIN, -1, 0, 7, i32::MAX] {
        let (value, changed) = IntControlBuilder::new(prior)
            .null_to(7)
            .build(&ControlInput::reset_gesture());
        assert_eq!(value, 7);
        assert!(changed);
    }
}

#[test]
fn idle_widget_keeps_value_and_reports_no_change() {
    let (value, changed) = IntControlBuilder::new(42).null_to(7).build(&ControlInput::idle());
    assert_eq!(value, 42);
    assert!(!changed);
}

#[test]
fn carried_in_change_flag_survives_idle_widget() {
    let (value, changed) = IntControlBuilder::new(42)
        .changed(true)
        .build(&ControlInput::idle());
    assert_eq!(value, 42);
    assert!(changed);
}

#[test]
fn drag_replaces_value_and_reports_change() {
    let (value, changed) = IntControlBuilder::new(42).build(&ControlInput::dragged(-17));
    assert_eq!(value, -17);
    assert!(changed);
}

#[test]
fn drag_clamps_to_representable_range() {
    let (high, _) = IntControlBuilder::new(0).build(&ControlInput::dragged(i64::MAX));
    assert_eq!(high, i32::MAX);
    let (low, _) = IntControlBuilder::new(0).build(&ControlInput::dragged(i64::MIN));
    assert_eq!(low, i32::MIN);
}

#[test]
fn builder_configuration_chains() {
    let b = IntControlBuilder::new(5)
        .label(String::from("speed"))
        .speed(3)
        .null_to(1)
        .changed(false);
    assert_eq!(b.value, 5);
    assert_eq!(b.speed, 3);
    assert_eq!(b.null_to, 1);
    assert_eq!(b.label.as_deref(), Some("speed"));
}

#[test]
fn duration_drag_floors_at_zero_milliseconds() {
    let (value, changed) = DurationControlBuilder::new(250).build(&ControlInput::dragged(-10));
    assert_eq!(value, 0);
    assert!(changed);
}

#[test]
fn duration_drag_clamps_to_widget_maximum() {
    let (value, _) = DurationControlBuilder::new(250).build(&ControlInput::dragged(i64::MAX));
    assert_eq!(value, i32::MAX as u64);
}

#[test]
fn duration_reset_snaps_to_sentinel_milliseconds() {
    let (value, changed) = DurationControlBuilder::new(250)
        .null_to(1000)
        .build(&ControlInput::reset_gesture());
    assert_eq!(value, 1000);
    assert!(changed);
}

#[test]
fn duration_idle_keeps_milliseconds() {
    let (value, changed) = DurationControlBuilder::new(250).build(&ControlInput::idle());
    assert_eq!(value, 250);
    assert!(!changed);
}

#[test]
fn vector_row_resets_one_component_only() {
    let values = Vec3 { x: 10, y: 20, z: 30 };
    let inputs = Vec3Input {
        x: ControlInput::idle(),
        y: ControlInput::reset_gesture(),
        z: ControlInput::idle(),
    };
    let (out, changed) = Vec3ControlBuilder::new(values).null_to(0).build(&inputs);
    assert_eq!(out, Vec3 { x: 10, y: 0, z: 30 });
    assert!(changed);
}

#[test]
fn vector_row_idle_keeps_all_components() {
    let values = Vec3 { x: 10, y: 20, z: 30 };
    let inputs = Vec3Input {
        x: ControlInput::idle(),
        y: ControlInput::idle(),
        z: ControlInput::idle(),
    };
    let (out, changed) = Vec3ControlBuilder::new(values).null_to(0).build(&inputs);
    assert_eq!(out, values);
    assert!(!changed);
}

#[test]
fn checkbox_flips_only_when_clicked() {
    assert_eq!(checkbox(false, true), (true, true));
    assert_eq!(checkbox(true, true), (false, true));
    assert_eq!(checkbox(true, false), (true, false));
    assert_eq!(checkbox(false, false), (false, false));
}

#[test]
fn text_input_edit_replaces_buffer() {
    let current = String::from("old");
    let (text, changed) = text_input(&current, Some(String::from("new")));
    assert_eq!(text, "new");
    assert!(changed);
}

#[test]
fn text_input_idle_keeps_buffer() {
    let current = String::from("old");
    let (text, changed) = text_input(&current, None);
    assert_eq!(text, "old");
    assert!(!changed);
}
