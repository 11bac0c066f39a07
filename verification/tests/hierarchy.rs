use inspect_core::Entity;
use inspect_core::InspectorHierarchy;
use inspect_core::InspectorState;
use inspect_core::ParentUpdate;
use inspect_core::Storage;
use inspect_core::apply_parent_update;
use inspect_core::children_of;
use inspect_core::node_label;
use inspect_core::root_entities;

#[test]
fn drag_onto_self_is_a_noop_and_returns_to_idle() {
    let a = Entity::new(1, 0);
    let mut h = InspectorHierarchy::new();
    h.begin_frame();
    h.observe_node(a, true, true);
    assert_eq!(h.dragging, Some(a));
    let outcome = h.resolve_drag(false, false);
    assert!(outcome.is_none());
    assert!(h.dragging.is_none());
}

#[test]
fn drag_onto_empty_space_clears_parent_link() {
    let a = Entity::new(1, 0);
    let mut h = InspectorHierarchy::new();
    h.observe_node(a, true, true);
    h.begin_frame();
    let outcome = h.resolve_drag(false, false);
    assert!(matches!(outcome, Some(ParentUpdate::ClearParent { child }) if child == a));
    assert!(h.dragging.is_none());
}

#[test]
fn drag_onto_other_node_sets_parent() {
    let a = Entity::new(1, 0);
    let b = Entity::new(2, 0);
    let mut h = InspectorHierarchy::new();
    h.observe_node(a, true, true);
    h.begin_frame();
    h.observe_node(b, true, false);
    let outcome = h.resolve_drag(false, false);
    assert!(
        matches!(outcome, Some(ParentUpdate::SetParent { child, parent }) if child == a && parent == b)
    );
    assert!(h.dragging.is_none());
}

#[test]
fn drag_does_not_resolve_while_mouse_is_held() {
    let a = Entity::new(1, 0);
    let mut h = InspectorHierarchy::new();
    h.observe_node(a, true, true);
    assert!(h.resolve_drag(true, true).is_none());
    assert_eq!(h.dragging, Some(a));
    assert!(h.resolve_drag(false, true).is_none());
    assert_eq!(h.dragging, Some(a));
}

#[test]
fn a_second_press_does_not_steal_the_drag() {
    let a = Entity::new(1, 0);
    let b = Entity::new(2, 0);
    let mut h = InspectorHierarchy::new();
    h.observe_node(a, true, true);
    h.observe_node(b, true, true);
    assert_eq!(h.dragging, Some(a));
    assert_eq!(h.hovering, Some(b));
}

#[test]
fn resolving_without_a_drag_does_nothing() {
    let mut h = InspectorHierarchy::new();
    assert!(h.resolve_drag(false, false).is_none());
}

#[test]
fn parent_updates_apply_to_the_parent_storage() {
    let a = Entity::new(1, 0);
    let b = Entity::new(2, 0);
    let mut parents: Storage<Entity> = Storage::new();
    apply_parent_update(&mut parents, ParentUpdate::SetParent { child: a, parent: b });
    assert_eq!(parents.get(a), Some(&b));
    apply_parent_update(&mut parents, ParentUpdate::ClearParent { child: a });
    assert!(!parents.contains(a));
}

#[test]
fn roots_are_entities_without_parents() {
    let a = Entity::new(1, 0);
    let b = Entity::new(2, 0);
    let c = Entity::new(3, 0);
    let entities = vec![a, b, c];
    let mut parents: Storage<Entity> = Storage::new();
    parents.insert(b, a);
    parents.insert(c, b);
    assert_eq!(root_entities(&entities, &parents), vec![a]);
    assert_eq!(children_of(&entities, &parents, a), vec![b]);
    assert_eq!(children_of(&entities, &parents, b), vec![c]);
    assert_eq!(children_of(&entities, &parents, c), Vec::<Entity>::new());
}

#[test]
fn inspect_button_selects_the_row_entity() {
    let a = Entity::new(1, 0);
    let h = InspectorHierarchy::new();
    let mut state = InspectorState::new();
    h.inspect_button(&mut state, a, false);
    assert!(state.selected.is_none());
    h.inspect_button(&mut state, a, true);
    assert_eq!(state.selected, Some(a));
}

#[test]
fn node_label_prefers_the_name_component() {
    let a = Entity::new(1, 0);
    let b = Entity::new(2, 0);
    let mut names: Storage<String> = Storage::new();
    names.insert(a, String::from("camera rig"));
    assert_eq!(node_label(a, &names), Some(String::from("camera rig")));
    assert_eq!(node_label(b, &names), None);
}
