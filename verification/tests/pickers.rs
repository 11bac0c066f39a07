use inspect_core::Anchor;
use inspect_core::Entity;
use inspect_core::Storage;
use inspect_core::anchor_list;
use inspect_core::combo_anchor;
use inspect_core::combo_entity;
use inspect_core::combo_entity_req;
use inspect_core::combo_handle;
use inspect_core::combo_marker;
use inspect_core::combo_u64;
use inspect_core::current_index_u64;
use inspect_core::entity_candidates;
use inspect_core::entity_candidates_req;
use inspect_core::marker_candidates;
use inspect_core::select_at;

#[test]
fn selecting_index_yields_that_element() {
    let items: Vec<u64> = vec![50, 60, 70];
    for i in 0..items.len() {
        let (value, changed) = combo_u64(&items, 999, Some(i));
        assert_eq!(value, items[i]);
        assert!(changed);
    }
}

#[test]
fn anchor_selection_yields_declared_variant() {
    let anchors = anchor_list();
    assert_eq!(anchors.len(), 9);
    let (value, changed) = combo_anchor(&anchors, Anchor::TopLeft, Some(4));
    assert!(matches!(value, Anchor::Middle));
    assert!(changed);
}

#[test]
fn missing_current_value_displays_index_zero() {
    let items: Vec<u64> = vec![50, 60, 70];
    assert_eq!(current_index_u64(&items, 999), 0);
    let (value, changed) = combo_u64(&items, 999, None);
    assert_eq!(value, 50);
    assert!(!changed);
}

#[test]
fn present_current_value_displays_its_index() {
    let items: Vec<u64> = vec![50, 60, 70];
    assert_eq!(current_index_u64(&items, 60), 1);
    let (value, changed) = combo_u64(&items, 60, None);
    assert_eq!(value, 60);
    assert!(!changed);
}

#[test]
fn duplicate_current_value_displays_last_index() {
    let items: Vec<u64> = vec![5, 6, 5];
    assert_eq!(current_index_u64(&items, 5), 2);
}

#[test]
fn select_at_is_plain_indexing() {
    let items: Vec<u64> = vec![9, 8, 7];
    assert_eq!(select_at(&items, 2), 7);
}

#[test]
fn empty_handle_list_draws_nothing_and_keeps_value() {
    let list: Vec<(String, u64)> = Vec::new();
    let (value, changed) = combo_handle(&list, 42, None);
    assert_eq!(value, 42);
    assert!(!changed);
}

#[test]
fn candidate_list_is_none_plus_entities_with_both_components() {
    let e1 = Entity::new(1, 0);
    let e2 = Entity::new(2, 0);
    let e3 = Entity::new(3, 0);
    let e4 = Entity::new(4, 0);
    let entities = vec![e1, e2, e3, e4];
    let mut base: Storage<u8> = Storage::new();
    base.insert(e1, 0);
    base.insert(e2, 0);
    base.insert(e3, 0);
    let mut companion: Storage<u8> = Storage::new();
    companion.insert(e2, 0);
    companion.insert(e3, 0);
    companion.insert(e4, 0);
    let candidates = entity_candidates(&entities, &base, &companion);
    assert_eq!(candidates.len(), 3);
    assert!(candidates[0].is_none());
    assert_eq!(candidates[1], Some(e2));
    assert_eq!(candidates[2], Some(e3));
}

#[test]
fn selecting_none_entry_clears_the_field() {
    let e1 = Entity::new(1, 0);
    let entities = vec![e1];
    let mut base: Storage<u8> = Storage::new();
    base.insert(e1, 0);
    let mut companion: Storage<u8> = Storage::new();
    companion.insert(e1, 0);
    let candidates = entity_candidates(&entities, &base, &companion);
    let (value, changed) = combo_entity(&candidates, Some(e1), Some(0));
    assert!(value.is_none());
    assert!(changed);
}

#[test]
fn removed_entity_falls_back_to_index_zero() {
    let e1 = Entity::new(1, 0);
    let gone = Entity::new(9, 0);
    let entities = vec![e1];
    let mut base: Storage<u8> = Storage::new();
    base.insert(e1, 0);
    let mut companion: Storage<u8> = Storage::new();
    companion.insert(e1, 0);
    let candidates = entity_candidates(&entities, &base, &companion);
    let (value, changed) = combo_entity(&candidates, Some(gone), None);
    assert!(value.is_none());
    assert!(!changed);
}

#[test]
fn required_candidates_have_no_none_entry() {
    let e1 = Entity::new(1, 0);
    let e2 = Entity::new(2, 0);
    let entities = vec![e1, e2];
    let mut base: Storage<u8> = Storage::new();
    base.insert(e2, 0);
    let candidates = entity_candidates_req(&entities, &base);
    assert_eq!(candidates, vec![e2]);
    let (value, changed) = combo_entity_req(&candidates, e1, None);
    assert_eq!(value, e2);
    assert!(!changed);
}

#[test]
fn marker_candidates_list_marker_values() {
    let e1 = Entity::new(1, 0);
    let e2 = Entity::new(2, 0);
    let entities = vec![e1, e2];
    let mut markers: Storage<u64> = Storage::new();
    markers.insert(e1, 100);
    markers.insert(e2, 200);
    let mut companion: Storage<u8> = Storage::new();
    companion.insert(e2, 0);
    let candidates = marker_candidates(&entities, &markers, &companion);
    assert_eq!(candidates, vec![None, Some(200)]);
    let (value, changed) = combo_marker(&candidates, None, Some(1));
    assert_eq!(value, Some(200));
    assert!(changed);
}
