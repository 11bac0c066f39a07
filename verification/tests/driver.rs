use inspect_core::Entity;
use inspect_core::EntityCommand;
use inspect_core::SectionOutcome;
use inspect_core::TypeDecision;
use inspect_core::TypeFrameInput;
use inspect_core::decide_types;
use inspect_core::draw_add_component;
use inspect_core::draw_inspect_component;
use inspect_core::entity_buttons;
use inspect_core::inspection_target;
use inspect_core::run_type_decision;
use inspect_core::Storage;
use inspect_core::UpdateQueue;

fn idle_type() -> TypeFrameInput {
    TypeFrameInput {
        present: false,
        can_add: false,
        add_clicked: false,
        expanded: false,
        can_remove: true,
        remove_clicked: false,
    }
}

#[test]
fn add_button_requires_eligibility_absence_and_a_click() {
    assert!(draw_add_component(true, false, true));
    assert!(!draw_add_component(false, false, true));
    assert!(!draw_add_component(true, true, true));
    assert!(!draw_add_component(true, false, false));
}

#[test]
fn section_outcomes_cover_all_cases() {
    assert_eq!(draw_inspect_component(false, true, true, true), SectionOutcome::Absent);
    assert_eq!(draw_inspect_component(true, true, true, true), SectionOutcome::Removed);
    assert_eq!(draw_inspect_component(true, true, false, true), SectionOutcome::Inspected);
    assert_eq!(draw_inspect_component(true, true, true, false), SectionOutcome::Inspected);
    assert_eq!(draw_inspect_component(true, false, true, false), SectionOutcome::Collapsed);
}

#[test]
fn types_are_decided_in_registration_order() {
    let mut absent_addable = idle_type();
    absent_addable.can_add = true;
    absent_addable.add_clicked = true;
    let mut present_removed = idle_type();
    present_removed.present = true;
    present_removed.remove_clicked = true;
    let mut present_inspected = idle_type();
    present_inspected.present = true;
    present_inspected.expanded = true;
    let inputs = vec![absent_addable, present_removed, present_inspected, idle_type()];
    let decisions = decide_types(&inputs);
    assert_eq!(
        decisions,
        vec![TypeDecision::Add, TypeDecision::Remove, TypeDecision::Inspect, TypeDecision::Skip]
    );
}

#[test]
fn dead_or_missing_selection_draws_nothing() {
    let e = Entity::new(1, 0);
    assert_eq!(inspection_target(Some(e), true), Some(e));
    assert_eq!(inspection_target(Some(e), false), None);
    assert_eq!(inspection_target(None, true), None);
}

#[test]
fn entity_buttons_queue_in_draw_order() {
    let e = Entity::new(1, 0);
    assert_eq!(entity_buttons(e, false, false), Vec::<EntityCommand>::new());
    assert_eq!(entity_buttons(e, true, false), vec![EntityCommand::CreateChild { parent: e }]);
    assert_eq!(entity_buttons(e, false, true), vec![EntityCommand::DeleteEntity { entity: e }]);
    assert_eq!(
        entity_buttons(e, true, true),
        vec![
            EntityCommand::CreateChild { parent: e },
            EntityCommand::DeleteEntity { entity: e },
        ]
    );
}

#[test]
fn decisions_queue_the_right_mutations() {
    let e = Entity::new(1, 0);
    let mut storage: Storage<u32> = Storage::new();
    storage.insert(e, 5);
    let mut queue: UpdateQueue<u32> = UpdateQueue::new();
    run_type_decision(&mut queue, e, TypeDecision::Inspect, 0);
    run_type_decision(&mut queue, e, TypeDecision::Skip, 0);
    run_type_decision(&mut queue, e, TypeDecision::Remove, 0);
    queue.apply(&mut storage);
    assert!(!storage.contains(e));
    let mut add_queue: UpdateQueue<u32> = UpdateQueue::new();
    run_type_decision(&mut add_queue, e, TypeDecision::Add, 9);
    add_queue.apply(&mut storage);
    assert_eq!(storage.get(e), Some(&9));
}
