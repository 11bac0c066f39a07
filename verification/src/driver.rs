//! The aggregate inspector driver.
//!
//! Once per frame, for the selected entity: if it is still alive, offer
//! buttons to create a child entity or delete it; for every registered record
//! type not present on the entity, an "add" button gated by the type's
//! eligibility; for every type present, a collapsible section with an
//! optional "remove" button. Record types are visited in the fixed order of
//! the embedding configuration. Every mutation is queued, never applied
//! during the pass.

use vstd::prelude::*;

use crate::Entity;

verus! {

/// The "add" button of one record type runs its add hook exactly when the
/// type says it can be added, the entity does not already hold it, and the
/// button was clicked.
pub fn draw_add_component(can_add: bool, present: bool, clicked: bool) -> (r: bool)
    ensures
        r == (can_add && !present && clicked),
{
    can_add && !present && clicked
}

/// What one record type's section does this frame.
#[derive(Clone, Copy, PartialEq, Eq, Structural, Debug)]
pub enum SectionOutcome {
    /// The entity does not hold the record; nothing is drawn.
    Absent,
    /// The remove button was clicked; a removal is queued.
    Removed,
    /// The section is expanded; the record's own inspector runs.
    Inspected,
    /// The section is present but collapsed.
    Collapsed,
}

/// The decision behind one record type's collapsible section: absent records
/// draw nothing; an eligible remove click wins over inspection; otherwise an
/// expanded section runs the record's inspector.
pub open spec fn section_outcome(
    present: bool,
    expanded: bool,
    can_remove: bool,
    remove_clicked: bool,
) -> SectionOutcome {
    if !present {
        SectionOutcome::Absent
    } else if can_remove && remove_clicked {
        SectionOutcome::Removed
    } else if expanded {
        SectionOutcome::Inspected
    } else {
        SectionOutcome::Collapsed
    }
}

pub fn draw_inspect_component(
    present: bool,
    expanded: bool,
    can_remove: bool,
    remove_clicked: bool,
) -> (r: SectionOutcome)
    ensures
        r == section_outcome(present, expanded, can_remove, remove_clicked),
{
    if !present {
        SectionOutcome::Absent
    } else if can_remove && remove_clicked {
        SectionOutcome::Removed
    } else if expanded {
        SectionOutcome::Inspected
    } else {
        SectionOutcome::Collapsed
    }
}

/// One registered record type's widget state for one frame.
#[derive(Clone, Copy, PartialEq, Eq, Structural, Debug)]
pub struct TypeFrameInput {
    pub present: bool,
    pub can_add: bool,
    pub add_clicked: bool,
    pub expanded: bool,
    pub can_remove: bool,
    pub remove_clicked: bool,
}

/// What the driver decides for one registered record type.
#[derive(Clone, Copy, PartialEq, Eq, Structural, Debug)]
pub enum TypeDecision {
    /// Queue the type's add hook.
    Add,
    /// Queue removal of the record.
    Remove,
    /// Run the record's inspector.
    Inspect,
    /// Draw nothing further for this type.
    Skip,
}

/// The per-type decision: an absent record can only be added; a present one
/// is removed, inspected, or left collapsed.
pub open spec fn type_decision(input: TypeFrameInput) -> TypeDecision {
    if !input.present {
        if input.can_add && input.add_clicked {
            TypeDecision::Add
        } else {
            TypeDecision::Skip
        }
    } else {
        match section_outcome(true, input.expanded, input.can_remove, input.remove_clicked) {
            SectionOutcome::Removed => TypeDecision::Remove,
            SectionOutcome::Inspected => TypeDecision::Inspect,
            _ => TypeDecision::Skip,
        }
    }
}

/// Decide every registered record type for this frame, in the fixed order of
/// the embedding configuration: decision `i` belongs to registered type `i`.
pub fn decide_types(inputs: &Vec<TypeFrameInput>) -> (r: Vec<TypeDecision>)
    ensures
        r@.len() == inputs@.len(),
        forall|i: int| 0 <= i < r@.len() ==> r@[i] == type_decision(inputs@[i]),
{
    let n: usize = inputs.len();
    let mut r: Vec<TypeDecision> = Vec::new();
    let mut i: usize = 0;
    while i < n
        invariant
            n == inputs@.len(),
            i <= n,
            r@.len() == i,
            forall|j: int| 0 <= j < i ==> r@[j] == type_decision(inputs@[j]),
        decreases n - i,
    {
        let input = inputs[i];
        let d: TypeDecision;
        if !input.present {
            if draw_add_component(input.can_add, input.present, input.add_clicked) {
                d = TypeDecision::Add;
            } else {
                d = TypeDecision::Skip;
            }
        } else {
            match draw_inspect_component(
                true,
                input.expanded,
                input.can_remove,
                input.remove_clicked,
            ) {
                SectionOutcome::Removed => {
                    d = TypeDecision::Remove;
                },
                SectionOutcome::Inspected => {
                    d = TypeDecision::Inspect;
                },
                _ => {
                    d = TypeDecision::Skip;
                },
            }
        }
        r.push(d);
        i = i + 1;
    }
    r
}

/// Carry out the storage-touching part of one type's decision: an add
/// queues the type's fresh record, a removal queues the record's removal,
/// and the other decisions queue nothing here (inspection queues through
/// the record's own pass).
pub fn run_type_decision<C>(
    queue: &mut crate::storage::UpdateQueue<C>,
    entity: Entity,
    decision: TypeDecision,
    add_record: C,
)
    ensures
        decision is Add ==> final(queue)@ == old(queue)@.push(
            crate::storage::Update::Insert(entity, add_record),
        ),
        decision is Remove ==> final(queue)@ == old(queue)@.push(
            crate::storage::Update::Remove(entity),
        ),
        decision is Inspect || decision is Skip ==> final(queue)@ == old(queue)@,
{
    match decision {
        TypeDecision::Add => queue.push_insert(entity, add_record),
        TypeDecision::Remove => queue.push_remove(entity),
        TypeDecision::Inspect => {},
        TypeDecision::Skip => {},
    }
}

/// A queued entity-level mutation of the world.
#[derive(Clone, Copy, PartialEq, Eq, Structural, Debug)]
pub enum EntityCommand {
    /// Create a fresh entity whose parent link points at `parent`.
    CreateChild { parent: Entity },
    /// Delete `entity` and everything it holds.
    DeleteEntity { entity: Entity },
}

/// The entity-level buttons of one frame, in the order they are drawn.
pub open spec fn entity_button_commands(
    entity: Entity,
    make_child_clicked: bool,
    delete_clicked: bool,
) -> Seq<EntityCommand> {
    let with_child = if make_child_clicked {
        seq![EntityCommand::CreateChild { parent: entity }]
    } else {
        Seq::<EntityCommand>::empty()
    };
    if delete_clicked {
        with_child.push(EntityCommand::DeleteEntity { entity })
    } else {
        with_child
    }
}

/// The inspector draws for the selected entity only while it is still alive;
/// a dead or missing selection draws nothing.
pub fn inspection_target(selected: Option<Entity>, alive: bool) -> (r: Option<Entity>)
    ensures
        r == (if selected is Some && alive {
            selected
        } else {
            Option::<Entity>::None
        }),
{
    match selected {
        Some(e) => {
            if alive {
                Some(e)
            } else {
                None
            }
        },
        None => None,
    }
}

/// The "make child" and "remove" buttons for the selected entity, queued in
/// draw order.
pub fn entity_buttons(entity: Entity, make_child_clicked: bool, delete_clicked: bool) -> (r: Vec<
    EntityCommand,
>)
    ensures
        r@ == entity_button_commands(entity, make_child_clicked, delete_clicked),
{
    let mut r: Vec<EntityCommand> = Vec::new();
    if make_child_clicked {
        r.push(EntityCommand::CreateChild { parent: entity });
    }
    if delete_clicked {
        r.push(EntityCommand::DeleteEntity { entity });
    }
    proof {
        assert(r@ =~= entity_button_commands(entity, make_child_clicked, delete_clicked));
    }
    r
}

} // verus!
