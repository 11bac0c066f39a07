//! The hierarchy browser: a tree over the parent/child entity graph.
//!
//! Roots are the entities without a parent component. Each node row can set
//! the inspected entity, and re-parenting is a two-phase drag gesture:
//! pressing over a node begins a drag, releasing over a target commits it.
//! Releasing over the dragged node itself is a no-op, releasing over empty
//! space clears the node's parent link, and releasing over another node sets
//! that node as the new parent. All outcomes return the gesture to idle, and
//! the mutation is only queued, never applied during the pass.

use vstd::prelude::*;

use crate::Entity;
use crate::InspectorState;
use crate::storage::Storage;

verus! {

/// A queued re-parenting mutation produced by the drag gesture.
#[derive(Clone, Copy, PartialEq, Eq, Structural, Debug)]
pub enum ParentUpdate {
    SetParent { child: Entity, parent: Entity },
    ClearParent { child: Entity },
}

/// What a finished drag of `source` does, given what the pointer was over
/// when it was released.
pub open spec fn drag_outcome(source: Entity, hovering: Option<Entity>) -> Option<ParentUpdate> {
    match hovering {
        Some(target) => if target == source {
            None
        } else {
            Some(ParentUpdate::SetParent { child: source, parent: target })
        },
        None => Some(ParentUpdate::ClearParent { child: source }),
    }
}

/// Dropping a node onto itself is a no-op: no mutation is produced.
pub proof fn lemma_drag_onto_self_is_noop(source: Entity)
    ensures
        drag_outcome(source, Some(source)) is None,
{
}

/// Dropping a node over empty space clears its parent link.
pub proof fn lemma_drag_to_empty_clears_parent(source: Entity)
    ensures
        drag_outcome(source, None) == Some(ParentUpdate::ClearParent { child: source }),
{
}

/// Dropping a node onto a different node makes that node its parent.
pub proof fn lemma_drag_onto_other_sets_parent(source: Entity, target: Entity)
    requires
        source != target,
    ensures
        drag_outcome(source, Some(target)) == Some(
            ParentUpdate::SetParent { child: source, parent: target },
        ),
{
}

/// The hierarchy browser's transient gesture state: which node is being
/// dragged, and which node the pointer is over this frame.
#[derive(Clone, Copy, Debug)]
pub struct InspectorHierarchy {
    pub dragging: Option<Entity>,
    pub hovering: Option<Entity>,
}

impl InspectorHierarchy {
    /// The idle state: nothing dragged, nothing hovered.
    pub fn new() -> (r: InspectorHierarchy)
        ensures
            r.dragging is None,
            r.hovering is None,
    {
        InspectorHierarchy { dragging: None, hovering: None }
    }

    /// Hover tracking starts fresh every frame; a drag survives frames until
    /// it is resolved.
    pub fn begin_frame(&mut self)
        ensures
            final(self).hovering is None,
            final(self).dragging == old(self).dragging,
    {
        self.hovering = None;
    }

    /// One tree row's contribution to the gesture state: a hovered row
    /// becomes the hover target, and pressing the mouse over it begins a
    /// drag when none is under way.
    pub fn observe_node(&mut self, entity: Entity, hovered: bool, mouse_down: bool)
        ensures
            hovered ==> final(self).hovering == Some(entity),
            !hovered ==> final(self).hovering == old(self).hovering,
            (hovered && mouse_down && old(self).dragging is None) ==> final(self).dragging
                == Some(entity),
            !(hovered && mouse_down && old(self).dragging is None) ==> final(self).dragging
                == old(self).dragging,
    {
        if hovered {
            self.hovering = Some(entity);
            if mouse_down && self.dragging.is_none() {
                self.dragging = Some(entity);
            }
        }
    }

    /// A row's inspect button: clicking it selects the row's entity for the
    /// inspector; otherwise the selection is untouched.
    pub fn inspect_button(
        &self,
        state: &mut InspectorState,
        entity: Entity,
        clicked: bool,
    )
        ensures
            clicked ==> final(state).selected == Some(entity),
            !clicked ==> final(state).selected == old(state).selected,
            final(state).save_text == old(state).save_text,
            final(state).load_text == old(state).load_text,
            final(state).presets == old(state).presets,
    {
        if clicked {
            state.selected = Some(entity);
        }
    }

    /// Resolve the gesture at the end of a frame: while the mouse is still
    /// dragging or held down nothing happens; on release the outcome of
    /// `drag_outcome` is produced and the gesture returns to idle.
    pub fn resolve_drag(&mut self, mouse_dragging: bool, mouse_down: bool) -> (r: Option<
        ParentUpdate,
    >)
        ensures
            old(self).dragging is None ==> r is None && *final(self) == *old(self),
            (old(self).dragging is Some && (mouse_dragging || mouse_down)) ==> r is None
                && *final(self) == *old(self),
            old(self).dragging matches Some(source) ==> (!mouse_dragging && !mouse_down ==> r
                == drag_outcome(source, old(self).hovering) && final(self).dragging is None
                && final(self).hovering == old(self).hovering),
    {
        match self.dragging {
            Some(source) => {
                if !mouse_dragging && !mouse_down {
                    self.dragging = None;
                    match self.hovering {
                        Some(target) => {
                            if target == source {
                                None
                            } else {
                                Some(ParentUpdate::SetParent { child: source, parent: target })
                            }
                        },
                        None => Some(ParentUpdate::ClearParent { child: source }),
                    }
                } else {
                    None
                }
            },
            None => None,
        }
    }
}

/// Apply a queued re-parenting mutation to the parent-component storage:
/// setting a parent replaces the child's parent link as a whole, clearing
/// removes it.
pub fn apply_parent_update(parents: &mut Storage<Entity>, update: ParentUpdate)
    requires
        old(parents).wf(),
    ensures
        final(parents).wf(),
        update matches ParentUpdate::SetParent { child, parent } ==> final(parents)@ == old(
            parents,
        )@.insert(child, parent),
        update matches ParentUpdate::ClearParent { child } ==> final(parents)@ == old(
            parents,
        )@.remove(child),
{
    match update {
        ParentUpdate::SetParent { child, parent } => parents.insert(child, parent),
        ParentUpdate::ClearParent { child } => parents.remove(child),
    }
}

/// The tree's roots: exactly the entities that hold no parent component, in
/// entity-list order.
#[verifier::loop_isolation(false)]
pub fn root_entities(entities: &Vec<Entity>, parents: &Storage<Entity>) -> (r: Vec<Entity>)
    requires
        parents.wf(),
    ensures
        r@ == entities@.filter(|e: Entity| !parents@.contains_key(e)),
{
    broadcast use vstd::seq_lib::group_seq_properties;

    let ghost pred = |e: Entity| !parents@.contains_key(e);
    let n: usize = entities.len();
    let mut r: Vec<Entity> = Vec::new();
    proof {
        assert(entities@.subrange(0, 0).filter(pred) =~= Seq::<Entity>::empty()) by {
            Seq::<Entity>::lemma_filter_len(entities@.subrange(0, 0), pred);
        }
        assert(r@ =~= entities@.subrange(0, 0).filter(pred));
    }
    let mut i: usize = 0;
    while i < n
        invariant
            i <= n,
            r@ == entities@.subrange(0, i as int).filter(pred),
        decreases n - i,
    {
        let ghost prefix = entities@.subrange(0, i as int);
        let e = entities[i];
        proof {
            assert(entities@.subrange(0, i + 1) =~= prefix.push(e));
            Seq::<Entity>::lemma_filter_push(prefix, e, pred);
        }
        if !parents.contains(e) {
            r.push(e);
            proof {
                assert(r@ =~= prefix.filter(pred).push(e));
            }
        }
        i = i + 1;
    }
    proof {
        assert(entities@.subrange(0, n as int) =~= entities@);
    }
    r
}

/// The children of `parent`: exactly the entities whose parent link points
/// at it, in entity-list order.
#[verifier::loop_isolation(false)]
pub fn children_of(entities: &Vec<Entity>, parents: &Storage<Entity>, parent: Entity) -> (r: Vec<
    Entity,
>)
    requires
        parents.wf(),
    ensures
        r@ == entities@.filter(
            |e: Entity| parents@.contains_key(e) && parents@[e] == parent,
        ),
{
    broadcast use vstd::seq_lib::group_seq_properties;

    let ghost pred = |e: Entity| parents@.contains_key(e) && parents@[e] == parent;
    let n: usize = entities.len();
    let mut r: Vec<Entity> = Vec::new();
    proof {
        assert(entities@.subrange(0, 0).filter(pred) =~= Seq::<Entity>::empty()) by {
            Seq::<Entity>::lemma_filter_len(entities@.subrange(0, 0), pred);
        }
        assert(r@ =~= entities@.subrange(0, 0).filter(pred));
    }
    let mut i: usize = 0;
    while i < n
        invariant
            i <= n,
            r@ == entities@.subrange(0, i as int).filter(pred),
        decreases n - i,
    {
        let ghost prefix = entities@.subrange(0, i as int);
        let e = entities[i];
        proof {
            assert(entities@.subrange(0, i + 1) =~= prefix.push(e));
            Seq::<Entity>::lemma_filter_push(prefix, e, pred);
        }
        let link = parents.get(e);
        match link {
            Some(p) => {
                if *p == parent {
                    r.push(e);
                    proof {
                        assert(r@ =~= prefix.filter(pred).push(e));
                    }
                }
            },
            None => {},
        }
        i = i + 1;
    }
    proof {
        assert(entities@.subrange(0, n as int) =~= entities@);
    }
    r
}

/// The label a tree row shows: the entity's name component when it has one;
/// the caller falls back to a generic id label otherwise.
pub fn node_label(entity: Entity, names: &Storage<String>) -> (r: Option<String>)
    requires
        names.wf(),
    ensures
        names@.contains_key(entity) ==> (r matches Some(s) && s@ == names@[entity]@),
        !names@.contains_key(entity) ==> r is None,
{
    match names.get(entity) {
        Some(name) => Some(name.clone()),
        None => None,
    }
}

} // verus!
