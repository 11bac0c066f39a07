//! Dropdown pickers.
//!
//! A picker shows a candidate list and the index of the entry equal to the
//! field's present value; when the value no longer appears (its entity was
//! removed this frame, its variant left the list), the displayed index falls
//! back to 0 without an error. Selecting index `i` always yields the `i`-th
//! element of the list.
//!
//! The entity picker's candidates are "no selection" followed by exactly the
//! live entities that hold both the base component and the required companion
//! component; the marker picker lists those entities' stable marker values
//! instead.

use vstd::prelude::*;

use crate::Entity;
use crate::storage::Storage;

verus! {

/// The index a picker displays for `current`: the last position holding an
/// equal element, or 0 when no element is equal.
pub open spec fn display_index<T>(items: Seq<T>, current: T) -> int
    decreases items.len(),
{
    if items.len() == 0 {
        0
    } else if items.last() == current {
        items.len() - 1
    } else {
        display_index(items.drop_last(), current)
    }
}

/// The displayed index points at an element equal to the current value when
/// one exists, and defaults to 0 — without an error — when none does.
pub proof fn lemma_display_index_default<T>(items: Seq<T>, current: T)
    ensures
        0 <= display_index(items, current),
        items.contains(current) ==> display_index(items, current) < items.len() && items[
            display_index(items, current)
        ] == current,
        !items.contains(current) ==> display_index(items, current) == 0,
    decreases items.len(),
{
    if items.len() > 0 {
        lemma_display_index_default(items.drop_last(), current);
        if items.last() == current {
        } else if items.contains(current) {
            let i = choose|i: int| 0 <= i < items.len() && items[i] == current;
            assert(items.drop_last()[i] == current);
        } else {
            if items.drop_last().contains(current) {
                let i = choose|i: int|
                    0 <= i < items.drop_last().len() && items.drop_last()[i] == current;
                assert(items[i] == current);
            }
        }
    }
}

/// Selecting index `i` of a candidate list always yields its `i`-th element.
pub fn select_at<T: Copy>(items: &Vec<T>, i: usize) -> (r: T)
    requires
        i < items@.len(),
    ensures
        r == items@[i as int],
{
    items[i]
}

/// The scan a combo widget performs to find the displayed index of the
/// current value.
pub fn current_index_u64(items: &Vec<u64>, current: u64) -> (r: usize)
    ensures
        r as int == display_index(items@, current),
{
    let n: usize = items.len();
    let mut r: usize = 0;
    let mut i: usize = 0;
    while i < n
        invariant
            n == items@.len(),
            i <= n,
            r as int == display_index(items@.subrange(0, i as int), current),
            r <= i,
        decreases n - i,
    {
        proof {
            assert(items@.subrange(0, i + 1).drop_last() =~= items@.subrange(0, i as int));
            assert(items@.subrange(0, i + 1).last() == items@[i as int]);
        }
        if items[i] == current {
            r = i;
        }
        i = i + 1;
    }
    proof {
        assert(items@.subrange(0, n as int) =~= items@);
    }
    r
}

fn opt_entity_eq(a: &Option<Entity>, b: &Option<Entity>) -> (r: bool)
    ensures
        r == (a == b),
{
    match (a, b) {
        (Some(x), Some(y)) => *x == *y,
        (None, None) => true,
        _ => false,
    }
}

pub fn current_index_entity(items: &Vec<Option<Entity>>, current: Option<Entity>) -> (r: usize)
    ensures
        r as int == display_index(items@, current),
{
    let n: usize = items.len();
    let mut r: usize = 0;
    let mut i: usize = 0;
    while i < n
        invariant
            n == items@.len(),
            i <= n,
            r as int == display_index(items@.subrange(0, i as int), current),
            r <= i,
        decreases n - i,
    {
        proof {
            assert(items@.subrange(0, i + 1).drop_last() =~= items@.subrange(0, i as int));
            assert(items@.subrange(0, i + 1).last() == items@[i as int]);
        }
        if opt_entity_eq(&items[i], &current) {
            r = i;
        }
        i = i + 1;
    }
    proof {
        assert(items@.subrange(0, n as int) =~= items@);
    }
    r
}

fn opt_u64_eq(a: &Option<u64>, b: &Option<u64>) -> (r: bool)
    ensures
        r == (a == b),
{
    match (a, b) {
        (Some(x), Some(y)) => *x == *y,
        (None, None) => true,
        _ => false,
    }
}

pub fn current_index_marker(items: &Vec<Option<u64>>, current: Option<u64>) -> (r: usize)
    ensures
        r as int == display_index(items@, current),
{
    let n: usize = items.len();
    let mut r: usize = 0;
    let mut i: usize = 0;
    while i < n
        invariant
            n == items@.len(),
            i <= n,
            r as int == display_index(items@.subrange(0, i as int), current),
            r <= i,
        decreases n - i,
    {
        proof {
            assert(items@.subrange(0, i + 1).drop_last() =~= items@.subrange(0, i as int));
            assert(items@.subrange(0, i + 1).last() == items@[i as int]);
        }
        if opt_u64_eq(&items[i], &current) {
            r = i;
        }
        i = i + 1;
    }
    proof {
        assert(items@.subrange(0, n as int) =~= items@);
    }
    r
}

/// One combo-box frame over a handle list: a selection yields exactly the
/// chosen element and reports a change; no selection keeps the entry at the
/// displayed index and reports none.
pub fn combo_u64(items: &Vec<u64>, current: u64, choice: Option<usize>) -> (r: (u64, bool))
    requires
        items@.len() > 0,
        choice matches Some(i) ==> i < items@.len(),
    ensures
        choice matches Some(i) ==> r.0 == items@[i as int] && r.1,
        choice is None ==> r.0 == items@[display_index(items@, current)] && !r.1,
{
    proof {
        lemma_display_index_default(items@, current);
    }
    match choice {
        Some(i) => (select_at(items, i), true),
        None => {
            let shown = current_index_u64(items, current);
            (select_at(items, shown), false)
        },
    }
}

pub fn combo_entity(items: &Vec<Option<Entity>>, current: Option<Entity>, choice: Option<usize>) -> (r: (
    Option<Entity>,
    bool,
))
    requires
        items@.len() > 0,
        choice matches Some(i) ==> i < items@.len(),
    ensures
        choice matches Some(i) ==> r.0 == items@[i as int] && r.1,
        choice is None ==> r.0 == items@[display_index(items@, current)] && !r.1,
{
    proof {
        lemma_display_index_default(items@, current);
    }
    match choice {
        Some(i) => (select_at(items, i), true),
        None => {
            let shown = current_index_entity(items, current);
            (select_at(items, shown), false)
        },
    }
}

pub fn combo_marker(items: &Vec<Option<u64>>, current: Option<u64>, choice: Option<usize>) -> (r: (
    Option<u64>,
    bool,
))
    requires
        items@.len() > 0,
        choice matches Some(i) ==> i < items@.len(),
    ensures
        choice matches Some(i) ==> r.0 == items@[i as int] && r.1,
        choice is None ==> r.0 == items@[display_index(items@, current)] && !r.1,
{
    proof {
        lemma_display_index_default(items@, current);
    }
    match choice {
        Some(i) => (select_at(items, i), true),
        None => {
            let shown = current_index_marker(items, current);
            (select_at(items, shown), false)
        },
    }
}

/// The handles of a labelled resource list, in list order: what a handle
/// dropdown scans and selects from.
pub open spec fn handles_of(list: Seq<(String, u64)>) -> Seq<u64> {
    list.map_values(|p: (String, u64)| p.1)
}

pub fn handle_list(list: &Vec<(String, u64)>) -> (r: Vec<u64>)
    ensures
        r@ == handles_of(list@),
{
    let n: usize = list.len();
    let mut r: Vec<u64> = Vec::new();
    let mut i: usize = 0;
    while i < n
        invariant
            n == list@.len(),
            i <= n,
            r@.len() == i,
            forall|j: int| 0 <= j < i ==> r@[j] == handles_of(list@)[j],
        decreases n - i,
    {
        r.push(list[i].1);
        i = i + 1;
    }
    proof {
        assert(r@ =~= handles_of(list@));
    }
    r
}

/// The handle a resource dropdown leaves in the field: with an empty list
/// the widget is not drawn at all and the field keeps its value; otherwise a
/// selection picks from the list and no selection keeps the handle at the
/// displayed index.
pub open spec fn handle_combo_result(
    current: u64,
    list: Seq<(String, u64)>,
    choice: Option<usize>,
) -> u64 {
    if list.len() == 0 {
        current
    } else {
        match choice {
            Some(i) => handles_of(list)[i as int],
            None => handles_of(list)[display_index(handles_of(list), current)],
        }
    }
}

/// One frame of a labelled-resource dropdown; the reported change is a real
/// selection from a non-empty list.
pub fn combo_handle(list: &Vec<(String, u64)>, current: u64, choice: Option<usize>) -> (r: (
    u64,
    bool,
))
    requires
        choice matches Some(i) ==> list@.len() > 0 && i < list@.len(),
    ensures
        r.0 == handle_combo_result(current, list@, choice),
        r.1 == (list@.len() > 0 && choice is Some),
{
    if list.len() == 0 {
        (current, false)
    } else {
        let handles = handle_list(list);
        combo_u64(&handles, current, choice)
    }
}

/// Does `e` hold both the base component and the required companion?
pub open spec fn holds_both<B, M>(base: Map<Entity, B>, companion: Map<Entity, M>, e: Entity) -> bool {
    base.contains_key(e) && companion.contains_key(e)
}

/// The candidate list of an optional entity picker: "no selection" first,
/// then every live entity that holds both components, in entity-list order.
pub open spec fn entity_candidate_list<B, M>(
    entities: Seq<Entity>,
    base: Map<Entity, B>,
    companion: Map<Entity, M>,
) -> Seq<Option<Entity>> {
    seq![Option::<Entity>::None] + entities.filter(
        |e: Entity| holds_both(base, companion, e),
    ).map_values(|e: Entity| Some(e))
}

#[verifier::loop_isolation(false)]
pub fn entity_candidates<B, M>(
    entities: &Vec<Entity>,
    base: &Storage<B>,
    companion: &Storage<M>,
) -> (r: Vec<Option<Entity>>)
    requires
        base.wf(),
        companion.wf(),
    ensures
        r@ == entity_candidate_list(entities@, base@, companion@),
        r@.len() >= 1,
        r@[0] is None,
{
    broadcast use vstd::seq_lib::group_seq_properties;

    let ghost pred = |e: Entity| holds_both(base@, companion@, e);
    let ghost lift = |e: Entity| Some(e);
    let n: usize = entities.len();
    let mut r: Vec<Option<Entity>> = Vec::new();
    r.push(None);
    let mut i: usize = 0;
    proof {
        assert(entities@.subrange(0, 0).filter(pred) =~= Seq::<Entity>::empty()) by {
            Seq::<Entity>::lemma_filter_len(entities@.subrange(0, 0), pred);
        }
        assert(r@ =~= seq![Option::<Entity>::None] + entities@.subrange(0, 0).filter(
            pred,
        ).map_values(lift));
    }
    while i < n
        invariant
            n == entities@.len(),
            i <= n,
            base.wf(),
            companion.wf(),
            r@ == seq![Option::<Entity>::None] + entities@.subrange(0, i as int).filter(
                pred,
            ).map_values(lift),
        decreases n - i,
    {
        let ghost prefix = entities@.subrange(0, i as int);
        let e = entities[i];
        proof {
            assert(entities@.subrange(0, i + 1) =~= prefix.push(e));
            Seq::<Entity>::lemma_filter_push(prefix, e, pred);
        }
        if base.contains(e) && companion.contains(e) {
            r.push(Some(e));
            proof {
                assert(pred(e));
                assert(prefix.push(e).filter(pred) =~= prefix.filter(pred).push(e));
                assert(prefix.filter(pred).push(e).map_values(lift) =~= prefix.filter(
                    pred,
                ).map_values(lift).push(Some(e)));
                assert(r@ =~= seq![Option::<Entity>::None] + prefix.push(e).filter(
                    pred,
                ).map_values(lift));
            }
        } else {
            proof {
                assert(prefix.push(e).filter(pred) =~= prefix.filter(pred));
            }
        }
        i = i + 1;
    }
    proof {
        assert(entities@.subrange(0, n as int) =~= entities@);
    }
    r
}

/// The candidate list is exactly "no selection" plus the live entities that
/// hold both the base and the companion component: nothing else ever appears
/// in it, and every such entity does.
pub proof fn lemma_entity_candidates_exact<B, M>(
    entities: Seq<Entity>,
    base: Map<Entity, B>,
    companion: Map<Entity, M>,
)
    ensures
        entity_candidate_list(entities, base, companion)[0] is None,
        forall|e: Entity|
            #[trigger] entity_candidate_list(entities, base, companion).contains(Some(e))
                <==> entities.contains(e) && holds_both(base, companion, e),
{
    broadcast use vstd::seq_lib::group_seq_properties;

    let pred = |e: Entity| holds_both(base, companion, e);
    let lift = |e: Entity| Some(e);
    let filtered = entities.filter(pred);
    let lifted = filtered.map_values(lift);
    let list = entity_candidate_list(entities, base, companion);
    assert forall|e: Entity| #[trigger] list.contains(Some(e)) implies entities.contains(e)
        && holds_both(base, companion, e) by {
        let i = choose|i: int| 0 <= i < list.len() && list[i] == Some(e);
        assert(lifted[i - 1] == Some(e));
        assert(filtered[i - 1] == e);
        Seq::<Entity>::lemma_filter_pred(entities, pred, i - 1);
        assert(filtered.contains(e));
        Seq::<Entity>::lemma_filter_contains_rev(entities, pred, e);
    }
    assert forall|e: Entity|
        entities.contains(e) && holds_both(base, companion, e) implies #[trigger] list.contains(
        Some(e),
    ) by {
        let i = choose|i: int| 0 <= i < entities.len() && entities[i] == e;
        Seq::<Entity>::lemma_filter_contains(entities, pred, i);
        let j = choose|j: int| 0 <= j < filtered.len() && filtered[j] == e;
        assert(lifted[j] == Some(e));
        assert(list[j + 1] == Some(e));
    }
}

/// The candidate list of a required entity picker: exactly the live
/// entities holding the companion component, in entity-list order, with no
/// "no selection" entry.
pub open spec fn entity_candidate_list_req<B>(entities: Seq<Entity>, base: Map<Entity, B>) -> Seq<
    Entity,
> {
    entities.filter(|e: Entity| base.contains_key(e))
}

#[verifier::loop_isolation(false)]
pub fn entity_candidates_req<B>(entities: &Vec<Entity>, base: &Storage<B>) -> (r: Vec<Entity>)
    requires
        base.wf(),
    ensures
        r@ == entity_candidate_list_req(entities@, base@),
{
    broadcast use vstd::seq_lib::group_seq_properties;

    let ghost pred = |e: Entity| base@.contains_key(e);
    let n: usize = entities.len();
    let mut r: Vec<Entity> = Vec::new();
    proof {
        assert(entities@.subrange(0, 0).filter(pred) =~= Seq::<Entity>::empty()) by {
            Seq::<Entity>::lemma_filter_len(entities@.subrange(0, 0), pred);
        }
        assert(r@ =~= entities@.subrange(0, 0).filter(pred));
    }
    let mut i: usize = 0;
    while i < n
        invariant
            i <= n,
            r@ == entities@.subrange(0, i as int).filter(pred),
        decreases n - i,
    {
        let ghost prefix = entities@.subrange(0, i as int);
        let e = entities[i];
        proof {
            assert(entities@.subrange(0, i + 1) =~= prefix.push(e));
            Seq::<Entity>::lemma_filter_push(prefix, e, pred);
        }
        if base.contains(e) {
            r.push(e);
            proof {
                assert(r@ =~= prefix.filter(pred).push(e));
            }
        }
        i = i + 1;
    }
    proof {
        assert(entities@.subrange(0, n as int) =~= entities@);
    }
    r
}

pub fn current_index_entity_req(items: &Vec<Entity>, current: Entity) -> (r: usize)
    ensures
        r as int == display_index(items@, current),
{
    let n: usize = items.len();
    let mut r: usize = 0;
    let mut i: usize = 0;
    while i < n
        invariant
            n == items@.len(),
            i <= n,
            r as int == display_index(items@.subrange(0, i as int), current),
            r <= i,
        decreases n - i,
    {
        proof {
            assert(items@.subrange(0, i + 1).drop_last() =~= items@.subrange(0, i as int));
            assert(items@.subrange(0, i + 1).last() == items@[i as int]);
        }
        if items[i] == current {
            r = i;
        }
        i = i + 1;
    }
    proof {
        assert(items@.subrange(0, n as int) =~= items@);
    }
    r
}

/// One combo-box frame over a required entity list.
pub fn combo_entity_req(items: &Vec<Entity>, current: Entity, choice: Option<usize>) -> (r: (
    Entity,
    bool,
))
    requires
        items@.len() > 0,
        choice matches Some(i) ==> i < items@.len(),
    ensures
        choice matches Some(i) ==> r.0 == items@[i as int] && r.1,
        choice is None ==> r.0 == items@[display_index(items@, current)] && !r.1,
{
    proof {
        lemma_display_index_default(items@, current);
    }
    match choice {
        Some(i) => (select_at(items, i), true),
        None => {
            let shown = current_index_entity_req(items, current);
            (select_at(items, shown), false)
        },
    }
}

/// The candidate list of an optional marker picker: "no selection" first,
/// then the stable marker value of every live entity that holds both the
/// marker component and the required companion.
pub open spec fn marker_candidate_list<M>(
    entities: Seq<Entity>,
    markers: Map<Entity, u64>,
    companion: Map<Entity, M>,
) -> Seq<Option<u64>> {
    entities.filter(|e: Entity| holds_both(markers, companion, e)).map_values(
        |e: Entity| Some(markers[e]),
    ).insert(0, Option::<u64>::None)
}

#[verifier::loop_isolation(false)]
pub fn marker_candidates<M>(
    entities: &Vec<Entity>,
    markers: &Storage<u64>,
    companion: &Storage<M>,
) -> (r: Vec<Option<u64>>)
    requires
        markers.wf(),
        companion.wf(),
    ensures
        r@ == marker_candidate_list(entities@, markers@, companion@),
        r@.len() >= 1,
        r@[0] is None,
{
    broadcast use vstd::seq_lib::group_seq_properties;

    let ghost pred = |e: Entity| holds_both(markers@, companion@, e);
    let ghost lift = |e: Entity| Some(markers@[e]);
    let n: usize = entities.len();
    let mut r: Vec<Option<u64>> = Vec::new();
    r.push(None);
    let mut i: usize = 0;
    proof {
        assert(entities@.subrange(0, 0).filter(pred) =~= Seq::<Entity>::empty()) by {
            Seq::<Entity>::lemma_filter_len(entities@.subrange(0, 0), pred);
        }
        assert(r@ =~= entities@.subrange(0, 0).filter(pred).map_values(lift).insert(
            0,
            Option::<u64>::None,
        ));
    }
    while i < n
        invariant
            n == entities@.len(),
            i <= n,
            markers.wf(),
            companion.wf(),
            r@ == entities@.subrange(0, i as int).filter(pred).map_values(lift).insert(
                0,
                Option::<u64>::None,
            ),
        decreases n - i,
    {
        let ghost prefix = entities@.subrange(0, i as int);
        let e = entities[i];
        proof {
            assert(entities@.subrange(0, i + 1) =~= prefix.push(e));
            Seq::<Entity>::lemma_filter_push(prefix, e, pred);
        }
        let has_marker = markers.get(e);
        match has_marker {
            Some(m) => {
                if companion.contains(e) {
                    r.push(Some(*m));
                    proof {
                        assert(prefix.push(e).filter(pred) =~= prefix.filter(pred).push(e));
                        assert(prefix.filter(pred).push(e).map_values(lift) =~= prefix.filter(
                            pred,
                        ).map_values(lift).push(Some(markers@[e])));
                        assert(r@ =~= prefix.push(e).filter(pred).map_values(lift).insert(
                            0,
                            Option::<u64>::None,
                        ));
                    }
                } else {
                    proof {
                        assert(prefix.push(e).filter(pred) =~= prefix.filter(pred));
                    }
                }
            },
            None => {
                proof {
                    assert(prefix.push(e).filter(pred) =~= prefix.filter(pred));
                }
            },
        }
        i = i + 1;
    }
    proof {
        assert(entities@.subrange(0, n as int) =~= entities@);
    }
    r
}

} // verus!
