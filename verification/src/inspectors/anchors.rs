//! The anchor enum shared by the UI records, and its dropdown picker: nine
//! variants in a fixed, statically declared order. The picker scans the list
//! for the current value by equality; selecting index `i` yields the `i`-th
//! variant, and a value missing from the list displays as index 0.

use vstd::prelude::*;

use crate::picker::display_index;
use crate::picker::lemma_display_index_default;
use crate::picker::select_at;

verus! {

#[derive(Clone, Copy, PartialEq, Eq, Structural, Debug)]
pub enum Anchor {
    TopLeft,
    TopMiddle,
    TopRight,
    MiddleLeft,
    Middle,
    MiddleRight,
    BottomLeft,
    BottomMiddle,
    BottomRight,
}

/// The statically declared candidate list of the anchor picker, in display
/// order.
pub open spec fn anchor_variants() -> Seq<Anchor> {
    seq![
        Anchor::TopLeft,
        Anchor::TopMiddle,
        Anchor::TopRight,
        Anchor::MiddleLeft,
        Anchor::Middle,
        Anchor::MiddleRight,
        Anchor::BottomLeft,
        Anchor::BottomMiddle,
        Anchor::BottomRight,
    ]
}

pub fn anchor_list() -> (r: Vec<Anchor>)
    ensures
        r@ == anchor_variants(),
{
    let mut r: Vec<Anchor> = Vec::new();
    r.push(Anchor::TopLeft);
    r.push(Anchor::TopMiddle);
    r.push(Anchor::TopRight);
    r.push(Anchor::MiddleLeft);
    r.push(Anchor::Middle);
    r.push(Anchor::MiddleRight);
    r.push(Anchor::BottomLeft);
    r.push(Anchor::BottomMiddle);
    r.push(Anchor::BottomRight);
    proof {
        assert(r@ =~= anchor_variants());
    }
    r
}

pub fn current_index_anchor(items: &Vec<Anchor>, current: Anchor) -> (r: usize)
    ensures
        r as int == display_index(items@, current),
{
    let n: usize = items.len();
    let mut r: usize = 0;
    let mut i: usize = 0;
    while i < n
        invariant
            n == items@.len(),
            i <= n,
            r as int == display_index(items@.subrange(0, i as int), current),
            r <= i,
        decreases n - i,
    {
        proof {
            assert(items@.subrange(0, i + 1).drop_last() =~= items@.subrange(0, i as int));
            assert(items@.subrange(0, i + 1).last() == items@[i as int]);
        }
        if items[i] == current {
            r = i;
        }
        i = i + 1;
    }
    proof {
        assert(items@.subrange(0, n as int) =~= items@);
    }
    r
}

/// One combo-box frame over an anchor list: a selection yields exactly the
/// chosen variant and reports a change; no selection keeps the variant at
/// the displayed index and reports none.
pub fn combo_anchor(items: &Vec<Anchor>, current: Anchor, choice: Option<usize>) -> (r: (
    Anchor,
    bool,
))
    requires
        items@.len() > 0,
        choice matches Some(i) ==> i < items@.len(),
    ensures
        choice matches Some(i) ==> r.0 == items@[i as int] && r.1,
        choice is None ==> r.0 == items@[display_index(items@, current)] && !r.1,
{
    proof {
        lemma_display_index_default(items@, current);
    }
    match choice {
        Some(i) => (select_at(items, i), true),
        None => {
            let shown = current_index_anchor(items, current);
            (select_at(items, shown), false)
        },
    }
}

} // verus!
