//! The blink record: a visibility-toggling interval in whole milliseconds, a
//! running timer the inspector shows no widget for, and an absolute-time
//! flag. Because the timer is never drawn, a commit of this record is the
//! clearest witness that records replace as one unit: the staged record
//! carries the untouched timer along.

use vstd::prelude::*;

use crate::Entity;
use crate::controls::ControlInput;
use crate::controls::IntControlBuilder;
use crate::controls::checkbox;
use crate::controls::stepped_i32;
use crate::storage::Storage;
use crate::storage::Update;
use crate::storage::UpdateQueue;

verus! {

#[derive(Clone, Copy, PartialEq, Eq, Structural, Debug)]
pub struct Blink {
    /// The toggle interval, in whole milliseconds.
    pub delay: i32,
    /// The running timer; owned by the blinking system, never edited here.
    pub timer: i32,
    pub absolute_time: bool,
}

/// The record a freshly added blink holds: a half-second interval.
pub open spec fn default_blink() -> Blink {
    Blink { delay: 500, timer: 0, absolute_time: false }
}

impl Default for Blink {
    fn default() -> (r: Blink)
        ensures
            r == default_blink(),
    {
        Blink { delay: 500, timer: 0, absolute_time: false }
    }
}

/// One frame's interaction with the blink inspector's widgets.
#[derive(Clone, Copy, PartialEq, Eq, Structural, Debug)]
pub struct BlinkInput {
    pub delay: ControlInput,
    pub absolute_clicked: bool,
}

/// The staged record after one frame: the delay flows through its control,
/// the checkbox flips the flag, and the timer is carried over untouched.
pub open spec fn blink_stepped(me: Blink, input: BlinkInput) -> Blink {
    Blink {
        delay: stepped_i32(me.delay, 0, input.delay),
        timer: me.timer,
        absolute_time: if input.absolute_clicked {
            !me.absolute_time
        } else {
            me.absolute_time
        },
    }
}

pub open spec fn blink_touched(input: BlinkInput) -> bool {
    input.delay.touched() || input.absolute_clicked
}

pub fn inspect_blink(me: &Blink, input: &BlinkInput) -> (r: (Blink, bool))
    ensures
        r.0 == blink_stepped(*me, *input),
        r.1 == blink_touched(*input),
{
    let (delay, changed) = IntControlBuilder::new(me.delay).changed(false).build(&input.delay);
    let (absolute_time, clicked) = checkbox(me.absolute_time, input.absolute_clicked);
    (Blink { delay, timer: me.timer, absolute_time }, changed || clicked)
}

/// One inspection pass over the blink record of `entity`: a silent no-op
/// when the entity no longer holds it; otherwise the whole staged record is
/// queued exactly when some widget reported a change.
pub fn blink_pass(
    storage: &Storage<Blink>,
    entity: Entity,
    input: &BlinkInput,
    queue: &mut UpdateQueue<Blink>,
)
    requires
        storage.wf(),
    ensures
        !storage@.contains_key(entity) ==> final(queue)@ == old(queue)@,
        storage@.contains_key(entity) && blink_touched(*input) ==> final(queue)@ == old(
            queue,
        )@.push(Update::Insert(entity, blink_stepped(storage@[entity], *input))),
        storage@.contains_key(entity) && !blink_touched(*input) ==> final(queue)@ == old(queue)@,
{
    match storage.get(entity) {
        Some(me) => {
            let current = *me;
            let (staged, changed) = inspect_blink(&current, input);
            queue.commit_record(entity, staged, changed);
        },
        None => {},
    }
}

pub fn blink_can_add(entity: Entity) -> (r: bool)
    ensures
        r,
{
    true
}

pub fn blink_add(queue: &mut UpdateQueue<Blink>, entity: Entity)
    ensures
        final(queue)@ == old(queue)@.push(Update::Insert(entity, default_blink())),
{
    queue.push_insert(entity, Blink::default());
}

/// An untouched frame stages the blink record unchanged.
pub proof fn lemma_blink_untouched_keeps_record(me: Blink, input: BlinkInput)
    requires
        !blink_touched(input),
    ensures
        blink_stepped(me, input) == me,
{
}

/// Editing only the delay still commits the record as one unit: the staged
/// record carries the timer and the absolute-time flag with their prior
/// values — never a partial write of the one edited field.
pub proof fn lemma_blink_commits_whole_record(me: Blink, input: BlinkInput)
    requires
        input.delay.touched(),
        !input.absolute_clicked,
    ensures
        blink_touched(input),
        blink_stepped(me, input).timer == me.timer,
        blink_stepped(me, input).absolute_time == me.absolute_time,
{
}

} // verus!
