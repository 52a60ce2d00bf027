//! Properties of the touch tracker over whole record streams.

use vstd::prelude::*;

use crate::event::{Touch, TouchPhase};
use crate::raw::{
    RawEvent, ABS_MT_POSITION_X, ABS_MT_POSITION_Y, ABS_MT_SLOT, ABS_MT_TRACKING_ID, BTN_TOUCH,
    EV_ABS, EV_KEY, EV_SYN,
};
use crate::touch::{
    frame_events, frame_events_upto, lemma_quiet_slot_silent, run, run_events, slot_event, step,
    step_events, PadView, Slot, SLOT_COUNT,
};

verus! {

/// One record keeps the touch pad well formed.
pub proof fn lemma_step_wf(v: PadView, r: RawEvent)
    requires
        v.wf(),
    ensures
        step(v, r).wf(),
{
}

/// A record stream keeps the touch pad well formed.
pub proof fn lemma_run_wf(v: PadView, rs: Seq<RawEvent>)
    requires
        v.wf(),
    ensures
        run(v, rs).wf(),
    decreases rs.len(),
{
    if rs.len() > 0 {
        lemma_run_wf(v, rs.drop_last());
        lemma_step_wf(run(v, rs.drop_last()), rs.last());
    }
}

/// Whether record `r`, arriving in state `v`, is a multi-touch update of slot `a`
/// alone: the selection of slot `a`, or a position or tracking-id update while
/// slot `a` is selected.
pub open spec fn mt_update_of(v: PadView, r: RawEvent, a: int) -> bool {
    &&& r.kind == EV_ABS
    &&& {
        ||| r.code == ABS_MT_SLOT && r.value == a
        ||| (r.code == ABS_MT_POSITION_X || r.code == ABS_MT_POSITION_Y || r.code
            == ABS_MT_TRACKING_ID) && v.cursor == a
    }
}

/// Whether every record of `rs`, fed to a pad in state `v`, is a multi-touch update
/// of slot `a` alone.
pub open spec fn only_slot(v: PadView, rs: Seq<RawEvent>, a: int) -> bool
    decreases rs.len(),
{
    rs.len() == 0 || (only_slot(v, rs.drop_last(), a) && mt_update_of(
        run(v, rs.drop_last()),
        rs.last(),
        a,
    ))
}

/// Updates of slot `a` alone leave every other slot as it was.
proof fn lemma_other_slots_kept(v: PadView, rs: Seq<RawEvent>, a: int, b: int)
    requires
        v.wf(),
        0 <= a < SLOT_COUNT,
        0 <= b < SLOT_COUNT,
        a != b,
        only_slot(v, rs, a),
    ensures
        run(v, rs).slots[b] == v.slots[b],
    decreases rs.len(),
{
    if rs.len() > 0 {
        lemma_other_slots_kept(v, rs.drop_last(), a, b);
        lemma_run_wf(v, rs.drop_last());
    }
}

/// Slot independence: when a frame starts with nothing pending and holds only
/// multi-touch updates of slot `a`, the sync marker that ends it emits no event for
/// any other slot.
pub proof fn lemma_slot_independence(v: PadView, rs: Seq<RawEvent>, a: int, b: int)
    requires
        v.wf(),
        v.quiet(),
        0 <= a < SLOT_COUNT,
        0 <= b < SLOT_COUNT,
        a != b,
        only_slot(v, rs, a),
    ensures
        forall|k: int|
            0 <= k < frame_events(run(v, rs).slots).len() ==> (#[trigger] frame_events(
                run(v, rs).slots,
            )[k]).slot != b,
{
    lemma_other_slots_kept(v, rs, a, b);
    lemma_run_wf(v, rs);
    lemma_quiet_slot_silent(run(v, rs).slots, b);
}

/// One step of the contact lifecycle of slot `s`, with `down` telling whether its
/// contact is down: a `Began` needs it up, an `Ended` needs it down, and events of
/// other slots and moves change nothing. `None` marks a broken lifecycle.
pub open spec fn lifecycle_step(down: bool, e: Touch, s: int) -> Option<bool> {
    if e.slot != s || e.kind == TouchPhase::Moved {
        Some(down)
    } else if e.kind == TouchPhase::Began {
        if down {
            None
        } else {
            Some(true)
        }
    } else if down {
        Some(false)
    } else {
        None
    }
}

/// Runs the lifecycle of slot `s` over a sequence of events, from `down0`: `Some`
/// with whether the contact is down at the end, while the events of slot `s` go
/// `Began`, `Ended`, `Began`, ... with moves anywhere between; `None` otherwise.
pub open spec fn lifecycle(events: Seq<Touch>, s: int, down0: bool) -> Option<bool>
    decreases events.len(),
{
    if events.len() == 0 {
        Some(down0)
    } else {
        match lifecycle(events.drop_last(), s, down0) {
            Some(d) => lifecycle_step(d, events.last(), s),
            None => None,
        }
    }
}

/// The lifecycle runs over two sequences one after the other.
proof fn lemma_lifecycle_concat(a: Seq<Touch>, b: Seq<Touch>, s: int, down0: bool)
    ensures
        lifecycle(a + b, s, down0) == match lifecycle(a, s, down0) {
            Some(d) => lifecycle(b, s, d),
            None => None,
        },
    decreases b.len(),
{
    if b.len() == 0 {
        assert(a + b =~= a);
    } else {
        lemma_lifecycle_concat(a, b.drop_last(), s, down0);
        assert((a + b).drop_last() =~= a + b.drop_last());
    }
}

/// At a sync marker only the event of slot `s` itself moves its lifecycle.
proof fn lemma_lifecycle_frame(slots: Seq<Slot>, n: nat, s: int, d: bool)
    requires
        n <= slots.len() <= SLOT_COUNT,
        0 <= s < SLOT_COUNT,
    ensures
        lifecycle(frame_events_upto(slots, n), s, d) == if s < n {
            match slots[s].phase() {
                Some(k) => lifecycle_step(
                    d,
                    Touch { slot: s as usize, kind: k, x: slots[s].x, y: slots[s].y },
                    s,
                ),
                None => Some(d),
            }
        } else {
            Some(d)
        },
    decreases n,
{
    if n > 0 {
        let prev = frame_events_upto(slots, (n - 1) as nat);
        let last = slot_event(slots[n - 1], n - 1);
        lemma_lifecycle_frame(slots, (n - 1) as nat, s, d);
        lemma_lifecycle_concat(prev, last, s, d);
        let i: int = n - 1;
        assert((i as usize) as int == i);
        if slots[i].phase() is Some {
            assert(last.drop_last() =~= Seq::<Touch>::empty());
            assert(lifecycle(last.drop_last(), s, d) == Some(d));
            let dp = lifecycle(prev, s, d)->Some_0;
            assert(lifecycle(last.drop_last(), s, dp) == Some(dp));
            assert(lifecycle(last, s, dp) == lifecycle_step(dp, last[0], s));
        } else {
            assert(last =~= Seq::<Touch>::empty());
        }
    }
}

/// Whether a record keeps to the multi-touch protocol as far as contacts go: it is
/// no single-touch button, a tracking id is given to a slot only while its contact
/// is up and withdrawn only while it is down, and a slot neither begins nor ends
/// twice in one frame.
pub open spec fn lifecycle_ok(v: PadView, r: RawEvent) -> bool {
    &&& !(r.kind == EV_KEY && r.code == BTN_TOUCH)
    &&& (r.kind == EV_ABS && r.code == ABS_MT_TRACKING_ID) ==> {
        let c = v.slots[v.cursor];
        &&& !c.began
        &&& !c.ended
        &&& (r.value >= 0 <==> c.tracking_id < 0)
    }
}

/// Whether every record of `rs`, fed to a pad in state `v`, keeps to the protocol.
pub open spec fn lifecycle_input(v: PadView, rs: Seq<RawEvent>) -> bool
    decreases rs.len(),
{
    rs.len() == 0 || (lifecycle_input(v, rs.drop_last()) && lifecycle_ok(
        run(v, rs.drop_last()),
        rs.last(),
    ))
}

/// How the pending flags of slot `s` relate the lifecycle seen so far (`down`) to
/// the slot's contact.
pub open spec fn lifecycle_agrees(v: PadView, s: int, down: bool) -> bool {
    let c = v.slots[s];
    &&& (!c.began && !c.ended) ==> down == (c.tracking_id >= 0)
    &&& c.began ==> !c.ended && c.tracking_id >= 0 && !down
    &&& c.ended ==> !c.began && c.tracking_id < 0 && down
}

proof fn lemma_lifecycle_run(v: PadView, rs: Seq<RawEvent>, s: int)
    requires
        v.wf(),
        v.quiet(),
        0 <= s < SLOT_COUNT,
        lifecycle_input(v, rs),
    ensures
        lifecycle(run_events(v, rs), s, v.slots[s].tracking_id >= 0) matches Some(d)
            && lifecycle_agrees(run(v, rs), s, d),
    decreases rs.len(),
{
    let d0 = v.slots[s].tracking_id >= 0;
    if rs.len() == 0 {
        assert(!v.slots[s].pending());
    } else {
        let pre = rs.drop_last();
        let r = rs.last();
        let w = run(v, pre);
        lemma_lifecycle_run(v, pre, s);
        lemma_run_wf(v, pre);
        let d = lifecycle(run_events(v, pre), s, d0)->Some_0;
        lemma_lifecycle_concat(run_events(v, pre), step_events(w, r), s, d0);
        if r.kind == EV_SYN {
            lemma_lifecycle_frame(w.slots, SLOT_COUNT as nat, s, d);
        } else {
            assert(step_events(w, r) =~= Seq::<Touch>::empty());
        }
    }
}

/// Lifecycle completeness: on a stream that keeps to the multi-touch protocol and
/// starts with nothing pending, the events of every slot go `Began`, `Ended`,
/// `Began`, ... (moves anywhere between): each contact begins once and ends once,
/// in that order. Once a sync marker has passed, the lifecycle agrees with the
/// slot: it ends with the contact down exactly when the slot holds a tracking id.
pub proof fn lemma_lifecycle_complete(v: PadView, rs: Seq<RawEvent>, s: int)
    requires
        v.wf(),
        v.quiet(),
        0 <= s < SLOT_COUNT,
        lifecycle_input(v, rs),
    ensures
        lifecycle(run_events(v, rs), s, v.slots[s].tracking_id >= 0) is Some,
        run(v, rs).quiet() ==> lifecycle(run_events(v, rs), s, v.slots[s].tracking_id >= 0)
            == Some(run(v, rs).slots[s].tracking_id >= 0),
{
    lemma_lifecycle_run(v, rs, s);
    lemma_run_wf(v, rs);
    if run(v, rs).quiet() {
        assert(!run(v, rs).slots[s].pending());
    }
}

} // verus!
