//! Multi-touch tracking: per-slot state collected between sync markers and
//! turned into one touch event per changed slot at each marker.
//!
//! When several changes of one slot meet in a frame, a contact that began is
//! reported over one that ended, and one that ended over a move. A slot
//! selection outside the tracked slots is dropped and reported; the selection
//! stays where it was.

use vstd::prelude::*;

use crate::event::{Touch, TouchPhase};
use crate::raw::{
    ProtocolError, RawEvent, ABS_MT_POSITION_X, ABS_MT_POSITION_Y, ABS_MT_SLOT,
    ABS_MT_TRACKING_ID, ABS_X, ABS_Y, BTN_TOUCH, EV_ABS, EV_KEY, EV_SYN,
};

verus! {

/// Number of finger slots that a touch pad tracks.
pub const SLOT_COUNT: usize = 10;

/// One finger slot: its contact, its position, and what changed since the last sync marker.
#[derive(Clone, Copy, Debug, PartialEq, Eq, Structural)]
pub struct Slot {
    /// The contact's tracking id; -1 while no finger is down.
    pub tracking_id: i32,
    pub x: i32,
    pub y: i32,
    pub began: bool,
    pub moved: bool,
    pub ended: bool,
}

impl Slot {
    pub open spec fn spec_idle() -> Slot {
        Slot { tracking_id: -1i32, x: 0, y: 0, began: false, moved: false, ended: false }
    }

    /// A slot with no contact and nothing pending.
    pub fn idle() -> (r: Slot)
        ensures
            r == Slot::spec_idle(),
    {
        Slot { tracking_id: -1, x: 0, y: 0, began: false, moved: false, ended: false }
    }

    /// Whether anything changed since the last sync marker.
    pub open spec fn pending(self) -> bool {
        self.began || self.moved || self.ended
    }

    /// The slot once a sync marker has consumed what was pending.
    pub open spec fn settled(self) -> Slot {
        Slot { began: false, moved: false, ended: false, ..self }
    }

    /// The phase that a sync marker reports for the slot: a contact that began wins
    /// over one that ended, which wins over a move; `None` when nothing is pending.
    pub open spec fn phase(self) -> Option<TouchPhase> {
        if self.began {
            Some(TouchPhase::Began)
        } else if self.ended {
            Some(TouchPhase::Ended)
        } else if self.moved {
            Some(TouchPhase::Moved)
        } else {
            None
        }
    }
}

/// The abstract state of a touch pad: its slots and the selected slot.
pub struct PadView {
    pub slots: Seq<Slot>,
    pub cursor: int,
}

impl PadView {
    /// Exactly the tracked slots, one of them selected.
    pub open spec fn wf(self) -> bool {
        &&& self.slots.len() == SLOT_COUNT
        &&& 0 <= self.cursor < SLOT_COUNT
    }

    /// The state with slot `i` replaced by `s`.
    pub open spec fn with_slot(self, i: int, s: Slot) -> PadView {
        PadView { slots: self.slots.update(i, s), cursor: self.cursor }
    }

    /// No slot has anything pending (as right after a sync marker).
    pub open spec fn quiet(self) -> bool {
        forall|i: int| 0 <= i < self.slots.len() ==> !(#[trigger] self.slots[i]).pending()
    }
}

/// The state of a new touch pad: every slot idle, slot 0 selected.
pub open spec fn initial_pad() -> PadView {
    PadView { slots: Seq::new(SLOT_COUNT as nat, |i: int| Slot::spec_idle()), cursor: 0 }
}

/// Slot `i` with a new x position, marked moved.
pub open spec fn moved_x(v: PadView, i: int, value: i32) -> PadView {
    v.with_slot(i, Slot { x: value, moved: true, ..v.slots[i] })
}

/// Slot `i` with a new y position, marked moved.
pub open spec fn moved_y(v: PadView, i: int, value: i32) -> PadView {
    v.with_slot(i, Slot { y: value, moved: true, ..v.slots[i] })
}

/// The selected slot with a new tracking id: a contact begins for a non-negative id
/// and ends for a negative one.
pub open spec fn with_tracking_id(v: PadView, value: i32) -> PadView {
    let s = v.slots[v.cursor];
    v.with_slot(
        v.cursor,
        Slot {
            tracking_id: value,
            began: s.began || value >= 0,
            ended: s.ended || value < 0,
            ..s
        },
    )
}

/// Whether an axis record is a slot selection outside the tracked slots.
pub open spec fn abs_rejected(code: u16, value: i32) -> bool {
    code == ABS_MT_SLOT && !(0 <= value < SLOT_COUNT)
}

/// The state after an axis record that is not rejected.
pub open spec fn after_abs(v: PadView, code: u16, value: i32) -> PadView {
    if code == ABS_X {
        moved_x(v, 0, value)
    } else if code == ABS_Y {
        moved_y(v, 0, value)
    } else if code == ABS_MT_SLOT {
        PadView { slots: v.slots, cursor: value as int }
    } else if code == ABS_MT_POSITION_X {
        moved_x(v, v.cursor, value)
    } else if code == ABS_MT_POSITION_Y {
        moved_y(v, v.cursor, value)
    } else if code == ABS_MT_TRACKING_ID {
        with_tracking_id(v, value)
    } else {
        v
    }
}

/// The state after a key record: the single-touch contact button lifts (0) or
/// presses (1) the contact of slot 0; other keys are no touch concern.
pub open spec fn after_key(v: PadView, code: u16, value: i32) -> PadView {
    if code == BTN_TOUCH && value == 0 {
        v.with_slot(0, Slot { ended: true, ..v.slots[0] })
    } else if code == BTN_TOUCH && value == 1 {
        v.with_slot(0, Slot { began: true, ..v.slots[0] })
    } else {
        v
    }
}

/// The state after a sync marker: every slot settled.
pub open spec fn after_sync(v: PadView) -> PadView {
    PadView { slots: v.slots.map_values(|s: Slot| s.settled()), cursor: v.cursor }
}

/// The event that slot `i` reports at a sync marker, if any.
pub open spec fn slot_event(s: Slot, i: int) -> Seq<Touch> {
    match s.phase() {
        Some(k) => seq![Touch { slot: i as usize, kind: k, x: s.x, y: s.y }],
        None => seq![],
    }
}

/// The events of slots `0..n` at a sync marker, in increasing slot order.
pub open spec fn frame_events_upto(slots: Seq<Slot>, n: nat) -> Seq<Touch>
    decreases n,
{
    if n == 0 {
        seq![]
    } else {
        frame_events_upto(slots, (n - 1) as nat) + slot_event(slots[n - 1], n - 1)
    }
}

/// The events that a sync marker emits for the given slots.
pub open spec fn frame_events(slots: Seq<Slot>) -> Seq<Touch> {
    frame_events_upto(slots, slots.len())
}

/// Each event of a frame reports the pending phase and the position of its slot,
/// and slot numbers strictly increase along the frame: a slot emits at most one
/// event per sync marker, and lower slots come first.
pub proof fn lemma_frame_events(slots: Seq<Slot>, n: nat)
    requires
        n <= slots.len() <= SLOT_COUNT,
    ensures
        forall|k: int|
            0 <= k < frame_events_upto(slots, n).len() ==> {
                let e = #[trigger] frame_events_upto(slots, n)[k];
                &&& e.slot < n
                &&& slots[e.slot as int].phase() == Some(e.kind)
                &&& e.x == slots[e.slot as int].x
                &&& e.y == slots[e.slot as int].y
            },
        forall|i: int, j: int|
            0 <= i < j < frame_events_upto(slots, n).len() ==> (#[trigger] frame_events_upto(
                slots,
                n,
            )[i]).slot < (#[trigger] frame_events_upto(slots, n)[j]).slot,
    decreases n,
{
    if n > 0 {
        lemma_frame_events(slots, (n - 1) as nat);
    }
}

/// A slot that has nothing pending emits no event at a sync marker.
pub proof fn lemma_quiet_slot_silent(slots: Seq<Slot>, b: int)
    requires
        slots.len() == SLOT_COUNT,
        0 <= b < SLOT_COUNT,
        !slots[b].pending(),
    ensures
        forall|k: int|
            0 <= k < frame_events(slots).len() ==> (#[trigger] frame_events(slots)[k]).slot != b,
{
    lemma_frame_events(slots, slots.len());
}

/// Whether the touch pad drops the record as a protocol error.
pub open spec fn rejects(r: RawEvent) -> bool {
    r.kind == EV_ABS && abs_rejected(r.code, r.value)
}

/// The state after one record (a rejected record changes nothing).
pub open spec fn step(v: PadView, r: RawEvent) -> PadView {
    if r.kind == EV_SYN {
        after_sync(v)
    } else if r.kind == EV_KEY {
        after_key(v, r.code, r.value)
    } else if r.kind == EV_ABS && !abs_rejected(r.code, r.value) {
        after_abs(v, r.code, r.value)
    } else {
        v
    }
}

/// The touch events that one record emits: only a sync marker emits any.
pub open spec fn step_events(v: PadView, r: RawEvent) -> Seq<Touch> {
    if r.kind == EV_SYN {
        frame_events(v.slots)
    } else {
        seq![]
    }
}

/// The state after a sequence of records.
pub open spec fn run(v: PadView, rs: Seq<RawEvent>) -> PadView
    decreases rs.len(),
{
    if rs.len() == 0 {
        v
    } else {
        step(run(v, rs.drop_last()), rs.last())
    }
}

/// All touch events that a sequence of records emits, in order.
pub open spec fn run_events(v: PadView, rs: Seq<RawEvent>) -> Seq<Touch>
    decreases rs.len(),
{
    if rs.len() == 0 {
        seq![]
    } else {
        run_events(v, rs.drop_last()) + step_events(run(v, rs.drop_last()), rs.last())
    }
}

/// Tracks the finger slots of one touch device. It must be driven by a single producer.
pub struct TouchPad {
    slots: [Slot; SLOT_COUNT],
    cursor: usize,
}

impl View for TouchPad {
    type V = PadView;

    closed spec fn view(&self) -> PadView {
        PadView { slots: self.slots@, cursor: self.cursor as int }
    }
}

impl TouchPad {
    #[verifier::type_invariant]
    spec fn inv(self) -> bool {
        self.cursor < SLOT_COUNT
    }

    /// Creates a touch pad with every slot idle and slot 0 selected.
    pub fn new() -> (r: TouchPad)
        ensures
            r@ == initial_pad(),
    {
        let r = TouchPad { slots: [Slot::idle();SLOT_COUNT], cursor: 0 };
        assert(r@.slots =~= initial_pad().slots);
        r
    }

    /// The slot at index `i`.
    pub fn slot(&self, i: usize) -> (r: Slot)
        requires
            i < SLOT_COUNT,
        ensures
            r == self@.slots[i as int],
    {
        self.slots[i]
    }

    /// The selected slot.
    pub fn cursor(&self) -> (r: usize)
        ensures
            r == self@.cursor,
            r < SLOT_COUNT,
    {
        proof {
            use_type_invariant(self);
        }
        self.cursor
    }

    /// Handles one raw record and returns the touch events it emits, in increasing
    /// slot order. A slot selection outside the tracked slots is dropped as an error.
    pub fn handle(&mut self, t: u16, c: u16, v: i32) -> (r: Result<Vec<Touch>, ProtocolError>)
        ensures
            ({
                let rec = RawEvent { kind: t, code: c, value: v };
                &&& final(self)@ == step(old(self)@, rec)
                &&& rejects(rec) ==> r == Err::<Vec<Touch>, ProtocolError>(
                    ProtocolError::SlotOutOfRange(v),
                )
                &&& !rejects(rec) ==> (r matches Ok(ts) && ts@ == step_events(old(self)@, rec))
            }),
    {
        if t == EV_SYN {
            Ok(self.handle_syn())
        } else if t == EV_KEY {
            self.handle_key(c, v);
            Ok(Vec::new())
        } else if t == EV_ABS {
            match self.handle_abs(c, v) {
                Ok(()) => Ok(Vec::new()),
                Err(e) => Err(e),
            }
        } else {
            Ok(Vec::new())
        }
    }

    /// Ends a frame: emits one event for each slot with something pending, in
    /// increasing slot order, then clears what was pending.
    pub fn handle_syn(&mut self) -> (r: Vec<Touch>)
        ensures
            r@ == frame_events(old(self)@.slots),
            final(self)@ == after_sync(old(self)@),
            forall|i: int, j: int|
                0 <= i < j < r@.len() ==> (#[trigger] r@[i]).slot < (#[trigger] r@[j]).slot,
    {
        proof {
            use_type_invariant(&*self);
        }
        let ghost before = self@;
        let mut out: Vec<Touch> = Vec::new();
        let mut i: usize = 0;
        while i < SLOT_COUNT
            invariant
                0 <= i <= SLOT_COUNT,
                before.slots.len() == SLOT_COUNT,
                self@.cursor == before.cursor,
                self.cursor < SLOT_COUNT,
                self@.slots.len() == SLOT_COUNT,
                out@ == frame_events_upto(before.slots, i as nat),
                forall|j: int| 0 <= j < i ==> self@.slots[j] == before.slots[j].settled(),
                forall|j: int| i <= j < SLOT_COUNT ==> self@.slots[j] == before.slots[j],
            decreases SLOT_COUNT - i,
        {
            let s = self.slots[i];
            if s.began {
                out.push(Touch::new(i, TouchPhase::Began, s.x, s.y));
            } else if s.ended {
                out.push(Touch::new(i, TouchPhase::Ended, s.x, s.y));
            } else if s.moved {
                out.push(Touch::new(i, TouchPhase::Moved, s.x, s.y));
            }
            self.slots[i] = Slot { began: false, moved: false, ended: false, ..s };
            i = i + 1;
        }
        assert(self@.slots =~= after_sync(before).slots);
        proof {
            lemma_frame_events(before.slots, SLOT_COUNT as nat);
        }
        out
    }

    /// Handles a key record: the single-touch contact button marks slot 0 as ended
    /// (value 0) or began (value 1); other keys leave the pad unchanged.
    pub fn handle_key(&mut self, c: u16, v: i32)
        ensures
            final(self)@ == after_key(old(self)@, c, v),
    {
        proof {
            use_type_invariant(&*self);
        }
        if c == BTN_TOUCH && v == 0 {
            let s = self.slots[0];
            self.slots[0] = Slot { ended: true, ..s };
        } else if c == BTN_TOUCH && v == 1 {
            let s = self.slots[0];
            self.slots[0] = Slot { began: true, ..s };
        }
    }

    /// Handles an axis record. A slot selection outside the tracked slots is
    /// dropped and reported; unknown axes are ignored.
    pub fn handle_abs(&mut self, c: u16, v: i32) -> (r: Result<(), ProtocolError>)
        ensures
            abs_rejected(c, v) ==> r == Err::<(), ProtocolError>(ProtocolError::SlotOutOfRange(v))
                && final(self)@ == old(self)@,
            !abs_rejected(c, v) ==> r is Ok && final(self)@ == after_abs(old(self)@, c, v),
    {
        if c == ABS_X {
            self.handle_abs_x(v);
            Ok(())
        } else if c == ABS_Y {
            self.handle_abs_y(v);
            Ok(())
        } else if c == ABS_MT_SLOT {
            self.handle_mt_slot(v)
        } else if c == ABS_MT_POSITION_X {
            self.handle_mt_position_x(v);
            Ok(())
        } else if c == ABS_MT_POSITION_Y {
            self.handle_mt_position_y(v);
            Ok(())
        } else if c == ABS_MT_TRACKING_ID {
            self.handle_mt_tracking_id(v);
            Ok(())
        } else {
            Ok(())
        }
    }

    /// Single-touch x position: updates slot 0 and marks it moved.
    pub fn handle_abs_x(&mut self, v: i32)
        ensures
            final(self)@ == moved_x(old(self)@, 0, v),
    {
        proof {
            use_type_invariant(&*self);
        }
        let s = self.slots[0];
        self.slots[0] = Slot { x: v, moved: true, ..s };
    }

    /// Single-touch y position: updates slot 0 and marks it moved.
    pub fn handle_abs_y(&mut self, v: i32)
        ensures
            final(self)@ == moved_y(old(self)@, 0, v),
    {
        proof {
            use_type_invariant(&*self);
        }
        let s = self.slots[0];
        self.slots[0] = Slot { y: v, moved: true, ..s };
    }

    /// Selects the slot that later multi-touch updates apply to. A value outside
    /// the tracked slots is dropped: the selection stays as it was.
    pub fn handle_mt_slot(&mut self, v: i32) -> (r: Result<(), ProtocolError>)
        ensures
            0 <= v < SLOT_COUNT ==> r is Ok && final(self)@ == (PadView {
                slots: old(self)@.slots,
                cursor: v as int,
            }),
            !(0 <= v < SLOT_COUNT) ==> r == Err::<(), ProtocolError>(
                ProtocolError::SlotOutOfRange(v),
            ) && final(self)@ == old(self)@,
    {
        proof {
            use_type_invariant(&*self);
        }
        if 0 <= v && v < SLOT_COUNT as i32 {
            self.cursor = v as usize;
            Ok(())
        } else {
            Err(ProtocolError::SlotOutOfRange(v))
        }
    }

    /// Multi-touch x position: updates the selected slot and marks it moved.
    pub fn handle_mt_position_x(&mut self, v: i32)
        ensures
            final(self)@ == moved_x(old(self)@, old(self)@.cursor, v),
    {
        proof {
            use_type_invariant(&*self);
        }
        let c = self.cursor;
        let s = self.slots[c];
        self.slots[c] = Slot { x: v, moved: true, ..s };
    }

    /// Multi-touch y position: updates the selected slot and marks it moved.
    pub fn handle_mt_position_y(&mut self, v: i32)
        ensures
            final(self)@ == moved_y(old(self)@, old(self)@.cursor, v),
    {
        proof {
            use_type_invariant(&*self);
        }
        let c = self.cursor;
        let s = self.slots[c];
        self.slots[c] = Slot { y: v, moved: true, ..s };
    }

    /// Multi-touch tracking id of the selected slot: a non-negative id marks a
    /// contact that began, a negative one a contact that ended.
    pub fn handle_mt_tracking_id(&mut self, v: i32)
        ensures
            final(self)@ == with_tracking_id(old(self)@, v),
    {
        proof {
            use_type_invariant(&*self);
        }
        let c = self.cursor;
        let s = self.slots[c];
        self.slots[c] = Slot { tracking_id: v, began: s.began || v >= 0, ended: s.ended || v < 0, ..s };
    }
}

} // verus!
