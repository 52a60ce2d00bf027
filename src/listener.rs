//! The per-device listener: routes raw records to the touch pad or to key
//! events and stamps what comes out.

use vstd::prelude::*;

use crate::event::{Elapsed, Event, Touch};
use crate::key::{key_event, spec_key_event};
use crate::raw::{ProtocolError, RawEvent, BTN_TOUCH, EV_KEY};
use crate::touch::{initial_pad, rejects, step, step_events, PadView, TouchPad};

verus! {

/// Touch events stamped with the time `at`.
pub open spec fn stamp(ts: Seq<Touch>, at: Elapsed) -> Seq<Event> {
    ts.map_values(|t: Touch| Event::Touch(t, at))
}

/// Whether a record is a key record that is no touch concern.
pub open spec fn is_plain_key(r: RawEvent) -> bool {
    r.kind == EV_KEY && r.code != BTN_TOUCH
}

/// What a listener in state `v` answers to record `r` at time `at`: the events it
/// emits, or the protocol error for which the record is dropped.
pub open spec fn respond(v: PadView, r: RawEvent, at: Elapsed) -> Result<Seq<Event>, ProtocolError> {
    if is_plain_key(r) {
        match spec_key_event(r.code, r.value) {
            Ok(k) => Ok(seq![Event::Key(k, at)]),
            Err(e) => Err(e),
        }
    } else if rejects(r) {
        Err(ProtocolError::SlotOutOfRange(r.value))
    } else {
        Ok(stamp(step_events(v, r), at))
    }
}

/// Monitors the records of one input device and turns them into events.
pub struct Listener {
    pad: TouchPad,
}

impl View for Listener {
    type V = PadView;

    closed spec fn view(&self) -> PadView {
        self.pad@
    }
}

impl Listener {
    /// Creates a listener whose touch pad has every slot idle.
    pub fn new() -> (r: Listener)
        ensures
            r@ == initial_pad(),
    {
        Listener { pad: TouchPad::new() }
    }

    /// The touch pad that holds the listener's slots.
    pub fn pad(&self) -> (r: &TouchPad)
        ensures
            r@ == self@,
    {
        &self.pad
    }

    /// Handles one raw record received at `at` and returns the events it yields,
    /// in order: the touch events of a sync marker in increasing slot order, or the
    /// key event of a key record. A record that breaks the protocol is dropped
    /// with an error and changes nothing.
    pub fn handle(&mut self, t: u16, c: u16, v: i32, at: Elapsed) -> (r: Result<Vec<Event>, ProtocolError>)
        ensures
            ({
                let rec = RawEvent { kind: t, code: c, value: v };
                &&& final(self)@ == step(old(self)@, rec)
                &&& match r {
                    Ok(evs) => respond(old(self)@, rec, at) == Ok::<Seq<Event>, ProtocolError>(
                        evs@,
                    ),
                    Err(e) => respond(old(self)@, rec, at) == Err::<Seq<Event>, ProtocolError>(e),
                }
            }),
    {
        let ghost rec = RawEvent { kind: t, code: c, value: v };
        if t == EV_KEY && c != BTN_TOUCH {
            match key_event(c, v) {
                Ok(k) => {
                    let mut out: Vec<Event> = Vec::new();
                    out.push(Event::new_key(k, at));
                    assert(out@ =~= seq![Event::Key(k, at)]);
                    Ok(out)
                },
                Err(e) => Err(e),
            }
        } else {
            match self.pad.handle(t, c, v) {
                Ok(ts) => Ok(Self::stamp_all(&ts, at)),
                Err(e) => Err(e),
            }
        }
    }

    /// Stamps touch events with the time `at`, keeping their order.
    fn stamp_all(ts: &Vec<Touch>, at: Elapsed) -> (r: Vec<Event>)
        ensures
            r@ == stamp(ts@, at),
    {
        let mut out: Vec<Event> = Vec::new();
        let mut i: usize = 0;
        while i < ts.len()
            invariant
                0 <= i <= ts.len(),
                out@ == stamp(ts@.subrange(0, i as int), at),
            decreases ts.len() - i,
        {
            out.push(Event::new_touch(ts[i], at));
            i = i + 1;
            assert(ts@.subrange(0, i as int) =~= ts@.subrange(0, i - 1 as int).push(ts@[i - 1]));
            assert(out@ =~= stamp(ts@.subrange(0, i as int), at));
        }
        assert(ts@.subrange(0, ts.len() as int) =~= ts@);
        out
    }
}

} // verus!
