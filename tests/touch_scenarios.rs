use weekit::event::{Elapsed, Event, Touch, TouchPhase};
use weekit::listener::Listener;
use weekit::raw::{
    ProtocolError, ABS_MT_POSITION_X, ABS_MT_POSITION_Y, ABS_MT_SLOT, ABS_MT_TRACKING_ID, ABS_X,
    ABS_Y, BTN_TOUCH, EV_ABS, EV_KEY, EV_SYN,
};
use weekit::touch::{TouchPad, SLOT_COUNT};

fn feed(pad: &mut TouchPad, records: &[(u16, u16, i32)]) -> Vec<Touch> {
    let mut out = Vec::new();
    for &(t, c, v) in records {
        out.extend(pad.handle(t, c, v).unwrap());
    }
    out
}

fn scenario_a(pad: &mut TouchPad) -> Vec<Touch> {
    feed(
        pad,
        &[
            (EV_ABS, ABS_MT_SLOT, 0),
            (EV_ABS, ABS_MT_TRACKING_ID, 5),
            (EV_ABS, ABS_MT_POSITION_X, 100),
            (EV_ABS, ABS_MT_POSITION_Y, 200),
            (EV_SYN, 0, 0),
        ],
    )
}

#[test]
fn first_contact_begins() {
    let mut pad = TouchPad::new();
    let out = scenario_a(&mut pad);
    assert_eq!(out, vec![Touch::new(0, TouchPhase::Began, 100, 200)]);
    assert_eq!(pad.slot(0).tracking_id, 5);
}

#[test]
fn contact_moves() {
    let mut pad = TouchPad::new();
    scenario_a(&mut pad);
    let out = feed(
        &mut pad,
        &[(EV_ABS, ABS_MT_SLOT, 0), (EV_ABS, ABS_MT_POSITION_X, 110), (EV_SYN, 0, 0)],
    );
    assert_eq!(out, vec![Touch::new(0, TouchPhase::Moved, 110, 200)]);
}

#[test]
fn contact_ends_and_frees_slot() {
    let mut pad = TouchPad::new();
    scenario_a(&mut pad);
    feed(
        &mut pad,
        &[(EV_ABS, ABS_MT_SLOT, 0), (EV_ABS, ABS_MT_POSITION_X, 110), (EV_SYN, 0, 0)],
    );
    let out = feed(
        &mut pad,
        &[(EV_ABS, ABS_MT_SLOT, 0), (EV_ABS, ABS_MT_TRACKING_ID, -1), (EV_SYN, 0, 0)],
    );
    assert_eq!(out, vec![Touch::new(0, TouchPhase::Ended, 110, 200)]);
    assert_eq!(pad.slot(0).tracking_id, -1);
    let s = pad.slot(0);
    assert!(!s.began && !s.moved && !s.ended);
    // The slot can be taken by a new contact.
    let again = feed(
        &mut pad,
        &[(EV_ABS, ABS_MT_SLOT, 0), (EV_ABS, ABS_MT_TRACKING_ID, 6), (EV_SYN, 0, 0)],
    );
    assert_eq!(again, vec![Touch::new(0, TouchPhase::Began, 110, 200)]);
}

#[test]
fn two_fingers_in_slot_order() {
    let mut pad = TouchPad::new();
    let out = feed(
        &mut pad,
        &[
            (EV_ABS, ABS_MT_SLOT, 1),
            (EV_ABS, ABS_MT_TRACKING_ID, 8),
            (EV_ABS, ABS_MT_POSITION_X, 30),
            (EV_ABS, ABS_MT_POSITION_Y, 40),
            (EV_ABS, ABS_MT_SLOT, 0),
            (EV_ABS, ABS_MT_TRACKING_ID, 7),
            (EV_ABS, ABS_MT_POSITION_X, 10),
            (EV_ABS, ABS_MT_POSITION_Y, 20),
            (EV_SYN, 0, 0),
        ],
    );
    assert_eq!(
        out,
        vec![Touch::new(0, TouchPhase::Began, 10, 20), Touch::new(1, TouchPhase::Began, 30, 40)]
    );
}

#[test]
fn legacy_button_begins_slot_zero() {
    let mut pad = TouchPad::new();
    let out = feed(
        &mut pad,
        &[(EV_ABS, ABS_X, 12), (EV_ABS, ABS_Y, 34), (EV_KEY, BTN_TOUCH, 1), (EV_SYN, 0, 0)],
    );
    assert_eq!(out, vec![Touch::new(0, TouchPhase::Began, 12, 34)]);
    let lifted = feed(&mut pad, &[(EV_KEY, BTN_TOUCH, 0), (EV_SYN, 0, 0)]);
    assert_eq!(lifted, vec![Touch::new(0, TouchPhase::Ended, 12, 34)]);
}

#[test]
fn legacy_button_alone_uses_last_position() {
    let mut pad = TouchPad::new();
    feed(&mut pad, &[(EV_ABS, ABS_X, 5), (EV_ABS, ABS_Y, 6), (EV_SYN, 0, 0)]);
    let out = feed(&mut pad, &[(EV_KEY, BTN_TOUCH, 1), (EV_SYN, 0, 0)]);
    assert_eq!(out, vec![Touch::new(0, TouchPhase::Began, 5, 6)]);
}

#[test]
fn other_slots_stay_silent() {
    let mut pad = TouchPad::new();
    feed(
        &mut pad,
        &[
            (EV_ABS, ABS_MT_SLOT, 2),
            (EV_ABS, ABS_MT_TRACKING_ID, 1),
            (EV_ABS, ABS_MT_SLOT, 4),
            (EV_ABS, ABS_MT_TRACKING_ID, 2),
            (EV_SYN, 0, 0),
        ],
    );
    let out = feed(
        &mut pad,
        &[
            (EV_ABS, ABS_MT_SLOT, 4),
            (EV_ABS, ABS_MT_POSITION_X, 9),
            (EV_ABS, ABS_MT_POSITION_Y, 9),
            (EV_SYN, 0, 0),
        ],
    );
    assert_eq!(out, vec![Touch::new(4, TouchPhase::Moved, 9, 9)]);
}

#[test]
fn one_event_per_slot_even_with_many_updates() {
    let mut pad = TouchPad::new();
    scenario_a(&mut pad);
    let out = feed(
        &mut pad,
        &[
            (EV_ABS, ABS_MT_POSITION_X, 1),
            (EV_ABS, ABS_MT_POSITION_X, 2),
            (EV_ABS, ABS_MT_POSITION_Y, 3),
            (EV_ABS, ABS_MT_POSITION_X, 4),
            (EV_SYN, 0, 0),
        ],
    );
    assert_eq!(out, vec![Touch::new(0, TouchPhase::Moved, 4, 3)]);
}

#[test]
fn lift_wins_over_move_in_one_frame() {
    let mut pad = TouchPad::new();
    scenario_a(&mut pad);
    let out = feed(
        &mut pad,
        &[(EV_ABS, ABS_MT_POSITION_X, 120), (EV_ABS, ABS_MT_TRACKING_ID, -1), (EV_SYN, 0, 0)],
    );
    assert_eq!(out, vec![Touch::new(0, TouchPhase::Ended, 120, 200)]);
}

#[test]
fn sync_without_changes_is_silent() {
    let mut pad = TouchPad::new();
    assert_eq!(feed(&mut pad, &[(EV_SYN, 0, 0)]), vec![]);
    scenario_a(&mut pad);
    assert_eq!(feed(&mut pad, &[(EV_SYN, 0, 0)]), vec![]);
}

#[test]
fn slot_out_of_range_is_dropped() {
    let mut pad = TouchPad::new();
    feed(&mut pad, &[(EV_ABS, ABS_MT_SLOT, 3)]);
    assert_eq!(pad.handle(EV_ABS, ABS_MT_SLOT, SLOT_COUNT as i32), Err(ProtocolError::SlotOutOfRange(10)));
    assert_eq!(pad.handle(EV_ABS, ABS_MT_SLOT, -1), Err(ProtocolError::SlotOutOfRange(-1)));
    assert_eq!(pad.cursor(), 3);
    assert_eq!(pad.handle(EV_ABS, ABS_MT_SLOT, 9), Ok(vec![]));
    assert_eq!(pad.cursor(), 9);
}

#[test]
fn new_pad_is_idle() {
    let pad = TouchPad::new();
    for i in 0..SLOT_COUNT {
        let s = pad.slot(i);
        assert_eq!(s.tracking_id, -1);
        assert!(!s.began && !s.moved && !s.ended);
    }
    assert_eq!(pad.cursor(), 0);
}

#[test]
fn direct_handlers_update_selected_slot() {
    let mut pad = TouchPad::new();
    pad.handle_mt_slot(6).unwrap();
    pad.handle_mt_tracking_id(3);
    pad.handle_mt_position_x(70);
    pad.handle_mt_position_y(80);
    pad.handle_abs_x(1);
    pad.handle_abs_y(2);
    let s = pad.slot(6);
    assert_eq!((s.tracking_id, s.x, s.y, s.began, s.moved), (3, 70, 80, true, true));
    let z = pad.slot(0);
    assert_eq!((z.x, z.y, z.moved), (1, 2, true));
    pad.handle_key(BTN_TOUCH, 0);
    assert!(pad.slot(0).ended);
    pad.handle_abs(ABS_MT_POSITION_X, 71).unwrap();
    assert_eq!(pad.slot(6).x, 71);
    assert_eq!(
        pad.handle_syn(),
        vec![Touch::new(0, TouchPhase::Ended, 1, 2), Touch::new(6, TouchPhase::Began, 71, 80)]
    );
}

fn at(secs: u64) -> Elapsed {
    Elapsed { secs, nanos: 0 }
}

#[test]
fn listener_stamps_touch_events() {
    let mut l = Listener::new();
    let records = [
        (EV_ABS, ABS_MT_SLOT, 0),
        (EV_ABS, ABS_MT_TRACKING_ID, 5),
        (EV_ABS, ABS_MT_POSITION_X, 100),
        (EV_ABS, ABS_MT_POSITION_Y, 200),
    ];
    for &(t, c, v) in records.iter() {
        assert_eq!(l.handle(t, c, v, at(1)), Ok(vec![]));
    }
    let out = l.handle(EV_SYN, 0, 0, at(2)).unwrap();
    assert_eq!(out, vec![Event::Touch(Touch::new(0, TouchPhase::Began, 100, 200), at(2))]);
    assert_eq!(l.pad().slot(0).tracking_id, 5);
}

fn listener_run(records: &[(u16, u16, i32)]) -> Vec<Event> {
    let mut l = Listener::new();
    let mut out = Vec::new();
    for &(t, c, v) in records {
        if let Ok(evs) = l.handle(t, c, v, at(0)) {
            out.extend(evs);
        }
    }
    out
}

#[test]
fn same_records_same_events() {
    let records = [
        (EV_ABS, ABS_MT_SLOT, 1),
        (EV_ABS, ABS_MT_TRACKING_ID, 3),
        (EV_KEY, 30, 1),
        (EV_ABS, ABS_MT_POSITION_X, 5),
        (EV_SYN, 0, 0),
        (EV_ABS, ABS_MT_SLOT, 12),
        (EV_KEY, 30, 7),
        (EV_ABS, ABS_MT_TRACKING_ID, -1),
        (EV_SYN, 0, 0),
    ];
    let first = listener_run(&records);
    let second = listener_run(&records);
    assert_eq!(first, second);
    assert_eq!(first.len(), 3);
}

#[test]
fn contact_lifecycle_over_frames() {
    let mut pad = TouchPad::new();
    let mut kinds = Vec::new();
    let frames: [&[(u16, u16, i32)]; 5] = [
        &[(EV_ABS, ABS_MT_SLOT, 3), (EV_ABS, ABS_MT_TRACKING_ID, 42), (EV_ABS, ABS_MT_POSITION_X, 1)],
        &[(EV_ABS, ABS_MT_POSITION_X, 2)],
        &[],
        &[(EV_ABS, ABS_MT_POSITION_Y, 3)],
        &[(EV_ABS, ABS_MT_TRACKING_ID, -1)],
    ];
    for frame in frames.iter() {
        let mut records = frame.to_vec();
        records.push((EV_SYN, 0, 0));
        for t in feed(&mut pad, &records) {
            assert_eq!(t.slot, 3);
            kinds.push(t.kind);
        }
    }
    assert_eq!(
        kinds,
        vec![TouchPhase::Began, TouchPhase::Moved, TouchPhase::Moved, TouchPhase::Ended]
    );
    assert_eq!(pad.slot(3).tracking_id, -1);
}
