//! Discrete events handed to the application.

use vstd::prelude::*;

verus! {

/// Time elapsed since the process started: whole seconds and the nanoseconds beyond them.
#[derive(Clone, Copy, Debug, PartialEq, Eq, Structural)]
pub struct Elapsed {
    pub secs: u64,
    pub nanos: u32,
}

impl Elapsed {
    /// A well-formed value keeps the sub-second part below one second.
    pub open spec fn wf(self) -> bool {
        self.nanos < 1_000_000_000
    }

    /// The whole span in nanoseconds.
    pub open spec fn total_nanos(self) -> int {
        self.secs * 1_000_000_000 + self.nanos
    }
}

/// Phase of a finger contact reported by a touch event.
#[derive(Clone, Copy, Debug, PartialEq, Eq, Structural)]
pub enum TouchPhase {
    Began,
    Moved,
    Ended,
}

impl TouchPhase {
    pub open spec fn spec_code(self) -> i32 {
        match self {
            TouchPhase::Began => 1,
            TouchPhase::Moved => 2,
            TouchPhase::Ended => 3,
        }
    }

    /// The numeric code of the phase: 1 began, 2 moved, 3 ended.
    pub fn code(&self) -> (r: i32)
        ensures
            r == self.spec_code(),
    {
        match self {
            TouchPhase::Began => 1,
            TouchPhase::Moved => 2,
            TouchPhase::Ended => 3,
        }
    }
}

/// State of a key reported by a key event.
#[derive(Clone, Copy, Debug, PartialEq, Eq, Structural)]
pub enum KeyState {
    Up,
    Down,
    Repeat,
}

impl KeyState {
    pub open spec fn spec_code(self) -> i32 {
        match self {
            KeyState::Up => 0,
            KeyState::Down => 1,
            KeyState::Repeat => 2,
        }
    }

    /// The key value that the kernel reports for this state: 0 up, 1 down, 2 repeat.
    pub fn code(&self) -> (r: i32)
        ensures
            r == self.spec_code(),
    {
        match self {
            KeyState::Up => 0,
            KeyState::Down => 1,
            KeyState::Repeat => 2,
        }
    }

    pub open spec fn spec_from_value(value: i32) -> Option<KeyState> {
        if value == 0 {
            Some(KeyState::Up)
        } else if value == 1 {
            Some(KeyState::Down)
        } else if value == 2 {
            Some(KeyState::Repeat)
        } else {
            None
        }
    }

    /// The state that a raw key value stands for; `None` for any value but 0, 1 and 2.
    pub fn from_value(value: i32) -> (r: Option<KeyState>)
        ensures
            r == Self::spec_from_value(value),
            r matches Some(k) ==> k.spec_code() == value,
    {
        if value == 0 {
            Some(KeyState::Up)
        } else if value == 1 {
            Some(KeyState::Down)
        } else if value == 2 {
            Some(KeyState::Repeat)
        } else {
            None
        }
    }
}

/// A change of one finger contact.
#[derive(Clone, Copy, Debug, PartialEq, Eq, Structural)]
pub struct Touch {
    /// The slot that tracks the contact.
    pub slot: usize,
    pub kind: TouchPhase,
    /// Position on the touch surface.
    pub x: i32,
    pub y: i32,
}

impl Touch {
    /// Creates a touch event.
    pub fn new(slot: usize, kind: TouchPhase, x: i32, y: i32) -> (r: Touch)
        ensures
            r == (Touch { slot, kind, x, y }),
    {
        Touch { slot, kind, x, y }
    }
}

/// A change of one key.
#[derive(Clone, Copy, Debug, PartialEq, Eq, Structural)]
pub struct Key {
    /// The kernel's code of the key.
    pub key: u16,
    pub kind: KeyState,
}

impl Key {
    /// Creates a key event.
    pub fn new(key: u16, kind: KeyState) -> (r: Key)
        ensures
            r == (Key { key, kind }),
    {
        Key { key, kind }
    }
}

/// An event for the application, stamped with the time it was made.
#[derive(Clone, Copy, Debug, PartialEq, Eq, Structural)]
pub enum Event {
    Touch(Touch, Elapsed),
    Key(Key, Elapsed),
    Tick(Elapsed),
}

impl Event {
    /// Creates a touch event made at `at`.
    pub fn new_touch(t: Touch, at: Elapsed) -> (r: Event)
        ensures
            r == Event::Touch(t, at),
    {
        Event::Touch(t, at)
    }

    /// Creates a key event made at `at`.
    pub fn new_key(k: Key, at: Elapsed) -> (r: Event)
        ensures
            r == Event::Key(k, at),
    {
        Event::Key(k, at)
    }

    /// Creates a timer tick made at `at`.
    pub fn new_tick(at: Elapsed) -> (r: Event)
        ensures
            r == Event::Tick(at),
    {
        Event::Tick(at)
    }

    /// When the event was made.
    pub fn time(&self) -> (r: Elapsed)
        ensures
            r == self.spec_time(),
    {
        match self {
            Event::Touch(_, at) => *at,
            Event::Key(_, at) => *at,
            Event::Tick(at) => *at,
        }
    }

    pub open spec fn spec_time(self) -> Elapsed {
        match self {
            Event::Touch(_, at) => at,
            Event::Key(_, at) => at,
            Event::Tick(at) => at,
        }
    }
}

} // verus!
