//! The dispatcher: one application shared by every producer, called one
//! callback at a time.

use vstd::prelude::*;
use vstd::rwlock::{RwLock, RwLockPredicate};

use crate::event::{Elapsed, Event, Key, Touch};

verus! {

/// Milliseconds between two timer ticks.
pub const TICK_INTERVAL_MS: u64 = 10;

/// Milliseconds between two frames where the shell drives drawing itself.
pub const FRAME_INTERVAL_MS: u64 = 20;

/// What an application run by this shell provides.
pub trait Application {
    /// Resizes the application screen.
    fn size(&mut self, width: u32, height: u32) {
    }

    /// Draws the application screen.
    fn draw(&mut self, width: u32, height: u32);

    /// Handles one event.
    fn handle(&mut self, event: &Event) {
    }
}

/// The lock of a dispatcher admits any application value.
pub struct AnyApp;

impl<A> RwLockPredicate<A> for AnyApp {
    open spec fn inv(self, v: A) -> bool {
        true
    }
}

/// Owns the one application instance and serialises every callback into it.
/// Each dispatch takes the lock, makes exactly one callback and releases the lock,
/// so no two callbacks ever run at the same time. A callback must not dispatch
/// again: it would wait for its own lock forever.
pub struct Dispatcher<A: Application> {
    app: RwLock<A, AnyApp>,
}

impl<A: Application> Dispatcher<A> {
    /// Takes ownership of the application.
    pub fn new(app: A) -> (r: Dispatcher<A>) {
        Dispatcher { app: RwLock::new(app, Ghost(AnyApp)) }
    }

    /// Hands one event to the application.
    pub fn dispatch(&self, event: &Event) {
        let (mut app, handle) = self.app.acquire_write();
        app.handle(event);
        handle.release_write(app);
    }

    /// Hands events to the application one by one, in order, each under its own
    /// hold of the lock.
    pub fn dispatch_all(&self, events: &Vec<Event>) {
        let mut i: usize = 0;
        while i < events.len()
            invariant
                i <= events.len(),
            decreases events.len() - i,
        {
            self.dispatch(&events[i]);
            i = i + 1;
        }
    }

    /// Hands a touch event made at `at` to the application.
    pub fn dispatch_touch(&self, t: Touch, at: Elapsed) {
        self.dispatch(&Event::new_touch(t, at));
    }

    /// Hands a key event made at `at` to the application.
    pub fn dispatch_key(&self, k: Key, at: Elapsed) {
        self.dispatch(&Event::new_key(k, at));
    }

    /// Hands a timer tick made at `at` to the application.
    pub fn dispatch_tick(&self, at: Elapsed) {
        self.dispatch(&Event::new_tick(at));
    }

    /// Asks the application to draw a screen of the given size.
    pub fn dispatch_draw(&self, width: u32, height: u32) {
        let (mut app, handle) = self.app.acquire_write();
        app.draw(width, height);
        handle.release_write(app);
    }

    /// Tells the application the size of its screen.
    pub fn dispatch_size(&self, width: u32, height: u32) {
        let (mut app, handle) = self.app.acquire_write();
        app.size(width, height);
        handle.release_write(app);
    }

    /// Gives the application back, ending the dispatcher.
    pub fn into_inner(self) -> (r: A) {
        self.app.into_inner()
    }
}

} // verus!
