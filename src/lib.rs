//! An application shell for small touch-screen devices: it turns raw kernel
//! input records into touch and key events and serialises them, together with
//! timer ticks and draw requests, into one shared application object.

pub mod event;
pub mod raw;
pub mod touch;
pub mod key;
pub mod listener;
pub mod lifecycle;
pub mod dispatch;
pub mod vg;
