//! A single-window event-dispatch layer for interactive applications.
//!
//! The heart of the crate is [`session::Session`]: a state machine that owns
//! the window lifecycle, translates raw platform events into semantic
//! callback requests, and enforces the cursor-visibility and focus policies.
//! It performs no I/O itself: each step consumes one plain-value event and
//! returns the ordered list of platform calls and handler callbacks that the
//! surrounding run loop must perform.

pub mod events;
pub mod laws;
pub mod session;

use vstd::prelude::*;

use crate::session::Session;
use crate::session::initial_model;

verus! {

/// Companion of the run entry point: builds the session that one run of the
/// platform poll loop drives. The loop itself — window creation, event
/// polling, the platform calls — lives outside this crate and merely
/// interprets the actions the session returns from each step.
pub struct WindowRunner;

impl WindowRunner {
    /// Builds the session for one run, from the configuration read once from
    /// the handler before any window exists: title, minimum window size and
    /// starting window size, both in pixels.
    pub fn new_session(title: String, min_size: (u16, u16), start_size: (u16, u16)) -> (s:
        Session)
        ensures
            s@ == initial_model(title@, min_size, start_size),
    {
        Session::new(title, min_size, start_size)
    }
}

} // verus!
