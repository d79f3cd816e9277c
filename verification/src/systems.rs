//! Engine-level systems that react to host events.

use vstd::prelude::*;
use crate::Running;

verus! {

/// A window event, reduced to what the engine decides on.
#[derive(Clone, Copy, PartialEq, Eq, Structural, Debug)]
pub enum EngineEvent {
    /// The user asked the window to close.
    CloseRequested,
    /// Any other window or device event; the engine ignores these.
    Other,
}

/// Drains the events gathered since the last tick and clears the
/// running flag when a close was requested.
pub struct EventHandler;

impl EventHandler {
    /// The running flag stays set exactly when it was set before and no
    /// close was requested.
    pub fn run(&mut self, events: &Vec<EngineEvent>, running: &mut Running)
        ensures
            final(running).0 == (old(running).0 && !events@.contains(
                EngineEvent::CloseRequested,
            )),
    {
        let n = events.len();
        for i in 0..n
            invariant
                n == events@.len(),
                running.0 == (old(running).0 && forall|j: int|
                    0 <= j < i ==> events@[j] != EngineEvent::CloseRequested),
        {
            if events[i] == EngineEvent::CloseRequested {
                running.0 = false;
            }
        }
        proof {
            if events@.contains(EngineEvent::CloseRequested) {
                let k = choose|k: int|
                    0 <= k < events@.len() && events@[k] == EngineEvent::CloseRequested;
                assert(!running.0);
            } else {
                assert(forall|j: int|
                    0 <= j < events@.len() ==> events@[j] != EngineEvent::CloseRequested);
            }
        }
    }
}

} // verus!
