//! A minimal application that meets every obligation of
//! [`VertexEngineApplication`](crate::VertexEngineApplication): it counts a
//! run bound down on each update and logs in ghost state what it was handed.
//! It stands as the proof that a verified host can implement the trait.

use vstd::prelude::*;

use crate::VertexEngineApplication;
use crate::graphics::events::Event;
use crate::graphics::window::Window;

verus! {

/// An application that runs for at most `remaining` more frames and keeps a
/// ghost log of the events and updates it received.
#[allow(dead_code)]
struct CountingApplication {
    window: Window,
    remaining: u64,
    events: Ghost<Seq<Event>>,
    updates: Ghost<nat>,
}

impl VertexEngineApplication for CountingApplication {
    closed spec fn fuel(&self) -> nat {
        self.remaining as nat
    }

    closed spec fn spec_window(&self) -> Window {
        self.window
    }

    closed spec fn events_seen(&self) -> Seq<Event> {
        self.events@
    }

    closed spec fn updates_done(&self) -> nat {
        self.updates@
    }

    closed spec fn running(&self) -> bool {
        self.remaining > 0
    }

    fn on_update(&mut self) {
        if self.remaining > 0 {
            self.remaining = self.remaining - 1;
        }
        proof {
            self.updates@ = self.updates@ + 1;
        }
    }

    fn get_window(&mut self) -> (window: &mut Window) {
        &mut self.window
    }

    fn is_running(&self) -> (r: bool) {
        self.remaining > 0
    }

    fn on_event(&mut self, event: Event) {
        proof {
            self.events@ = self.events@.push(event);
        }
    }
}

} // verus!
