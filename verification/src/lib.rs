//! A windowing and event layer for a small game engine.
//!
//! The crate models the state of an engine window and the translation of the
//! native windowing backend's messages into the engine's own event variants.
//! Opening a real native window, polling its message queue and swapping its
//! buffers are the task of an unverified shell around this library; the shell
//! hands each native message to the verified window model as a plain value.

use vstd::prelude::*;

mod sample_application;
pub mod engine_core;
pub mod coregl;
pub mod events;
pub mod graphics;
pub mod native;
pub mod vulkan;
pub mod window;
pub mod windowing;

verus! {

/// What a host program implements to be driven by [`run_application`].
///
/// The four callbacks are the host's own code. What the engine asks of them
/// it asks through ghost observers: a bound [`Self::fuel`] that makes the
/// driving loop provably finite, and the log [`Self::events_seen`],
/// [`Self::updates_done`], [`Self::running`] and [`Self::spec_window`], which
/// pin what each callback did so that the loop can promise in-order,
/// exactly-once delivery. The observers have trivial defaults so that an
/// unverified host can leave them out; a verified application overrides them
/// with its own state.
pub trait VertexEngineApplication {
    /// An upper bound, chosen by the application, on the number of loop
    /// iterations it still intends to run. The bound may not grow while the
    /// application is driven, and every update lowers it; an application is
    /// running only while the bound is positive. An application that leaves
    /// the bound at its default of zero never reports itself running.
    open spec fn fuel(&self) -> nat {
        0
    }

    /// The application's window, as the model sees it: the value that
    /// [`Self::get_window`] hands out.
    open spec fn spec_window(&self) -> graphics::window::Window {
        vstd::pervasive::arbitrary()
    }

    /// The events the application has been handed so far, oldest first.
    open spec fn events_seen(&self) -> Seq<graphics::events::Event> {
        Seq::empty()
    }

    /// The number of updates the application has completed.
    open spec fn updates_done(&self) -> nat {
        0
    }

    /// Whether the application reports itself running.
    open spec fn running(&self) -> bool {
        false
    }

    /// Called once per loop iteration, after the events were handled: one
    /// more update is done, the events seen stay as they were, and the
    /// application's bound sinks.
    fn on_update(&mut self)
        ensures
            final(self).updates_done() == old(self).updates_done() + 1,
            final(self).events_seen() == old(self).events_seen(),
            old(self).fuel() > 0 ==> final(self).fuel() < old(self).fuel(),
            old(self).fuel() == 0 ==> final(self).fuel() == 0,
    ;

    /// The window the application runs in. The reference points at the
    /// observed window, and whatever the caller does with it, the
    /// application's log and bound are untouched.
    fn get_window(&mut self) -> (window: &mut graphics::window::Window)
        ensures
            *window == old(self).spec_window(),
            final(self).spec_window() == *final(window),
            final(self).events_seen() == old(self).events_seen(),
            final(self).updates_done() == old(self).updates_done(),
            final(self).fuel() <= old(self).fuel(),
    ;

    /// Whether the loop should keep running.
    fn is_running(&self) -> (r: bool)
        ensures
            r == self.running(),
            r ==> self.fuel() > 0,
    ;

    /// Called once for each event flushed from the window, in arrival order:
    /// exactly this event is appended to the events seen, no update happens,
    /// and the application's bound does not grow.
    fn on_event(&mut self, event: graphics::events::Event)
        ensures
            final(self).events_seen() == old(self).events_seen().push(event),
            final(self).updates_done() == old(self).updates_done(),
            final(self).fuel() <= old(self).fuel(),
    ;
}

/// One iteration of the driving loop: flush the window's events, hand each
/// one to `on_event`, oldest first, then call `on_update` once.
///
/// The application sees exactly the translation of what its window held
/// pending, appended to its log in arrival order — each event once — and
/// completes exactly one update; its bound sinks.
pub fn run_frame(application: &mut impl VertexEngineApplication)
    ensures
        final(application).events_seen() == old(application).events_seen()
            + graphics::events::translated_events(old(application).spec_window().pending()),
        final(application).updates_done() == old(application).updates_done() + 1,
        old(application).fuel() > 0 ==> final(application).fuel() < old(application).fuel(),
        old(application).fuel() == 0 ==> final(application).fuel() == 0,
{
    let events = application.get_window().flush_events();
    let ghost fuel_after_flush: nat = application.fuel();
    proof {
        assert(old(application).events_seen() + events@.subrange(0, 0) =~= old(
            application,
        ).events_seen());
    }
    let mut i: usize = 0;
    while i < events.len()
        invariant
            i <= events.len(),
            application.events_seen() == old(application).events_seen() + events@.subrange(
                0,
                i as int,
            ),
            application.updates_done() == old(application).updates_done(),
            application.fuel() <= fuel_after_flush,
        decreases events.len() - i,
    {
        proof {
            assert((old(application).events_seen() + events@.subrange(0, i as int)).push(
                events@[i as int],
            ) =~= old(application).events_seen() + events@.subrange(0, (i + 1) as int));
        }
        application.on_event(events[i]);
        i = i + 1;
    }
    proof {
        assert(events@.subrange(0, events@.len() as int) =~= events@);
    }
    application.on_update();
}

/// Drives an application: while it reports itself running, flush the events
/// of its window, hand them to `on_event` one by one in arrival order, then
/// call `on_update`, a frame at a time. When the loop returns, the
/// application no longer reports itself running, its log of events seen has
/// only grown at the end, no update was taken back, and its bound has not
/// grown. The application's own bound makes the loop finite.
pub fn run_application(application: &mut impl VertexEngineApplication)
    ensures
        !final(application).running(),
        old(application).events_seen().is_prefix_of(final(application).events_seen()),
        final(application).updates_done() >= old(application).updates_done(),
        final(application).fuel() <= old(application).fuel(),
{
    while application.is_running()
        invariant
            old(application).events_seen().is_prefix_of(application.events_seen()),
            application.updates_done() >= old(application).updates_done(),
            application.fuel() <= old(application).fuel(),
        decreases application.fuel(),
    {
        let ghost seen_before: Seq<graphics::events::Event> = application.events_seen();
        run_frame(application);
        proof {
            assert(application.events_seen().subrange(0, seen_before.len() as int)
                =~= seen_before);
            assert(application.events_seen().subrange(
                0,
                old(application).events_seen().len() as int,
            ) =~= old(application).events_seen());
        }
    }
}

} // verus!
