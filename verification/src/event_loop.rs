//! The event loop: one pump iteration at a time, from native
//! notifications to handler callbacks, until closure is requested.
//!
//! The loop owns the window facade and the user's handler. The platform
//! glue fetches the pending native notifications and polls the parent
//! pair (the only parts of an iteration the core cannot do itself),
//! hands both to `pump`, performs the native commands the facade
//! queued, and tears the native window down once the loop reports
//! closure.
//!
//! The loop's life is `Constructing → Running → Closing → Terminated`,
//! and never backwards: events are dispatched only in `Running`, and
//! `Terminated` is final.

use vstd::prelude::*;

use crate::event::{Event, EventStatus, NativeEvent, WindowEvent};
use crate::handle::ParentHandle;
use crate::translate::{batch_events, has_close_protocol, info_after, plan_batch};
use crate::window::{NativeCommand, Window};

verus! {

/// The callbacks user code hands to an open call. The event loop
/// invokes them synchronously, never concurrently with themselves.
///
/// The two specification members are the handler's own record of what
/// it has been handed: `seen` the events in delivery order, `frames`
/// the number of frame ticks. Every callback contract pushes onto
/// them, so a loop that claims to have delivered a batch cannot have
/// skipped the calls. A verified implementation maintains them as
/// ghost state; for an unverified one they are erased.
///
/// An implementation is free to operate the window it is handed —
/// request closure, resize, change the cursor — but may not forge the
/// parts the event loop owns: the size/scale snapshot, the native
/// identity, and a close request once made (`Window::handler_view_ok`).
pub trait WindowHandler {
    /// The events this handler has received, in delivery order.
    spec fn seen(&self) -> Seq<Event>;

    /// How many frame ticks this handler has received.
    spec fn frames(&self) -> int;

    /// Called once per pump iteration, unless the iteration ends in
    /// closure: the regular tick for redraw and animation.
    fn on_frame(&mut self, window: &mut Window)
        requires
            old(window).wf(),
        ensures
            Window::handler_view_ok(*old(window), *final(window)),
            final(self).seen() == old(self).seen(),
            final(self).frames() == old(self).frames() + 1,
    ;

    /// Called for each translated event. The status is threaded back to
    /// the platform glue unchanged; the core does not act on it.
    fn on_event(&mut self, window: &mut Window, event: Event) -> (status: EventStatus)
        requires
            old(window).wf(),
        ensures
            Window::handler_view_ok(*old(window), *final(window)),
            final(self).seen() == old(self).seen().push(event),
            final(self).frames() == old(self).frames(),
    ;
}

/// Where the loop stands in its life.
#[derive(Clone, Copy, Debug, PartialEq, Eq, Structural)]
pub enum LoopState {
    /// The native window exists, the initial resized event has not been
    /// delivered yet.
    Constructing,
    /// Events are being dispatched.
    Running,
    /// Closure was requested; native teardown is owed.
    Closing,
    /// Teardown is complete. Final.
    Terminated,
}

/// What one pump iteration reported.
#[derive(Clone, Copy, Debug, PartialEq, Eq, Structural)]
pub struct PumpOutcome {
    /// The iteration ended in closure: the glue must tear down now.
    pub closing: bool,
    /// The close flag of the window stood raised after the batch: the
    /// handler (now or earlier) asked to close.
    pub close_flag: bool,
}

/// The initial synthetic event a freshly constructed window delivers
/// before its loop starts: a resize carrying the just-computed info,
/// so the handler always observes a definitive size and scale.
pub open spec fn initial_event_spec(window: Window) -> Event {
    Event::Window(WindowEvent::Resized(window.info))
}

/// Law: for every option set, every parent reference that opens
/// successfully, and every scale policy, the first event a freshly
/// started loop has delivered to its handler is a resized event whose
/// snapshot requests exactly the logical size the caller asked for,
/// with its physical image under the resolved scale.
pub proof fn lemma_first_event_is_requested_resize(
    options: crate::window::WindowOpenOptions,
    parent: Option<crate::window::ParentWindow>,
    system: Option<crate::geometry::Scale>,
    window: Window,
    seen: Seq<Event>,
)
    requires
        crate::window::open_plan_spec(options, parent, system) is Ok,
        window.info == crate::window::open_plan_spec(options, parent, system)->Ok_0.info,
        seen == Seq::<Event>::empty().push(initial_event_spec(window)),
    ensures
        seen.len() == 1,
        seen[0] == Event::Window(WindowEvent::Resized(window.info)),
        window.info.logical == options.size,
        window.info.physical == crate::geometry::size_to_physical_spec(
            options.size,
            crate::window::resolved_scale_spec(options.scale, system),
        ),
{
}

/// The event loop of one window. Lives on, and is only touched by, the
/// thread that constructed the native window.
pub struct EventLoop<H: WindowHandler> {
    /// The user's callbacks.
    pub handler: H,
    /// The window facade dispatched into every callback.
    pub window: Window,
    /// The parent-side liveness pair, in parented mode.
    pub parent: Option<ParentHandle>,
    /// Where the loop stands.
    pub state: LoopState,
}

impl<H: WindowHandler> EventLoop<H> {
    pub open spec fn wf(self) -> bool {
        self.window.wf()
    }

    /// A loop for a freshly constructed window: nothing delivered yet.
    pub fn new(window: Window, handler: H, parent: Option<ParentHandle>) -> (r: EventLoop<H>)
        requires
            window.wf(),
        ensures
            r.window == window,
            r.handler == handler,
            r.state == LoopState::Constructing,
            r.parent is Some <==> parent is Some,
            r.wf(),
    {
        EventLoop { handler, window, parent, state: LoopState::Constructing }
    }

    /// Ends construction: delivers the initial synthetic resized event
    /// to the handler and enters `Running`. From here on the handler
    /// has observed a definitive size and scale at least once.
    pub fn start(&mut self)
        requires
            old(self).state == LoopState::Constructing,
            old(self).wf(),
        ensures
            final(self).state == LoopState::Running,
            final(self).handler.seen() == old(self).handler.seen().push(
                initial_event_spec(old(self).window),
            ),
            final(self).handler.frames() == old(self).handler.frames(),
            Window::handler_view_ok(old(self).window, final(self).window),
            final(self).parent is Some <==> old(self).parent is Some,
            final(self).wf(),
    {
        let ev = Event::Window(WindowEvent::Resized(self.window.info));
        let _ = self.handler.on_event(&mut self.window, ev);
        self.state = LoopState::Running;
    }

    /// Polls the parent-side pair for a close request or a hangup.
    /// False when the loop is not parented. The answer depends on the
    /// initiating thread, so nothing more can be said of it; `pump`
    /// takes it as an argument and is verified for either value.
    pub fn parent_signaled(&self) -> (r: bool)
        ensures
            self.parent is None ==> !r,
    {
        match &self.parent {
            Some(p) => p.parent_did_drop(),
            None => false,
        }
    }

    /// One pump iteration. The whole batch is dispatched to the handler
    /// — resizes first, each updating the window info before any
    /// dispatch — and only then are the close triggers read: the
    /// window's close flag (raised by the handler via `Window::close`),
    /// the parent's signal as polled by the glue this iteration
    /// (`parent_signaled`), and the window manager's delete request
    /// found in the batch. Any of them ends the iteration in `Closing`
    /// with no frame tick; otherwise the handler gets exactly one frame
    /// tick and the loop stays in `Running`.
    pub fn pump(&mut self, natives: &Vec<NativeEvent>, parent_signaled: bool) -> (r: PumpOutcome)
        requires
            old(self).state == LoopState::Running,
            old(self).wf(),
        ensures
            final(self).wf(),
            final(self).window.info == info_after(old(self).window.info, natives@),
            final(self).window.native_id == old(self).window.native_id,
            final(self).handler.seen() == old(self).handler.seen() + batch_events(
                old(self).window.info,
                natives@,
            ),
            r.closing == (r.close_flag || parent_signaled || has_close_protocol(natives@)),
            final(self).state == (if r.closing {
                LoopState::Closing
            } else {
                LoopState::Running
            }),
            final(self).parent is Some <==> old(self).parent is Some,
            old(self).window.close_flag ==> r.close_flag,
            r.close_flag ==> final(self).window.close_flag,
            r.closing ==> final(self).handler.frames() == old(self).handler.frames(),
            !r.closing ==> final(self).handler.frames() == old(self).handler.frames() + 1,
    {
        let plan = plan_batch(natives, self.window.info);
        self.window.info = plan.info;
        let ghost seen_base = self.handler.seen();
        let ghost frames_base = self.handler.frames();
        let ghost batch = plan.events@;
        let mut i: usize = 0;
        while i < plan.events.len()
            invariant
                i <= batch.len(),
                plan.events@ == batch,
                self.window.wf(),
                self.window.info == plan.info,
                self.window.native_id == old(self).window.native_id,
                old(self).window.close_flag ==> self.window.close_flag,
                self.handler.seen() == seen_base + batch.take(i as int),
                self.handler.frames() == frames_base,
                self.state == LoopState::Running,
                self.parent is Some <==> old(self).parent is Some,
            decreases batch.len() - i,
        {
            let ev = plan.events[i];
            let _ = self.handler.on_event(&mut self.window, ev);
            proof {
                assert(batch.take(i + 1 as int) =~= batch.take(i as int).push(ev));
            }
            i += 1;
        }
        proof {
            assert(batch.take(batch.len() as int) =~= batch);
        }
        let close_flag: bool = self.window.close_flag;
        let closing: bool = close_flag || parent_signaled || plan.close_requested;
        if closing {
            self.state = LoopState::Closing;
        } else {
            self.handler.on_frame(&mut self.window);
        }
        PumpOutcome { closing, close_flag }
    }

    /// Hands out the native commands the handler's window operations
    /// queued during the last dispatch, in order, for the platform glue
    /// to perform. Touches neither the handler nor the rest of the
    /// window.
    pub fn take_commands(&mut self) -> (r: Vec<NativeCommand>)
        ensures
            r@ == old(self).window.commands@,
            final(self).window.commands@ =~= Seq::<NativeCommand>::empty(),
            final(self).window.info == old(self).window.info,
            final(self).window.native_id == old(self).window.native_id,
            final(self).window.close_flag == old(self).window.close_flag,
            final(self).state == old(self).state,
            final(self).handler == old(self).handler,
            final(self).parent is Some <==> old(self).parent is Some,
            old(self).wf() ==> final(self).wf(),
    {
        self.window.take_commands()
    }

    /// Finishes teardown: lets go of the parent-side pair — lowering
    /// the shared liveness flag — and reaches `Terminated`, from which
    /// there is no way back: no function of the loop accepts it, so the
    /// handler can never be called again.
    pub fn finish_close(&mut self)
        requires
            old(self).state == LoopState::Closing,
        ensures
            final(self).state == LoopState::Terminated,
            final(self).parent is None,
            final(self).window == old(self).window,
            final(self).handler == old(self).handler,
            old(self).wf() ==> final(self).wf(),
    {
        self.parent = None;
        self.state = LoopState::Terminated;
    }
}

} // verus!
