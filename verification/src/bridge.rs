//! The UI bridge: what the event loop on the UI thread does with each event,
//! and what the script thread makes of a native call's reply.
//!
//! The loop itself, the windows and the channels belong to the application.
//! It hands each event to [`Bridge::dispatch`], performs the effect that
//! comes back, and keeps waiting unless told to exit. Between two calls the
//! bridge is idle; one call is the dispatching of one event, and it always
//! ends idle again.

use std::collections::HashSet;
use vstd::prelude::*;
use crate::fault::Fault;

verus! {

/// A synchronous native call: the operation with its arguments.
#[derive(Clone, Copy, Debug, PartialEq, Eq, Structural)]
pub enum NativeCall {
    /// The arithmetic example capability: the sum of the two arguments.
    Add(i32, i32),
}

/// An event that reaches the UI loop.
#[derive(Clone, Copy, Debug, PartialEq, Eq, Structural)]
pub enum BridgeEvent {
    /// Script code made a native call and waits for the reply.
    NativeCallRequested(NativeCall),
    /// Script code asked for a new window and does not wait.
    NewWindowRequested,
    /// The user asked to close the window with this identifier.
    CloseRequested(u64),
    /// Anything else the toolkit delivers.
    Other,
}

/// What the application must do for an event.
#[derive(Clone, Copy, Debug, PartialEq, Eq, Structural)]
pub enum Effect {
    /// Nothing.
    Nothing,
    /// Send this result on the call's reply channel; a send that fails
    /// because the receiver is gone is discarded.
    Reply(i32),
    /// Create a window with a UI surface and keep both under this
    /// identifier.
    OpenWindow(u64),
}

/// Whether the loop goes on.
#[derive(Clone, Copy, Debug, PartialEq, Eq, Structural)]
pub enum Flow {
    /// Block until the next event.
    Wait,
    /// Leave the loop: the process shuts down.
    Exit,
}

/// The outcome of dispatching one event.
#[derive(Clone, Copy, Debug, PartialEq, Eq, Structural)]
pub struct Step {
    pub effect: Effect,
    pub flow: Flow,
}

/// What a native call that gets no reply resolves to.
pub const FALLBACK_RESULT: i32 = 0;

/// The sum of two `i32` as the machine computes it: wrapped into range.
pub open spec fn wrapped_sum(a: i32, b: i32) -> i32 {
    if a + b > i32::MAX {
        (a + b - 0x1_0000_0000) as i32
    } else if a + b < i32::MIN {
        (a + b + 0x1_0000_0000) as i32
    } else {
        (a + b) as i32
    }
}

/// The result of a native call.
pub open spec fn native_result(call: NativeCall) -> i32 {
    match call {
        NativeCall::Add(a, b) => wrapped_sum(a, b),
    }
}

/// Computes the result of a native call on the UI thread.
pub fn evaluate(call: NativeCall) -> (result: i32)
    ensures
        result == native_result(call),
{
    match call {
        NativeCall::Add(a, b) => a.wrapping_add(b),
    }
}

/// What the script thread hands to script code once its wait on the reply
/// channel ends: the reply, or the fallback where the channel closed before
/// a reply came. A closed channel is reported beside the value, never in its
/// place.
pub fn settle_reply(reply: Option<i32>) -> (settled: (i32, Option<Fault>))
    ensures
        settled == match reply {
            Some(value) => (value, None::<Fault>),
            None => (FALLBACK_RESULT, Some(Fault::NativeChannelClosed)),
        },
{
    match reply {
        Some(value) => (value, None),
        None => (FALLBACK_RESULT, Some(Fault::NativeChannelClosed)),
    }
}

/// The state of the UI bridge between two events: the identifiers of the
/// windows opened so far and whether the loop was told to exit.
pub struct Bridge {
    windows: HashSet<u64>,
    next_id: u64,
    exited: bool,
}

impl Bridge {
    /// Well-formedness: every window opened so far bears an identifier below
    /// the next one to be minted. [`Bridge::new`] establishes it and
    /// [`Bridge::dispatch`] preserves it.
    pub closed spec fn wf(&self) -> bool {
        &&& self.windows@.finite()
        &&& forall|id: u64| self.windows@.contains(id) ==> id < self.next_id
    }

    /// The identifier that the next window will get names no window yet.
    pub proof fn lemma_next_identifier_is_fresh(&self)
        requires
            self.wf(),
        ensures
            !self.windows().contains(self.next_id()),
    {
    }

    /// The identifiers of the windows opened so far.
    pub closed spec fn windows(&self) -> Set<u64> {
        self.windows@
    }

    /// The identifier the next window gets.
    pub closed spec fn next_id(&self) -> u64 {
        self.next_id
    }

    /// Whether the loop was told to exit.
    pub closed spec fn exited(&self) -> bool {
        self.exited
    }

    /// The step that `event` calls for in this state.
    pub open spec fn step_for(&self, event: BridgeEvent) -> Step {
        if self.exited() {
            Step { effect: Effect::Nothing, flow: Flow::Exit }
        } else {
            match event {
                BridgeEvent::NativeCallRequested(call) => Step {
                    effect: Effect::Reply(native_result(call)),
                    flow: Flow::Wait,
                },
                BridgeEvent::NewWindowRequested => if self.next_id() < u64::MAX {
                    Step { effect: Effect::OpenWindow(self.next_id()), flow: Flow::Wait }
                } else {
                    Step { effect: Effect::Nothing, flow: Flow::Wait }
                },
                BridgeEvent::CloseRequested(_) => Step { effect: Effect::Nothing, flow: Flow::Exit },
                BridgeEvent::Other => Step { effect: Effect::Nothing, flow: Flow::Wait },
            }
        }
    }

    /// A bridge with no window, waiting for its first event.
    pub fn new() -> (bridge: Bridge)
        ensures
            bridge.wf(),
            bridge.windows() == Set::<u64>::empty(),
            bridge.next_id() == 0,
            !bridge.exited(),
    {
        Bridge { windows: HashSet::new(), next_id: 0, exited: false }
    }

    /// Whether the loop was told to exit.
    pub fn has_exited(&self) -> (exited: bool)
        ensures
            exited == self.exited(),
    {
        self.exited
    }

    /// The number of windows opened so far.
    pub fn window_count(&self) -> (count: usize)
        ensures
            count == self.windows().len(),
    {
        self.windows.len()
    }

    /// Whether `id` names a window opened through this bridge.
    pub fn is_open(&self, id: u64) -> (open: bool)
        ensures
            open == self.windows().contains(id),
    {
        self.windows.contains(&id)
    }

    /// Decides what to do with one event.
    ///
    /// A native call is answered with its result. A request for a window
    /// mints an identifier never handed out before and registers it. A close
    /// request for any window ends the loop, and once the loop has ended
    /// every event is ignored. Every other event is ignored.
    pub fn dispatch(&mut self, event: BridgeEvent) -> (step: Step)
        requires
            old(self).wf(),
        ensures
            final(self).wf(),
            step == old(self).step_for(event),
            final(self).exited() == (step.flow == Flow::Exit),
            step.effect matches Effect::OpenWindow(id) ==> {
                &&& id == old(self).next_id()
                &&& !old(self).windows().contains(id)
                &&& final(self).windows() == old(self).windows().insert(id)
                &&& final(self).next_id() == id + 1
            },
            !(step.effect is OpenWindow) ==> {
                &&& final(self).windows() == old(self).windows()
                &&& final(self).next_id() == old(self).next_id()
            },
    {
        if self.exited {
            return Step { effect: Effect::Nothing, flow: Flow::Exit };
        }
        match event {
            BridgeEvent::NativeCallRequested(call) => Step {
                effect: Effect::Reply(evaluate(call)),
                flow: Flow::Wait,
            },
            BridgeEvent::NewWindowRequested => {
                if self.next_id < u64::MAX {
                    let id: u64 = self.next_id;
                    self.windows.insert(id);
                    self.next_id = id + 1;
                    Step { effect: Effect::OpenWindow(id), flow: Flow::Wait }
                } else {
                    Step { effect: Effect::Nothing, flow: Flow::Wait }
                }
            },
            BridgeEvent::CloseRequested(_) => {
                self.exited = true;
                Step { effect: Effect::Nothing, flow: Flow::Exit }
            },
            BridgeEvent::Other => Step { effect: Effect::Nothing, flow: Flow::Wait },
        }
    }
}

} // verus!
