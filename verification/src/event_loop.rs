//! From the events of the host to operations of the lifecycle.
//!
//! The host delivers events one at a time. Each event stands for a short
//! script of operations; the [`Dispatcher`] runs the script against its
//! lifecycle, stopping wherever the provider has to act, and says at the end
//! whether the host's loop waits for the next event or exits.

use crate::context::WgpuContext;
use crate::lifecycle::{Lifecycle, Operation};
use crate::provider::{Failure, Refusal, Reply, Request, Step};
use crate::resource::{Handle, TextureFormat};
use vstd::prelude::*;

verus! {

/// An event of the host.
#[derive(Clone, Copy, Debug, PartialEq, Eq, Structural)]
pub enum Event {
    /// The loop has started.
    Init,
    /// The program has come back to the foreground.
    Resumed,
    /// The program is about to leave the foreground.
    Suspended,
    /// The window has the given inner size now.
    Resized { width: u32, height: u32 },
    /// All events that were waiting have been delivered.
    MainEventsCleared,
    /// The window has to be drawn again.
    RedrawRequested,
    /// The user asks for the window to close.
    CloseRequested,
    /// Any other event.
    Other,
}

/// What the host's loop does after an event.
#[derive(Clone, Copy, Debug, PartialEq, Eq, Structural)]
pub enum ControlFlow {
    /// Wait for the next event.
    Wait,
    /// Leave the loop.
    Exit,
}

/// What becomes of the surface when the program leaves the foreground.
#[derive(Clone, Copy, Debug, PartialEq, Eq, Structural)]
pub enum SuspendPolicy {
    /// The surface stays.
    KeepSurface,
    /// The surface and its swap chain are thrown away.
    DropSurface,
}

/// How the handling of an event, or one turn of it, ended.
#[derive(Clone, Copy, Debug, PartialEq, Eq, Structural)]
pub enum Turn {
    /// The provider has to carry out the request; the handling goes on with
    /// its reply.
    Perform(Request),
    /// The event is handled.
    Finished(ControlFlow),
    /// An operation failed for good.
    Fatal(Failure),
    /// The input was turned away and nothing has changed.
    Refused(Refusal),
}

/// The script of an event: the operations that it stands for, in order.
pub open spec fn operations_for(event: Event, policy: SuspendPolicy) -> Seq<Operation> {
    match event {
        Event::Init => seq![Operation::Setup],
        Event::Resumed => seq![Operation::Setup, Operation::Draw],
        Event::Suspended => match policy {
            SuspendPolicy::KeepSurface => seq![],
            SuspendPolicy::DropSurface => seq![Operation::CleanSurface],
        },
        Event::Resized { width, height } => seq![Operation::Resize { width, height }],
        Event::RedrawRequested => seq![Operation::Setup, Operation::Draw],
        Event::MainEventsCleared => seq![],
        Event::CloseRequested => seq![],
        Event::Other => seq![],
    }
}

/// The loop exits on a request to close and waits after every other event.
pub open spec fn control_flow_for(event: Event) -> ControlFlow {
    if event is CloseRequested {
        ControlFlow::Exit
    } else {
        ControlFlow::Wait
    }
}

/// Computes [`operations_for`].
pub fn operations(event: Event, policy: SuspendPolicy) -> (script: Vec<Operation>)
    ensures
        script@ == operations_for(event, policy),
{
    let mut script: Vec<Operation> = Vec::new();
    match event {
        Event::Init => {
            script.push(Operation::Setup);
        },
        Event::Resumed => {
            script.push(Operation::Setup);
            script.push(Operation::Draw);
        },
        Event::Suspended => {
            match policy {
                SuspendPolicy::KeepSurface => {},
                SuspendPolicy::DropSurface => {
                    script.push(Operation::CleanSurface);
                },
            }
        },
        Event::Resized { width, height } => {
            script.push(Operation::Resize { width, height });
        },
        Event::RedrawRequested => {
            script.push(Operation::Setup);
            script.push(Operation::Draw);
        },
        _ => {},
    }
    script
}

/// Computes [`control_flow_for`].
pub fn control_flow(event: Event) -> (flow: ControlFlow)
    ensures
        flow == control_flow_for(event),
{
    match event {
        Event::CloseRequested => ControlFlow::Exit,
        _ => ControlFlow::Wait,
    }
}

/// The state of a dispatcher.
pub struct Session {
    pub lifecycle: Lifecycle,
    /// The format that every setup asks for.
    pub format: TextureFormat,
    pub policy: SuspendPolicy,
    /// The native window as the last event found it.
    pub window: Option<Handle>,
    /// What the loop does when the last event is handled.
    pub control_flow: ControlFlow,
    /// The operations of the last event that have not begun.
    pub pending: Seq<Operation>,
}

impl Session {
    /// The state at the start: a lifecycle at its start and no event yet.
    pub open spec fn initial(instance: Handle, format: TextureFormat, policy: SuspendPolicy) -> Session {
        Session {
            lifecycle: Lifecycle::initial(instance),
            format,
            policy,
            window: None,
            control_flow: ControlFlow::Wait,
            pending: seq![],
        }
    }

    /// This state with the lifecycle moved on.
    pub open spec fn with_lifecycle(self, lifecycle: Lifecycle) -> Session {
        Session { lifecycle, ..self }
    }

    /// This state with the rest of the script given up.
    pub open spec fn abandoned(self, lifecycle: Lifecycle) -> Session {
        Session { lifecycle, pending: seq![], ..self }
    }

    /// Runs the pending operations in order until one needs the provider.
    ///
    /// An operation that completes, or has nothing to do, is followed by the
    /// next. When none is left the event is handled. A fatal failure gives up
    /// the rest of the script; an operation that is refused stays pending.
    pub open spec fn advance(self) -> (Session, Turn)
        decreases self.pending.len(),
    {
        if self.pending.len() == 0 {
            (self, Turn::Finished(self.control_flow))
        } else {
            let (lifecycle, step) = self.lifecycle.begin(self.pending[0], self.window, self.format);
            let rest = Session { lifecycle, pending: self.pending.drop_first(), ..self };
            match step {
                Step::Perform(request) => (rest, Turn::Perform(request)),
                Step::Done => rest.advance(),
                Step::Skipped(_) => rest.advance(),
                Step::Fatal(failure) => (self.abandoned(lifecycle), Turn::Fatal(failure)),
                Step::Refused(refusal) => (self, Turn::Refused(refusal)),
            }
        }
    }

    /// Handles an event: its script replaces what was pending and runs.
    ///
    /// `window` is the native window, if there is one now. While an
    /// operation is under way no event is taken.
    pub open spec fn on_event(self, event: Event, window: Option<Handle>) -> (Session, Turn) {
        if !(self.lifecycle.task is Idle) {
            (self, Turn::Refused(Refusal::Busy))
        } else {
            (Session {
                window,
                control_flow: control_flow_for(event),
                pending: operations_for(event, self.policy),
                ..self
            }).advance()
        }
    }

    /// Goes on with the provider's reply: the operation under way takes it
    /// up, and when that operation ends the script runs on.
    pub open spec fn on_reply(self, reply: Reply) -> (Session, Turn) {
        let (lifecycle, step) = self.lifecycle.resume(reply);
        match step {
            Step::Perform(request) => (self.with_lifecycle(lifecycle), Turn::Perform(request)),
            Step::Done => self.with_lifecycle(lifecycle).advance(),
            Step::Skipped(_) => self.with_lifecycle(lifecycle).advance(),
            Step::Fatal(failure) => (self.abandoned(lifecycle), Turn::Fatal(failure)),
            Step::Refused(refusal) => (self, Turn::Refused(refusal)),
        }
    }
}

/// Runs the scripts of the host's events against a lifecycle of its own.
pub struct Dispatcher {
    context: WgpuContext,
    format: TextureFormat,
    policy: SuspendPolicy,
    window: Option<Handle>,
    control_flow: ControlFlow,
    pending: Vec<Operation>,
}

impl View for Dispatcher {
    type V = Session;

    closed spec fn view(&self) -> Session {
        Session {
            lifecycle: self.context@,
            format: self.format,
            policy: self.policy,
            window: self.window,
            control_flow: self.control_flow,
            pending: self.pending@,
        }
    }
}

impl Dispatcher {
    /// A dispatcher at its start. Every setup will ask for `format`.
    pub fn new(instance: Handle, format: TextureFormat, policy: SuspendPolicy) -> (dispatcher:
        Dispatcher)
        ensures
            dispatcher@ == Session::initial(instance, format, policy),
    {
        Dispatcher {
            context: WgpuContext::new(instance),
            format,
            policy,
            window: None,
            control_flow: ControlFlow::Wait,
            pending: Vec::new(),
        }
    }

    /// The lifecycle that the dispatcher runs.
    pub fn context(&self) -> (context: &WgpuContext)
        ensures
            context@ == self@.lifecycle,
    {
        &self.context
    }

    /// What the loop does when the last event is handled.
    pub fn control_flow(&self) -> (flow: ControlFlow)
        ensures
            flow == self@.control_flow,
    {
        self.control_flow
    }

    /// The number of operations of the last event that have not begun.
    pub fn pending(&self) -> (n: usize)
        ensures
            n == self@.pending.len(),
    {
        self.pending.len()
    }

    fn advance(&mut self) -> (turn: Turn)
        ensures
            (final(self)@, turn) == old(self)@.advance(),
            final(self)@.lifecycle.wf(),
    {
        while self.pending.len() > 0
            invariant
                self@.advance() == old(self)@.advance(),
            decreases self.pending.len(),
        {
            let operation = self.pending[0];
            let step = self.context.begin(operation, self.window, self.format);
            match step {
                Step::Perform(request) => {
                    self.pending.remove(0);
                    return Turn::Perform(request);
                },
                Step::Done => {
                    self.pending.remove(0);
                },
                Step::Skipped(_) => {
                    self.pending.remove(0);
                },
                Step::Fatal(failure) => {
                    self.pending.clear();
                    return Turn::Fatal(failure);
                },
                Step::Refused(refusal) => {
                    return Turn::Refused(refusal);
                },
            }
        }
        proof {
            use_type_invariant(&self.context);
        }
        Turn::Finished(self.control_flow)
    }

    /// Handles an event of the host.
    ///
    /// `window` names the native window, or is `None` where there is none
    /// now. The script of the event runs until it ends or needs the provider.
    pub fn on_event(&mut self, event: Event, window: Option<Handle>) -> (turn: Turn)
        ensures
            (final(self)@, turn) == old(self)@.on_event(event, window),
            final(self)@.lifecycle.wf(),
    {
        if !self.context.is_idle() {
            proof {
                use_type_invariant(&self.context);
            }
            return Turn::Refused(Refusal::Busy);
        }
        self.window = window;
        self.control_flow = control_flow(event);
        self.pending = operations(event, self.policy);
        self.advance()
    }

    /// Goes on with the provider's reply.
    pub fn on_reply(&mut self, reply: Reply) -> (turn: Turn)
        ensures
            (final(self)@, turn) == old(self)@.on_reply(reply),
            final(self)@.lifecycle.wf(),
    {
        let step = self.context.resume(reply);
        match step {
            Step::Perform(request) => Turn::Perform(request),
            Step::Done => self.advance(),
            Step::Skipped(_) => self.advance(),
            Step::Fatal(failure) => {
                self.pending.clear();
                Turn::Fatal(failure)
            },
            Step::Refused(refusal) => Turn::Refused(refusal),
        }
    }
}

} // verus!
