//! The order of startup.
//!
//! Startup passes through its phases once and in order: a port is allocated,
//! the sidecar is spawned on that port, and the application becomes ready for
//! the user interface. The work in between (probing the operating system,
//! resolving the resource root, creating the process) is the host's. The host
//! reports each outcome as an [`Event`], and [`run`] answers with the next
//! state and with the [`Action`] that the host is to take. A failure at any
//! step ends startup for good.

use vstd::prelude::*;
use crate::decimal::{decimal, decimal_reads_back, decimal_value};
use crate::error::StartupError;
use crate::port::{allocation, find_free_port, port_from_probe, ApiPort};
use crate::resources::{bundled_paths, Target};
use crate::sidecar::{command_for, spawn_sidecar, CommandView, SidecarCommand};

verus! {

/// How far startup has come.
#[derive(Clone, Copy, Debug, PartialEq, Eq, Structural)]
pub enum Phase {
    /// Nothing has happened yet.
    Uninitialized,
    /// The port is chosen. `launching` says whether the command that starts
    /// the sidecar has been handed to the host, whose report is now awaited.
    PortAllocated { port: u16, launching: bool },
    /// The sidecar process exists.
    BackendSpawned { port: u16 },
    /// Startup is complete and the user interface may query the port.
    Ready { port: u16 },
    /// Startup failed. The host terminates.
    Aborted,
}

impl Phase {
    /// The allocated port, in the phases that have one.
    pub open spec fn allocated_port(self) -> Option<u16> {
        match self {
            Phase::PortAllocated { port, .. } => Some(port),
            Phase::BackendSpawned { port } => Some(port),
            Phase::Ready { port } => Some(port),
            _ => None,
        }
    }

    /// The place of a phase in the order of startup.
    pub open spec fn rank(self) -> nat {
        match self {
            Phase::Uninitialized => 0,
            Phase::PortAllocated { .. } => 1,
            Phase::BackendSpawned { .. } => 2,
            Phase::Ready { .. } => 3,
            Phase::Aborted => 4,
        }
    }

    /// Whether nothing can follow this phase.
    pub open spec fn is_final(self) -> bool {
        self is Ready || self is Aborted
    }

    /// The allocated port, in the phases that have one.
    pub fn port(&self) -> (port: Option<u16>)
        ensures
            port == self.allocated_port(),
    {
        match self {
            Phase::PortAllocated { port, .. } => Some(*port),
            Phase::BackendSpawned { port } => Some(*port),
            Phase::Ready { port } => Some(*port),
            _ => None,
        }
    }
}

/// What the host reports.
#[derive(Clone, Debug, PartialEq, Eq)]
pub enum Event {
    /// The probe for a free port returned: a port, or `None` where none was
    /// free.
    PortProbed(Option<u16>),
    /// The packaging layer was asked for the resource root: its path, or
    /// `None` where it could not be resolved.
    ResourceRootResolved(Option<String>),
    /// The sidecar process was created and its handle is held.
    SidecarSpawned,
    /// The bundled sidecar executable could not be located.
    SidecarNotFound,
    /// The operating system refused to create the sidecar process.
    SpawnFailed,
    /// The host has finished setting up.
    SetupCompleted,
}

/// What the host is to do next.
#[derive(Clone, Debug, PartialEq, Eq)]
pub enum Action {
    /// Ask the packaging layer for the resource root.
    ResolveResourceRoot,
    /// Carry out the command: set its variables, locate its program, create
    /// the process with its arguments.
    SpawnSidecar(SidecarCommand),
    /// Keep the handle of the sidecar for as long as the application lives,
    /// and finish setting up.
    RetainSidecar,
    /// Serve the user interface.
    Serve,
    /// Report the failure and terminate.
    Abort(StartupError),
    /// Nothing: the event does not belong to the current phase.
    Ignore,
}

/// The view of an [`Action`].
pub enum ActionView {
    ResolveResourceRoot,
    SpawnSidecar(CommandView),
    RetainSidecar,
    Serve,
    Abort(StartupError),
    Ignore,
}

impl View for Action {
    type V = ActionView;

    open spec fn view(&self) -> ActionView {
        match self {
            Action::ResolveResourceRoot => ActionView::ResolveResourceRoot,
            Action::SpawnSidecar(command) => ActionView::SpawnSidecar(command@),
            Action::RetainSidecar => ActionView::RetainSidecar,
            Action::Serve => ActionView::Serve,
            Action::Abort(e) => ActionView::Abort(*e),
            Action::Ignore => ActionView::Ignore,
        }
    }
}

/// The view of a [`Startup`].
pub struct StartupView {
    pub target: Target,
    pub phase: Phase,
}

impl StartupView {
    /// The same startup in another phase.
    pub open spec fn at(self, phase: Phase) -> StartupView {
        StartupView { target: self.target, phase }
    }
}

/// The state of one startup: the target it runs on and the phase it is in.
///
/// A state is made by [`Startup::new`] and changed by [`run`] alone.
#[derive(Debug)]
pub struct Startup {
    target: Target,
    phase: Phase,
}

impl View for Startup {
    type V = StartupView;

    closed spec fn view(&self) -> StartupView {
        StartupView { target: self.target, phase: self.phase }
    }
}

/// The transition function of startup: the state that follows `state` on
/// `event`, and the action that the host is to take.
pub open spec fn step(state: StartupView, event: Event) -> (StartupView, ActionView) {
    match state.phase {
        Phase::Uninitialized => match event {
            Event::PortProbed(probe) => match allocation(probe) {
                Ok(port) => (
                    state.at(Phase::PortAllocated { port, launching: false }),
                    ActionView::ResolveResourceRoot,
                ),
                Err(e) => (state.at(Phase::Aborted), ActionView::Abort(e)),
            },
            _ => (state, ActionView::Ignore),
        },
        Phase::PortAllocated { port, launching: false } => match event {
            Event::ResourceRootResolved(Some(root)) => (
                state.at(Phase::PortAllocated { port, launching: true }),
                ActionView::SpawnSidecar(command_for(port, bundled_paths(root@, state.target))),
            ),
            Event::ResourceRootResolved(None) => (
                state.at(Phase::Aborted),
                ActionView::Abort(StartupError::ResourceRootUnresolved),
            ),
            _ => (state, ActionView::Ignore),
        },
        Phase::PortAllocated { port, launching: true } => match event {
            Event::SidecarSpawned => (
                state.at(Phase::BackendSpawned { port }),
                ActionView::RetainSidecar,
            ),
            Event::SidecarNotFound => (
                state.at(Phase::Aborted),
                ActionView::Abort(StartupError::SidecarNotFound),
            ),
            Event::SpawnFailed => (
                state.at(Phase::Aborted),
                ActionView::Abort(StartupError::SpawnFailed),
            ),
            _ => (state, ActionView::Ignore),
        },
        Phase::BackendSpawned { port } => match event {
            Event::SetupCompleted => (state.at(Phase::Ready { port }), ActionView::Serve),
            _ => (state, ActionView::Ignore),
        },
        Phase::Ready { .. } => (state, ActionView::Ignore),
        Phase::Aborted => (state, ActionView::Ignore),
    }
}

impl Startup {
    /// A startup that has not begun.
    pub fn new(target: Target) -> (state: Startup)
        ensures
            state@ == (StartupView { target, phase: Phase::Uninitialized }),
    {
        Startup { target, phase: Phase::Uninitialized }
    }

    /// The phase that startup is in.
    pub fn phase(&self) -> (phase: Phase)
        ensures
            phase == self@.phase,
    {
        self.phase
    }

    /// The target that startup runs on.
    pub fn target(&self) -> (target: Target)
        ensures
            target == self@.target,
    {
        self.target
    }

    /// The state to keep for the user interface's port query, once a port is
    /// allocated.
    pub fn api_port(&self) -> (held: Option<ApiPort>)
        ensures
            match self@.phase.allocated_port() {
                Some(port) => held matches Some(stored) && stored@ == port,
                None => held is None,
            },
    {
        match self.phase.port() {
            Some(port) => Some(ApiPort::new(port)),
            None => None,
        }
    }

    fn enter(self, phase: Phase) -> (state: Startup)
        ensures
            state@ == self@.at(phase),
    {
        Startup { target: self.target, phase }
    }
}

/// Runs startup one step further: takes what the host reports and decides
/// the state that follows and what the host is to do next.
///
/// Each phase waits for the outcome of one piece of outside work. A
/// successful outcome moves startup on, a failed one aborts it with the
/// matching [`StartupError`], and an event that the current phase does not
/// wait for changes nothing.
pub fn run(state: Startup, event: Event) -> (next: (Startup, Action))
    ensures
        (next.0@, next.1@) == step(state@, event),
{
    match state.phase {
        Phase::Uninitialized => match event {
            Event::PortProbed(probe) => match port_from_probe(probe) {
                Ok(port) => (
                    state.enter(Phase::PortAllocated { port, launching: false }),
                    Action::ResolveResourceRoot,
                ),
                Err(e) => (state.enter(Phase::Aborted), Action::Abort(e)),
            },
            _ => (state, Action::Ignore),
        },
        Phase::PortAllocated { port, launching: false } => match event {
            Event::ResourceRootResolved(root) => {
                let prepared = match &root {
                    Some(root) => spawn_sidecar(Some(root.as_str()), port, state.target),
                    None => spawn_sidecar(None, port, state.target),
                };
                match prepared {
                    Ok(command) => (
                        state.enter(Phase::PortAllocated { port, launching: true }),
                        Action::SpawnSidecar(command),
                    ),
                    Err(e) => (state.enter(Phase::Aborted), Action::Abort(e)),
                }
            },
            _ => (state, Action::Ignore),
        },
        Phase::PortAllocated { port, launching: true } => match event {
            Event::SidecarSpawned => (
                state.enter(Phase::BackendSpawned { port }),
                Action::RetainSidecar,
            ),
            Event::SidecarNotFound => (
                state.enter(Phase::Aborted),
                Action::Abort(StartupError::SidecarNotFound),
            ),
            Event::SpawnFailed => (
                state.enter(Phase::Aborted),
                Action::Abort(StartupError::SpawnFailed),
            ),
            _ => (state, Action::Ignore),
        },
        Phase::BackendSpawned { port } => match event {
            Event::SetupCompleted => (state.enter(Phase::Ready { port }), Action::Serve),
            _ => (state, Action::Ignore),
        },
        Phase::Ready { .. } => (state, Action::Ignore),
        Phase::Aborted => (state, Action::Ignore),
    }
}

/// Begins startup by allocating the port.
///
/// On a startup that has not begun, this probes the operating system for a
/// free port and runs the step that the outcome calls for. Which port comes
/// back is the operating system's choice, so the result is that of [`run`] on
/// the report of some probe: either a port is allocated, or startup is
/// aborted for want of one. A startup that has begun is left as it is, and
/// nothing is probed.
pub fn allocate_port(state: Startup) -> (next: (Startup, Action))
    ensures
        exists|probe: Option<u16>| (next.0@, next.1@) == step(state@, Event::PortProbed(probe)),
        !(state@.phase is Uninitialized) ==> next.0@ == state@ && next.1@ is Ignore,
{
    match state.phase {
        Phase::Uninitialized => {
            let probe = match find_free_port() {
                Ok(port) => Some(port),
                Err(_) => None,
            };
            run(state, Event::PortProbed(probe))
        },
        _ => {
            assert((state@, ActionView::Ignore) == step(state@, Event::PortProbed(None)));
            (state, Action::Ignore)
        },
    }
}

/// The state that startup is in after a run of events, each of them handled
/// by [`step`] in turn.
pub open spec fn after(state: StartupView, events: Seq<Event>) -> StartupView
    decreases events.len(),
{
    if events.len() == 0 {
        state
    } else {
        step(after(state, events.drop_last()), events.last()).0
    }
}

/// Startup moves forward only. A step leaves the phase as it is, enters the
/// phase that follows it in order, or aborts; it never changes the target;
/// it aborts exactly when it tells the host to; and from `Ready` and
/// `Aborted` nothing moves any more.
pub proof fn phases_follow_in_order(state: StartupView, event: Event)
    ensures
        ({
            let (next, action) = step(state, event);
            &&& next.target == state.target
            &&& next.phase.rank() == state.phase.rank() || next.phase.rank()
                == state.phase.rank() + 1 || next.phase is Aborted
            &&& state.phase.is_final() ==> next == state && action is Ignore
            &&& action is Abort <==> next.phase is Aborted && !(state.phase is Aborted)
            &&& action is Ignore ==> next == state
        }),
{
}

/// An allocated port is never replaced: whatever the host reports afterwards,
/// startup either still holds the same port or has been aborted.
pub proof fn allocated_port_is_kept(state: StartupView, events: Seq<Event>)
    requires
        state.phase.allocated_port() is Some,
    ensures
        after(state, events).phase is Aborted || after(state, events).phase.allocated_port()
            == state.phase.allocated_port(),
    decreases events.len(),
{
    if events.len() > 0 {
        allocated_port_is_kept(state, events.drop_last());
    }
}

/// The sidecar is started on the very port that the user interface is later
/// told. Take any run of startup: wherever in it the host is handed the
/// command that starts the sidecar, and whatever is reported after that, if
/// startup ends up `Ready` then the command's arguments are `--port` and the
/// decimal notation of the port that `Ready` holds, which is the port held
/// from the moment of allocation.
pub proof fn sidecar_runs_on_the_served_port(
    state: StartupView,
    event: Event,
    later: Seq<Event>,
)
    ensures
        ({
            let (issuing, action) = step(state, event);
            action matches ActionView::SpawnSidecar(command) ==> {
                &&& state.phase.allocated_port() matches Some(held)
                &&& issuing.phase.allocated_port() == Some(held)
                &&& command.args == seq!["--port"@, decimal(held as nat)]
                &&& decimal_value(command.args[1]) == Some(held as nat)
                &&& after(issuing, later).phase matches Phase::Ready { port } ==> port == held
            }
        }),
{
    let (issuing, action) = step(state, event);
    if let ActionView::SpawnSidecar(command) = action {
        let held = state.phase.allocated_port()->0;
        decimal_reads_back(held as nat);
        allocated_port_is_kept(issuing, later);
    }
}

/// Once startup is `Ready` it stays as it is, so the port that the user
/// interface is told is the same at every later query.
pub proof fn ready_is_final(state: StartupView, events: Seq<Event>)
    requires
        state.phase is Ready,
    ensures
        after(state, events) == state,
    decreases events.len(),
{
    if events.len() > 0 {
        ready_is_final(state, events.drop_last());
    }
}

/// An aborted startup stays aborted: nothing that is reported afterwards
/// allocates a port, spawns the sidecar or makes the application ready.
pub proof fn aborted_is_final(state: StartupView, events: Seq<Event>)
    requires
        state.phase is Aborted,
    ensures
        after(state, events) == state,
    decreases events.len(),
{
    if events.len() > 0 {
        aborted_is_final(state, events.drop_last());
    }
}

/// A failure ends startup. Whenever a step tells the host to abort, startup
/// is aborted and stays so whatever is reported later. In particular, where
/// the host answers the command that starts the sidecar with the report that
/// the executable is missing, or that the spawn was refused, startup aborts
/// with that failure and never holds a spawned sidecar or becomes ready.
pub proof fn failure_ends_startup(state: StartupView, event: Event, later: Seq<Event>)
    ensures
        step(state, event).1 is Abort ==> after(step(state, event).0, later).phase is Aborted,
        state.phase matches Phase::PortAllocated { launching: true, .. } ==> {
            &&& event is SidecarNotFound ==> step(state, event).1 == ActionView::Abort(
                StartupError::SidecarNotFound,
            )
            &&& event is SpawnFailed ==> step(state, event).1 == ActionView::Abort(
                StartupError::SpawnFailed,
            )
        },
{
    if step(state, event).1 is Abort {
        aborted_is_final(step(state, event).0, later);
    }
}

/// Startup cannot pass the spawning of its sidecar by: a run that begins
/// before the sidecar exists and ends in `BackendSpawned` or `Ready` holds
/// the report that the sidecar was spawned.
pub proof fn ready_needs_the_sidecar(state: StartupView, events: Seq<Event>)
    requires
        state.phase is Uninitialized || state.phase is PortAllocated,
    ensures
        after(state, events).phase is BackendSpawned || after(state, events).phase is Ready
            ==> exists|i: int| 0 <= i < events.len() && #[trigger] events[i] is SidecarSpawned,
    decreases events.len(),
{
    if events.len() > 0 {
        let before = events.drop_last();
        ready_needs_the_sidecar(state, before);
        if after(state, before).phase is BackendSpawned || after(state, before).phase is Ready {
            // The report is among the earlier events.
            let i = choose|i: int| 0 <= i < before.len() && #[trigger] before[i] is SidecarSpawned;
            assert(events[i] is SidecarSpawned);
        } else if after(state, events).phase is BackendSpawned {
            // The last event is the report.
            assert(events[events.len() - 1] is SidecarSpawned);
        }
    }
}

} // verus!
