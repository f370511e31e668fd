//! The listener's lifecycle: when it accepts, when it stops, and how a stop
//! reaches a listener that is waiting.

use std::sync::Arc;
use tokio::sync::Notify;
use vstd::prelude::*;

verus! {

/// `tokio::sync::Notify`, carried as an opaque value: a signal that wakes
/// every task waiting on it.
#[verifier::external_type_specification]
#[verifier::external_body]
pub struct ExNotify(Notify);

/// `Notify::new` creates a signal with no permit stored. Nothing is claimed
/// of the value it returns.
pub assume_specification[ Notify::new ]() -> Notify;

/// `Notify::notify_waiters` wakes the tasks that are waiting on the signal
/// at the time of the call and stores no permit for later ones. It returns
/// nothing, and nothing is claimed of it.
pub assume_specification[ Notify::notify_waiters ](notify: &Notify);

/// Where a server stands in its life. `Stopped` is terminal.
#[derive(Debug, Clone, Copy, PartialEq, Eq, Structural)]
pub enum ServerState {
    /// Bound, accept loop not yet entered.
    Created,
    /// Accept loop active.
    Running,
    /// Accept loop left for good.
    Stopped,
}

/// What the accept loop reports to the server.
#[derive(Debug, Clone, Copy, PartialEq, Eq, Structural)]
pub enum ListenerEvent {
    /// The loop is about to wait: on entry, and after each connection or
    /// accept error has been dealt with.
    Ready,
    /// A new connection was accepted.
    Accepted,
    /// Accepting a connection failed.
    AcceptFailed,
    /// The shutdown signal woke the loop.
    ShutdownSignalled,
    /// The listening socket failed beyond recovery.
    ListenerFailed,
}

/// What the accept loop is told to do next.
#[derive(Debug, Clone, Copy, PartialEq, Eq, Structural)]
pub enum ListenerAction {
    /// Wait for whichever comes first: a connection or the shutdown signal.
    /// The signal reaches only those who wait when it is sent: a loop that
    /// starts waiting later learns of the stop from its next event, which
    /// is answered with `Exit`.
    Wait,
    /// Hand the accepted connection to a handler of its own and do not wait
    /// for it.
    Spawn,
    /// Report the accept error and keep accepting.
    ReportAcceptError,
    /// Leave the loop; the run ends without error. A connection that came
    /// with the event is dropped unserved.
    Exit,
    /// Leave the loop; the run ends with the listener's error.
    Fail,
}

/// What a call of `stop` did.
#[derive(Debug, Clone, Copy, PartialEq, Eq, Structural)]
pub enum StopOutcome {
    /// The server was live: it is now stopped and the signal has been sent.
    SignalSent,
    /// The server had stopped before: nothing was done. Worth a warning,
    /// not an error.
    AlreadyStopped,
}

/// The running flag: set from construction until the server stops.
pub open spec fn running(state: ServerState) -> bool {
    state != ServerState::Stopped
}

/// The listener's transition: the state after `event` and the action owed.
///
/// A stopped server answers every event with `Exit`. A live one is running
/// from its first event on; it leaves the loop on the shutdown signal or a
/// listener failure, and on nothing else.
pub open spec fn listen(state: ServerState, event: ListenerEvent) -> (ServerState, ListenerAction) {
    if state == ServerState::Stopped {
        (ServerState::Stopped, ListenerAction::Exit)
    } else {
        match event {
            ListenerEvent::Ready => (ServerState::Running, ListenerAction::Wait),
            ListenerEvent::Accepted => (ServerState::Running, ListenerAction::Spawn),
            ListenerEvent::AcceptFailed => (
                ServerState::Running,
                ListenerAction::ReportAcceptError,
            ),
            ListenerEvent::ShutdownSignalled => (ServerState::Stopped, ListenerAction::Exit),
            ListenerEvent::ListenerFailed => (ServerState::Stopped, ListenerAction::Fail),
        }
    }
}

/// The transition taken by `stop`.
pub open spec fn halt(state: ServerState) -> (ServerState, StopOutcome) {
    if state == ServerState::Stopped {
        (ServerState::Stopped, StopOutcome::AlreadyStopped)
    } else {
        (ServerState::Stopped, StopOutcome::SignalSent)
    }
}

/// The states reached and the actions owed when `events` arrive in order.
pub open spec fn listen_all(state: ServerState, events: Seq<ListenerEvent>) -> (
    ServerState,
    Seq<ListenerAction>,
)
    decreases events.len(),
{
    if events.len() == 0 {
        (state, Seq::empty())
    } else {
        let (before, actions) = listen_all(state, events.drop_last());
        let (after, action) = listen(before, events.last());
        (after, actions.push(action))
    }
}

/// The shutdown coordinator of one listener: its lifecycle state and the
/// signal that wakes its accept loop.
pub struct Server {
    state: ServerState,
    shutdown_notify: Arc<Notify>,
}

impl View for Server {
    type V = ServerState;

    closed spec fn view(&self) -> ServerState {
        self.state
    }
}

impl Server {
    /// The signal this server fires when it stops.
    pub closed spec fn signal(&self) -> Arc<Notify> {
        self.shutdown_notify
    }

    /// A server in state `Created`, with a fresh signal.
    pub fn new() -> (server: Server)
        ensures
            server@ == ServerState::Created,
    {
        Server { state: ServerState::Created, shutdown_notify: Arc::new(Notify::new()) }
    }

    /// The current lifecycle state.
    pub fn state(&self) -> (state: ServerState)
        ensures
            state == self@,
    {
        self.state
    }

    /// The running flag: true until the server has stopped.
    pub fn is_running(&self) -> (flag: bool)
        ensures
            flag == running(self@),
    {
        match self.state {
            ServerState::Stopped => false,
            _ => true,
        }
    }

    /// The signal that `stop` fires. The accept loop waits on it beside the
    /// listening socket.
    pub fn shutdown_signal(&self) -> (signal: &Arc<Notify>)
        ensures
            *signal == self.signal(),
    {
        &self.shutdown_notify
    }

    /// Takes one event of the accept loop and says what the loop does next.
    pub fn run(&mut self, event: ListenerEvent) -> (action: ListenerAction)
        ensures
            (final(self)@, action) == listen(old(self)@, event),
            final(self).signal() == old(self).signal(),
    {
        match self.state {
            ServerState::Stopped => ListenerAction::Exit,
            _ => match event {
                ListenerEvent::Ready => {
                    self.state = ServerState::Running;
                    ListenerAction::Wait
                },
                ListenerEvent::Accepted => {
                    self.state = ServerState::Running;
                    ListenerAction::Spawn
                },
                ListenerEvent::AcceptFailed => {
                    self.state = ServerState::Running;
                    ListenerAction::ReportAcceptError
                },
                ListenerEvent::ShutdownSignalled => {
                    self.state = ServerState::Stopped;
                    ListenerAction::Exit
                },
                ListenerEvent::ListenerFailed => {
                    self.state = ServerState::Stopped;
                    ListenerAction::Fail
                },
            },
        }
    }

    /// Stops the server. A live server becomes `Stopped` and the tasks
    /// waiting on its signal are woken; a stopped one is left as it is.
    pub fn stop(&mut self) -> (outcome: StopOutcome)
        ensures
            (final(self)@, outcome) == halt(old(self)@),
            final(self).signal() == old(self).signal(),
    {
        match self.state {
            ServerState::Stopped => StopOutcome::AlreadyStopped,
            _ => {
                self.state = ServerState::Stopped;
                self.shutdown_notify.notify_waiters();
                StopOutcome::SignalSent
            },
        }
    }
}

/// Stopping is safe to repeat. The first call leaves the server stopped
/// whatever state it found, and sends the signal exactly when the server
/// was live; a second call changes nothing and says so.
pub proof fn lemma_stop_is_idempotent(state: ServerState)
    ensures
        halt(state).0 == ServerState::Stopped,
        halt(state).1 == StopOutcome::SignalSent <==> running(state),
        halt(halt(state).0) == (ServerState::Stopped, StopOutcome::AlreadyStopped),
{
}

/// Once stopped, always stopped: whatever events reach the listener after
/// a stop, it never waits or spawns again, and the running flag is never
/// raised again. Every event is answered with `Exit`.
pub proof fn lemma_no_accept_after_stop(state: ServerState, events: Seq<ListenerEvent>)
    ensures
        listen_all(halt(state).0, events).0 == ServerState::Stopped,
        listen_all(halt(state).0, events).1 == Seq::new(
            events.len(),
            |i: int| ListenerAction::Exit,
        ),
    decreases events.len(),
{
    let stopped = halt(state).0;
    if events.len() == 0 {
        assert(listen_all(stopped, events).1 =~= Seq::new(
            events.len(),
            |i: int| ListenerAction::Exit,
        ));
    } else {
        lemma_no_accept_after_stop(state, events.drop_last());
        assert(listen_all(stopped, events).1 =~= Seq::new(
            events.len(),
            |i: int| ListenerAction::Exit,
        ));
    }
}

/// An event that leaves a live listener in its loop: it is ready to wait,
/// it has accepted a connection, or an accept has failed.
pub open spec fn keeps_listening(event: ListenerEvent) -> bool {
    event is Ready || event is Accepted || event is AcceptFailed
}

/// A live listener leaves its loop on the shutdown signal or a listener
/// failure and on nothing else. Over any other events it stays live, hands
/// every accepted connection to a handler of its own, and goes on after
/// every accept error.
pub proof fn lemma_listener_keeps_accepting(state: ServerState, events: Seq<ListenerEvent>)
    requires
        running(state),
        forall|i: int| 0 <= i < events.len() ==> keeps_listening(#[trigger] events[i]),
    ensures
        running(listen_all(state, events).0),
        listen_all(state, events).1.len() == events.len(),
        forall|i: int|
            0 <= i < events.len() ==> #[trigger] listen_all(state, events).1[i] == match events[i] {
                ListenerEvent::Accepted => ListenerAction::Spawn,
                ListenerEvent::AcceptFailed => ListenerAction::ReportAcceptError,
                _ => ListenerAction::Wait,
            },
    decreases events.len(),
{
    if events.len() > 0 {
        lemma_listener_keeps_accepting(state, events.drop_last());
    }
}

} // verus!
