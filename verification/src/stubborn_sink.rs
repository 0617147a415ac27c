//! The stubborn sink: one logical connection to the remote destination,
//! dialled lazily, dialled again after every loss.

use vstd::prelude::*;

verus! {

/// Pause between a failed connect and the next attempt, in milliseconds.
pub const DEFAULT_BACKOFF_MS: u64 = 100;

/// Where the sink stands with its connection. It is in exactly one of these
/// at any time.
#[derive(Clone, Copy, Debug, PartialEq, Eq, Structural)]
pub enum RemoteConnectionState {
    /// No connection and no attempt under way.
    NotConnected,
    /// A connect has been started and has not resolved yet.
    Connecting,
    /// A link to the remote stands; messages go to its relay channel.
    Connected,
}

/// What the driver saw when it did what the sink's state called for.
#[derive(Clone, Copy, Debug, PartialEq, Eq, Structural)]
pub enum LinkEvent {
    /// A connect to the remote address has been set going.
    DialStarted,
    /// The pending connect has not resolved yet.
    DialPending,
    /// The pending connect failed.
    DialFailed,
    /// The pending connect succeeded and a fresh link stands.
    LinkUp,
    /// The link's relay channel took the message.
    Taken,
    /// The relay channel refused the message: the link was torn down.
    LinkDown,
}

/// How one evaluation of a submission ended.
#[derive(Clone, Copy, Debug, PartialEq, Eq, Structural)]
pub enum Submit {
    /// The message was handed to the link.
    Accepted,
    /// The connect is still pending; the same message has to be offered
    /// again later.
    Busy,
    /// The state moved on; the submission is to be evaluated again at once.
    Again,
    /// The connect failed; the submission is to be evaluated again after
    /// this many milliseconds.
    Backoff(u64),
}

impl RemoteConnectionState {
    /// The name of the state as text.
    pub open spec fn label(self) -> Seq<char> {
        match self {
            RemoteConnectionState::NotConnected => "NotConnected"@,
            RemoteConnectionState::Connecting => "Connecting"@,
            RemoteConnectionState::Connected => "Connected"@,
        }
    }

    /// Renders the state by its name.
    pub fn to_string(&self) -> (text: String)
        ensures
            text@ == self.label(),
    {
        match self {
            RemoteConnectionState::NotConnected => "NotConnected".to_owned(),
            RemoteConnectionState::Connecting => "Connecting".to_owned(),
            RemoteConnectionState::Connected => "Connected".to_owned(),
        }
    }
}

/// Whether `event` is one that the driver can have seen while the sink was
/// in `state`.
pub open spec fn answers(state: RemoteConnectionState, event: LinkEvent) -> bool {
    match state {
        RemoteConnectionState::NotConnected => event == LinkEvent::DialStarted,
        RemoteConnectionState::Connecting => event == LinkEvent::DialPending || event
            == LinkEvent::DialFailed || event == LinkEvent::LinkUp,
        RemoteConnectionState::Connected => event == LinkEvent::Taken || event
            == LinkEvent::LinkDown,
    }
}

/// The state that follows `state` on `event`. An event that does not answer
/// the state changes nothing.
pub open spec fn next_state(state: RemoteConnectionState, event: LinkEvent)
    -> RemoteConnectionState {
    match (state, event) {
        (RemoteConnectionState::NotConnected, LinkEvent::DialStarted) =>
            RemoteConnectionState::Connecting,
        (RemoteConnectionState::Connecting, LinkEvent::DialFailed) =>
            RemoteConnectionState::NotConnected,
        (RemoteConnectionState::Connecting, LinkEvent::LinkUp) => RemoteConnectionState::Connected,
        (RemoteConnectionState::Connected, LinkEvent::LinkDown) =>
            RemoteConnectionState::NotConnected,
        _ => state,
    }
}

/// How the evaluation of a submission ends when the sink is in `state` and
/// the driver reports `event`.
pub open spec fn verdict(state: RemoteConnectionState, event: LinkEvent, backoff_ms: u64)
    -> Submit {
    match (state, event) {
        (RemoteConnectionState::Connecting, LinkEvent::DialPending) => Submit::Busy,
        (RemoteConnectionState::Connecting, LinkEvent::DialFailed) => Submit::Backoff(backoff_ms),
        (RemoteConnectionState::Connected, LinkEvent::Taken) => Submit::Accepted,
        _ => Submit::Again,
    }
}

/// A report that does not answer the state is void: the state stays, and
/// the submission is evaluated again.
pub proof fn law_void_report(state: RemoteConnectionState, event: LinkEvent, backoff_ms: u64)
    requires
        !answers(state, event),
    ensures
        next_state(state, event) == state,
        verdict(state, event, backoff_ms) == Submit::Again,
{
}

/// A message is accepted by a link that stands and by nothing else, and
/// acceptance leaves the link standing; a message is busy only while a
/// connect is pending, and stays so.
pub proof fn law_accepted_and_busy(state: RemoteConnectionState, event: LinkEvent, backoff_ms: u64)
    ensures
        verdict(state, event, backoff_ms) == Submit::Accepted <==> state
            == RemoteConnectionState::Connected && event == LinkEvent::Taken,
        verdict(state, event, backoff_ms) == Submit::Accepted ==> next_state(state, event)
            == RemoteConnectionState::Connected,
        verdict(state, event, backoff_ms) == Submit::Busy <==> state
            == RemoteConnectionState::Connecting && event == LinkEvent::DialPending,
        verdict(state, event, backoff_ms) == Submit::Busy ==> next_state(state, event)
            == RemoteConnectionState::Connecting,
{
}

/// The sink's side of the connection to the remote destination.
pub struct StubbornSink {
    remote_addr: String,
    status: RemoteConnectionState,
    backoff_ms: u64,
}

impl StubbornSink {
    /// The address that every connect goes to.
    pub closed spec fn spec_remote_addr(&self) -> Seq<char> {
        self.remote_addr@
    }

    /// The state of the connection.
    pub closed spec fn spec_status(&self) -> RemoteConnectionState {
        self.status
    }

    /// The pause after a failed connect, in milliseconds.
    pub closed spec fn spec_backoff_ms(&self) -> u64 {
        self.backoff_ms
    }

    /// A sink for `remote_addr` that has not connected yet.
    pub fn new(remote_addr: String) -> (sink: StubbornSink)
        ensures
            sink.spec_remote_addr() == remote_addr@,
            sink.spec_status() == RemoteConnectionState::NotConnected,
            sink.spec_backoff_ms() == DEFAULT_BACKOFF_MS,
    {
        StubbornSink {
            remote_addr,
            status: RemoteConnectionState::NotConnected,
            backoff_ms: DEFAULT_BACKOFF_MS,
        }
    }

    /// The address that every connect goes to.
    pub fn remote_addr(&self) -> (addr: &String)
        ensures
            addr@ == self.spec_remote_addr(),
    {
        &self.remote_addr
    }

    /// The state of the connection.
    pub fn status(&self) -> (state: RemoteConnectionState)
        ensures
            state == self.spec_status(),
    {
        self.status
    }

    /// The pause after a failed connect, in milliseconds.
    pub fn backoff_ms(&self) -> (millis: u64)
        ensures
            millis == self.spec_backoff_ms(),
    {
        self.backoff_ms
    }

    /// Evaluates the submission in hand once: the driver did what the
    /// present state calls for (started a connect, polled it, or offered the
    /// message to the link) and reports what it saw.
    pub fn start_send(&mut self, event: LinkEvent) -> (outcome: Submit)
        ensures
            final(self).spec_status() == next_state(old(self).spec_status(), event),
            outcome == verdict(old(self).spec_status(), event, old(self).spec_backoff_ms()),
            final(self).spec_remote_addr() == old(self).spec_remote_addr(),
            final(self).spec_backoff_ms() == old(self).spec_backoff_ms(),
    {
        match self.status {
            RemoteConnectionState::Connected => match event {
                LinkEvent::Taken => Submit::Accepted,
                LinkEvent::LinkDown => {
                    self.status = RemoteConnectionState::NotConnected;
                    Submit::Again
                },
                _ => Submit::Again,
            },
            RemoteConnectionState::Connecting => match event {
                LinkEvent::DialFailed => {
                    self.status = RemoteConnectionState::NotConnected;
                    Submit::Backoff(self.backoff_ms)
                },
                LinkEvent::DialPending => Submit::Busy,
                LinkEvent::LinkUp => {
                    self.status = RemoteConnectionState::Connected;
                    Submit::Again
                },
                _ => Submit::Again,
            },
            RemoteConnectionState::NotConnected => match event {
                LinkEvent::DialStarted => {
                    self.status = RemoteConnectionState::Connecting;
                    Submit::Again
                },
                _ => Submit::Again,
            },
        }
    }
}

} // verus!
