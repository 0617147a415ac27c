//! The pending queue and the forwarder: lines wait in the order in which
//! they arrived, and the one at the head is submitted to the stubborn sink
//! until the sink has handed it to a link.

use crate::stubborn_sink::next_state;
use crate::stubborn_sink::verdict;
use crate::stubborn_sink::LinkEvent;
use crate::stubborn_sink::RemoteConnectionState;
use crate::stubborn_sink::StubbornSink;
use crate::stubborn_sink::Submit;
use std::collections::VecDeque;
use vstd::prelude::*;

verus! {

/// The relay as a value: the state of the connection, and the messages that
/// wait, oldest first. The message at the head is the one being submitted.
pub struct RelayState<M> {
    pub status: RemoteConnectionState,
    pub pending: Seq<M>,
}

/// What can happen to a relay.
pub enum Input<M> {
    /// A producer's line arrives.
    Line(M),
    /// The driver reports on what the forwarder asked of it.
    Event(LinkEvent),
}

/// What the forwarder needs done next.
#[derive(Debug, PartialEq, Eq)]
pub enum Demand {
    /// Nothing waits: the forwarder rests until a line arrives.
    Idle,
    /// Start a connect to the remote address.
    Dial,
    /// Poll the connect that is pending.
    Poll,
    /// Offer this message to the link's relay channel.
    Offer(String),
}

/// A demand as a plain value.
pub enum DemandView {
    Idle,
    Dial,
    Poll,
    Offer(Seq<char>),
}

impl View for Demand {
    type V = DemandView;

    open spec fn view(&self) -> DemandView {
        match self {
            Demand::Idle => DemandView::Idle,
            Demand::Dial => DemandView::Dial,
            Demand::Poll => DemandView::Poll,
            Demand::Offer(msg) => DemandView::Offer(msg@),
        }
    }
}

/// Whether the forwarder has a submission in hand.
pub open spec fn submitting<M>(s: RelayState<M>) -> bool {
    s.pending.len() > 0
}

/// Whether `input` makes the relay hand the message at its head to the
/// link.
pub open spec fn hands_over<M>(s: RelayState<M>, input: Input<M>) -> bool {
    &&& submitting(s)
    &&& s.status == RemoteConnectionState::Connected
    &&& input == Input::<M>::Event(LinkEvent::Taken)
}

/// The relay after `input`. A line joins the queue at its end. An event
/// moves the connection as the sink's state machine says, and takes the head
/// off the queue where the link took it; with nothing to submit, an event
/// changes nothing.
pub open spec fn step<M>(s: RelayState<M>, input: Input<M>) -> RelayState<M> {
    match input {
        Input::Line(msg) => RelayState { status: s.status, pending: s.pending.push(msg) },
        Input::Event(event) => if !submitting(s) {
            s
        } else {
            RelayState {
                status: next_state(s.status, event),
                pending: if hands_over(s, input) {
                    s.pending.drop_first()
                } else {
                    s.pending
                },
            }
        },
    }
}

/// What the forwarder of the relay `s` needs done next.
pub open spec fn demand_of(s: RelayState<Seq<char>>) -> DemandView {
    if !submitting(s) {
        DemandView::Idle
    } else {
        match s.status {
            RemoteConnectionState::NotConnected => DemandView::Dial,
            RemoteConnectionState::Connecting => DemandView::Poll,
            RemoteConnectionState::Connected => DemandView::Offer(s.pending[0]),
        }
    }
}

/// The relay: pending queue, forwarder and stubborn sink in one.
pub struct Relay {
    sink: StubbornSink,
    pending: VecDeque<String>,
}

impl View for Relay {
    type V = RelayState<Seq<char>>;

    closed spec fn view(&self) -> RelayState<Seq<char>> {
        RelayState { status: self.sink.spec_status(), pending: self.pending.deep_view() }
    }
}

impl Relay {
    /// The address that every connect goes to.
    pub closed spec fn spec_remote_addr(&self) -> Seq<char> {
        self.sink.spec_remote_addr()
    }

    /// The pause after a failed connect, in milliseconds.
    pub closed spec fn spec_backoff_ms(&self) -> u64 {
        self.sink.spec_backoff_ms()
    }

    /// A relay to `remote_addr` with nothing pending and no connection.
    pub fn new(remote_addr: String) -> (relay: Relay)
        ensures
            relay@ == (RelayState::<Seq<char>> {
                status: RemoteConnectionState::NotConnected,
                pending: Seq::empty(),
            }),
            relay.spec_remote_addr() == remote_addr@,
            relay.spec_backoff_ms() == crate::stubborn_sink::DEFAULT_BACKOFF_MS,
    {
        let relay = Relay { sink: StubbornSink::new(remote_addr), pending: VecDeque::new() };
        assert(relay.pending.deep_view() =~= Seq::<Seq<char>>::empty());
        relay
    }

    /// The address that every connect goes to.
    pub fn remote_addr(&self) -> (addr: &String)
        ensures
            addr@ == self.spec_remote_addr(),
    {
        self.sink.remote_addr()
    }

    /// The state of the connection.
    pub fn status(&self) -> (state: RemoteConnectionState)
        ensures
            state == self@.status,
    {
        self.sink.status()
    }

    /// How many messages wait, the one being submitted included.
    pub fn pending(&self) -> (count: usize)
        ensures
            count == self@.pending.len(),
    {
        self.pending.len()
    }

    /// Takes a producer's line into the queue, behind all that wait.
    pub fn enqueue(&mut self, line: String)
        ensures
            final(self)@ == step(old(self)@, Input::Line(line@)),
            final(self).spec_remote_addr() == old(self).spec_remote_addr(),
            final(self).spec_backoff_ms() == old(self).spec_backoff_ms(),
    {
        self.pending.push_back(line);
        assert(self.pending.deep_view() =~= old(self).pending.deep_view().push(line@));
    }

    /// What the driver is to do next for the forwarder.
    pub fn demand(&self) -> (demand: Demand)
        ensures
            demand@ == demand_of(self@),
    {
        if self.pending.len() == 0 {
            return Demand::Idle;
        }
        match self.sink.status() {
            RemoteConnectionState::NotConnected => Demand::Dial,
            RemoteConnectionState::Connecting => Demand::Poll,
            RemoteConnectionState::Connected => Demand::Offer(self.pending[0].clone()),
        }
    }

    /// Takes the driver's report on what the forwarder asked of it. With a
    /// submission in hand the result says how this evaluation of it ended;
    /// with none the report is void and the result is `None`.
    pub fn observe(&mut self, event: LinkEvent) -> (outcome: Option<Submit>)
        ensures
            final(self)@ == step(old(self)@, Input::Event(event)),
            outcome == if submitting(old(self)@) {
                Some(verdict(old(self)@.status, event, old(self).spec_backoff_ms()))
            } else {
                None
            },
            final(self).spec_remote_addr() == old(self).spec_remote_addr(),
            final(self).spec_backoff_ms() == old(self).spec_backoff_ms(),
    {
        if self.pending.len() == 0 {
            return None;
        }
        let outcome = self.sink.start_send(event);
        if let Submit::Accepted = outcome {
            let _ = self.pending.pop_front();
            assert(self.pending.deep_view() =~= old(self).pending.deep_view().drop_first());
        }
        Some(outcome)
    }
}

} // verus!
