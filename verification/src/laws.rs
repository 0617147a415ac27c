//! What holds of the relay over whole runs: whatever the remote does, no
//! message is lost, doubled or overtaken, and once the remote answers,
//! everything that waits goes out.

use crate::relay::hands_over;
use crate::relay::step;
use crate::relay::Input;
use crate::relay::RelayState;
use crate::stubborn_sink::verdict;
use crate::stubborn_sink::LinkEvent;
use crate::stubborn_sink::RemoteConnectionState;
use crate::stubborn_sink::Submit;
use vstd::prelude::*;

verus! {

/// The relay after the inputs of a run, taken in order.
pub open spec fn run<M>(s: RelayState<M>, inputs: Seq<Input<M>>) -> RelayState<M>
    decreases inputs.len(),
{
    if inputs.len() == 0 {
        s
    } else {
        run(step(s, inputs[0]), inputs.drop_first())
    }
}

/// The message that `input` makes the relay hand to the link, if any.
pub open spec fn handed<M>(s: RelayState<M>, input: Input<M>) -> Seq<M> {
    if hands_over(s, input) {
        seq![s.pending[0]]
    } else {
        Seq::empty()
    }
}

/// The messages that the relay hands to the link over a run, in the order
/// in which it hands them over.
pub open spec fn delivered<M>(s: RelayState<M>, inputs: Seq<Input<M>>) -> Seq<M>
    decreases inputs.len(),
{
    if inputs.len() == 0 {
        Seq::empty()
    } else {
        handed(s, inputs[0]) + delivered(step(s, inputs[0]), inputs.drop_first())
    }
}

/// The line that an input brings, if it is one.
pub open spec fn line_of<M>(input: Input<M>) -> Seq<M> {
    match input {
        Input::Line(msg) => seq![msg],
        Input::Event(_) => Seq::empty(),
    }
}

/// The lines that arrive over a run, in the order of their arrival.
pub open spec fn lines<M>(inputs: Seq<Input<M>>) -> Seq<M>
    decreases inputs.len(),
{
    if inputs.len() == 0 {
        Seq::empty()
    } else {
        line_of(inputs[0]) + lines(inputs.drop_first())
    }
}

/// The lines `msgs` arriving one after the other, and nothing else.
pub open spec fn arrivals<M>(msgs: Seq<M>) -> Seq<Input<M>> {
    msgs.map_values(|msg: M| Input::Line(msg))
}

/// What the driver reports when the remote is within reach: the connect
/// starts, the connect succeeds, the link takes the message.
pub open spec fn favourable(status: RemoteConnectionState) -> LinkEvent {
    match status {
        RemoteConnectionState::NotConnected => LinkEvent::DialStarted,
        RemoteConnectionState::Connecting => LinkEvent::LinkUp,
        RemoteConnectionState::Connected => LinkEvent::Taken,
    }
}

/// `n` reports in a row from a remote within reach, to a relay that starts
/// in `s`.
pub open spec fn recovery<M>(s: RelayState<M>, n: nat) -> Seq<Input<M>>
    decreases n,
{
    if n == 0 {
        Seq::empty()
    } else {
        let input = Input::<M>::Event(favourable(s.status));
        seq![input] + recovery(step(s, input), (n - 1) as nat)
    }
}

/// No evaluation drops a message: the head leaves the queue when the link
/// has taken it, and only then; on every other outcome, busy among them,
/// the queue is what it was.
pub proof fn law_only_acceptance_consumes<M>(s: RelayState<M>, event: LinkEvent, backoff_ms: u64)
    requires
        s.pending.len() > 0,
    ensures
        verdict(s.status, event, backoff_ms) == Submit::Accepted ==> {
            &&& handed(s, Input::Event(event)) == seq![s.pending[0]]
            &&& step(s, Input::Event(event)).pending == s.pending.drop_first()
        },
        verdict(s.status, event, backoff_ms) != Submit::Accepted ==> {
            &&& handed(s, Input::Event(event)) == Seq::<M>::empty()
            &&& step(s, Input::Event(event)).pending == s.pending
        },
{
}

/// A run in two parts is the run of the second part from where the first
/// one ended, and delivers what both deliver.
pub proof fn lemma_run_split<M>(s: RelayState<M>, first: Seq<Input<M>>, second: Seq<Input<M>>)
    ensures
        run(s, first + second) == run(run(s, first), second),
        delivered(s, first + second) == delivered(s, first) + delivered(run(s, first), second),
        lines(first + second) == lines(first) + lines(second),
    decreases first.len(),
{
    if first.len() == 0 {
        assert(first + second =~= second);
    } else {
        let rest = first.drop_first();
        assert((first + second)[0] == first[0]);
        assert((first + second).drop_first() =~= rest + second);
        lemma_run_split(step(s, first[0]), rest, second);
        assert(delivered(s, first + second) =~= delivered(s, first) + delivered(
            run(s, first),
            second,
        ));
        assert(lines(first + second) =~= lines(first) + lines(second));
    }
}

/// The lines of a run that consists of arrivals are the messages that
/// arrived.
pub proof fn lemma_lines_of_arrivals<M>(msgs: Seq<M>)
    ensures
        lines(arrivals(msgs)) == msgs,
    decreases msgs.len(),
{
    if msgs.len() > 0 {
        assert(arrivals(msgs).drop_first() =~= arrivals(msgs.drop_first()));
        lemma_lines_of_arrivals(msgs.drop_first());
        assert(lines(arrivals(msgs)) =~= msgs);
    }
}

/// Nothing is lost, doubled or overtaken, whatever the remote does and
/// however often it goes down and comes back: at every moment of every run,
/// what was handed to the link, followed by what still waits, is what
/// waited at the start followed by the lines that arrived since, in the
/// order of their arrival.
pub proof fn law_nothing_lost<M>(s: RelayState<M>, inputs: Seq<Input<M>>)
    ensures
        delivered(s, inputs) + run(s, inputs).pending == s.pending + lines(inputs),
    decreases inputs.len(),
{
    if inputs.len() == 0 {
        assert(delivered(s, inputs) + run(s, inputs).pending =~= s.pending + lines(inputs));
    } else {
        let next = step(s, inputs[0]);
        let rest = inputs.drop_first();
        law_nothing_lost(next, rest);
        assert(handed(s, inputs[0]) + next.pending =~= s.pending + line_of(inputs[0]));
        assert(delivered(s, inputs) + run(s, inputs).pending =~= handed(s, inputs[0]) + (
        delivered(next, rest) + run(next, rest).pending));
        assert(handed(s, inputs[0]) + (next.pending + lines(rest)) =~= (handed(s, inputs[0])
            + next.pending) + lines(rest));
        assert((s.pending + line_of(inputs[0])) + lines(rest) =~= s.pending + lines(inputs));
    }
}

/// How many reports from a remote within reach it takes at most until the
/// relay `s` has handed over all that waits.
pub open spec fn reports_needed<M>(s: RelayState<M>) -> nat {
    if s.pending.len() == 0 {
        0
    } else {
        match s.status {
            RemoteConnectionState::NotConnected => s.pending.len() + 2,
            RemoteConnectionState::Connecting => s.pending.len() + 1,
            RemoteConnectionState::Connected => s.pending.len(),
        }
    }
}

/// Once the remote is within reach, everything that waits goes out: after
/// `reports_needed` reports, or more, the queue is empty and the link has
/// been handed exactly what waited, in the order in which it waited.
pub proof fn law_recovery_drains<M>(s: RelayState<M>, n: nat)
    requires
        n >= reports_needed(s),
    ensures
        run(s, recovery(s, n)).pending == Seq::<M>::empty(),
        delivered(s, recovery(s, n)) == s.pending,
        lines(recovery(s, n)) == Seq::<M>::empty(),
    decreases n,
{
    let inputs = recovery(s, n);
    if n == 0 {
        assert(s.pending =~= Seq::<M>::empty());
    } else {
        let input = Input::<M>::Event(favourable(s.status));
        let next = step(s, input);
        let rest = recovery(next, (n - 1) as nat);
        assert(inputs[0] == input);
        assert(inputs.drop_first() =~= rest);
        law_recovery_drains(next, (n - 1) as nat);
        assert(delivered(s, inputs) =~= s.pending);
        assert(lines(inputs) =~= Seq::<M>::empty());
    }
}

/// With the remote within reach throughout, it is handed exactly the
/// messages that a producer sent, in the order in which they were sent: a
/// fresh relay that takes in `msgs` and then gets `msgs.len() + 2` reports,
/// or more, has handed over `msgs` and holds nothing.
pub proof fn law_reachable_remote<M>(msgs: Seq<M>, n: nat)
    requires
        n >= msgs.len() + 2,
    ensures
        ({
            let fresh = RelayState::<M> {
                status: RemoteConnectionState::NotConnected,
                pending: Seq::empty(),
            };
            let loaded = run(fresh, arrivals(msgs));
            let inputs = arrivals(msgs) + recovery(loaded, n);
            &&& delivered(fresh, inputs) == msgs
            &&& run(fresh, inputs).pending == Seq::<M>::empty()
        }),
{
    let fresh = RelayState::<M> {
        status: RemoteConnectionState::NotConnected,
        pending: Seq::empty(),
    };
    lemma_lines_of_arrivals(msgs);
    law_outage_then_recovery(fresh, arrivals(msgs), n);
    assert(fresh.pending + msgs =~= msgs);
}

/// No more can wait after a run than waited before it and arrived in it.
pub proof fn lemma_pending_bound<M>(s: RelayState<M>, inputs: Seq<Input<M>>)
    ensures
        run(s, inputs).pending.len() <= s.pending.len() + lines(inputs).len(),
{
    law_nothing_lost(s, inputs);
    assert((delivered(s, inputs) + run(s, inputs).pending).len() == (s.pending + lines(
        inputs,
    )).len());
}

/// No message submitted while the remote is down is lost: after any run,
/// with any outages in it, `n` reports from a remote within reach bring out
/// everything that was taken in and not yet handed over, so that the link
/// has then been handed all that waited at the start and all that arrived,
/// in the order of arrival. `n` is enough where it is the number of
/// messages that can wait, and two.
pub proof fn law_outage_then_recovery<M>(s: RelayState<M>, inputs: Seq<Input<M>>, n: nat)
    requires
        n >= s.pending.len() + lines(inputs).len() + 2,
    ensures
        ({
            let after = run(s, inputs);
            let whole = inputs + recovery(after, n);
            &&& delivered(s, whole) == s.pending + lines(inputs)
            &&& run(s, whole).pending == Seq::<M>::empty()
        }),
{
    let after = run(s, inputs);
    let tail = recovery(after, n);
    lemma_pending_bound(s, inputs);
    law_recovery_drains(after, n);
    lemma_run_split(s, inputs, tail);
    law_nothing_lost(s, inputs);
}

/// Down and up again, any number of times, neither doubles nor drops a
/// message: after any run and the recovery that follows it, the messages
/// handed to the link are, as a multiset, those that waited at the start
/// and those that arrived.
pub proof fn law_reconnection_idempotent<M>(s: RelayState<M>, inputs: Seq<Input<M>>, n: nat)
    requires
        n >= s.pending.len() + lines(inputs).len() + 2,
    ensures
        delivered(s, inputs + recovery(run(s, inputs), n)).to_multiset() == (s.pending + lines(
            inputs,
        )).to_multiset(),
{
    law_outage_then_recovery(s, inputs, n);
}

/// Each producer's own order is kept. Let `from_producer` tell the messages
/// of one producer from all others. At every moment of every run, the
/// messages of that producer that were handed to the link, followed by
/// those of its messages that still wait, are its messages in the order in
/// which the relay took them in.
pub proof fn law_producer_order_kept<M>(
    s: RelayState<M>,
    inputs: Seq<Input<M>>,
    from_producer: spec_fn(M) -> bool,
)
    ensures
        delivered(s, inputs).filter(from_producer) + run(s, inputs).pending.filter(from_producer)
            == (s.pending + lines(inputs)).filter(from_producer),
        delivered(s, inputs).filter(from_producer).is_prefix_of(
            (s.pending + lines(inputs)).filter(from_producer),
        ),
{
    law_nothing_lost(s, inputs);
    Seq::filter_distributes_over_add(delivered(s, inputs), run(s, inputs).pending, from_producer);
    let out = delivered(s, inputs).filter(from_producer);
    let all = (s.pending + lines(inputs)).filter(from_producer);
    assert(all.subrange(0, out.len() as int) =~= out);
}

/// With several producers at once, each one's messages reach the link
/// complete and in its own order, and all of them together are what all
/// producers sent: after any run and the recovery that follows it, the
/// messages of any one producer that were handed over are its messages in
/// the order in which the relay took them in.
pub proof fn law_concurrent_producers<M>(
    s: RelayState<M>,
    inputs: Seq<Input<M>>,
    n: nat,
    from_producer: spec_fn(M) -> bool,
)
    requires
        n >= s.pending.len() + lines(inputs).len() + 2,
    ensures
        ({
            let whole = inputs + recovery(run(s, inputs), n);
            &&& delivered(s, whole).filter(from_producer) == (s.pending + lines(inputs)).filter(
                from_producer,
            )
            &&& delivered(s, whole).to_multiset() == (s.pending + lines(inputs)).to_multiset()
        }),
{
    law_outage_then_recovery(s, inputs, n);
}

} // verus!
