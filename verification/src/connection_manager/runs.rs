//! Whole runs of a listener: what it reports and what it asks for when it
//! reacts to one event after the other, and how runs compose.

use crate::connection_manager::event::ConnectionManagerEventView;
use crate::connection_manager::listener::{
    listener_step, ListenerEventView, ListenerRequestView, PeerListenerView,
};
use vstd::prelude::*;

verus! {

/// The listener after `event`, and what it had reported by then, given what it
/// had reported before. An event that is no answer changes neither.
pub open spec fn listener_after<S, E, M>(
    listener: PeerListenerView<M>,
    reported: Seq<ConnectionManagerEventView<M>>,
    event: ListenerEventView<S, E, M>,
) -> (PeerListenerView<M>, Seq<ConnectionManagerEventView<M>>) {
    match listener_step(listener, event) {
        Some((next, step)) => (
            next,
            match step.notify {
                Some(report) => reported.push(report),
                None => reported,
            },
        ),
        None => (listener, reported),
    }
}

/// A listener that reacts to `events` one after the other: the listener at the
/// end, and everything it reported, in order.
pub open spec fn listener_run<S, E, M>(
    listener: PeerListenerView<M>,
    events: Seq<ListenerEventView<S, E, M>>,
) -> (PeerListenerView<M>, Seq<ConnectionManagerEventView<M>>)
    decreases events.len(),
{
    if events.len() == 0 {
        (listener, Seq::empty())
    } else {
        let (before, reported) = listener_run(listener, events.drop_last());
        listener_after(before, reported, events.last())
    }
}

/// Everything that a listener asks for while it reacts to `events` one after
/// the other, in order.
pub open spec fn listener_requests<S, E, M>(
    listener: PeerListenerView<M>,
    events: Seq<ListenerEventView<S, E, M>>,
) -> Seq<ListenerRequestView<S, E, M>>
    decreases events.len(),
{
    if events.len() == 0 {
        Seq::empty()
    } else {
        let earlier = listener_requests(listener, events.drop_last());
        match listener_step(listener_run(listener, events.drop_last()).0, events.last()) {
            Some((_, step)) => earlier.push(step.request),
            None => earlier,
        }
    }
}

/// A run over `events` and then `event` is the run over `events`, followed by
/// the reaction to `event`.
pub proof fn lemma_run_push<S, E, M>(
    listener: PeerListenerView<M>,
    events: Seq<ListenerEventView<S, E, M>>,
    event: ListenerEventView<S, E, M>,
)
    ensures
        listener_run(listener, events.push(event)) == listener_after(
            listener_run(listener, events).0,
            listener_run(listener, events).1,
            event,
        ),
{
    assert(events.push(event).drop_last() =~= events);
}

/// A run over `first` and then `rest` is the run over `first`, followed by
/// the run over `rest` of the listener that the first run left.
pub proof fn lemma_run_concat<S, E, M>(
    listener: PeerListenerView<M>,
    first: Seq<ListenerEventView<S, E, M>>,
    rest: Seq<ListenerEventView<S, E, M>>,
)
    ensures
        listener_run(listener, first + rest).0 == listener_run(listener_run(listener, first).0, rest).0,
        listener_run(listener, first + rest).1 == listener_run(listener, first).1 + listener_run(
            listener_run(listener, first).0,
            rest,
        ).1,
    decreases rest.len(),
{
    let (middle, reported) = listener_run(listener, first);
    if rest.len() == 0 {
        assert(first + rest =~= first);
        assert(reported + Seq::empty() =~= reported);
    } else {
        let shorter = rest.drop_last();
        let event = rest.last();
        lemma_run_concat(listener, first, shorter);
        assert(first + rest =~= (first + shorter).push(event));
        assert(rest =~= shorter.push(event));
        lemma_run_push(listener, first + shorter, event);
        lemma_run_push(middle, shorter, event);
        let (before, later) = listener_run(middle, shorter);
        match listener_step(before, event) {
            Some((next, step)) => match step.notify {
                Some(report) => {
                    assert((reported + later).push(report) =~= reported + later.push(report));
                },
                None => {},
            },
            None => {},
        }
    }
}

/// The requests of a run over `events` and then `event`.
pub proof fn lemma_requests_push<S, E, M>(
    listener: PeerListenerView<M>,
    events: Seq<ListenerEventView<S, E, M>>,
    event: ListenerEventView<S, E, M>,
)
    ensures
        listener_requests(listener, events.push(event)) == (match listener_step(
            listener_run(listener, events).0,
            event,
        ) {
            Some((_, step)) => listener_requests(listener, events).push(step.request),
            None => listener_requests(listener, events),
        }),
{
    assert(events.push(event).drop_last() =~= events);
}

/// The requests of a run over `first` and then `rest` are those of the run
/// over `first`, followed by those of the run over `rest` of the listener
/// that the first run left.
pub proof fn lemma_requests_concat<S, E, M>(
    listener: PeerListenerView<M>,
    first: Seq<ListenerEventView<S, E, M>>,
    rest: Seq<ListenerEventView<S, E, M>>,
)
    ensures
        listener_requests(listener, first + rest) == listener_requests(listener, first) + listener_requests(
            listener_run(listener, first).0,
            rest,
        ),
    decreases rest.len(),
{
    let middle = listener_run(listener, first).0;
    if rest.len() == 0 {
        assert(first + rest =~= first);
        assert(listener_requests(listener, first) + Seq::empty() =~= listener_requests(listener, first));
    } else {
        let shorter = rest.drop_last();
        let event = rest.last();
        lemma_requests_concat(listener, first, shorter);
        lemma_run_concat(listener, first, shorter);
        assert(first + rest =~= (first + shorter).push(event));
        assert(rest =~= shorter.push(event));
        lemma_requests_push(listener, first + shorter, event);
        lemma_requests_push(middle, shorter, event);
        let before = listener_run(middle, shorter).0;
        match listener_step(before, event) {
            Some((_, step)) => {
                assert((listener_requests(listener, first) + listener_requests(middle, shorter)).push(
                    step.request,
                ) =~= listener_requests(listener, first) + listener_requests(middle, shorter).push(step.request));
            },
            None => {},
        }
    }
}

/// The only way out of `Stopped` is none: a stopped listener takes no event,
/// and so reports nothing more and stays as it is.
pub proof fn lemma_stopped_is_final<S, E, M>(
    listener: PeerListenerView<M>,
    events: Seq<ListenerEventView<S, E, M>>,
)
    requires
        listener.phase is Stopped,
    ensures
        listener_run(listener, events) == (listener, Seq::<ConnectionManagerEventView<M>>::empty()),
    decreases events.len(),
{
    if events.len() > 0 {
        lemma_stopped_is_final(listener, events.drop_last());
    }
}

} // verus!
