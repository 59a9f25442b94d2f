//! The relay that forwards one remote event stream to a local sink.
//!
//! The relay is a state machine: the task that owns the stream hands it each
//! thing that happens and performs the action it returns.

use vstd::prelude::*;

verus! {

/// Where a relay stands. No phase leads back to an earlier one.
#[derive(Debug, Clone, Copy, PartialEq, Eq, Structural)]
pub enum RelayPhase {
    Opening,
    Streaming,
    Completed,
    Errored,
}

/// What happened to the stream or the sink.
pub enum RelayEvent<E> {
    /// The remote stream is open.
    Opened,
    /// The remote stream could not be opened.
    OpenFailed(String),
    /// The stream produced an event.
    Received(E),
    /// The sink refused a forwarded event.
    SinkFailed(String),
    /// The stream broke.
    StreamFailed(String),
    /// The remote side ended the stream.
    Ended,
}

/// What the owner of the relay does next.
#[derive(Debug, PartialEq)]
pub enum RelayAction<E> {
    /// Nothing; wait for the next event.
    Wait,
    /// Hand this event to the sink, unchanged.
    Forward(E),
    /// Report this problem and go on draining the stream.
    Report(String),
    /// Stop relaying, reporting the error if there is one.
    Finish(Option<String>),
}

/// The phase after `ev` in phase `p`.
pub open spec fn next_phase<E>(p: RelayPhase, ev: RelayEvent<E>) -> RelayPhase {
    match (p, ev) {
        (RelayPhase::Opening, RelayEvent::Opened) => RelayPhase::Streaming,
        (RelayPhase::Opening, RelayEvent::OpenFailed(_)) => RelayPhase::Errored,
        (RelayPhase::Streaming, RelayEvent::StreamFailed(_)) => RelayPhase::Errored,
        (RelayPhase::Streaming, RelayEvent::Ended) => RelayPhase::Completed,
        _ => p,
    }
}

/// The action on `ev` in phase `p`.
pub open spec fn relay_action<E>(p: RelayPhase, ev: RelayEvent<E>) -> RelayAction<E> {
    match (p, ev) {
        (RelayPhase::Opening, RelayEvent::OpenFailed(m)) => RelayAction::Finish(Some(m)),
        (RelayPhase::Streaming, RelayEvent::Received(e)) => RelayAction::Forward(e),
        (RelayPhase::Streaming, RelayEvent::SinkFailed(m)) => RelayAction::Report(m),
        (RelayPhase::Streaming, RelayEvent::StreamFailed(m)) => RelayAction::Finish(Some(m)),
        (RelayPhase::Streaming, RelayEvent::Ended) => RelayAction::Finish(None),
        _ => RelayAction::Wait,
    }
}

/// One relay per streaming call.
pub struct StreamRelay {
    phase: RelayPhase,
}

impl StreamRelay {
    /// A relay whose stream is being opened.
    pub fn new() -> (r: Self)
        ensures
            r.phase_spec() == RelayPhase::Opening,
    {
        StreamRelay { phase: RelayPhase::Opening }
    }

    pub closed spec fn phase_spec(&self) -> RelayPhase {
        self.phase
    }

    /// Where the relay stands.
    pub fn phase(&self) -> (p: RelayPhase)
        ensures
            p == self.phase_spec(),
    {
        self.phase
    }

    /// Whether the relay has stopped for good.
    pub fn is_finished(&self) -> (r: bool)
        ensures
            r == (self.phase_spec() == RelayPhase::Completed || self.phase_spec() == RelayPhase::Errored),
    {
        self.phase == RelayPhase::Completed || self.phase == RelayPhase::Errored
    }

    /// Takes in what happened and says what to do.
    pub fn step<E>(&mut self, ev: RelayEvent<E>) -> (a: RelayAction<E>)
        ensures
            final(self).phase_spec() == next_phase(old(self).phase_spec(), ev),
            a == relay_action(old(self).phase_spec(), ev),
    {
        match (self.phase, ev) {
            (RelayPhase::Opening, RelayEvent::Opened) => {
                self.phase = RelayPhase::Streaming;
                RelayAction::Wait
            },
            (RelayPhase::Opening, RelayEvent::OpenFailed(m)) => {
                self.phase = RelayPhase::Errored;
                RelayAction::Finish(Some(m))
            },
            (RelayPhase::Streaming, RelayEvent::Received(e)) => RelayAction::Forward(e),
            (RelayPhase::Streaming, RelayEvent::SinkFailed(m)) => RelayAction::Report(m),
            (RelayPhase::Streaming, RelayEvent::StreamFailed(m)) => {
                self.phase = RelayPhase::Errored;
                RelayAction::Finish(Some(m))
            },
            (RelayPhase::Streaming, RelayEvent::Ended) => {
                self.phase = RelayPhase::Completed;
                RelayAction::Finish(None)
            },
            _ => RelayAction::Wait,
        }
    }
}

/// The events that a relay in phase `p` forwards, in order, over `evs`.
pub open spec fn forwarded<E>(p: RelayPhase, evs: Seq<RelayEvent<E>>) -> Seq<E>
    decreases evs.len(),
{
    if evs.len() == 0 {
        Seq::empty()
    } else {
        let head = match relay_action(p, evs[0]) {
            RelayAction::Forward(e) => seq![e],
            _ => Seq::empty(),
        };
        head + forwarded(next_phase(p, evs[0]), evs.drop_first())
    }
}

/// The phase of a relay in phase `p` after `evs`.
pub open spec fn phase_after<E>(p: RelayPhase, evs: Seq<RelayEvent<E>>) -> RelayPhase
    decreases evs.len(),
{
    if evs.len() == 0 {
        p
    } else {
        phase_after(next_phase(p, evs[0]), evs.drop_first())
    }
}

/// The events that the stream produced, in order, among `evs`.
pub open spec fn received<E>(evs: Seq<RelayEvent<E>>) -> Seq<E>
    decreases evs.len(),
{
    if evs.len() == 0 {
        Seq::empty()
    } else {
        let head = match evs[0] {
            RelayEvent::Received(e) => seq![e],
            _ => Seq::empty(),
        };
        head + received(evs.drop_first())
    }
}

/// Whether `evs` holds only stream events and sink failures.
pub open spec fn only_items<E>(evs: Seq<RelayEvent<E>>) -> bool {
    forall|i: int| 0 <= i < evs.len() ==> (#[trigger] evs[i] is Received || evs[i] is SinkFailed)
}

/// A streaming relay forwards every event it receives, in the order
/// received, whatever sink failures come between them, and keeps streaming.
pub proof fn lemma_forwards_in_order<E>(evs: Seq<RelayEvent<E>>)
    requires
        only_items(evs),
    ensures
        forwarded(RelayPhase::Streaming, evs) == received(evs),
        phase_after(RelayPhase::Streaming, evs) == RelayPhase::Streaming,
    decreases evs.len(),
{
    if evs.len() > 0 {
        let rest = evs.drop_first();
        assert(evs[0] is Received || evs[0] is SinkFailed);
        assert forall|i: int| 0 <= i < rest.len() implies (#[trigger] rest[i] is Received || rest[i] is SinkFailed) by {
            assert(rest[i] == evs[i + 1]);
        }
        lemma_forwards_in_order(rest);
    }
}

/// A relay that has completed or errored forwards nothing more and stays
/// where it is.
pub proof fn lemma_finished_is_final<E>(p: RelayPhase, evs: Seq<RelayEvent<E>>)
    requires
        p == RelayPhase::Completed || p == RelayPhase::Errored,
    ensures
        forwarded(p, evs) == Seq::<E>::empty(),
        phase_after(p, evs) == p,
    decreases evs.len(),
{
    if evs.len() > 0 {
        lemma_finished_is_final(p, evs.drop_first());
        assert(forwarded(p, evs) =~= Seq::<E>::empty());
    }
}

} // verus!
