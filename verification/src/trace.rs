//! What a session emits over its whole life.
//!
//! A session that got its sockets emits `Opened`, then events about
//! datagrams, then `Closed`; if it ends because receiving failed, one `Error`
//! stands before the `Closed`. A session that did not get its sockets emits
//! one `Error` and nothing else.

use vstd::prelude::*;
use crate::event::EventView;
use crate::ingest::{accepts, initial, transition, ConfigView, LoopView, OutcomeView, Phase};

verus! {

/// A loop together with all that it has emitted so far.
pub struct Run {
    pub state: LoopView,
    pub events: Seq<EventView>,
}

/// The run of a fresh loop that is handed `outcomes` one after another.
/// An outcome that the loop does not accept leaves the run as it is.
pub open spec fn run(config: ConfigView, outcomes: Seq<OutcomeView>) -> Run
    decreases outcomes.len(),
{
    if outcomes.len() == 0 {
        Run { state: initial(config), events: seq![] }
    } else {
        let before = run(config, outcomes.drop_last());
        if accepts(before.state.phase, outcomes.last()) {
            let t = transition(before.state, outcomes.last());
            Run {
                state: LoopView { config: before.state.config, phase: t.phase },
                events: before.events + t.events,
            }
        } else {
            before
        }
    }
}

/// The events at positions `from` up to, not including, `to` are all about
/// datagrams.
pub open spec fn all_messages(events: Seq<EventView>, from: int, to: int) -> bool {
    forall|i: int| from <= i < to ==> (#[trigger] events[i]).is_message()
}

/// `Opened`, then events about datagrams: a session that is still listening.
pub open spec fn open_session(events: Seq<EventView>) -> bool {
    &&& events.len() >= 1
    &&& events[0] is Opened
    &&& all_messages(events, 1, events.len() as int)
}

/// `Opened`, then events about datagrams, then `Closed`.
pub open spec fn bracketed(events: Seq<EventView>) -> bool {
    &&& events.len() >= 2
    &&& events[0] is Opened
    &&& events.last() is Closed
    &&& all_messages(events, 1, events.len() - 1)
}

/// `Opened`, then events about datagrams, then one `Error`, then `Closed`.
pub open spec fn bracketed_after_failure(events: Seq<EventView>) -> bool {
    &&& events.len() >= 3
    &&& events[0] is Opened
    &&& events[events.len() - 2] is Error
    &&& events.last() is Closed
    &&& all_messages(events, 1, events.len() - 2)
}

/// One `Error` and nothing else: the session never listened.
pub open spec fn never_opened(events: Seq<EventView>) -> bool {
    events.len() == 1 && events[0] is Error
}

/// What a loop in `phase` can have emitted.
pub open spec fn shaped(phase: Phase, events: Seq<EventView>) -> bool {
    match phase {
        Phase::Binding | Phase::Connecting => events.len() == 0,
        Phase::Receiving | Phase::Forwarding | Phase::Draining => open_session(events),
        Phase::Finished => never_opened(events) || bracketed(events) || bracketed_after_failure(
            events,
        ),
    }
}

/// Among `outcomes` is a receive failure that the loop took: it was
/// reported while the loop was listening.
pub open spec fn receive_failed(config: ConfigView, outcomes: Seq<OutcomeView>) -> bool {
    exists|i: int|
        0 <= i < outcomes.len() && outcomes[i] is ReceiveFailed && (#[trigger] run(
            config,
            outcomes.take(i),
        )).state.phase is Receiving
}

/// One accepted outcome keeps the shape: if what a loop has emitted fits its
/// phase, then so does what it has emitted after the step.
pub proof fn lemma_step_keeps_shape(state: LoopView, events: Seq<EventView>, outcome: OutcomeView)
    requires
        shaped(state.phase, events),
        accepts(state.phase, outcome),
    ensures
        shaped(transition(state, outcome).phase, events + transition(state, outcome).events),
{
    // What was emitted before stands where it stood, and the step adds at
    // most two events behind it.
    let after = events + transition(state, outcome).events;
    assert forall|i: int| 0 <= i < events.len() implies after[i] == events[i] by {}
}

/// Whatever a loop is handed, what it has emitted fits its phase: nothing
/// before it listens; `Opened` and events about datagrams while it runs; and
/// once it is over either one lone `Error`, or `Opened` ... `Closed` with at
/// most one `Error`, which then stands right before the `Closed`.
pub proof fn lemma_run_shaped(config: ConfigView, outcomes: Seq<OutcomeView>)
    ensures
        run(config, outcomes).state.config == config,
        shaped(run(config, outcomes).state.phase, run(config, outcomes).events),
    decreases outcomes.len(),
{
    if outcomes.len() > 0 {
        let before = run(config, outcomes.drop_last());
        lemma_run_shaped(config, outcomes.drop_last());
        if accepts(before.state.phase, outcomes.last()) {
            lemma_step_keeps_shape(before.state, before.events, outcomes.last());
        }
    }
}

/// A receive failure that a loop took once stays taken, whatever follows.
proof fn lemma_receive_failed_stays(config: ConfigView, outcomes: Seq<OutcomeView>)
    requires
        outcomes.len() > 0,
        receive_failed(config, outcomes.drop_last()),
    ensures
        receive_failed(config, outcomes),
{
    let shorter = outcomes.drop_last();
    let i = choose|i: int|
        0 <= i < shorter.len() && shorter[i] is ReceiveFailed && (#[trigger] run(
            config,
            shorter.take(i),
        )).state.phase is Receiving;
    assert(shorter.take(i) =~= outcomes.take(i));
}

/// An `Error` that is not the first event comes from a receive failure.
proof fn lemma_late_error_is_receive_failure(config: ConfigView, outcomes: Seq<OutcomeView>)
    ensures
        forall|i: int|
            1 <= i < run(config, outcomes).events.len() && (#[trigger] run(
                config,
                outcomes,
            ).events[i]) is Error ==> receive_failed(config, outcomes),
    decreases outcomes.len(),
{
    if outcomes.len() > 0 {
        let shorter = outcomes.drop_last();
        let before = run(config, shorter);
        let after = run(config, outcomes);
        lemma_late_error_is_receive_failure(config, shorter);
        lemma_run_shaped(config, shorter);
        if receive_failed(config, shorter) {
            lemma_receive_failed_stays(config, outcomes);
        } else if accepts(before.state.phase, outcomes.last()) {
            if outcomes.last() is ReceiveFailed {
                // This is the receive failure, taken by a listening loop.
                assert(outcomes.take(outcomes.len() - 1) =~= shorter);
            } else {
                // Any other step emits an `Error` only as the first event.
                assert forall|i: int|
                    1 <= i < after.events.len() implies !((#[trigger] after.events[i]) is Error) by {
                    if i < before.events.len() {
                        assert(after.events[i] == before.events[i]);
                    }
                }
            }
        }
    }
}

/// Event bracketing. Take a session that got its sockets, so that its first
/// event is `Opened`, and that took no receive failure. While it runs it has
/// emitted `Opened` and then only events about datagrams; once it is over it
/// has emitted `Opened`, events about datagrams, and `Closed` as the last.
pub proof fn lemma_event_bracketing(config: ConfigView, outcomes: Seq<OutcomeView>)
    requires
        !receive_failed(config, outcomes),
        run(config, outcomes).events.len() > 0,
        run(config, outcomes).events[0] is Opened,
    ensures
        run(config, outcomes).state.phase is Finished ==> bracketed(run(config, outcomes).events),
        !(run(config, outcomes).state.phase is Finished) ==> open_session(
            run(config, outcomes).events,
        ),
{
    lemma_run_shaped(config, outcomes);
    lemma_late_error_is_receive_failure(config, outcomes);
    let events = run(config, outcomes).events;
    if bracketed_after_failure(events) {
        // Then an `Error` stands behind `Opened`, and none does.
        assert(events[events.len() - 2] is Error);
    }
}

/// A session that took a receive failure and had its sockets ends with
/// `Error`, `Closed`: this is the one case in which an `Error` stands between
/// `Opened` and `Closed`.
pub proof fn lemma_bracketing_after_failure(config: ConfigView, outcomes: Seq<OutcomeView>)
    requires
        receive_failed(config, outcomes),
    ensures
        run(config, outcomes).state.phase is Finished,
        bracketed_after_failure(run(config, outcomes).events),
    decreases outcomes.len(),
{
    let i = choose|i: int|
        0 <= i < outcomes.len() && outcomes[i] is ReceiveFailed && (#[trigger] run(
            config,
            outcomes.take(i),
        )).state.phase is Receiving;
    let shorter = outcomes.drop_last();
    let before = run(config, shorter);
    lemma_run_shaped(config, shorter);
    if i == outcomes.len() - 1 {
        // The last outcome is the failure: `Error` and `Closed` are added to
        // what a listening session has emitted.
        assert(outcomes.take(i) =~= shorter);
        let after = before.events + transition(before.state, outcomes.last()).events;
        assert forall|k: int| 1 <= k < after.len() - 2 implies (#[trigger] after[k]).is_message() by {
            assert(after[k] == before.events[k]);
        }
    } else {
        // The failure came earlier: the session was over then, and the last
        // outcome is refused.
        assert(shorter.take(i) =~= outcomes.take(i));
        lemma_bracketing_after_failure(config, shorter);
    }
}

/// Nothing follows the end: a finished loop accepts no outcome, so whatever
/// it is handed after that, it emits no further event.
pub proof fn lemma_nothing_after_the_end(
    config: ConfigView,
    outcomes: Seq<OutcomeView>,
    more: Seq<OutcomeView>,
)
    requires
        run(config, outcomes).state.phase is Finished,
    ensures
        run(config, outcomes + more) == run(config, outcomes),
    decreases more.len(),
{
    if more.len() == 0 {
        assert(outcomes + more =~= outcomes);
    } else {
        lemma_nothing_after_the_end(config, outcomes, more.drop_last());
        assert((outcomes + more).drop_last() =~= outcomes + more.drop_last());
    }
}

} // verus!
