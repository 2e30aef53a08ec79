//! The coordinator and the sessions, taken together.
//!
//! A world holds the slot, the loop of every session that has started and
//! not yet given the slot up, and all events emitted so far, each with the
//! session that emitted it. It changes by moves: a request to reconfigure, a
//! session that starts, an outcome that the runtime reports to a session,
//! and a session that gives the slot up. The moves are those that a runtime
//! makes which starts a session only when the coordinator lets it, reports
//! a cancellation only to a superseded session, whose signal alone was
//! fired, and gives the slot up only for a session that is over.
//!
//! What is proved here holds after any moves in any order: sessions listen
//! one at a time, and a session's `Closed` precedes the `Opened` of the next.

use vstd::prelude::*;
use crate::event::EventView;
use crate::handoff::SlotView;
use crate::ingest::{accepts, initial, transition, ConfigView, LoopView, OutcomeView, Phase};

verus! {

/// The slot, the running loops, and what was emitted so far.
pub struct World {
    pub slot: SlotView,
    /// The configuration that each session was installed with.
    pub configs: Map<nat, ConfigView>,
    /// The loop of each session that has started and has not given the slot
    /// up.
    pub loops: Map<nat, LoopView>,
    /// Every event emitted so far, oldest first, with its session.
    pub trace: Seq<(nat, EventView)>,
}

/// One thing that happens.
pub enum Move {
    /// A request to reconfigure arrives.
    Reconfigure { config: ConfigView },
    /// A session that may start begins its loop.
    Start { session: nat },
    /// The runtime reports an outcome to a session's loop.
    Deliver { session: nat, outcome: OutcomeView },
    /// A session that is over gives the slot up.
    Release { session: nat },
}

/// The world before anything has happened.
pub open spec fn genesis() -> World {
    World {
        slot: SlotView { issued: 0, released: 0 },
        configs: Map::empty(),
        loops: Map::empty(),
        trace: Seq::empty(),
    }
}

/// `events`, each marked as emitted by `session`.
pub open spec fn tagged(session: nat, events: Seq<EventView>) -> Seq<(nat, EventView)> {
    events.map_values(|e: EventView| (session, e))
}

/// Whether `m` can happen in `w`.
pub open spec fn enabled(w: World, m: Move) -> bool {
    match m {
        Move::Reconfigure { config } => true,
        Move::Start { session } => w.slot.may_start(session) && !w.loops.dom().contains(session),
        Move::Deliver { session, outcome } => {
            &&& w.loops.dom().contains(session)
            &&& accepts(w.loops[session].phase, outcome)
            &&& outcome is Cancelled ==> w.slot.is_cancelled(session)
        },
        Move::Release { session } => {
            &&& w.loops.dom().contains(session)
            &&& w.loops[session].phase is Finished
        },
    }
}

/// The world after `m` has happened.
pub open spec fn apply(w: World, m: Move) -> World {
    match m {
        Move::Reconfigure { config } => World {
            slot: w.slot.reconfigure(),
            configs: w.configs.insert(w.slot.issued, config),
            ..w
        },
        Move::Start { session } => World {
            loops: w.loops.insert(session, initial(w.configs[session])),
            ..w
        },
        Move::Deliver { session, outcome } => {
            let t = transition(w.loops[session], outcome);
            World {
                loops: w.loops.insert(
                    session,
                    LoopView { config: w.loops[session].config, phase: t.phase },
                ),
                trace: w.trace + tagged(session, t.events),
                ..w
            }
        },
        Move::Release { session } => World {
            slot: w.slot.release(session),
            loops: w.loops.remove(session),
            ..w
        },
    }
}

/// The world after `moves`, taken in order from the beginning. A move that
/// cannot happen when its turn comes is passed over.
pub open spec fn play(moves: Seq<Move>) -> World
    decreases moves.len(),
{
    if moves.len() == 0 {
        genesis()
    } else {
        let w = play(moves.drop_last());
        if enabled(w, moves.last()) {
            apply(w, moves.last())
        } else {
            w
        }
    }
}

/// Whether `session` may hold a socket: its loop has started, has got past
/// binding, and has not given the slot up.
pub open spec fn may_be_bound(w: World, session: nat) -> bool {
    w.loops.dom().contains(session) && !(w.loops[session].phase is Binding)
}

/// After the event at position `i`, the same session has emitted `Closed`.
pub open spec fn closed_after(trace: Seq<(nat, EventView)>, i: int) -> bool {
    exists|k: int| i < k < trace.len() && (#[trigger] trace[k]) == (trace[i].0, EventView::Closed)
}

/// Events stand in the order of their sessions.
pub open spec fn in_session_order(trace: Seq<(nat, EventView)>) -> bool {
    forall|i: int, j: int|
        #![trigger trace[i], trace[j]]
        0 <= i < j < trace.len() ==> trace[i].0 <= trace[j].0
}

/// `Opened` is the first event of its session.
pub open spec fn opened_comes_first(trace: Seq<(nat, EventView)>) -> bool {
    forall|i: int, j: int|
        #![trigger trace[i], trace[j]]
        0 <= i < j < trace.len() && trace[i].0 == trace[j].0 ==> !(trace[j].1 is Opened)
}

/// No event of `session` or of a later session was emitted.
pub open spec fn silent_from(trace: Seq<(nat, EventView)>, session: nat) -> bool {
    forall|i: int| 0 <= i < trace.len() ==> (#[trigger] trace[i]).0 < session
}

/// Every session that emitted `Opened` and counts below `bound` emitted
/// `Closed` later.
pub open spec fn closed_below(trace: Seq<(nat, EventView)>, bound: nat) -> bool {
    forall|i: int|
        0 <= i < trace.len() && (#[trigger] trace[i]).0 < bound && trace[i].1 is Opened
            ==> closed_after(trace, i)
}

/// What the events of the session that holds the slot look like, by the
/// phase of its loop.
pub open spec fn holder_trace(trace: Seq<(nat, EventView)>, session: nat, phase: Phase) -> bool {
    match phase {
        Phase::Binding | Phase::Connecting => silent_from(trace, session),
        Phase::Receiving | Phase::Forwarding | Phase::Draining => forall|i: int|
            0 <= i < trace.len() && (#[trigger] trace[i]).0 == session ==> !(trace[i].1
                is Closed),
        Phase::Finished => closed_below(trace, session + 1),
    }
}

/// What holds of every world that moves lead to.
pub open spec fn inv(w: World) -> bool {
    &&& w.slot.wf()
    &&& forall|s: nat| #[trigger] w.loops.dom().contains(s) ==> w.slot.may_start(s)
    &&& forall|s: nat|
        #[trigger] w.loops.dom().contains(s) && w.loops[s].phase is Draining
            ==> w.slot.is_cancelled(s)
    &&& silent_from(w.trace, w.slot.released + 1)
    &&& !w.loops.dom().contains(w.slot.released) ==> silent_from(w.trace, w.slot.released)
    &&& in_session_order(w.trace)
    &&& opened_comes_first(w.trace)
    &&& closed_below(w.trace, w.slot.released)
    &&& w.loops.dom().contains(w.slot.released) ==> holder_trace(
        w.trace,
        w.slot.released,
        w.loops[w.slot.released].phase,
    )
}

/// A `Closed` that was emitted stays emitted.
proof fn lemma_closed_after_extends(
    trace: Seq<(nat, EventView)>,
    more: Seq<(nat, EventView)>,
    i: int,
)
    requires
        0 <= i < trace.len(),
        closed_after(trace, i),
    ensures
        closed_after(trace + more, i),
{
    let k = choose|k: int|
        i < k < trace.len() && (#[trigger] trace[k]) == (trace[i].0, EventView::Closed);
    let longer = trace + more;
    assert(longer[k] == trace[k]);
}

/// A report to a session's loop keeps what holds of every world.
proof fn lemma_deliver_keeps_inv(w: World, session: nat, outcome: OutcomeView)
    requires
        inv(w),
        enabled(w, Move::Deliver { session, outcome }),
    ensures
        inv(apply(w, Move::Deliver { session, outcome })),
{
    let after = apply(w, Move::Deliver { session, outcome });
    let t = transition(w.loops[session], outcome);
    let more = tagged(session, t.events);
    let old_len = w.trace.len() as int;
    // What was emitted before stands where it stood; what follows it is the
    // step's, marked with the session that holds the slot.
    assert forall|i: int| 0 <= i < old_len implies after.trace[i] == w.trace[i] by {}
    assert forall|i: int| old_len <= i < after.trace.len() implies after.trace[i] == (
        session,
        t.events[i - old_len],
    ) by {}
    assert(closed_below(after.trace, after.slot.released)) by {
        assert forall|i: int|
            0 <= i < after.trace.len() && (#[trigger] after.trace[i]).0 < after.slot.released
                && after.trace[i].1 is Opened implies closed_after(after.trace, i) by {
            lemma_closed_after_extends(w.trace, more, i);
        }
    }
    if t.phase is Finished {
        // The step ends the session. It emits `Closed` as the last event
        // unless the session never listened, and then it has no `Opened`.
        assert forall|i: int|
            0 <= i < after.trace.len() && (#[trigger] after.trace[i]).0 < session + 1
                && after.trace[i].1 is Opened implies closed_after(after.trace, i) by {
            if i < old_len && w.trace[i].0 < session {
                lemma_closed_after_extends(w.trace, more, i);
            } else if i < old_len {
                let last = after.trace.len() - 1;
                assert(after.trace[last] == (session, t.events[last - old_len]));
            }
        }
    }
}

/// One move keeps what holds of every world.
pub proof fn lemma_move_keeps_inv(w: World, m: Move)
    requires
        inv(w),
        enabled(w, m),
    ensures
        inv(apply(w, m)),
{
    match m {
        Move::Deliver { session, outcome } => {
            lemma_deliver_keeps_inv(w, session, outcome);
        },
        _ => {},
    }
}

/// What holds of every world holds after any moves.
pub proof fn lemma_play_keeps_inv(moves: Seq<Move>)
    ensures
        inv(play(moves)),
    decreases moves.len(),
{
    if moves.len() > 0 {
        lemma_play_keeps_inv(moves.drop_last());
        let w = play(moves.drop_last());
        if enabled(w, moves.last()) {
            lemma_move_keeps_inv(w, moves.last());
        }
    }
}

/// Mutual exclusion. After any moves, at most one session may hold a
/// socket, and that session holds the slot.
pub proof fn lemma_mutual_exclusion(moves: Seq<Move>, a: nat, b: nat)
    requires
        may_be_bound(play(moves), a),
        may_be_bound(play(moves), b),
    ensures
        a == b,
        play(moves).slot.holder() == Some(a),
{
    lemma_play_keeps_inv(moves);
}

/// Only a superseded session drains. After any moves, a session whose loop
/// drains has been superseded; the newest session never drains.
pub proof fn lemma_drains_only_when_superseded(moves: Seq<Move>, session: nat)
    requires
        play(moves).loops.dom().contains(session),
        play(moves).loops[session].phase is Draining,
    ensures
        play(moves).slot.is_cancelled(session),
        play(moves).slot.installed() != Some(session),
{
    lemma_play_keeps_inv(moves);
}

/// Handoff ordering. After any moves, take two `Opened` in what was emitted.
/// They come from two sessions, the earlier from the older one, and between
/// the two stands the `Closed` of the older session.
pub proof fn lemma_handoff_ordering(moves: Seq<Move>, i: int, j: int)
    requires
        0 <= i < j < play(moves).trace.len(),
        play(moves).trace[i].1 is Opened,
        play(moves).trace[j].1 is Opened,
    ensures
        play(moves).trace[i].0 < play(moves).trace[j].0,
        exists|k: int|
            i < k < j && (#[trigger] play(moves).trace[k]) == (
                play(moves).trace[i].0,
                EventView::Closed,
            ),
{
    lemma_play_keeps_inv(moves);
    let w = play(moves);
    // Events stand in the order of their sessions and `Opened` is the first
    // event of its session, so the second `Opened` is of a younger session.
    assert(w.trace[i].0 < w.trace[j].0);
    // The younger session has started, so the older one has given the slot
    // up, and between its `Opened` and that it has emitted `Closed`.
    assert(closed_after(w.trace, i));
    let k = choose|k: int|
        i < k < w.trace.len() && (#[trigger] w.trace[k]) == (w.trace[i].0, EventView::Closed);
    // That `Closed` stands before every event of the younger session.
    assert(k < j) by {
        if k > j {
            assert(w.trace[j].0 <= w.trace[k].0);
        }
    }
}

/// Cancelling what is over is harmless. After any moves, let the newest
/// session have given the slot up and let a request to reconfigure arrive.
/// The request supersedes that session and nothing comes of it: no event is
/// emitted and no loop changes. The session that the request installs is not
/// cancelled and may start at once.
pub proof fn lemma_cancel_after_exit(moves: Seq<Move>, config: ConfigView)
    requires
        play(moves).slot.installed() matches Some(newest) && play(moves).slot.has_exited(newest),
    ensures
        ({
            let before = play(moves);
            let after = apply(before, Move::Reconfigure { config });
            let session = before.slot.issued;
            &&& enabled(before, Move::Reconfigure { config })
            &&& after.trace == before.trace
            &&& after.loops == before.loops
            &&& after.slot.installed() == Some(session)
            &&& !after.slot.is_cancelled(session)
            &&& after.slot.may_start(session)
            &&& enabled(after, Move::Start { session })
        }),
{
    lemma_play_keeps_inv(moves);
}

/// A request to reconfigure never disturbs what runs: whatever the state of
/// the session that it supersedes, no event is emitted and no loop changes.
pub proof fn lemma_reconfigure_is_silent(w: World, config: ConfigView)
    ensures
        apply(w, Move::Reconfigure { config }).trace == w.trace,
        apply(w, Move::Reconfigure { config }).loops == w.loops,
        forall|s: nat|
            w.slot.is_cancelled(s) ==> #[trigger] apply(
                w,
                Move::Reconfigure { config },
            ).slot.is_cancelled(s),
{
}

} // verus!
