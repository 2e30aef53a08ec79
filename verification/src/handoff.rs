//! The session handoff coordinator.
//!
//! There is one listening slot. Every request to reconfigure installs a new
//! session in it, which supersedes the session installed before: that one
//! is cancelled. A session may start only when every session installed
//! before it has given the slot up, which a session does at its very end,
//! after its socket is closed. So no two sessions ever listen at once, and a
//! caller who reconfigures quickly waits for the teardown of the session
//! before.
//!
//! Sessions are numbered in the order in which they are installed. Two
//! counts say everything: how many sessions were installed, and how many of
//! them have given the slot up. Sessions give it up in the order of their
//! numbers, so the session whose number is the second count holds the slot,
//! those above it wait, and all but the newest are cancelled.
//!
//! A session learns of both through one-shot signals, which the coordinator
//! makes and fires and a runtime waits on: one that is fired when the
//! session is superseded, and one that is fired when the session before it
//! has given the slot up.

use vstd::prelude::*;
use tokio::sync::oneshot::{Receiver, Sender};
use crate::signal::{fire, one_shot};

verus! {

/// The number of a session.
#[derive(Clone, Copy, Debug, PartialEq, Eq, Hash, Structural)]
pub struct SessionId {
    pub number: u64,
}

/// The state of the slot as a mathematical value.
pub struct SlotView {
    /// How many sessions were installed so far.
    pub issued: nat,
    /// How many of them have given the slot up.
    pub released: nat,
}

impl SlotView {
    /// No session gives up what it never had.
    pub open spec fn wf(self) -> bool {
        self.released <= self.issued
    }

    /// The newest session: the one that the last request installed.
    pub open spec fn installed(self) -> Option<nat> {
        if self.issued > 0 {
            Some((self.issued - 1) as nat)
        } else {
            None
        }
    }

    /// The session that holds the slot: the oldest that has not given it up.
    pub open spec fn holder(self) -> Option<nat> {
        if self.released < self.issued {
            Some(self.released)
        } else {
            None
        }
    }

    /// Whether `session` holds the slot, so that it may bind and listen.
    pub open spec fn may_start(self, session: nat) -> bool {
        self.holder() == Some(session)
    }

    /// Whether `session` was superseded: a newer session was installed.
    pub open spec fn is_cancelled(self, session: nat) -> bool {
        session + 1 < self.issued
    }

    /// Whether `session` has given the slot up.
    pub open spec fn has_exited(self, session: nat) -> bool {
        session < self.released
    }

    /// The slot after one more session was installed.
    pub open spec fn reconfigure(self) -> SlotView {
        SlotView { issued: self.issued + 1, released: self.released }
    }

    /// The slot after `session` has tried to give it up: only the holder can.
    pub open spec fn release(self, session: nat) -> SlotView {
        if self.holder() == Some(session) {
            SlotView { issued: self.issued, released: self.released + 1 }
        } else {
            self
        }
    }
}

/// What a request to reconfigure hands back.
#[derive(Debug)]
pub struct SessionHandle {
    /// The session that was installed. Under this number it asks whether it
    /// may start and whether it is cancelled, and gives the slot up.
    pub session: SessionId,
    /// The session that was installed before, which is cancelled from now
    /// on; none at the first request.
    pub superseded: Option<SessionId>,
    /// Fired when this session is superseded. A runtime that waits on it
    /// is woken then, and also if the coordinator is dropped.
    pub cancelled: Receiver<()>,
    /// Fired when the session installed before has given the slot up; none
    /// at the first request. The session waits on it before it starts.
    pub predecessor: Option<Receiver<()>>,
}

/// The coordinator of the one listening slot.
pub struct Coordinator {
    /// How many sessions have given the slot up.
    released: u64,
    /// For each session that has not given the slot up, oldest first, the
    /// signal to fire when it does.
    pending: Vec<Sender<()>>,
    /// The signal that cancels the newest session.
    cancel: Option<Sender<()>>,
    /// The signal that is fired when the newest session gives the slot up.
    latch: Option<Receiver<()>>,
}

impl View for Coordinator {
    type V = SlotView;

    closed spec fn view(&self) -> SlotView {
        SlotView {
            issued: self.released as nat + self.pending@.len(),
            released: self.released as nat,
        }
    }
}

impl Coordinator {
    /// The coordinator is in order: it has one signal to fire for each
    /// session that has not given the slot up, and the signals of the newest
    /// session exactly if a session was ever installed. Every coordinator
    /// that this module hands out is in order and stays so.
    pub closed spec fn wf(&self) -> bool {
        &&& self.released + self.pending@.len() <= u64::MAX
        &&& self.cancel is Some <==> self.released + self.pending@.len() > 0
        &&& self.latch is Some <==> self.released + self.pending@.len() > 0
    }

    /// The counts of a coordinator that is in order are in order.
    pub proof fn lemma_counts_in_order(&self)
        requires
            self.wf(),
        ensures
            self@.wf(),
            self@.issued <= u64::MAX,
    {
    }

    /// A coordinator with an empty slot.
    pub fn new() -> (c: Coordinator)
        ensures
            c.wf(),
            c@ == (SlotView { issued: 0, released: 0 }),
    {
        Coordinator { released: 0, pending: Vec::new(), cancel: None, latch: None }
    }

    /// How many sessions were installed so far.
    pub fn issued(&self) -> (n: u64)
        requires
            self.wf(),
        ensures
            n == self@.issued,
    {
        self.released + self.pending.len() as u64
    }

    /// How many sessions have given the slot up.
    pub fn released(&self) -> (n: u64)
        ensures
            n == self@.released,
    {
        self.released
    }

    /// Installs a new session. The session installed before is superseded,
    /// whether it still runs, still waits or is long over: its cancellation
    /// is fired, and nothing else changes. The new session may start at once
    /// if no session holds the slot, else when all sessions before it have
    /// given the slot up.
    ///
    /// Sessions are counted in a `u64`, which bounds how many there can be.
    pub fn reconfigure(&mut self) -> (handle: SessionHandle)
        requires
            old(self).wf(),
            old(self)@.issued < u64::MAX,
        ensures
            final(self).wf(),
            final(self)@ == old(self)@.reconfigure(),
            handle.session.number == old(self)@.issued,
            final(self)@.installed() == Some(handle.session.number as nat),
            match handle.superseded {
                Some(before) => old(self)@.installed() == Some(before.number as nat),
                None => old(self)@.installed() is None,
            },
            handle.predecessor is Some <==> handle.superseded is Some,
    {
        let number = self.issued();
        let superseded = if number > 0 {
            Some(SessionId { number: number - 1 })
        } else {
            None
        };
        let (cancel, cancelled) = one_shot();
        let (left, latch) = one_shot();
        let mut cancel_before = Some(cancel);
        let mut predecessor = Some(latch);
        core::mem::swap(&mut self.cancel, &mut cancel_before);
        core::mem::swap(&mut self.latch, &mut predecessor);
        self.pending.push(left);
        if let Some(signal) = cancel_before {
            fire(signal);
        }
        SessionHandle { session: SessionId { number }, superseded, cancelled, predecessor }
    }

    /// The newest session, if any was installed.
    pub fn installed(&self) -> (s: Option<SessionId>)
        requires
            self.wf(),
        ensures
            match s {
                Some(id) => self@.installed() == Some(id.number as nat),
                None => self@.installed() is None,
            },
    {
        let issued = self.issued();
        if issued > 0 {
            Some(SessionId { number: issued - 1 })
        } else {
            None
        }
    }

    /// The session that holds the slot, if any does.
    pub fn holder(&self) -> (s: Option<SessionId>)
        ensures
            match s {
                Some(id) => self@.holder() == Some(id.number as nat),
                None => self@.holder() is None,
            },
    {
        if self.pending.len() > 0 {
            Some(SessionId { number: self.released })
        } else {
            None
        }
    }

    /// Whether `session` holds the slot, so that it may bind and listen.
    pub fn may_start(&self, session: SessionId) -> (b: bool)
        ensures
            b == self@.may_start(session.number as nat),
    {
        self.pending.len() > 0 && session.number == self.released
    }

    /// Whether `session` was superseded.
    pub fn is_cancelled(&self, session: SessionId) -> (b: bool)
        requires
            self.wf(),
        ensures
            b == self@.is_cancelled(session.number as nat),
    {
        let issued = self.issued();
        session.number < issued && session.number + 1 < issued
    }

    /// Whether `session` has given the slot up.
    pub fn has_exited(&self, session: SessionId) -> (b: bool)
        ensures
            b == self@.has_exited(session.number as nat),
    {
        session.number < self.released
    }

    /// Gives the slot up for `session` and fires the signal that the next
    /// session waits on. Only the holder can: for any other session nothing
    /// changes and the answer is `false`.
    pub fn release(&mut self, session: SessionId) -> (done: bool)
        requires
            old(self).wf(),
        ensures
            done == (old(self)@.holder() == Some(session.number as nat)),
            final(self).wf(),
            final(self)@ == old(self)@.release(session.number as nat),
    {
        if self.pending.len() > 0 && session.number == self.released {
            let left = self.pending.remove(0);
            self.released = self.released + 1;
            fire(left);
            true
        } else {
            false
        }
    }
}

/// Once cancelled, always cancelled: neither a further request nor a session
/// giving the slot up takes a cancellation back.
pub proof fn lemma_cancellation_lasts(slot: SlotView, session: nat, other: nat)
    requires
        slot.is_cancelled(session),
    ensures
        slot.reconfigure().is_cancelled(session),
        slot.release(other).is_cancelled(session),
{
}

/// The newest session is the only one that is not cancelled.
pub proof fn lemma_only_the_newest_is_live(slot: SlotView, session: nat)
    requires
        session < slot.issued,
    ensures
        slot.is_cancelled(session) <==> slot.installed() != Some(session),
{
}

/// At most one session holds the slot.
pub proof fn lemma_one_holder(slot: SlotView, a: nat, b: nat)
    requires
        slot.may_start(a),
        slot.may_start(b),
    ensures
        a == b,
{
}

/// A session that is installed while another holds the slot has to wait, and
/// it gets the slot exactly when the sessions before it have given it up.
pub proof fn lemma_start_when_predecessors_left(slot: SlotView, session: nat)
    requires
        slot.wf(),
        session < slot.issued,
    ensures
        slot.may_start(session) <==> (slot.released == session),
        slot.may_start(session) ==> forall|earlier: nat|
            earlier < session ==> #[trigger] slot.has_exited(earlier),
{
}

} // verus!
