//! The event drain loop's control state.
//!
//! The front end runs a background thread that repeatedly polls the node for
//! a pending event, prints it, and acknowledges it so the node will not
//! redeliver it. The decisions of that loop live here: [`EventDrain`] tells
//! the thread what to do after each poll, and its contracts force the
//! exactly-once discipline — an event is acknowledged just after it was
//! fetched, and no second event is fetched before the first is
//! acknowledged. The trace lemmas at the end state that discipline for
//! every history the machine can produce.

use vstd::prelude::*;

verus! {

/// One observable step of the drain loop.
pub enum DrainStep {
    /// A poll that returned a pending event.
    PollSome,
    /// A poll that found no event pending.
    PollNone,
    /// An acknowledgement of the event fetched last.
    Ack,
}

/// What the loop is told to do after a poll.
#[derive(Clone, Copy, PartialEq, Eq, Structural, Debug)]
pub enum DrainAction {
    /// Print the fetched event, then acknowledge it at once.
    RenderAndAck,
    /// Nothing is pending: sleep for the poll interval, then poll again.
    Sleep,
}

/// Whether a step may happen while an unacknowledged event is held.
pub open spec fn step_allowed(pending: bool, s: DrainStep) -> bool {
    match s {
        DrainStep::PollSome => !pending,
        DrainStep::PollNone => !pending,
        DrainStep::Ack => pending,
    }
}

/// Whether an unacknowledged event is held after a step.
pub open spec fn pending_after_step(s: DrainStep) -> bool {
    match s {
        DrainStep::PollSome => true,
        DrainStep::PollNone => false,
        DrainStep::Ack => false,
    }
}

/// Whether an unacknowledged event is held after a whole history.
pub open spec fn pending_after(tr: Seq<DrainStep>) -> bool
    decreases tr.len(),
{
    if tr.len() == 0 {
        false
    } else {
        pending_after_step(tr.last())
    }
}

/// A history in which every step was allowed when it happened.
pub open spec fn wf_trace(tr: Seq<DrainStep>) -> bool
    decreases tr.len(),
{
    if tr.len() == 0 {
        true
    } else {
        wf_trace(tr.drop_last()) && step_allowed(pending_after(tr.drop_last()), tr.last())
    }
}

/// Every prefix of a well-formed history is well-formed.
pub proof fn lemma_wf_prefix(tr: Seq<DrainStep>, k: int)
    requires
        wf_trace(tr),
        0 <= k <= tr.len(),
    ensures
        wf_trace(tr.subrange(0, k)),
    decreases tr.len(),
{
    if k == tr.len() {
        assert(tr.subrange(0, k) =~= tr);
    } else {
        assert(tr.subrange(0, k) =~= tr.drop_last().subrange(0, k));
        lemma_wf_prefix(tr.drop_last(), k);
    }
}

/// Each step of a well-formed history was allowed in the state the prior
/// steps left behind.
pub proof fn lemma_step_allowed_at(tr: Seq<DrainStep>, i: int)
    requires
        wf_trace(tr),
        0 <= i < tr.len(),
    ensures
        step_allowed(pending_after(tr.subrange(0, i)), tr[i]),
{
    lemma_wf_prefix(tr, i + 1);
    let pre = tr.subrange(0, i + 1);
    assert(pre.drop_last() =~= tr.subrange(0, i));
    assert(pre.last() == tr[i]);
}

/// The loop never acknowledges an event it has not just fetched: every
/// acknowledgement is immediately preceded by a poll that returned an
/// event.
pub proof fn lemma_ack_only_after_fetch(tr: Seq<DrainStep>, i: int)
    requires
        wf_trace(tr),
        0 <= i < tr.len(),
        tr[i] is Ack,
    ensures
        i > 0,
        tr[i - 1] is PollSome,
{
    lemma_step_allowed_at(tr, i);
    let before = tr.subrange(0, i);
    assert(pending_after(before));
    assert(before.len() == i);
    if i > 0 {
        assert(before.last() == tr[i - 1]);
    }
}

/// The loop never fetches a second event before acknowledging the first:
/// whatever follows a successful poll is its acknowledgement.
pub proof fn lemma_fetch_then_ack(tr: Seq<DrainStep>, i: int)
    requires
        wf_trace(tr),
        0 <= i,
        i + 1 < tr.len(),
        tr[i] is PollSome,
    ensures
        tr[i + 1] is Ack,
{
    lemma_step_allowed_at(tr, i + 1);
    let before = tr.subrange(0, i + 1);
    assert(before.last() == tr[i]);
    assert(pending_after(before));
}

/// The drain loop's whole control state: whether an event was fetched and
/// not yet acknowledged, with the history of steps taken so far.
pub struct EventDrain {
    awaiting_ack: bool,
    hist: Ghost<Seq<DrainStep>>,
}

impl EventDrain {
    /// The steps taken so far.
    pub closed spec fn history(self) -> Seq<DrainStep> {
        self.hist@
    }

    /// Whether a fetched event awaits its acknowledgement.
    pub closed spec fn awaiting(self) -> bool {
        self.awaiting_ack
    }

    /// The state is exactly what its history says.
    pub closed spec fn wf(self) -> bool {
        wf_trace(self.hist@) && pending_after(self.hist@) == self.awaiting_ack
    }

    /// A drain loop that has not polled yet.
    pub fn new() -> (r: Self)
        ensures
            r.wf(),
            r.history() == Seq::<DrainStep>::empty(),
            !r.awaiting(),
    {
        EventDrain { awaiting_ack: false, hist: Ghost(Seq::empty()) }
    }

    /// Record one poll of the node. Polling is allowed only with no
    /// acknowledgement outstanding; a poll that found an event obliges the
    /// caller to acknowledge before anything else.
    pub fn on_poll(&mut self, event_present: bool) -> (a: DrainAction)
        requires
            old(self).wf(),
            !old(self).awaiting(),
        ensures
            final(self).wf(),
            final(self).awaiting() == event_present,
            final(self).history() == old(self).history().push(
                if event_present {
                    DrainStep::PollSome
                } else {
                    DrainStep::PollNone
                },
            ),
            a == (if event_present {
                DrainAction::RenderAndAck
            } else {
                DrainAction::Sleep
            }),
    {
        let ghost step = if event_present {
            DrainStep::PollSome
        } else {
            DrainStep::PollNone
        };
        proof {
            assert(self.hist@.push(step).drop_last() =~= self.hist@);
        }
        self.hist = Ghost(self.hist@.push(step));
        self.awaiting_ack = event_present;
        if event_present {
            DrainAction::RenderAndAck
        } else {
            DrainAction::Sleep
        }
    }

    /// Record the acknowledgement of the event fetched by the last poll.
    pub fn on_ack(&mut self)
        requires
            old(self).wf(),
            old(self).awaiting(),
        ensures
            final(self).wf(),
            !final(self).awaiting(),
            final(self).history() == old(self).history().push(DrainStep::Ack),
    {
        proof {
            assert(self.hist@.push(DrainStep::Ack).drop_last() =~= self.hist@);
        }
        self.hist = Ghost(self.hist@.push(DrainStep::Ack));
        self.awaiting_ack = false;
    }

    /// Whether the loop may poll now, for a caller that has lost track.
    pub fn may_poll(&self) -> (r: bool)
        ensures
            r == !self.awaiting(),
    {
        !self.awaiting_ack
    }
}

} // verus!
