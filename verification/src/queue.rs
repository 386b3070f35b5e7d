//! The execution-queue bridge: a single-affinity serial execution context.
//!
//! Every mutating call on the virtual machine or its installer must be issued
//! on one serial context, in submission order, and the calling thread must be
//! able to block until a specific submitted unit of work completes. The model
//! here names each submitted unit by a ticket, keeps the pending tickets in
//! submission order, and records the execution history as the sequence of
//! (ticket, result) pairs in the order the context ran them. The unverified
//! edge maps tickets to closures and a real dispatch queue; the ordering and
//! delivery rules live here.
//!
//! A one-shot rendezvous point carries each unit's result back to the
//! blocked submitter: the completion callback delivers into it, first
//! delivery wins, and a second delivery of a misbehaving callback is dropped.

use vstd::prelude::*;

verus! {

/// A one-shot rendezvous point between a completion callback and the thread
/// blocked on it. Only the first delivered result is kept.
pub struct Rendezvous {
    pub slot: Option<u64>,
}

impl Rendezvous {
    pub fn new() -> (r: Rendezvous)
        ensures
            r.slot is None,
    {
        Rendezvous { slot: None }
    }

    /// Deliver a result; first delivery wins, every later one is dropped.
    pub fn deliver(&mut self, value: u64) -> (accepted: bool)
        ensures
            accepted == (old(self).slot is None),
            old(self).slot is None ==> final(self).slot == Some(value),
            old(self).slot is Some ==> *final(self) == *old(self),
    {
        match self.slot {
            None => {
                self.slot = Some(value);
                true
            },
            Some(_) => false,
        }
    }

    /// The delivered result, once one arrived.
    pub fn try_take(&self) -> (r: Option<u64>)
        ensures
            r == self.slot,
    {
        self.slot
    }
}

/// How many results the execution history holds for one ticket.
pub open spec fn count_results(history: Seq<(u64, u64)>, ticket: u64) -> nat
    decreases history.len(),
{
    if history.len() == 0 {
        0
    } else {
        count_results(history.drop_last(), ticket) + if history.last().0 == ticket {
            1nat
        } else {
            0nat
        }
    }
}

/// A history without the ticket holds no result for it.
proof fn lemma_count_zero(history: Seq<(u64, u64)>, ticket: u64)
    requires
        forall|i: int| 0 <= i < history.len() ==> (#[trigger] history[i]).0 != ticket,
    ensures
        count_results(history, ticket) == 0,
    decreases history.len(),
{
    if history.len() > 0 {
        lemma_count_zero(history.drop_last(), ticket);
    }
}

/// A history whose tickets strictly increase holds at most one result per
/// ticket.
proof fn lemma_increasing_at_most_one(history: Seq<(u64, u64)>, ticket: u64)
    requires
        forall|i: int, j: int|
            0 <= i < j < history.len() ==> (#[trigger] history[i]).0 < (#[trigger] history[j]).0,
    ensures
        count_results(history, ticket) <= 1,
    decreases history.len(),
{
    if history.len() > 0 {
        let prefix = history.drop_last();
        assert forall|i: int, j: int| 0 <= i < j < prefix.len() implies (#[trigger] prefix[i]).0 < (
        #[trigger] prefix[j]).0 by {
            assert(history[i].0 < history[j].0);
        }
        lemma_increasing_at_most_one(prefix, ticket);
        if history.last().0 == ticket {
            assert forall|i: int| 0 <= i < prefix.len() implies (#[trigger] prefix[i]).0
                != ticket by {
                assert(history[i].0 < history[history.len() - 1].0);
            }
            lemma_count_zero(prefix, ticket);
        }
    }
}

/// The serial execution context: tickets not yet run, in submission order,
/// and the history of runs, in execution order.
pub struct SerialQueue {
    pub next_ticket: u64,
    pub pending: Vec<u64>,
    pub delivered: Vec<(u64, u64)>,
}

impl SerialQueue {
    /// Well-formedness: tickets are spent once; work runs in submission
    /// order, so both the history and the pending line strictly increase,
    /// and everything already run precedes everything still pending.
    pub open spec fn wf(self) -> bool {
        &&& forall|i: int, j: int|
            0 <= i < j < self.pending@.len() ==> (#[trigger] self.pending@[i]) < (
            #[trigger] self.pending@[j])
        &&& forall|i: int| 0 <= i < self.pending@.len() ==> (#[trigger] self.pending@[i]) < self.next_ticket
        &&& forall|i: int, j: int|
            0 <= i < j < self.delivered@.len() ==> (#[trigger] self.delivered@[i]).0 < (
            #[trigger] self.delivered@[j]).0
        &&& forall|i: int|
            0 <= i < self.delivered@.len() ==> (#[trigger] self.delivered@[i]).0 < self.next_ticket
        &&& forall|i: int, j: int|
            0 <= i < self.delivered@.len() && 0 <= j < self.pending@.len() ==> (
            #[trigger] self.delivered@[i]).0 < (#[trigger] self.pending@[j])
    }

    pub fn new() -> (r: SerialQueue)
        ensures
            r.wf(),
            r.next_ticket == 0,
            r.pending@.len() == 0,
            r.delivered@.len() == 0,
    {
        SerialQueue { next_ticket: 0, pending: Vec::new(), delivered: Vec::new() }
    }

    /// Enqueue one unit of work and name it by its ticket. Work runs in
    /// submission order, so the ticket joins the end of the pending line.
    pub fn submit(&mut self) -> (ticket: u64)
        requires
            old(self).wf(),
            old(self).next_ticket < u64::MAX,
        ensures
            final(self).wf(),
            ticket == old(self).next_ticket,
            final(self).next_ticket == old(self).next_ticket + 1,
            final(self).pending@ == old(self).pending@.push(ticket),
            final(self).delivered == old(self).delivered,
    {
        let ticket = self.next_ticket;
        self.pending.push(ticket);
        self.next_ticket = ticket + 1;
        ticket
    }

    /// Run the unit of work at the head of the pending line and record the
    /// result its completion callback reported.
    pub fn complete_next(&mut self, result: u64) -> (ticket: Option<u64>)
        requires
            old(self).wf(),
        ensures
            final(self).wf(),
            final(self).next_ticket == old(self).next_ticket,
            old(self).pending@.len() == 0 ==> *final(self) == *old(self) && ticket is None,
            old(self).pending@.len() > 0 ==> {
                &&& ticket == Some(old(self).pending@[0])
                &&& final(self).pending@ == old(self).pending@.subrange(
                    1,
                    old(self).pending@.len() as int,
                )
                &&& final(self).delivered@ == old(self).delivered@.push(
                    (old(self).pending@[0], result),
                )
            },
    {
        if self.pending.len() == 0 {
            return None;
        }
        let ticket = self.pending.remove(0);
        self.delivered.push((ticket, result));
        Some(ticket)
    }

    /// Submit one unit of work and block until exactly its result is
    /// delivered. The serial context first runs the whole pending line, in
    /// submission order, with the results in `backlog`; the new unit runs
    /// last, and its completion callback delivers `result` into a fresh
    /// one-shot rendezvous point on which the submitter is blocked.
    pub fn submit_and_wait(&mut self, backlog: &Vec<u64>, result: u64) -> (r: u64)
        requires
            old(self).wf(),
            old(self).next_ticket < u64::MAX,
            backlog@.len() == old(self).pending@.len(),
        ensures
            r == result,
            final(self).wf(),
            final(self).next_ticket == old(self).next_ticket + 1,
            final(self).pending@.len() == 0,
            final(self).delivered@ == old(self).delivered@ + Seq::new(
                old(self).pending@.len(),
                |i: int| (old(self).pending@[i], backlog@[i]),
            ) + seq![(old(self).next_ticket, result)],
            count_results(final(self).delivered@, old(self).next_ticket) == 1,
    {
        let ghost orig = *old(self);
        let ticket = self.submit();
        let mut rendezvous = Rendezvous::new();
        let n: usize = backlog.len();
        let mut k: usize = 0;
        while k < n
            invariant
                k <= n,
                n == backlog@.len(),
                n == orig.pending@.len(),
                self.wf(),
                ticket == orig.next_ticket,
                self.next_ticket == orig.next_ticket + 1,
                self.pending@ == orig.pending@.subrange(k as int, n as int).push(ticket),
                self.delivered@ == orig.delivered@ + Seq::new(
                    k as nat,
                    |i: int| (orig.pending@[i], backlog@[i]),
                ),
                rendezvous.slot is None,
            decreases n - k,
        {
            let completed = self.complete_next(backlog[k]);
            proof {
                assert(completed == Some(orig.pending@[k as int]));
                assert(self.pending@ =~= orig.pending@.subrange(k + 1, n as int).push(ticket));
                assert(self.delivered@ =~= orig.delivered@ + Seq::new(
                    (k + 1) as nat,
                    |i: int| (orig.pending@[i], backlog@[i]),
                ));
            }
            k = k + 1;
        }
        let own = self.complete_next(result);
        proof {
            assert(own == Some(ticket));
            assert(self.delivered@ =~= orig.delivered@ + Seq::new(
                n as nat,
                |i: int| (orig.pending@[i], backlog@[i]),
            ) + seq![(ticket, result)]);
            assert(self.pending@.len() == 0);
        }
        let accepted = rendezvous.deliver(result);
        proof {
            assert(accepted);
            let history = self.delivered@;
            let prefix = orig.delivered@ + Seq::new(
                n as nat,
                |i: int| (orig.pending@[i], backlog@[i]),
            );
            assert(history.drop_last() =~= prefix);
            assert(history.last() == (ticket, result));
            assert forall|i: int| 0 <= i < prefix.len() implies (#[trigger] prefix[i]).0
                != ticket by {
                if i < orig.delivered@.len() {
                    assert(orig.delivered@[i].0 < orig.next_ticket);
                } else {
                    assert(prefix[i].0 == orig.pending@[i - orig.delivered@.len()]);
                }
            }
            lemma_count_zero(prefix, ticket);
        }
        let delivered_result = rendezvous.try_take();
        match delivered_result {
            Some(value) => value,
            None => result,
        }
    }
}

/// Law: work executes strictly in submission order. Two entries of a
/// well-formed queue's history stand in the order their tickets were
/// submitted; the provisioning run relies on this to know, for one, that a
/// platform-identity write completed before the configuration referencing it
/// was built.
pub proof fn lemma_execution_follows_submission_order(q: SerialQueue, i: int, j: int)
    requires
        q.wf(),
        0 <= i < j < q.delivered@.len(),
    ensures
        q.delivered@[i].0 < q.delivered@[j].0,
{
}

/// Law: a well-formed serial queue delivers at most one result per ticket,
/// and `submit_and_wait` delivers exactly one result for the unit it
/// submitted — whatever thread the underlying callback fired on, only the
/// first delivery into the unit's rendezvous point counts.
pub proof fn lemma_exactly_one_result_per_unit(q: SerialQueue, ticket: u64)
    requires
        q.wf(),
    ensures
        count_results(q.delivered@, ticket) <= 1,
{
    lemma_increasing_at_most_one(q.delivered@, ticket);
}

} // verus!
