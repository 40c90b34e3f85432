use vstd::prelude::*;
use std::collections::VecDeque;

use crate::message::{step_of, Message, WorkerStep};

verus! {

/// The pool's single dispatch queue: many producers push messages, competing
/// workers pop them one at a time. Besides the pending messages it keeps, as
/// ghost state, every message ever pushed and every message handed out, in
/// order, so that delivery can be stated exactly.
pub struct DispatchQueue<J> {
    pending: VecDeque<Message<J>>,
    sent: Ghost<Seq<Message<J>>>,
    delivered: Ghost<Seq<Message<J>>>,
}

impl<J> View for DispatchQueue<J> {
    type V = Seq<Message<J>>;

    /// The messages waiting for a worker, oldest first.
    closed spec fn view(&self) -> Seq<Message<J>> {
        self.pending@
    }
}

impl<J> DispatchQueue<J> {
    /// Every message pushed so far, in the order of the pushes.
    pub closed spec fn sent(&self) -> Seq<Message<J>> {
        self.sent@
    }

    /// Every message popped so far, in the order of the pops.
    pub closed spec fn delivered(&self) -> Seq<Message<J>> {
        self.delivered@
    }

    /// The messages sent are those delivered followed by those pending: none
    /// is lost, none is handed out twice, and they leave in the order they came.
    pub open spec fn wf(&self) -> bool {
        self.sent() == self.delivered() + self@
    }

    /// An empty queue that has seen no message.
    pub fn new() -> (r: Self)
        ensures
            r.wf(),
            r@ == Seq::<Message<J>>::empty(),
            r.sent() == Seq::<Message<J>>::empty(),
            r.delivered() == Seq::<Message<J>>::empty(),
    {
        let r = DispatchQueue {
            pending: VecDeque::new(),
            sent: Ghost(Seq::empty()),
            delivered: Ghost(Seq::empty()),
        };
        proof {
            assert(r.delivered() + r@ =~= r.sent());
        }
        r
    }

    /// Puts a message at the back of the queue.
    pub fn push(&mut self, m: Message<J>)
        requires
            old(self).wf(),
        ensures
            final(self).wf(),
            final(self)@ == old(self)@.push(m),
            final(self).sent() == old(self).sent().push(m),
            final(self).delivered() == old(self).delivered(),
    {
        self.sent = Ghost(self.sent@.push(m));
        self.pending.push_back(m);
        proof {
            assert(self.delivered() + self@ =~= self.sent());
        }
    }

    /// Hands the oldest pending message to the caller, if there is one.
    pub fn pop(&mut self) -> (r: Option<Message<J>>)
        requires
            old(self).wf(),
        ensures
            final(self).wf(),
            final(self).sent() == old(self).sent(),
            old(self)@.len() == 0 ==> r is None && final(self)@ == old(self)@ && final(self).delivered()
                == old(self).delivered(),
            old(self)@.len() > 0 ==> r == Some(old(self)@[0]) && final(self)@ == old(self)@.drop_first()
                && final(self).delivered() == old(self).delivered().push(old(self)@[0]),
    {
        let r = self.pending.pop_front();
        proof {
            if r is Some {
                self.delivered = Ghost(self.delivered@.push(r->Some_0));
                assert(self.delivered() + self@ =~= self.sent());
            }
        }
        r
    }

    /// The number of pending messages.
    pub fn len(&self) -> (r: usize)
        ensures
            r == self@.len(),
    {
        self.pending.len()
    }

    /// Whether no message is pending.
    pub fn is_empty(&self) -> (r: bool)
        ensures
            r == (self@.len() == 0),
    {
        self.pending.len() == 0
    }
}

/// A worker's turn at the queue: it takes the oldest pending message and
/// decides on it, or finds nothing and must wait for a push.
pub fn take_step<J>(q: &mut DispatchQueue<J>) -> (r: Option<WorkerStep<J>>)
    requires
        old(q).wf(),
    ensures
        final(q).wf(),
        final(q).sent() == old(q).sent(),
        old(q)@.len() == 0 ==> r is None && final(q)@ == old(q)@ && final(q).delivered() == old(q).delivered(),
        old(q)@.len() > 0 ==> r == Some(step_of(old(q)@[0])) && final(q)@ == old(q)@.drop_first()
            && final(q).delivered() == old(q).delivered().push(old(q)@[0]),
{
    match q.pop() {
        Some(m) => Some(m.into_step()),
        None => None,
    }
}

/// No message is lost or duplicated: counted with multiplicity, the messages
/// sent are exactly those delivered together with those still pending.
pub proof fn lemma_no_loss_no_duplicate<J>(q: &DispatchQueue<J>)
    requires
        q.wf(),
    ensures
        q.sent().to_multiset() == q.delivered().to_multiset().add(q@.to_multiset()),
        q.sent().len() == q.delivered().len() + q@.len(),
{
    vstd::seq_lib::lemma_multiset_commutative(q.delivered(), q@);
}

/// Once the queue is drained, every message sent has been delivered, once
/// each and in the order sent.
pub proof fn lemma_drained_delivers_all<J>(q: &DispatchQueue<J>)
    requires
        q.wf(),
        q@.len() == 0,
    ensures
        q.delivered() == q.sent(),
{
    assert(q.delivered() + q@ =~= q.delivered());
}

/// The message that the `i`-th pop hands out is the `i`-th message pushed:
/// each pop receives a message of its own.
pub proof fn lemma_pop_receives_own_message<J>(q: &DispatchQueue<J>, i: int)
    requires
        q.wf(),
        0 <= i < q.delivered().len(),
    ensures
        q.delivered()[i] == q.sent()[i],
{
}

/// The number of stop signals among `s`.
pub open spec fn count_stops<J>(s: Seq<Message<J>>) -> nat
    decreases s.len(),
{
    if s.len() == 0 {
        0
    } else {
        count_stops(s.drop_last()) + (if s.last() is StopSignal {
            1nat
        } else {
            0nat
        })
    }
}

/// `k` stop signals.
pub open spec fn stop_signals<J>(k: nat) -> Seq<Message<J>> {
    Seq::new(k, |i: int| Message::StopSignal)
}

pub open spec fn all_jobs<J>(s: Seq<Message<J>>) -> bool {
    forall|i: int| 0 <= i < s.len() ==> (#[trigger] s[i]) is NewJob
}

proof fn lemma_count_stops_prefix<J>(jobs: Seq<Message<J>>, k: nat, d: int)
    requires
        all_jobs(jobs),
        0 <= d <= jobs.len() + k,
    ensures
        count_stops((jobs + stop_signals::<J>(k)).take(d)) == (if d <= jobs.len() {
            0
        } else {
            (d - jobs.len()) as nat
        }),
    decreases d,
{
    let s = jobs + stop_signals::<J>(k);
    if d > 0 {
        lemma_count_stops_prefix(jobs, k, d - 1);
        assert(s.take(d).drop_last() =~= s.take(d - 1));
        assert(s.take(d).last() == s[d - 1]);
    }
}

/// Releasing a pool pushes its `k` stop signals behind every job submitted
/// before: once workers have received `k` stop signals, every one of those
/// jobs has been handed to a worker, each exactly once, and nothing is left
/// pending.
pub proof fn lemma_stops_received_after_every_job<J>(
    q: &DispatchQueue<J>,
    jobs: Seq<Message<J>>,
    k: nat,
)
    requires
        q.wf(),
        k > 0,
        all_jobs(jobs),
        q.sent() == jobs + stop_signals::<J>(k),
        count_stops(q.delivered()) >= k,
    ensures
        q.delivered() == q.sent(),
        q@.len() == 0,
{
    let d = q.delivered().len() as int;
    assert(q.delivered() =~= q.sent().take(d));
    lemma_count_stops_prefix(jobs, k, d);
}

} // verus!
