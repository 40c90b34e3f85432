use vstd::prelude::*;

verus! {

/// Where a pool is in its life: it takes jobs while `Running`; releasing it
/// moves it to `ShuttingDown` while stop signals go out and workers are
/// joined, then to `Stopped`. There is no way back.
#[derive(PartialEq, Eq, Structural, Clone, Copy, Debug)]
pub enum Phase {
    Running,
    ShuttingDown,
    Stopped,
}

/// The next thing the owner of a pool does while releasing it.
#[derive(PartialEq, Eq, Structural, Clone, Copy, Debug)]
pub enum ShutdownAction {
    /// Push one stop signal onto the dispatch queue.
    SendStop,
    /// Wait for the worker with this id to end.
    Join(usize),
    /// Every worker has ended: the release is complete.
    Finished,
}

/// The mathematical state of a pool's lifecycle.
pub struct PoolView {
    pub size: nat,
    pub phase: Phase,
    pub stops_sent: nat,
    pub joined: nat,
    pub first_failure: Option<nat>,
}

/// The lifecycle of a pool of a fixed number of workers, with ids
/// `0..size`: the decisions of its shutdown protocol, apart from the threads
/// and the queue that carry them out.
pub struct PoolState {
    size: usize,
    phase: Phase,
    stops_sent: usize,
    joined: usize,
    first_failure: Option<usize>,
}

impl View for PoolState {
    type V = PoolView;

    closed spec fn view(&self) -> PoolView {
        PoolView {
            size: self.size as nat,
            phase: self.phase,
            stops_sent: self.stops_sent as nat,
            joined: self.joined as nat,
            first_failure: match self.first_failure {
                Some(i) => Some(i as nat),
                None => None,
            },
        }
    }
}

/// A lifecycle state that a pool can be in.
pub open spec fn valid(v: PoolView) -> bool {
    &&& v.size > 0
    &&& v.stops_sent <= v.size
    &&& v.joined <= v.size
    &&& v.phase == Phase::Running ==> v.stops_sent == 0 && v.joined == 0
    &&& v.joined > 0 ==> v.stops_sent == v.size
    &&& v.phase == Phase::Stopped ==> v.stops_sent == v.size && v.joined == v.size
    &&& v.phase != Phase::Running ==> v.stops_sent > 0
    &&& v.first_failure matches Some(i) ==> i < v.joined
}

/// One step of the shutdown protocol: every stop signal is sent before the
/// first join, the workers are joined in order of id, and the release ends
/// only once all of them have been joined.
pub open spec fn shutdown_step(v: PoolView) -> (PoolView, ShutdownAction) {
    if v.phase == Phase::Stopped {
        (v, ShutdownAction::Finished)
    } else if v.stops_sent < v.size {
        (PoolView { phase: Phase::ShuttingDown, stops_sent: v.stops_sent + 1, ..v }, ShutdownAction::SendStop)
    } else if v.joined < v.size {
        (PoolView { phase: Phase::ShuttingDown, joined: v.joined + 1, ..v }, ShutdownAction::Join(v.joined as usize))
    } else {
        (PoolView { phase: Phase::Stopped, ..v }, ShutdownAction::Finished)
    }
}

/// The state after `n` shutdown steps from `v`.
pub open spec fn after_steps(v: PoolView, n: nat) -> PoolView
    decreases n,
{
    if n == 0 {
        v
    } else {
        shutdown_step(after_steps(v, (n - 1) as nat)).0
    }
}

/// The actions of the first `n` shutdown steps from `v`.
pub open spec fn actions(v: PoolView, n: nat) -> Seq<ShutdownAction>
    decreases n,
{
    if n == 0 {
        Seq::empty()
    } else {
        actions(v, (n - 1) as nat).push(shutdown_step(after_steps(v, (n - 1) as nat)).1)
    }
}

/// The whole release of a pool of `k` workers: `k` stop signals, then a join
/// of each worker `0..k`, then the end.
pub open spec fn shutdown_script(k: nat) -> Seq<ShutdownAction> {
    Seq::new(
        2 * k + 1,
        |i: int|
            if i < k {
                ShutdownAction::SendStop
            } else if i < 2 * k {
                ShutdownAction::Join((i - k) as usize)
            } else {
                ShutdownAction::Finished
            },
    )
}

impl PoolState {
    pub open spec fn wf(&self) -> bool {
        valid(self@)
    }

    /// A running pool of `size` workers, none of them joined.
    pub fn new(size: usize) -> (r: Self)
        requires
            size > 0,
        ensures
            r.wf(),
            r@.size == size,
            r@.phase == Phase::Running,
            r@.stops_sent == 0,
            r@.joined == 0,
            r@.first_failure is None,
    {
        PoolState { size, phase: Phase::Running, stops_sent: 0, joined: 0, first_failure: None }
    }

    /// The number of workers the pool was made with.
    pub fn size(&self) -> (r: usize)
        ensures
            r == self@.size,
    {
        self.size
    }

    pub fn phase(&self) -> (r: Phase)
        ensures
            r == self@.phase,
    {
        self.phase
    }

    /// Whether a job may be submitted: only while the pool runs.
    pub fn accepts_jobs(&self) -> (r: bool)
        ensures
            r == (self@.phase == Phase::Running),
    {
        self.phase == Phase::Running
    }

    /// The workers not yet joined.
    pub fn live_workers(&self) -> (r: usize)
        requires
            self.wf(),
        ensures
            r == self@.size - self@.joined,
    {
        self.size - self.joined
    }

    pub fn stops_sent(&self) -> (r: usize)
        ensures
            r == self@.stops_sent,
    {
        self.stops_sent
    }

    pub fn joined(&self) -> (r: usize)
        ensures
            r == self@.joined,
    {
        self.joined
    }

    /// The lowest id of a worker whose thread ended abnormally, if any did.
    pub fn first_failure(&self) -> (r: Option<usize>)
        ensures
            r matches Some(i) ==> self@.first_failure == Some(i as nat),
            r is None <==> self@.first_failure is None,
    {
        self.first_failure
    }

    /// Decides the next step of releasing the pool; a running pool starts
    /// its shutdown here.
    pub fn next_shutdown_action(&mut self) -> (r: ShutdownAction)
        requires
            old(self).wf(),
        ensures
            final(self).wf(),
            (final(self)@, r) == shutdown_step(old(self)@),
    {
        if self.phase == Phase::Stopped {
            ShutdownAction::Finished
        } else if self.stops_sent < self.size {
            self.phase = Phase::ShuttingDown;
            self.stops_sent = self.stops_sent + 1;
            ShutdownAction::SendStop
        } else if self.joined < self.size {
            let id = self.joined;
            self.phase = Phase::ShuttingDown;
            self.joined = self.joined + 1;
            ShutdownAction::Join(id)
        } else {
            self.phase = Phase::Stopped;
            ShutdownAction::Finished
        }
    }

    /// Records how the join of `worker` went: the first worker found to have
    /// ended abnormally is kept, to be reported once all are joined.
    pub fn record_join(&mut self, worker: usize, ended_normally: bool)
        requires
            old(self).wf(),
            worker < old(self)@.joined,
        ensures
            final(self).wf(),
            final(self)@.first_failure == (if !ended_normally && old(self)@.first_failure is None {
                Some(worker as nat)
            } else {
                old(self)@.first_failure
            }),
            final(self)@ == (PoolView { first_failure: final(self)@.first_failure, ..old(self)@ }),
    {
        if !ended_normally && self.first_failure.is_none() {
            self.first_failure = Some(worker);
        }
    }
}

/// Every step of the shutdown protocol keeps the lifecycle valid.
pub proof fn lemma_step_keeps_valid(v: PoolView)
    requires
        valid(v),
    ensures
        valid(shutdown_step(v).0),
{
}

/// No worker is joined before every stop signal has been sent, and the
/// release is reported complete only once all stop signals have been sent and
/// every worker has been joined.
pub proof fn lemma_joins_follow_all_stops(v: PoolView)
    requires
        valid(v),
    ensures
        shutdown_step(v).1 is Join ==> v.stops_sent == v.size,
        shutdown_step(v).1 is Finished ==> v.stops_sent == v.size && v.joined == v.size
            && shutdown_step(v).0.phase == Phase::Stopped,
        shutdown_step(v).1 is SendStop ==> v.joined == 0,
{
}

proof fn lemma_release_prefix(v: PoolView, j: nat)
    requires
        valid(v),
        v.phase == Phase::Running,
        j <= 2 * v.size + 1,
    ensures
        valid(after_steps(v, j)),
        after_steps(v, j).size == v.size,
        after_steps(v, j).stops_sent == (if j <= v.size { j } else { v.size }),
        after_steps(v, j).joined == (if j <= v.size { 0 } else if j <= 2 * v.size { (j - v.size) as nat } else { v.size }),
        after_steps(v, j).phase == (if j == 0 {
            Phase::Running
        } else if j <= 2 * v.size {
            Phase::ShuttingDown
        } else {
            Phase::Stopped
        }),
        actions(v, j) == shutdown_script(v.size).take(j as int),
    decreases j,
{
    let k = v.size;
    if j == 0 {
        assert(actions(v, 0) =~= shutdown_script(k).take(0));
    } else {
        lemma_release_prefix(v, (j - 1) as nat);
        let p = after_steps(v, (j - 1) as nat);
        lemma_step_keeps_valid(p);
        assert(actions(v, j) =~= shutdown_script(k).take(j as int));
    }
}

/// Releasing a running pool of `k` workers takes exactly `2k + 1` steps:
/// `k` stop signals, then one join of each worker `0..k` in turn, then the
/// end; afterwards `k` signals have been sent, `k` workers joined and none is
/// left running.
pub proof fn lemma_release_sends_k_stops_and_joins_k(v: PoolView)
    requires
        valid(v),
        v.phase == Phase::Running,
    ensures
        actions(v, 2 * v.size + 1) == shutdown_script(v.size),
        after_steps(v, 2 * v.size + 1).phase == Phase::Stopped,
        after_steps(v, 2 * v.size + 1).stops_sent == v.size,
        after_steps(v, 2 * v.size + 1).joined == v.size,
        after_steps(v, 2 * v.size + 1).size - after_steps(v, 2 * v.size + 1).joined == 0,
{
    lemma_release_prefix(v, 2 * v.size + 1);
    assert(shutdown_script(v.size).take((2 * v.size + 1) as int) =~= shutdown_script(v.size));
}

} // verus!
