use vstd::prelude::*;

verus! {

/// What travels on the dispatch queue: a job for one worker, or the signal
/// that tells the worker receiving it to stop.
pub enum Message<J> {
    NewJob(J),
    StopSignal,
}

/// What a worker does with the message it received.
pub enum WorkerStep<J> {
    /// Run this job once, on the worker's own thread, then wait again.
    Run(J),
    /// Leave the loop: the worker's thread ends.
    Exit,
}

/// The step a worker takes on message `m`.
pub open spec fn step_of<J>(m: Message<J>) -> WorkerStep<J> {
    match m {
        Message::NewJob(j) => WorkerStep::Run(j),
        Message::StopSignal => WorkerStep::Exit,
    }
}

impl<J> Message<J> {
    /// The worker's decision on a received message: a job is run, a stop
    /// signal ends the loop.
    pub fn into_step(self) -> (r: WorkerStep<J>)
        ensures
            r == step_of(self),
    {
        match self {
            Message::NewJob(j) => WorkerStep::Run(j),
            Message::StopSignal => WorkerStep::Exit,
        }
    }

    /// Whether this is the terminal signal.
    pub fn is_stop(&self) -> (r: bool)
        ensures
            r == (self is StopSignal),
    {
        match self {
            Message::NewJob(_) => false,
            Message::StopSignal => true,
        }
    }
}

} // verus!
