use vstd::prelude::*;

verus! {

/// What the serving loop can be woken by.
pub enum ServerEvent<S> {
    /// A connection was accepted.
    Connection(S),
    /// The process was asked to shut down.
    Interrupt,
}

/// What the serving loop does next.
pub enum LoopAction<S> {
    /// Hand the connection to the pool as a job, then wait again.
    Dispatch(S),
    /// Stop accepting work and release the pool.
    Shutdown,
}

/// The serving loop's decision on one event: a connection becomes a job, an
/// interrupt ends the loop.
pub fn control_step<S>(ev: ServerEvent<S>) -> (r: LoopAction<S>)
    ensures
        match ev {
            ServerEvent::Connection(s) => r == LoopAction::Dispatch(s),
            ServerEvent::Interrupt => r == LoopAction::<S>::Shutdown,
        },
{
    match ev {
        ServerEvent::Connection(s) => LoopAction::Dispatch(s),
        ServerEvent::Interrupt => LoopAction::Shutdown,
    }
}

} // verus!
