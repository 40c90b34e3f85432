//! A fixed-size worker pool: the messages its workers consume, the shared
//! dispatch queue, the pool's shutdown protocol, the serving policy for one
//! connection, and the decisions of the outer control loop.

pub mod control;
pub mod message;
pub mod pool;
pub mod queue;
pub mod request;
