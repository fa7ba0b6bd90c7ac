//! What travels on the control channel.

use vstd::prelude::*;

verus! {

/// A dispatch message: either a job to run or the order to stop.
///
/// The job type `J` is opaque here; nothing in the pool looks inside it.
#[derive(Debug)]
pub enum Message<J> {
    NewJob(J),
    Terminate,
}

impl<J> Message<J> {
    /// Whether this message tells its receiver to stop.
    pub fn is_terminate(&self) -> (stop: bool)
        ensures
            stop == (self is Terminate),
    {
        match self {
            Message::NewJob(_) => false,
            Message::Terminate => true,
        }
    }
}

} // verus!
