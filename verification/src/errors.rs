//! The error taxonomy of the pool.

use vstd::prelude::*;

verus! {

/// Everything that can go wrong while building a pool or submitting a job.
#[derive(Debug, PartialEq, Eq, Structural)]
pub enum ThreadError {
    /// The requested worker count was zero or negative (and not the
    /// automatic-sizing sentinel).
    ThreadPoolSizeError,
    /// The platform refused to create a worker thread.
    ThreadCreationError,
    /// A job was submitted after the channel had been closed.
    ThreadSendError,
}

impl ThreadError {
    /// What [`ThreadError::message`] returns for each variant.
    pub open spec fn message_spec(self) -> Seq<char> {
        match self {
            ThreadError::ThreadPoolSizeError => "ThreadPoolSizeError"@,
            ThreadError::ThreadCreationError => "ThreadCreationError"@,
            ThreadError::ThreadSendError => "ThreadSendError"@,
        }
    }

    /// The error's name, for display purposes.
    pub fn message(&self) -> (s: &'static str)
        ensures
            s@ == self.message_spec(),
    {
        match self {
            ThreadError::ThreadPoolSizeError => "ThreadPoolSizeError",
            ThreadError::ThreadCreationError => "ThreadCreationError",
            ThreadError::ThreadSendError => "ThreadSendError",
        }
    }
}

} // verus!
