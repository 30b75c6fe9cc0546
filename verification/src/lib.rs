//! A fixed-size worker-thread pool.
//!
//! A [`ThreadPool`] owns a set of worker threads and the sending half of a
//! job channel. Jobs are closures submitted through [`ThreadPool::execute`];
//! whichever worker next acquires the shared receiving end runs the job.
//! Tearing the pool down with [`ThreadPool::shutdown`] closes the channel and
//! joins every worker thread in construction order.

use vstd::prelude::*;

mod channel;
pub mod errors;
pub mod pool;
mod sys;

pub use errors::ThreadError;
pub use pool::ThreadPool;

verus! {

/// The worker count that asks for one worker per available hardware
/// execution unit.
pub const AUTO_SIZE: i32 = -1;

} // verus!
