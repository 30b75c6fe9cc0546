//! Trusted view of the platform facilities the pool needs: spawning a
//! background thread, joining it, and probing the hardware's parallelism.

use vstd::prelude::*;

verus! {

/// A handle on a spawned background thread. Dropping it without calling
/// `join` blocks until the thread has exited, so a handle is never
/// discarded with its thread still running detached.
#[verifier::external_type_specification]
#[verifier::external_body]
#[verifier::reject_recursive_types(T)]
pub struct ExJoinHandle<T>(jod_thread::JoinHandle<T>);

/// A configuration from which a thread can be spawned fallibly.
#[verifier::external_type_specification]
#[verifier::external_body]
pub struct ExBuilder(jod_thread::Builder);

/// The error a failed spawn reports.
#[verifier::external_type_specification]
#[verifier::external_body]
pub struct ExIoError(std::io::Error);

/// Relies on jod_thread::Builder::new: returns the default thread
/// configuration.
pub assume_specification[ jod_thread::Builder::new ]() -> jod_thread::Builder;

/// Relies on jod_thread::Builder::spawn: runs the closure to completion on
/// a new thread, or reports an error if the platform refuses to create one.
/// The closure must be callable; nothing is assumed about what it does.
pub assume_specification<F, T>[ jod_thread::Builder::spawn ](
    builder: jod_thread::Builder,
    f: F,
) -> std::io::Result<jod_thread::JoinHandle<T>> where
    F: FnOnce() -> T,
    F: Send + 'static,
    T: Send + 'static,

    requires
        call_requires(f, ()),
;

/// Relies on jod_thread::JoinHandle::join: blocks until the thread has
/// exited. A panic that escaped the thread's own closure is propagated
/// here rather than swallowed.
pub assume_specification<T>[ jod_thread::JoinHandle::<T>::join ](
    handle: jod_thread::JoinHandle<T>,
) -> T;

/// Relies on num_cpus::get: reports the number of logical execution units,
/// and returns at least 1.
#[verifier::external_body]
pub(crate) fn available_parallelism() -> (n: usize)
    ensures
        n >= 1,
{
    num_cpus::get()
}

} // verus!
