//! The pool itself: jobs, workers, construction, submission and teardown.

use crossbeam_channel::Receiver;
use crossbeam_channel::Sender;
use vstd::prelude::*;

use crate::errors::ThreadError;
use crate::sys::available_parallelism;
use crate::AUTO_SIZE;

verus! {

/// A single deferred unit of work: a closure that takes nothing and returns
/// nothing, run exactly once by whichever worker dequeues it.
///
/// The type invariant records that the closure's precondition holds, so a
/// worker that pulls a job out of the (opaque) channel may still call it.
struct Job<F: FnOnce() + Send + 'static> {
    f: F,
}

impl<F: FnOnce() + Send + 'static> Job<F> {
    /// The wrapped closure can be called on no arguments.
    #[verifier::type_invariant]
    spec fn callable(self) -> bool {
        call_requires(self.f, ())
    }

    fn new(f: F) -> (job: Job<F>)
        requires
            call_requires(f, ()),
    {
        Job { f }
    }

    /// Run the job to completion on the current thread, consuming it.
    fn run(self) {
        proof {
            use_type_invariant(&self);
        }
        let Job { f } = self;
        f();
    }
}

/// One worker: a numeric identity and the handle of its background thread.
/// The handle is present from construction until the teardown join consumes
/// it; dropping a worker whose handle is still present joins it then.
#[derive(Debug)]
struct Worker {
    id: usize,
    thread: Option<jod_thread::JoinHandle<()>>,
}

/// How many jobs a single worker may run over its lifetime. Verus asks every
/// loop for a decreases clause, so the worker loop counts down from a bound
/// no real workload can exhaust.
const WORKER_FUEL: u64 = u64::MAX;

/// One reaction of a worker to what the job source reported: a delivered
/// job is run to completion, synchronously, before this returns; a closure
/// report makes the worker stop. So a worker goes back to waiting exactly
/// when a job was delivered, and never stops with a job in hand.
fn worker_step<F: FnOnce() + Send + 'static>(message: Result<Job<F>, crossbeam_channel::RecvError>) -> (keep_waiting: bool)
    ensures
        keep_waiting == message is Ok,
{
    match message {
        Ok(job) => {
            job.run();
            true
        },
        Err(_) => false,
    }
}

/// What each worker thread runs: block on the shared job source; run each
/// job that arrives; stop once the source reports that the channel is
/// closed. Each message reaches exactly one worker, so a dequeued job is
/// exclusively owned here and runs exactly once.
fn worker_run<F: FnOnce() + Send + 'static>(source: Receiver<Job<F>>) {
    let mut fuel: u64 = WORKER_FUEL;
    while 0 < fuel
        decreases fuel,
    {
        fuel = fuel - 1;
        if !worker_step(source.recv()) {
            break;
        }
    }
}

impl Worker {
    /// Spawn the worker's thread on its handle of the shared job source.
    fn new<F: FnOnce() + Send + 'static>(id: usize, source: Receiver<Job<F>>) -> (result: Result<
        Worker,
        ThreadError,
    >)
        ensures
            result matches Ok(worker) ==> worker.id == id && worker.thread is Some,
            result matches Err(e) ==> e == ThreadError::ThreadCreationError,
    {
        match jod_thread::Builder::new().spawn(move || worker_run(source)) {
            Ok(handle) => Ok(Worker { id, thread: Some(handle) }),
            Err(_) => Err(ThreadError::ThreadCreationError),
        }
    }
}

/// A pool of worker threads which can execute jobs in parallel.
///
/// The sending half of the job channel stands before the workers so that
/// discarding the pool closes the channel first and then waits for each
/// worker thread in construction order, exactly as [`ThreadPool::shutdown`]
/// does explicitly.
#[derive(Debug)]
#[verifier::reject_recursive_types(F)]
pub struct ThreadPool<F: FnOnce() + Send + 'static> {
    sender: Option<Sender<Job<F>>>,
    workers: Vec<Worker>,
}

impl<F: FnOnce() + Send + 'static> ThreadPool<F> {
    /// The identities of the pool's workers, in construction order.
    pub closed spec fn worker_ids(self) -> Seq<usize> {
        self.workers@.map(|i: int, w: Worker| w.id)
    }

    /// How many workers the pool holds.
    pub open spec fn worker_count(self) -> nat {
        self.worker_ids().len()
    }

    /// Whether the sending half of the job channel is still present. It is
    /// taken exactly once, when teardown begins.
    pub closed spec fn sender_present(self) -> bool {
        self.sender is Some
    }

    /// Workers carry their index as identity: 0-based, unique, stable.
    pub open spec fn wf(self) -> bool {
        forall|i: int| 0 <= i < self.worker_ids().len() ==> self.worker_ids()[i] == i
    }

    /// Whether every worker's thread handle has been consumed by a join.
    pub closed spec fn joined(self) -> bool {
        forall|i: int| 0 <= i < self.workers@.len() ==> self.workers@[i].thread is None
    }

    /// Whether every worker still holds its thread handle, as all do from
    /// construction until teardown.
    pub closed spec fn running(self) -> bool {
        forall|i: int| 0 <= i < self.workers@.len() ==> self.workers@[i].thread is Some
    }

    /// Create a new pool.
    ///
    /// `size` is the number of worker threads; [`AUTO_SIZE`] asks for one
    /// worker per available hardware execution unit. Any other size that is
    /// not positive is rejected. If the platform refuses to create one of
    /// the requested threads, the attempt is abandoned: the channel is
    /// closed, the workers spawned so far wind down, and the error of the
    /// failed creation is returned.
    pub fn build(size: i32) -> (result: Result<ThreadPool<F>, ThreadError>)
        ensures
            result matches Ok(pool) ==> pool.wf() && pool.sender_present() && pool.running() && (
            size > 0 ==> pool.worker_count() == size) && (size == AUTO_SIZE
                ==> pool.worker_count() >= 1),
            result is Ok ==> size > 0 || size == AUTO_SIZE,
            size <= 0 && size != AUTO_SIZE ==> (result matches Err(e) && e
                == ThreadError::ThreadPoolSizeError),
            (size > 0 || size == AUTO_SIZE) && result is Err ==> (result matches Err(e) && e
                == ThreadError::ThreadCreationError),
    {
        let nr: usize = if size == AUTO_SIZE {
            available_parallelism()
        } else if size > 0 {
            size as usize
        } else {
            return Err(ThreadError::ThreadPoolSizeError);
        };
        let (sender, receiver) = crossbeam_channel::unbounded();
        let mut workers: Vec<Worker> = Vec::new();
        for id in 0..nr
            invariant
                size > 0 || size == AUTO_SIZE,
                size > 0 ==> nr == size,
                size == AUTO_SIZE ==> nr >= 1,
                workers@.len() == id,
                forall|i: int| 0 <= i < id ==> #[trigger] workers@[i].id == i,
                forall|i: int| 0 <= i < id ==> #[trigger] workers@[i].thread is Some,
        {
            match Worker::new(id, receiver.clone()) {
                Ok(worker) => workers.push(worker),
                Err(e) => {
                    // Move the sender into the innermost scope so that it
                    // is released before the spawned workers are discarded:
                    // each of them then sees the channel closed, stops, and
                    // can be waited for.
                    let _closing = sender;
                    return Err(e);
                },
            }
        }
        Ok(ThreadPool { sender: Some(sender), workers })
    }

    /// Enqueue `f` for execution by some worker, at most once; whichever
    /// worker next dequeues it runs it. Returns as soon as the job is
    /// handed off. Fails with a send error once the channel is closed; the
    /// job is then dropped without running.
    pub fn execute(&self, f: F) -> (result: Result<(), ThreadError>)
        requires
            call_requires(f, ()),
        ensures
            !self.sender_present() ==> result is Err,
            result matches Err(e) ==> e == ThreadError::ThreadSendError,
            result is Ok ==> self.sender_present(),
    {
        match self.sender.as_ref() {
            Some(sender) => match sender.send(Job::new(f)) {
                Ok(_) => Ok(()),
                Err(_) => Err(ThreadError::ThreadSendError),
            },
            None => Err(ThreadError::ThreadSendError),
        }
    }

    /// Tear the pool down: release the sender, which closes the channel,
    /// then join every worker thread in construction order. Jobs already
    /// handed off run to completion before their worker sees the closed
    /// channel and stops; once this returns, their effects are visible.
    ///
    /// Discarding the pool without calling this reaches the same state
    /// through the field drop order.
    pub fn shutdown(&mut self)
        ensures
            !final(self).sender_present(),
            final(self).joined(),
            final(self).worker_ids() == old(self).worker_ids(),
    {
        self.sender = None;
        let total = self.workers.len();
        let mut done: Vec<Worker> = Vec::new();
        for k in 0..total
            invariant
                total == old(self).workers@.len(),
                self.workers@ == old(self).workers@.skip(k as int),
                done@.len() == k,
                forall|i: int| 0 <= i < k ==> #[trigger] done@[i].id == old(self).workers@[i].id,
                forall|i: int| 0 <= i < k ==> #[trigger] done@[i].thread is None,
                self.sender is None,
        {
            let worker = self.workers.remove(0);
            let Worker { id, thread } = worker;
            match thread {
                Some(handle) => {
                    handle.join();
                },
                None => (),
            }
            done.push(Worker { id, thread: None });
        }
        self.workers = done;
        proof {
            assert(self.worker_ids() =~= old(self).worker_ids());
        }
    }

    /// The workers' identities are unique within their pool: each worker
    /// carries its own construction index, so no two share an identity.
    pub proof fn lemma_worker_ids_unique(self)
        requires
            self.wf(),
        ensures
            forall|i: int, j: int|
                0 <= i < j < self.worker_count() ==> self.worker_ids()[i] != self.worker_ids()[j],
    {
    }

    /// The number of workers in the pool.
    pub fn worker_total(&self) -> (n: usize)
        ensures
            n == self.worker_count(),
    {
        self.workers.len()
    }

    /// Whether the sending half of the job channel is still held.
    pub fn accepting(&self) -> (b: bool)
        ensures
            b == self.sender_present(),
    {
        self.sender.is_some()
    }
}

} // verus!
