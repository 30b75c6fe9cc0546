//! Tests of pool construction, job submission and teardown.

use std::sync::{Arc, Mutex};

use threadpool::{ThreadError, ThreadPool, AUTO_SIZE};

#[test]
fn test_threadpool_build_wrong_args() {
    let pool_neg = ThreadPool::<fn()>::build(-2);
    assert_eq!(
        pool_neg.unwrap_err(),
        ThreadError::ThreadPoolSizeError,
        "creating a negative nr of threads should be impossible"
    );

    let pool_zero = ThreadPool::<fn()>::build(0);
    assert_eq!(
        pool_zero.unwrap_err(),
        ThreadError::ThreadPoolSizeError,
        "creating a pool with zero threads should be impossible"
    );
}

#[test]
fn test_threadpool_build() {
    let pool = ThreadPool::<fn()>::build(2).unwrap();
    assert_eq!(pool.worker_total(), 2);
    assert!(pool.accepting());

    let complete_pool = ThreadPool::<fn()>::build(-1).unwrap();
    assert_eq!(complete_pool.worker_total(), num_cpus::get());
    assert!(complete_pool.accepting());
}

#[test]
fn test_threadpool_execute() {
    let pool = ThreadPool::build(1).unwrap();

    let flag = Arc::new(Mutex::new(false));
    let flag_clone = flag.clone();

    pool.execute(move || {
        *flag_clone.lock().unwrap() = true;
    })
    .unwrap();

    drop(pool);

    assert!(*flag.lock().unwrap());
}

#[test]
fn auto_sentinel_is_minus_one() {
    assert_eq!(AUTO_SIZE, -1);
    let pool = ThreadPool::<fn()>::build(AUTO_SIZE).unwrap();
    assert_eq!(pool.worker_total(), num_cpus::get());
    assert!(pool.worker_total() >= 1);
}

#[test]
fn counter_reaches_n_with_one_worker() {
    let pool = ThreadPool::build(1).unwrap();
    let counter = Arc::new(Mutex::new(0usize));
    for _ in 0..100 {
        let counter = counter.clone();
        pool.execute(move || {
            *counter.lock().unwrap() += 1;
        })
        .unwrap();
    }
    drop(pool);
    assert_eq!(*counter.lock().unwrap(), 100);
}

#[test]
fn counter_reaches_n_with_four_workers() {
    let pool = ThreadPool::build(4).unwrap();
    let counter = Arc::new(Mutex::new(0usize));
    for _ in 0..100 {
        let counter = counter.clone();
        pool.execute(move || {
            *counter.lock().unwrap() += 1;
        })
        .unwrap();
    }
    drop(pool);
    assert_eq!(*counter.lock().unwrap(), 100);
}

#[test]
fn single_worker_runs_jobs_in_submission_order() {
    let pool = ThreadPool::build(1).unwrap();
    let seen = Arc::new(Mutex::new(Vec::new()));
    for i in 0..10usize {
        let seen = seen.clone();
        pool.execute(move || {
            seen.lock().unwrap().push(i);
        })
        .unwrap();
    }
    drop(pool);
    let seen = seen.lock().unwrap();
    assert_eq!(*seen, (0..10).collect::<Vec<usize>>());
}

#[test]
fn shutdown_is_a_barrier_for_submitted_jobs() {
    let mut pool = ThreadPool::build(3).unwrap();
    let counter = Arc::new(Mutex::new(0usize));
    for _ in 0..25 {
        let counter = counter.clone();
        pool.execute(move || {
            *counter.lock().unwrap() += 1;
        })
        .unwrap();
    }
    pool.shutdown();
    assert_eq!(*counter.lock().unwrap(), 25);
}

#[test]
fn execute_after_shutdown_fails_and_job_does_not_run() {
    let mut pool = ThreadPool::build(2).unwrap();
    pool.shutdown();
    assert!(!pool.accepting());

    let flag = Arc::new(Mutex::new(false));
    let flag_clone = flag.clone();
    let result = pool.execute(move || {
        *flag_clone.lock().unwrap() = true;
    });
    assert_eq!(result.unwrap_err(), ThreadError::ThreadSendError);
    assert!(!*flag.lock().unwrap());
}

#[test]
fn flag_set_after_dropping_pool_of_two() {
    let pool = ThreadPool::build(2).unwrap();
    let flag = Arc::new(Mutex::new(false));
    let flag_clone = flag.clone();
    pool.execute(move || {
        *flag_clone.lock().unwrap() = true;
    })
    .unwrap();
    drop(pool);
    assert!(*flag.lock().unwrap());
}

#[test]
fn shutdown_keeps_worker_count_and_is_idempotent() {
    let mut pool = ThreadPool::<fn()>::build(3).unwrap();
    assert_eq!(pool.worker_total(), 3);
    pool.shutdown();
    assert_eq!(pool.worker_total(), 3);
    assert!(!pool.accepting());
    pool.shutdown();
    assert_eq!(pool.worker_total(), 3);
    assert!(!pool.accepting());
}

#[test]
fn error_messages_name_the_variant() {
    assert_eq!(ThreadError::ThreadPoolSizeError.message(), "ThreadPoolSizeError");
    assert_eq!(ThreadError::ThreadCreationError.message(), "ThreadCreationError");
    assert_eq!(ThreadError::ThreadSendError.message(), "ThreadSendError");
}
