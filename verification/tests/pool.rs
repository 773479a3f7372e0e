use linda::threadpool::{Message, ThreadPool, WorkerStep};

#[test]
fn pool_starts_empty_with_the_requested_workers() {
    let pool = ThreadPool::new(4);
    assert_eq!(pool.worker_count, 4);
    assert!(pool.queue.is_empty());
    assert!(pool.completed.is_empty());
}

#[test]
fn more_jobs_than_workers_all_run_exactly_once_in_order() {
    let mut pool = ThreadPool::new(2);
    let jobs: Vec<u64> = (10..17).collect();
    for &j in &jobs {
        pool.execute(j);
    }
    assert_eq!(pool.queue.len(), 7);

    let mut ran = Vec::new();
    loop {
        match pool.worker_step() {
            WorkerStep::Ran(j) => ran.push(j),
            WorkerStep::Idle => break,
            WorkerStep::Stopped => unreachable!(),
        }
    }
    // every job ran exactly once, in submission order
    assert_eq!(ran, jobs);
    assert_eq!(pool.completed, jobs);
    assert!(pool.queue.is_empty());
}

#[test]
fn worker_idles_on_an_empty_queue() {
    let mut pool = ThreadPool::new(1);
    assert_eq!(pool.worker_step(), WorkerStep::Idle);
    assert!(pool.completed.is_empty());
}

#[test]
fn shutdown_sends_one_terminate_per_worker_after_queued_jobs() {
    let mut pool = ThreadPool::new(3);
    pool.execute(42);
    pool.request_shutdown();
    assert_eq!(
        pool.queue,
        vec![Message::NewJob(42), Message::Terminate, Message::Terminate, Message::Terminate]
    );
    assert_eq!(pool.worker_step(), WorkerStep::Ran(42));
    assert_eq!(pool.worker_step(), WorkerStep::Stopped);
    assert_eq!(pool.worker_step(), WorkerStep::Stopped);
    assert_eq!(pool.worker_step(), WorkerStep::Stopped);
    assert_eq!(pool.worker_step(), WorkerStep::Idle);
    assert_eq!(pool.completed, vec![42]);
}

#[test]
fn a_single_worker_pool_is_the_smallest_allowed() {
    let pool = ThreadPool::new(1);
    assert_eq!(pool.worker_count, 1);
}

#[test]
fn duplicate_job_identifiers_run_once_per_submission() {
    let mut pool = ThreadPool::new(1);
    pool.execute(7);
    pool.execute(7);
    assert_eq!(pool.worker_step(), WorkerStep::Ran(7));
    assert_eq!(pool.worker_step(), WorkerStep::Ran(7));
    assert_eq!(pool.worker_step(), WorkerStep::Idle);
    assert_eq!(pool.completed, vec![7, 7]);
}
