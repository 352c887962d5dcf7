use thread_pool::{Dispatch, JobQueue, PoolCreationError, Recv, ThreadPool, Worker, WorkerState};

type Job = Box<dyn FnOnce() + Send>;

#[test]
fn test_create_threadpool_valid() {
    let threadpool: ThreadPool<Job> = ThreadPool::new(4);

    assert_eq!(threadpool.workers().len(), 4);
}

#[test]
fn build_rejects_zero_threads() {
    let r: Result<ThreadPool<u32>, PoolCreationError> = ThreadPool::build(0);
    assert!(matches!(r, Err(PoolCreationError::LessThanOne)));
}

#[test]
fn build_accepts_one_thread() {
    let pool: ThreadPool<u32> = ThreadPool::build(1).ok().unwrap();
    assert_eq!(pool.thread_count(), 1);
    assert_eq!(pool.worker(0), Worker { id: 0, state: WorkerState::Waiting, joined: false });
}

#[test]
fn new_pool_has_waiting_workers_with_ids_in_order() {
    let pool: ThreadPool<u32> = ThreadPool::new(4);
    assert_eq!(pool.thread_count(), 4);
    for (i, w) in pool.workers().iter().enumerate() {
        assert_eq!(w.id, i);
        assert_eq!(w.state, WorkerState::Waiting);
        assert!(!w.joined);
    }
    assert!(pool.is_open());
    assert_eq!(pool.pending(), 0);
}

#[test]
fn claims_follow_submission_order() {
    let mut pool: ThreadPool<u32> = ThreadPool::new(3);
    pool.execute(10);
    pool.execute(20);
    pool.execute(30);
    assert_eq!(pool.pending(), 3);
    assert!(matches!(pool.claim(2), Dispatch::Run(10)));
    assert!(matches!(pool.claim(0), Dispatch::Run(20)));
    assert!(matches!(pool.claim(1), Dispatch::Run(30)));
    assert_eq!(pool.pending(), 0);
    assert_eq!(pool.worker(2).state, WorkerState::Executing);
}

#[test]
fn claim_on_empty_open_pool_waits() {
    let mut pool: ThreadPool<u32> = ThreadPool::new(2);
    assert!(matches!(pool.claim(0), Dispatch::Wait));
    assert_eq!(pool.worker(0).state, WorkerState::Waiting);
}

#[test]
fn finish_returns_worker_to_waiting() {
    let mut pool: ThreadPool<u32> = ThreadPool::new(1);
    pool.execute(5);
    assert!(matches!(pool.claim(0), Dispatch::Run(5)));
    pool.finish(0);
    assert_eq!(pool.worker(0).state, WorkerState::Waiting);
    assert!(matches!(pool.claim(0), Dispatch::Wait));
}

#[test]
fn shutdown_drains_pending_jobs_then_stops_workers() {
    let mut pool: ThreadPool<u32> = ThreadPool::new(2);
    pool.execute(1);
    pool.execute(2);
    let due = pool.shutdown();
    assert_eq!(due, vec![0, 1]);
    assert!(!pool.is_open());
    assert!(matches!(pool.claim(1), Dispatch::Run(1)));
    assert!(matches!(pool.claim(0), Dispatch::Run(2)));
    pool.finish(1);
    assert!(matches!(pool.claim(1), Dispatch::Stop));
    assert_eq!(pool.worker(1).state, WorkerState::Stopped);
    pool.finish(0);
    assert!(matches!(pool.claim(0), Dispatch::Stop));
}

#[test]
fn second_shutdown_hands_out_no_join() {
    let mut pool: ThreadPool<u32> = ThreadPool::new(3);
    assert_eq!(pool.shutdown(), vec![0, 1, 2]);
    assert!(pool.shutdown().is_empty());
    assert!(pool.workers().iter().all(|w| w.joined));
    assert!(!pool.is_open());
}

#[test]
fn hundred_jobs_on_four_workers_each_run_once() {
    let mut pool: ThreadPool<u32> = ThreadPool::new(4);
    for j in 0..100u32 {
        pool.execute(j);
    }
    let due = pool.shutdown();
    assert_eq!(due, vec![0, 1, 2, 3]);
    let mut seen: Vec<u32> = Vec::new();
    let mut stopped = 0;
    let mut w = 0;
    while stopped < 4 {
        if pool.worker(w).state == WorkerState::Waiting {
            match pool.claim(w) {
                Dispatch::Run(j) => {
                    seen.push(j);
                    pool.finish(w);
                }
                Dispatch::Wait => panic!("a closed pool never asks a worker to wait"),
                Dispatch::Stop => stopped += 1,
            }
        }
        w = (w + 1) % 4;
    }
    assert_eq!(seen, (0..100u32).collect::<Vec<u32>>());
    assert!(pool.workers().iter().all(|x| x.state == WorkerState::Stopped));
    assert_eq!(pool.pending(), 0);
}

#[test]
fn queue_hands_back_a_job_sent_after_close() {
    let mut q: JobQueue<u32> = JobQueue::new();
    assert_eq!(q.send(1), Ok(()));
    q.close();
    assert!(q.is_closed());
    assert_eq!(q.send(2), Err(2));
    assert_eq!(q.len(), 1);
    assert!(matches!(q.recv(), Recv::Job(1)));
    assert!(matches!(q.recv(), Recv::Disconnected));
}

#[test]
fn queue_open_and_empty_reports_empty() {
    let mut q: JobQueue<u32> = JobQueue::new();
    assert!(matches!(q.recv(), Recv::Empty));
    assert!(!q.is_closed());
    q.close();
    q.close();
    assert!(q.is_closed());
    assert!(matches!(q.recv(), Recv::Disconnected));
}

#[test]
fn worker_starts_waiting_and_not_joined() {
    let w = Worker::new(7);
    assert_eq!(w, Worker { id: 7, state: WorkerState::Waiting, joined: false });
}
