use worker_pool::pool::PoolError;
use worker_pool::pool::Received;
use worker_pool::pool::ThreadPool;
use worker_pool::pool::Worker;

#[test]
fn construction_succeeds_for_every_positive_size() {
    for size in 1..16usize {
        let pool = ThreadPool::new(size).expect("a positive size must construct");
        assert_eq!(pool.worker_count(), size);
        assert!(pool.is_open());
        assert_eq!(pool.pending_count(), 0);
        assert_eq!(pool.executed_count(), 0);
        assert_eq!(pool.submitted_count(), 0);
    }
}

#[test]
fn construction_assigns_distinct_ids_in_order() {
    let pool = ThreadPool::new(4).unwrap();
    for i in 0..4usize {
        let w = pool.worker(i);
        assert_eq!(w.id, i);
        assert!(!w.joined);
    }
}

#[test]
fn construction_with_zero_workers_fails() {
    match ThreadPool::new(0) {
        Err(e) => assert_eq!(e, PoolError::ZeroWorkers),
        Ok(_) => panic!("a pool of zero workers must be refused"),
    }
}

#[test]
fn worker_record_starts_unjoined() {
    let w = Worker::new(7);
    assert_eq!(w.id, 7);
    assert!(!w.joined);
}

#[test]
fn submission_hands_out_tickets_in_order() {
    let mut pool = ThreadPool::new(2).unwrap();
    assert_eq!(pool.execute(), Ok(0));
    assert_eq!(pool.execute(), Ok(1));
    assert_eq!(pool.execute(), Ok(2));
    assert_eq!(pool.submitted_count(), 3);
    assert_eq!(pool.pending_count(), 3);
}

#[test]
fn delivery_is_fifo_from_the_queue() {
    let mut pool = ThreadPool::new(2).unwrap();
    pool.execute().unwrap();
    pool.execute().unwrap();
    pool.execute().unwrap();
    assert_eq!(pool.receive(), Received::Job(0));
    assert_eq!(pool.receive(), Received::Job(1));
    assert_eq!(pool.receive(), Received::Job(2));
    assert_eq!(pool.pending_count(), 0);
    assert_eq!(pool.executed_count(), 3);
}

#[test]
fn receive_on_an_empty_open_pool_blocks() {
    let mut pool = ThreadPool::new(1).unwrap();
    assert_eq!(pool.receive(), Received::WouldBlock);
    assert!(pool.is_open());
}

#[test]
fn receive_on_an_empty_closed_pool_observes_closure() {
    let mut pool = ThreadPool::new(1).unwrap();
    pool.close();
    assert_eq!(pool.receive(), Received::Closed);
}

#[test]
fn closure_is_observed_only_after_the_queue_drains() {
    let mut pool = ThreadPool::new(1).unwrap();
    pool.execute().unwrap();
    pool.close();
    assert_eq!(pool.receive(), Received::Job(0));
    assert_eq!(pool.receive(), Received::Closed);
}

#[test]
fn submission_after_close_fails_loudly() {
    let mut pool = ThreadPool::new(3).unwrap();
    pool.close();
    assert_eq!(pool.execute(), Err(PoolError::Closed));
}

#[test]
fn submission_after_teardown_fails_loudly() {
    let mut pool = ThreadPool::new(3).unwrap();
    pool.execute().unwrap();
    pool.teardown();
    assert_eq!(pool.execute(), Err(PoolError::Closed));
    assert_eq!(pool.submitted_count(), 1);
}

#[test]
fn teardown_runs_every_submitted_job_exactly_once() {
    let n: u64 = 10;
    let mut pool = ThreadPool::new(4).unwrap();
    for expected in 0..n {
        assert_eq!(pool.execute(), Ok(expected));
    }
    pool.teardown();
    assert_eq!(pool.executed_count(), n as usize);
    let mut seen = vec![0u32; n as usize];
    for i in 0..n as usize {
        let t = pool.executed_ticket(i);
        assert!(t < n);
        seen[t as usize] += 1;
    }
    for count in seen {
        assert_eq!(count, 1);
    }
}

#[test]
fn teardown_joins_every_worker() {
    let mut pool = ThreadPool::new(5).unwrap();
    pool.execute().unwrap();
    pool.teardown();
    assert!(!pool.is_open());
    assert_eq!(pool.pending_count(), 0);
    for i in 0..5usize {
        assert!(pool.worker(i).joined);
        assert_eq!(pool.worker(i).id, i);
    }
}

#[test]
fn teardown_twice_changes_nothing() {
    let mut pool = ThreadPool::new(2).unwrap();
    pool.execute().unwrap();
    pool.execute().unwrap();
    pool.teardown();
    let executed = pool.executed_count();
    let submitted = pool.submitted_count();
    pool.teardown();
    assert_eq!(pool.executed_count(), executed);
    assert_eq!(pool.submitted_count(), submitted);
    assert_eq!(pool.pending_count(), 0);
    assert!(!pool.is_open());
    for i in 0..2usize {
        assert!(pool.worker(i).joined);
    }
}

#[test]
fn teardown_waits_for_queued_work() {
    // A pool of two receives two jobs, one standing for a slow one; teardown
    // must run both before any worker is joined, abandoning neither.
    let mut pool = ThreadPool::new(2).unwrap();
    let quick = pool.execute().unwrap();
    let slow = pool.execute().unwrap();
    pool.teardown();
    assert_eq!(pool.executed_count(), 2);
    let ran = [pool.executed_ticket(0), pool.executed_ticket(1)];
    assert!(ran.contains(&quick));
    assert!(ran.contains(&slow));
    assert!(pool.worker(0).joined && pool.worker(1).joined);
}

#[test]
fn interleaved_producers_lose_and_duplicate_nothing() {
    // Two producers submitting turn and turn about, workers dequeuing in
    // between: after teardown every ticket has run exactly once.
    let total: u64 = 1000;
    let mut pool = ThreadPool::new(8).unwrap();
    let mut submitted_by_first = 0u64;
    let mut submitted_by_second = 0u64;
    for round in 0..total {
        let ticket = pool.execute().unwrap();
        assert_eq!(ticket, round);
        if round % 2 == 0 {
            submitted_by_first += 1;
        } else {
            submitted_by_second += 1;
        }
        if round % 3 == 0 {
            assert!(matches!(pool.receive(), Received::Job(_)));
        }
    }
    assert_eq!(submitted_by_first + submitted_by_second, total);
    pool.teardown();
    assert_eq!(pool.executed_count(), total as usize);
    let mut seen = vec![false; total as usize];
    for i in 0..total as usize {
        let t = pool.executed_ticket(i) as usize;
        assert!(!seen[t], "ticket ran twice");
        seen[t] = true;
    }
    assert!(seen.iter().all(|&s| s));
}

#[test]
fn ten_jobs_on_four_workers_all_run_exactly_once() {
    // Each job stands for appending a unique id to a shared collection: the
    // executed record plays the collection, the ticket the unique id.
    let mut pool = ThreadPool::new(4).unwrap();
    let mut ids = Vec::new();
    for _ in 0..10 {
        ids.push(pool.execute().unwrap());
    }
    pool.teardown();
    assert_eq!(pool.executed_count(), 10);
    let mut collected = Vec::new();
    for i in 0..10usize {
        collected.push(pool.executed_ticket(i));
    }
    for id in &ids {
        assert_eq!(collected.iter().filter(|t| *t == id).count(), 1);
    }
}
