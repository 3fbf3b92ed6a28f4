use rust_web_server::errors::PoolExecuteError;
use rust_web_server::queue::{JobQueue, Received};

fn listening_queue() -> JobQueue<u32> {
    let mut q = JobQueue::new();
    q.attach_receiver();
    q
}

#[test]
fn new_queue_is_open_and_empty() {
    let q: JobQueue<u32> = JobQueue::new();
    assert!(q.open());
    assert_eq!(q.len(), 0);
    assert_eq!(q.listener_count(), 0);
}

#[test]
fn send_without_listener_fails() {
    let mut q: JobQueue<u32> = JobQueue::new();
    match q.send(7) {
        Err(PoolExecuteError::JobCreationError(m)) => {
            assert_eq!(m, "sending on a closed channel")
        }
        Ok(()) => panic!("a queue nobody listens on accepted a job"),
    }
    assert_eq!(q.len(), 0);
}

#[test]
fn jobs_come_out_in_order_once_each() {
    let mut q = listening_queue();
    for j in 0..5u32 {
        assert!(q.send(j).is_ok());
    }
    assert_eq!(q.len(), 5);
    let mut seen = Vec::new();
    while let Received::Job(j) = q.recv() {
        seen.push(j);
    }
    assert_eq!(seen, vec![0, 1, 2, 3, 4]);
    assert_eq!(q.len(), 0);
}

#[test]
fn empty_open_queue_is_pending() {
    let mut q = listening_queue();
    assert!(matches!(q.recv(), Received::Pending));
}

#[test]
fn close_drains_before_reporting_closed() {
    let mut q = listening_queue();
    assert!(q.send(1).is_ok());
    assert!(q.send(2).is_ok());
    assert!(q.close());
    assert!(!q.open());
    assert!(matches!(q.recv(), Received::Job(1)));
    assert!(matches!(q.recv(), Received::Job(2)));
    assert!(matches!(q.recv(), Received::Closed));
    assert!(matches!(q.recv(), Received::Closed));
}

#[test]
fn close_reports_true_only_once() {
    let mut q = listening_queue();
    assert!(q.close());
    assert!(!q.close());
}

#[test]
fn send_after_close_fails_and_keeps_queue() {
    let mut q = listening_queue();
    assert!(q.send(3).is_ok());
    q.close();
    assert!(matches!(q.send(4), Err(PoolExecuteError::JobCreationError(_))));
    assert_eq!(q.len(), 1);
    assert!(matches!(q.recv(), Received::Job(3)));
    assert!(matches!(q.recv(), Received::Closed));
}

#[test]
fn send_after_last_listener_leaves_fails() {
    let mut q = listening_queue();
    q.attach_receiver();
    assert_eq!(q.listener_count(), 2);
    q.detach_receiver();
    assert!(q.send(1).is_ok());
    q.detach_receiver();
    assert_eq!(q.listener_count(), 0);
    assert!(q.send(2).is_err());
    assert_eq!(q.len(), 1);
}
