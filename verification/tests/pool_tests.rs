use post_build_hook_queue::pool::{Dispatcher, WorkerStep};
use post_build_hook_queue::task::{ArtifactPath, Task};

fn task(bytes: &[u8]) -> Task {
    Task::new(ArtifactPath::new(bytes.to_vec()))
}

#[test]
fn shutdown_drains_queued_and_in_flight_tasks() {
    // Shutdown with M = 2 queued and K = 1 in flight: all three tasks reach
    // a terminal outcome before the exit condition can hold.
    let mut d = Dispatcher::new(8);
    assert!(d.accept(task(b"/nix/store/a")).is_ok());
    assert!(d.accept(task(b"/nix/store/b")).is_ok());
    assert!(d.accept(task(b"/nix/store/c")).is_ok());
    let first = match d.next_step() {
        WorkerStep::Process(t) => t,
        _ => panic!("a queued task is claimed"),
    };
    assert_eq!(first.path.bytes().as_slice(), b"/nix/store/a");

    d.begin_shutdown();
    assert!(!d.may_exit());

    // The in-flight task finishes; two more are drained in order.
    d.task_done();
    assert!(!d.may_exit());
    for expected in [b"/nix/store/b".as_slice(), b"/nix/store/c".as_slice()] {
        match d.next_step() {
            WorkerStep::Process(t) => assert_eq!(t.path.bytes().as_slice(), expected),
            _ => panic!("queued tasks are drained after shutdown"),
        }
        assert!(!d.may_exit());
        d.task_done();
    }
    assert!(d.may_exit());
    assert!(matches!(d.next_step(), WorkerStep::ExitLoop));
}

#[test]
fn empty_open_queue_makes_workers_wait() {
    let mut d = Dispatcher::new(4);
    assert!(matches!(d.next_step(), WorkerStep::WaitForWork));
    d.begin_shutdown();
    assert!(matches!(d.next_step(), WorkerStep::ExitLoop));
}

#[test]
fn refused_offer_leaves_the_ledger_alone() {
    let mut d = Dispatcher::new(1);
    assert!(d.accept(task(b"only")).is_ok());
    let back = d.accept(task(b"extra"));
    match back {
        Err(t) => assert_eq!(t.path.bytes().as_slice(), b"extra"),
        Ok(()) => panic!("the second offer must be refused at capacity 1"),
    }
    // The refused task was never accepted, so draining the one accepted
    // task is enough to exit.
    match d.next_step() {
        WorkerStep::Process(t) => assert_eq!(t.path.bytes().as_slice(), b"only"),
        _ => panic!("the accepted task is claimable"),
    }
    d.task_done();
    d.begin_shutdown();
    assert!(d.may_exit());
}
