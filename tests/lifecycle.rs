use web_server::message::{Message, WorkerStep};
use web_server::pool::{Phase, PoolState, ShutdownAction};
use web_server::queue::{take_step, DispatchQueue};

fn release(state: &mut PoolState) -> Vec<ShutdownAction> {
    let mut out = Vec::new();
    loop {
        let a = state.next_shutdown_action();
        out.push(a);
        if a == ShutdownAction::Finished {
            return out;
        }
        if let ShutdownAction::Join(id) = a {
            state.record_join(id, true);
        }
    }
}

#[test]
fn new_pool_has_all_workers_live() {
    for size in 1..6usize {
        let p = PoolState::new(size);
        assert_eq!(p.size(), size);
        assert_eq!(p.live_workers(), size);
        assert_eq!(p.phase(), Phase::Running);
        assert!(p.accepts_jobs());
    }
}

#[test]
fn release_of_four_sends_four_stops_then_joins_four() {
    let mut p = PoolState::new(4);
    let actions = release(&mut p);
    assert_eq!(
        actions,
        vec![
            ShutdownAction::SendStop,
            ShutdownAction::SendStop,
            ShutdownAction::SendStop,
            ShutdownAction::SendStop,
            ShutdownAction::Join(0),
            ShutdownAction::Join(1),
            ShutdownAction::Join(2),
            ShutdownAction::Join(3),
            ShutdownAction::Finished,
        ]
    );
    assert_eq!(p.stops_sent(), 4);
    assert_eq!(p.joined(), 4);
    assert_eq!(p.live_workers(), 0);
    assert_eq!(p.phase(), Phase::Stopped);
    assert!(!p.accepts_jobs());
    assert_eq!(p.first_failure(), None);
    assert_eq!(p.next_shutdown_action(), ShutdownAction::Finished);
}

#[test]
fn release_of_one_worker() {
    let mut p = PoolState::new(1);
    assert_eq!(
        release(&mut p),
        vec![ShutdownAction::SendStop, ShutdownAction::Join(0), ShutdownAction::Finished]
    );
}

#[test]
fn shutdown_starts_on_first_step() {
    let mut p = PoolState::new(2);
    assert_eq!(p.next_shutdown_action(), ShutdownAction::SendStop);
    assert_eq!(p.phase(), Phase::ShuttingDown);
    assert!(!p.accepts_jobs());
    assert_eq!(p.live_workers(), 2);
}

#[test]
fn first_failed_join_is_kept_and_joining_goes_on() {
    let mut p = PoolState::new(3);
    for _ in 0..3 {
        assert_eq!(p.next_shutdown_action(), ShutdownAction::SendStop);
    }
    assert_eq!(p.next_shutdown_action(), ShutdownAction::Join(0));
    p.record_join(0, true);
    assert_eq!(p.next_shutdown_action(), ShutdownAction::Join(1));
    p.record_join(1, false);
    assert_eq!(p.next_shutdown_action(), ShutdownAction::Join(2));
    p.record_join(2, false);
    assert_eq!(p.next_shutdown_action(), ShutdownAction::Finished);
    assert_eq!(p.first_failure(), Some(1));
}

#[test]
fn two_workers_five_jobs_each_counted_once() {
    // Pool of two; five quick jobs each append their id to a shared record.
    let mut p = PoolState::new(2);
    let mut q: DispatchQueue<u32> = DispatchQueue::new();
    for id in 0..5u32 {
        assert!(p.accepts_jobs());
        q.push(Message::NewJob(id));
    }
    let mut record: Vec<u32> = Vec::new();
    let mut alive = [true, true];
    let mut turn = 0usize;
    loop {
        match p.next_shutdown_action() {
            ShutdownAction::SendStop => q.push(Message::StopSignal),
            ShutdownAction::Join(id) => {
                // The owner blocks on this worker until it takes its stop signal.
                while alive[id] {
                    if alive[turn] {
                        match take_step(&mut q) {
                            Some(WorkerStep::Run(job)) => record.push(job),
                            Some(WorkerStep::Exit) => alive[turn] = false,
                            None => panic!("no stop signal for a live worker"),
                        }
                    }
                    turn = (turn + 1) % 2;
                }
                p.record_join(id, true);
            }
            ShutdownAction::Finished => break,
        }
    }
    assert_eq!(record.len(), 5);
    record.sort();
    assert_eq!(record, vec![0, 1, 2, 3, 4]);
    assert_eq!(p.live_workers(), 0);
}

#[test]
fn slow_job_delays_release_and_both_effects_seen() {
    // Pool of one; a job taking two time units, then an instant one.
    let mut p = PoolState::new(1);
    let mut q: DispatchQueue<(u32, u64)> = DispatchQueue::new();
    q.push(Message::NewJob((1, 2)));
    q.push(Message::NewJob((2, 0)));
    let mut clock: u64 = 0;
    let mut effects: Vec<u32> = Vec::new();
    let mut finished_at: Option<u64> = None;
    let mut alive = true;
    loop {
        match p.next_shutdown_action() {
            ShutdownAction::SendStop => q.push(Message::StopSignal),
            ShutdownAction::Join(id) => {
                assert_eq!(id, 0);
                while alive {
                    match take_step(&mut q) {
                        Some(WorkerStep::Run((job, cost))) => {
                            clock += cost;
                            effects.push(job);
                        }
                        Some(WorkerStep::Exit) => alive = false,
                        None => panic!("no stop signal for the worker"),
                    }
                }
                p.record_join(id, true);
            }
            ShutdownAction::Finished => {
                finished_at = Some(clock);
                break;
            }
        }
    }
    assert!(finished_at.unwrap() >= 2);
    assert_eq!(effects, vec![1, 2]);
}
