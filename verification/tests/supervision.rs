//! Tests of the bounded accept-loop state machine.

use web_server_tokio::Phase;
use web_server_tokio::Supervisor;

#[test]
fn supervisor_runs_ten_tasks_to_completion() {
    let mut supervisor = Supervisor::new(10);
    assert_eq!(Phase::Listening, supervisor.phase);
    supervisor.start_accepting();
    assert_eq!(Phase::Accepting, supervisor.phase);

    for _ in 0..10 {
        supervisor.on_accept(true);
    }
    assert_eq!(10, supervisor.attempts);
    assert_eq!(10, supervisor.spawned);
    assert_eq!(Phase::Draining, supervisor.phase);

    for _ in 0..10 {
        supervisor.on_join();
    }
    assert_eq!(10, supervisor.joined);
    assert_eq!(Phase::Terminated, supervisor.phase);
}

#[test]
fn supervisor_tolerates_accept_failures() {
    let mut supervisor = Supervisor::new(3);
    supervisor.start_accepting();
    supervisor.on_accept(true);
    assert_eq!(Phase::Accepting, supervisor.phase);
    supervisor.on_accept(false);
    assert_eq!(Phase::Accepting, supervisor.phase);
    supervisor.on_accept(true);
    assert_eq!(3, supervisor.attempts);
    assert_eq!(2, supervisor.spawned);
    assert_eq!(Phase::Draining, supervisor.phase);

    supervisor.on_join();
    assert_eq!(Phase::Draining, supervisor.phase);
    supervisor.on_join();
    assert_eq!(Phase::Terminated, supervisor.phase);
}

#[test]
fn supervisor_with_no_successful_accept_terminates() {
    let mut supervisor = Supervisor::new(2);
    supervisor.start_accepting();
    supervisor.on_accept(false);
    supervisor.on_accept(false);
    assert_eq!(2, supervisor.attempts);
    assert_eq!(0, supervisor.spawned);
    assert_eq!(Phase::Terminated, supervisor.phase);
}

#[test]
fn supervisor_with_zero_capacity_terminates_at_once() {
    let mut supervisor = Supervisor::new(0);
    supervisor.start_accepting();
    assert_eq!(Phase::Terminated, supervisor.phase);
    assert_eq!(0, supervisor.spawned);
}
