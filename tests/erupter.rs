use bosminer_core::erupter::{BlockErupterSolver, Phase, SolverAction, SolverEvent};
use bosminer_core::error::{Error, ErrorKind};
use bosminer_core::icarus::{MAX_READ_TIME_MS, WAIT_TIMEOUT_MS};
use bosminer_core::work::{Assignment, Job, Midstate, UniqueSolution};

fn assignment(tag: u8) -> Assignment {
    let job = Job::new(0x2000_0000, [tag; 32], [tag.wrapping_add(1); 32], 1000 + tag as u32, 0x1d00_ffff);
    Assignment::new(job, vec![Midstate { version: 0x2000_0000, state: [tag; 32] }], job.ntime)
}

fn emitted(action: SolverAction) -> UniqueSolution {
    match action {
        SolverAction::Emit(s) => s,
        other => panic!("expected a solution, got {:?}", other),
    }
}

/// Drives the solver until the given work is on the device and it waits for a nonce.
fn load(solver: &mut BlockErupterSolver, work: Assignment, now_ms: u64) {
    match solver.step(SolverEvent::Work { work: work.clone(), now_ms }) {
        SolverAction::SendWork(p) => {
            assert_eq!(p.midstate, work.midstates[0].state);
            assert_eq!(p.ntime, work.ntime);
            assert_eq!(p.bits, work.job.bits);
            assert_eq!(p.merkle_root_tail, work.job.merkle_root_tail());
        }
        other => panic!("expected work to send, got {:?}", other),
    }
    match solver.step(SolverEvent::Sent { now_ms }) {
        SolverAction::WaitForNonce { timeout_ms } => assert_eq!(timeout_ms, MAX_READ_TIME_MS),
        other => panic!("expected a wait, got {:?}", other),
    }
}

#[test]
fn first_request_asks_for_work() {
    let mut solver = BlockErupterSolver::new();
    assert!(matches!(solver.step(SolverEvent::Next { now_ms: 5 }), SolverAction::GenerateWork));
    assert_eq!(solver.phase(), Phase::Generating);
}

#[test]
fn nonce_for_current_work_is_emitted() {
    let mut solver = BlockErupterSolver::new();
    solver.step(SolverEvent::Next { now_ms: 0 });
    let a0 = assignment(1);
    load(&mut solver, a0.clone(), 10);
    let s = emitted(solver.step(SolverEvent::Nonce { nonce: 0xdead_beef, now_ms: 20 }));
    assert_eq!(s.work.job, a0.job);
    assert_eq!(s.nonce(), 0xdead_beef);
    assert_eq!(s.solution.solution_id, 0);
    assert_eq!(s.midstate_idx(), 0);
    assert_eq!(s.timestamp_ms, Some(20));
    // the next request waits on the same work with what is left of the read time
    match solver.step(SolverEvent::Next { now_ms: 1010 }) {
        SolverAction::WaitForNonce { timeout_ms } => assert_eq!(timeout_ms, MAX_READ_TIME_MS - 1000),
        other => panic!("unexpected {:?}", other),
    }
    let s = emitted(solver.step(SolverEvent::Nonce { nonce: 7, now_ms: 1020 }));
    assert_eq!(s.solution.solution_id, 1);
}

#[test]
fn correlation_race_emits_previous_work_first() {
    let mut solver = BlockErupterSolver::new();
    solver.step(SolverEvent::Next { now_ms: 0 });
    let a0 = assignment(1);
    let a1 = assignment(2);
    load(&mut solver, a0.clone(), 0);
    assert!(matches!(solver.step(SolverEvent::NoNonce { now_ms: 12_700 }), SolverAction::GenerateWork));
    load(&mut solver, a1.clone(), 12_700);
    let first = emitted(solver.step(SolverEvent::Nonce { nonce: 42, now_ms: 12_701 }));
    assert_eq!(first.work.job, a0.job);
    assert_eq!(first.nonce(), 42);
    let second = emitted(solver.step(SolverEvent::Next { now_ms: 12_702 }));
    assert_eq!(second.work.job, a1.job);
    assert_eq!(second.nonce(), 42);
    assert_eq!(second.timestamp_ms, Some(12_701));
}

#[test]
fn late_wait_is_clamped_to_propagation_delay() {
    let mut solver = BlockErupterSolver::new();
    solver.step(SolverEvent::Next { now_ms: 0 });
    load(&mut solver, assignment(3), 0);
    emitted(solver.step(SolverEvent::Nonce { nonce: 1, now_ms: 1 }));
    match solver.step(SolverEvent::Next { now_ms: MAX_READ_TIME_MS - 10 }) {
        SolverAction::WaitForNonce { timeout_ms } => assert_eq!(timeout_ms, WAIT_TIMEOUT_MS),
        other => panic!("unexpected {:?}", other),
    }
}

#[test]
fn clock_regression_is_fatal() {
    let mut solver = BlockErupterSolver::new();
    solver.step(SolverEvent::Next { now_ms: 0 });
    load(&mut solver, assignment(4), 500);
    emitted(solver.step(SolverEvent::Nonce { nonce: 1, now_ms: 600 }));
    assert!(matches!(solver.step(SolverEvent::Next { now_ms: 100 }), SolverAction::Stop));
    assert!(matches!(solver.step(SolverEvent::Next { now_ms: 700 }), SolverAction::Stop));
    match solver.get_stop_reason() {
        Err(Error { kind: ErrorKind::Timer(_), .. }) => {}
        other => panic!("unexpected {:?}", other),
    }
}

#[test]
fn device_error_ends_stream() {
    let mut solver = BlockErupterSolver::new();
    solver.step(SolverEvent::Next { now_ms: 0 });
    load(&mut solver, assignment(5), 0);
    let error = Error::from_kind(ErrorKind::Usb("cannot read nonce".to_string()));
    assert!(matches!(solver.step(SolverEvent::DeviceError { error: error.clone() }), SolverAction::Stop));
    assert_eq!(solver.phase(), Phase::Terminated);
    assert_eq!(solver.get_stop_reason(), Err(error));
}

#[test]
fn end_of_work_stops_cleanly() {
    let mut solver = BlockErupterSolver::new();
    solver.step(SolverEvent::Next { now_ms: 0 });
    assert!(matches!(solver.step(SolverEvent::EndOfWork), SolverAction::Stop));
    assert!(matches!(solver.step(SolverEvent::Next { now_ms: 1 }), SolverAction::Stop));
    assert_eq!(solver.get_stop_reason(), Ok(()));
}

#[test]
fn unexpected_event_is_a_general_error() {
    let mut solver = BlockErupterSolver::new();
    assert!(matches!(solver.step(SolverEvent::Nonce { nonce: 1, now_ms: 0 }), SolverAction::Stop));
    match solver.get_stop_reason() {
        Err(Error { kind: ErrorKind::General(_), .. }) => {}
        other => panic!("unexpected {:?}", other),
    }
}

#[test]
fn work_without_midstates_is_refused() {
    let mut solver = BlockErupterSolver::new();
    solver.step(SolverEvent::Next { now_ms: 0 });
    let job = Job::new(1, [0; 32], [0; 32], 0, 0);
    let empty = Assignment::new(job, Vec::new(), 0);
    assert!(matches!(solver.step(SolverEvent::Work { work: empty, now_ms: 0 }), SolverAction::Stop));
}
