use bosminer_core::error::{from_error, from_error_kind, usb_error, Error, ErrorKind};
use bosminer_core::stats::{shares_to_hashes, Mining, MiningError, MiningSample, ShareCounter};
use bosminer_core::work::{Assignment, Job, Midstate, Solution, UniqueSolution};
use bosminer_core::workhub::WorkHub;

#[test]
fn share_accounting_adds_k_times_d() {
    let mut counter = ShareCounter::new();
    for _ in 0..5 {
        counter.account_solution(256);
    }
    assert_eq!(counter.shares, 5 * 256);
    assert_eq!(counter.take(), 1280);
    assert_eq!(counter.shares, 0);
}

#[test]
fn share_counter_wraps() {
    let mut counter = ShareCounter { shares: u64::MAX };
    counter.account_solution(2);
    assert_eq!(counter.shares, 1);
}

#[test]
fn shares_are_2_pow_32_hashes() {
    assert_eq!(shares_to_hashes(1), 4_294_967_296);
    assert_eq!(shares_to_hashes(256), 1_099_511_627_776);
    assert_eq!(shares_to_hashes(u64::MAX), (u64::MAX as u128) << 32);
}

#[test]
fn mining_sample_resets_counters() {
    let mut m = Mining::new();
    m.work_generated = 3;
    m.unique_solutions = 2;
    m.unique_solutions_shares = 512;
    m.error_stats.stale_solutions = 1;
    let s = m.take_sample();
    assert_eq!(s, MiningSample { solved_shares: 512, work_generated: 3, unique_solutions: 2 });
    assert_eq!(m.work_generated + m.unique_solutions as usize + m.unique_solutions_shares as usize, 0);
    assert_eq!(m.error_stats.stale_solutions, 1);
    assert!(m.errors_changed(&MiningError::new()));
    assert!(!Mining::new().errors_changed(&MiningError::new()));
}

#[test]
fn error_kinds() {
    assert_eq!(from_error_kind("boom".to_string()).kind(), ErrorKind::Backend("boom".to_string()));
    let e = from_error("usb gone".to_string());
    assert_eq!(e.kind(), ErrorKind::Backend("usb gone".to_string()));
    assert_eq!(e.cause, Some("usb gone".to_string()));
    let u = usb_error("cannot send work", Some("Pipe".to_string()));
    assert_eq!(u.kind(), ErrorKind::Usb("cannot send work".to_string()));
    let t = Error::with_cause(ErrorKind::Timer("clock".to_string()), "went back".to_string());
    assert_eq!(t.kind(), ErrorKind::Timer("clock".to_string()));
    let i = Error::from_kind(ErrorKind::Io("read".to_string()));
    assert_eq!(i.cause, None);
    assert_eq!(Error::from_kind(ErrorKind::General("g".to_string())).kind(), ErrorKind::General("g".to_string()));
}

fn solution(tag: u32) -> UniqueSolution {
    let job = Job::new(tag, [0; 32], [0; 32], 0, 0);
    let work = Assignment::new(job, vec![Midstate { version: tag, state: [0; 32] }], 0);
    let s = Solution { nonce: tag, ntime: None, midstate_idx: 0, solution_idx: 0, solution_id: 0 };
    UniqueSolution::new(work, s, None)
}

#[test]
fn hub_solutions_are_fifo() {
    let mut hub = WorkHub::new(4);
    assert!(hub.receive_solution().is_none());
    hub.send_solution(solution(1));
    hub.send_solution(solution(2));
    assert_eq!(hub.receive_solution().unwrap().nonce(), 1);
    assert_eq!(hub.receive_solution().unwrap().nonce(), 2);
    assert!(hub.receive_solution().is_none());
}

#[test]
fn hub_generates_from_sent_job() {
    let mut hub = WorkHub::new(4);
    let id = hub.send_job(Job::new(0x2000_0000, [0; 32], [0; 32], 1, 2));
    match hub.generate_work() {
        bosminer_core::generator::Generated::Work(a) => {
            assert_eq!(a.job.id, id);
            assert_eq!(a.midstates.len(), 4);
        }
        other => panic!("unexpected {:?}", other),
    }
}

#[test]
fn solution_time_prefers_own_ntime() {
    let mut s = solution(3);
    assert_eq!(s.time(), 0);
    s.solution.ntime = Some(99);
    assert_eq!(s.time(), 99);
    assert_eq!(s.job().version, 3);
}

#[test]
fn unique_solution_accounting() {
    let mut m = Mining::new();
    m.account_unique_solution(256);
    m.account_unique_solution(256);
    assert_eq!(m.unique_solutions, 2);
    assert_eq!(m.unique_solutions_shares, 512);
    assert_eq!(m.work_generated, 0);
}
