use bosminer_core::engine::{engine_channel, Generator, WorkEngine};
use bosminer_core::test_utils::{
    create_test_work_generator, create_test_work_receiver, test_blocks, OneWorkEngine, TestBlock,
    TestWorkEngine,
};
use bosminer_core::work::{Assignment, Job, LoopState};
use bosminer_core::workhub::prepare_test_work;

fn cmp_block_with_work(block: &TestBlock, work: Assignment) -> Assignment {
    assert_eq!(block.midstate().state, work.midstates[0].state);
    assert_eq!(block.merkle_root_tail(), work.merkle_root_tail());
    assert_eq!(block.time(), work.ntime);
    assert_eq!(block.bits(), work.bits());
    work
}

fn map_state(state: LoopState<Assignment>, block: &TestBlock) -> LoopState<Assignment> {
    match state {
        LoopState::Continue(w) => LoopState::Continue(cmp_block_with_work(block, w)),
        LoopState::Break(w) => LoopState::Break(cmp_block_with_work(block, w)),
        LoopState::Exhausted => LoopState::Exhausted,
    }
}

#[test]
fn test_work_receiver() {
    let mut work_receiver = create_test_work_receiver();
    // test work engine is not exhausted so it should return the same engine
    let first = work_receiver.get_engine().expect("cannot get test work engine");
    let again = work_receiver.get_engine().expect("cannot get test work engine");
    assert!(std::ptr::eq(first, again));
    let mut test_engine = work_receiver.take_engine().expect("cannot get test work engine");

    let mut work_break = false;
    for block in test_blocks().iter() {
        match map_state(test_engine.next_work(), block) {
            LoopState::Exhausted => panic!("test work generator returned less work than expected"),
            LoopState::Break(_) => {
                assert!(!work_break, "test work generator returned double break");
                work_break = true;
            }
            LoopState::Continue(_) => {
                assert!(!work_break, "test work generator continues after break")
            }
        }
    }
    assert!(work_break, "test work generator returned more work than expected");
    match test_engine.next_work() {
        LoopState::Exhausted => (),
        _ => panic!("test work generator continues after returning all work"),
    };
}

#[test]
fn one_work_engine_yields_once() {
    let job = Job::new(1, [1; 32], [2; 32], 3, 4);
    let mut engine = OneWorkEngine::new(prepare_test_work(9, job));
    assert!(!engine.is_exhausted());
    match engine.next_work() {
        LoopState::Break(w) => assert_eq!(w.job, job),
        _ => panic!("expected the one work as the last"),
    }
    assert!(engine.is_exhausted());
    assert!(matches!(engine.next_work(), LoopState::Exhausted));
}

#[test]
fn exhaustion_sends_one_reschedule() {
    let job = Job::new(1, [1; 32], [2; 32], 3, 4);
    let mut generator = Generator::new(engine_channel(true));
    assert!(generator.generate().is_none());
    generator.broadcast(WorkEngine::OneWork(OneWorkEngine::new(prepare_test_work(1, job))));
    assert!(!generator.take_reschedule());
    let w = generator.generate().expect("the one work");
    assert_eq!(w.job, job);
    assert!(generator.take_reschedule());
    assert!(!generator.take_reschedule());
    assert!(generator.generate().is_none());
    assert!(!generator.take_reschedule());
}

#[test]
fn test_generator_hands_out_all_blocks() {
    let mut generator = create_test_work_generator();
    let blocks = test_blocks();
    for block in blocks.iter() {
        let w = generator.generate().expect("work for every block");
        assert_eq!(w.job, block.job());
        assert_eq!(w.midstates.len(), 1);
    }
    assert!(generator.generate().is_none());
    // no reschedule channel was asked for
    assert!(!generator.take_reschedule());
}

#[test]
fn test_engine_over_no_blocks_is_exhausted() {
    let mut engine = TestWorkEngine::from_blocks(Vec::new());
    assert!(engine.is_exhausted());
    assert!(matches!(engine.next_work(), LoopState::Exhausted));
}

#[test]
fn prepared_test_work_tags_midstate() {
    let job = Job::new(1, [0; 32], [0; 32], 77, 0);
    let w = prepare_test_work(0x0102_0304_0506_0708, job);
    assert_eq!(w.ntime, 77);
    assert_eq!(w.midstates[0].version, 0);
    assert_eq!(&w.midstates[0].state[..8], &[8, 7, 6, 5, 4, 3, 2, 1]);
    assert_eq!(&w.midstates[0].state[8..], &[0u8; 24]);
}
