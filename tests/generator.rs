use bitcoin_hashes::sha256;
use bitcoin_hashes::HashEngine;
use bosminer_core::generator::{Generated, WorkGenerator};
use bosminer_core::job::JobChannel;
use bosminer_core::work::{Assignment, Job};

fn test_job(version: u32) -> Job {
    let mut previous_hash = [0u8; 32];
    let mut merkle_root = [0u8; 32];
    for i in 0..32 {
        previous_hash[i] = i as u8;
        merkle_root[i] = 0xa0 ^ (i as u8);
    }
    Job::new(version, previous_hash, merkle_root, 0x5d00_0000, 0x1d00_ffff)
}

fn expected_midstate(version: u32, job: &Job) -> [u8; 32] {
    let mut chunk = [0u8; 64];
    chunk[0..4].copy_from_slice(&version.to_le_bytes());
    chunk[4..36].copy_from_slice(&job.previous_hash);
    chunk[36..64].copy_from_slice(&job.merkle_root[..28]);
    let mut engine = sha256::HashEngine::default();
    engine.input(&chunk);
    engine.midstate().into_inner()
}

fn work(g: &mut WorkGenerator, c: &mut JobChannel) -> Assignment {
    match g.generate(c) {
        Generated::Work(a) => a,
        other => panic!("expected work, got {:?}", other),
    }
}

fn versions(a: &Assignment) -> Vec<u32> {
    a.midstates.iter().map(|m| m.version).collect()
}

#[test]
fn single_job_drain() {
    let mut channel = JobChannel::new();
    let mut generator = WorkGenerator::new(4);
    channel.publish(test_job(0x2000_0000));
    let first = work(&mut generator, &mut channel);
    assert_eq!(versions(&first), vec![0x2000_0000, 0x2000_2000, 0x2000_4000, 0x2000_6000]);
    let second = work(&mut generator, &mut channel);
    assert_eq!(versions(&second), vec![0x2000_8000, 0x2000_a000, 0x2000_c000, 0x2000_e000]);
}

#[test]
fn midstates_hash_the_rolled_header() {
    let mut channel = JobChannel::new();
    let mut generator = WorkGenerator::new(4);
    channel.publish(test_job(0x2000_0000));
    let a = work(&mut generator, &mut channel);
    for m in a.midstates.iter() {
        assert_eq!(m.state, expected_midstate(m.version, &a.job));
        assert_ne!(&m.state[..], &a.job.previous_hash[..]);
    }
    assert_eq!(a.ntime, a.job.ntime);
    assert_eq!(a.bits(), 0x1d00_ffff);
    assert_eq!(a.merkle_root_tail(), [0xa0 ^ 28, 0xa0 ^ 29, 0xa0 ^ 30, 0xa0 ^ 31]);
}

#[test]
fn job_turnover_resets_counter() {
    let mut channel = JobChannel::new();
    let mut generator = WorkGenerator::new(4);
    let id0 = channel.publish(test_job(0x2000_0000));
    let a0 = work(&mut generator, &mut channel);
    assert_eq!(a0.job.id, id0);
    let id1 = channel.publish(test_job(0x3fff_e004));
    assert_ne!(id0, id1);
    let a1 = work(&mut generator, &mut channel);
    assert_eq!(a1.job.id, id1);
    assert_eq!(a1.midstates[0].version, 0x3fff_e004 & !0x1fff_e000);
    assert_eq!(versions(&a1), vec![0x2000_0004, 0x2000_2004, 0x2000_4004, 0x2000_6004]);
}

#[test]
fn same_job_assignments_are_disjoint() {
    let mut channel = JobChannel::new();
    let mut generator = WorkGenerator::new(3);
    channel.publish(test_job(0x2000_0000));
    let mut seen = std::collections::HashSet::new();
    let mut id = None;
    for _ in 0..100 {
        let a = work(&mut generator, &mut channel);
        assert_eq!(*id.get_or_insert(a.job.id), a.job.id);
        for v in versions(&a) {
            assert!(seen.insert(v), "version {:08x} handed out twice", v);
        }
    }
}

#[test]
fn one_midstate_per_assignment() {
    let mut channel = JobChannel::new();
    let mut generator = WorkGenerator::new(1);
    channel.publish(test_job(0x2000_0000));
    for k in 0..3u32 {
        let a = work(&mut generator, &mut channel);
        assert_eq!(a.midstates.len(), 1);
        assert_eq!(a.midstates[0].version, 0x2000_0000 | (k << 13));
    }
}

#[test]
fn exhaustion_clears_job_and_blocks() {
    let mut channel = JobChannel::new();
    let mut generator = WorkGenerator::new(4);
    channel.publish(test_job(0x2000_0000));
    let mut last = None;
    for _ in 0..16384 {
        last = Some(work(&mut generator, &mut channel));
    }
    let last = last.unwrap();
    let expected: Vec<u32> = (65532u32..65536).map(|c| 0x2000_0000 | (c << 13)).collect();
    assert_eq!(versions(&last), expected);
    assert!(channel.take_current().is_none());
    assert!(matches!(generator.generate(&mut channel), Generated::Blocked));
    assert!(matches!(generator.generate(&mut channel), Generated::Blocked));
    // a fresh job is rolled from counter 0 again
    channel.publish(test_job(0x2000_0000));
    let again = work(&mut generator, &mut channel);
    assert_eq!(again.midstates[0].version, 0x2000_0000);
}

#[test]
fn cleared_channel_blocks_until_publish() {
    let mut channel = JobChannel::new();
    let mut generator = WorkGenerator::new(2);
    assert!(matches!(generator.generate(&mut channel), Generated::Blocked));
    channel.publish(test_job(0x2000_0000));
    work(&mut generator, &mut channel);
    channel.clear();
    assert!(matches!(generator.generate(&mut channel), Generated::Blocked));
    assert!(matches!(generator.generate(&mut channel), Generated::Blocked));
    let id = channel.publish(test_job(0x2000_0000));
    let a = work(&mut generator, &mut channel);
    assert_eq!(a.job.id, id);
    assert_eq!(a.midstates[0].version, 0x2000_0000);
}

#[test]
fn closed_upstream_ends_generation() {
    let mut channel = JobChannel::new();
    let mut generator = WorkGenerator::new(4);
    channel.close();
    assert!(channel.is_closed());
    assert!(matches!(generator.generate(&mut channel), Generated::Closed));
}

#[test]
fn publish_raises_event_only_on_empty_slot() {
    let mut channel = JobChannel::new();
    assert!(!channel.has_event());
    channel.publish(test_job(1));
    assert!(channel.has_event());
    assert!(channel.take_event());
    channel.publish(test_job(2));
    assert!(!channel.has_event());
    channel.clear();
    channel.publish(test_job(3));
    assert!(channel.has_event());
    assert_eq!(channel.take_current().unwrap().version, 3);
}

#[test]
fn max_midstate_count_gives_one_assignment_per_job() {
    let mut channel = JobChannel::new();
    let mut generator = WorkGenerator::new(65536);
    channel.publish(test_job(0x2000_0000));
    let a = work(&mut generator, &mut channel);
    assert_eq!(a.midstates.len(), 65536);
    assert_eq!(a.midstates[65535].version, 0x3fff_e000);
    assert!(matches!(generator.generate(&mut channel), Generated::Blocked));
}
