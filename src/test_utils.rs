//! Known blocks and the work engines built on them, for exercising backends.

use vstd::prelude::*;
use crate::engine::{engine_channel, EngineReceiver, Generator, WorkEngine};
use crate::generator::header_chunk_bytes;
use crate::work::{is_midstate_of, sha256_midstate, Assignment, Job, LoopState, Midstate};

verus! {

/// A mined block: its header fields, the nonce that solves it and its hash, byte arrays
/// in the order of the serialized header.
#[derive(Clone, Copy, Debug, PartialEq, Eq)]
pub struct TestBlock {
    pub version: u32,
    pub previous_hash: [u8; 32],
    pub merkle_root: [u8; 32],
    pub time: u32,
    pub bits: u32,
    pub nonce: u32,
    pub hash: [u8; 32],
}

/// The job of a test block.
pub open spec fn block_job(b: TestBlock) -> Job {
    Job { id: 0, version: b.version, previous_hash: b.previous_hash, merkle_root: b.merkle_root, ntime: b.time, bits: b.bits }
}

/// Whether `w` is the work for test block `b`: its job and the one midstate of its header.
pub open spec fn is_block_work(b: TestBlock, w: Assignment) -> bool {
    &&& w.job == block_job(b)
    &&& w.ntime == b.time
    &&& w.midstates@.len() == 1
    &&& w.midstates@[0].version == b.version
    &&& is_midstate_of(w.job, w.midstates@[0])
}

impl TestBlock {
    pub fn version(&self) -> (r: u32)
        ensures
            r == self.version,
    {
        self.version
    }

    /// Test blocks allow no version rolling.
    pub fn version_mask(&self) -> (r: u32)
        ensures
            r == 0,
    {
        0
    }

    pub fn previous_hash(&self) -> (r: [u8; 32])
        ensures
            r == self.previous_hash,
    {
        self.previous_hash
    }

    pub fn merkle_root(&self) -> (r: [u8; 32])
        ensures
            r == self.merkle_root,
    {
        self.merkle_root
    }

    pub fn time(&self) -> (r: u32)
        ensures
            r == self.time,
    {
        self.time
    }

    /// Test blocks are always valid jobs.
    pub fn is_valid(&self) -> (r: bool)
        ensures
            r,
    {
        true
    }

    pub fn bits(&self) -> (r: u32)
        ensures
            r == self.bits,
    {
        self.bits
    }

    pub fn merkle_root_tail(&self) -> (r: [u8; 4])
        ensures
            r@ == self.merkle_root@.subrange(28, 32),
    {
        let r = [self.merkle_root[28], self.merkle_root[29], self.merkle_root[30], self.merkle_root[31]];
        assert(r@ =~= self.merkle_root@.subrange(28, 32));
        r
    }

    /// The job whose header this block has.
    pub fn job(&self) -> (r: Job)
        ensures
            r == block_job(*self),
    {
        Job::new(self.version, self.previous_hash, self.merkle_root, self.time, self.bits)
    }

    /// The midstate of the block's header.
    pub fn midstate(&self) -> (r: Midstate)
        ensures
            r.version == self.version,
            is_midstate_of(block_job(*self), r),
    {
        let chunk = header_chunk_bytes(self.version, &self.previous_hash, &self.merkle_root);
        Midstate { version: self.version, state: sha256_midstate(&chunk) }
    }

    /// Work with the block's header as its only midstate.
    pub fn to_work(&self) -> (r: Assignment)
        ensures
            is_block_work(*self, r),
    {
        let mut midstates: Vec<Midstate> = Vec::new();
        midstates.push(self.midstate());
        Assignment::new(self.job(), midstates, self.time)
    }
}

/// Hash of the genesis block, in header byte order.
pub const BLOCK0_HASH: [u8; 32] = [
    0x6f, 0xe2, 0x8c, 0x0a, 0xb6, 0xf1, 0xb3, 0x72, 0xc1, 0xa6, 0xa2, 0x46, 0xae, 0x63, 0xf7, 0x4f,
    0x93, 0x1e, 0x83, 0x65, 0xe1, 0x5a, 0x08, 0x9c, 0x68, 0xd6, 0x19, 0x00, 0x00, 0x00, 0x00, 0x00,
];
/// Merkle root of the genesis block.
pub const BLOCK0_MERKLE_ROOT: [u8; 32] = [
    0x3b, 0xa3, 0xed, 0xfd, 0x7a, 0x7b, 0x12, 0xb2, 0x7a, 0xc7, 0x2c, 0x3e, 0x67, 0x76, 0x8f, 0x61,
    0x7f, 0xc8, 0x1b, 0xc3, 0x88, 0x8a, 0x51, 0x32, 0x3a, 0x9f, 0xb8, 0xaa, 0x4b, 0x1e, 0x5e, 0x4a,
];
/// Hash of block 1.
pub const BLOCK1_HASH: [u8; 32] = [
    0x48, 0x60, 0xeb, 0x18, 0xbf, 0x1b, 0x16, 0x20, 0xe3, 0x7e, 0x94, 0x90, 0xfc, 0x8a, 0x42, 0x75,
    0x14, 0x41, 0x6f, 0xd7, 0x51, 0x59, 0xab, 0x86, 0x68, 0x8e, 0x9a, 0x83, 0x00, 0x00, 0x00, 0x00,
];
/// Merkle root of block 1.
pub const BLOCK1_MERKLE_ROOT: [u8; 32] = [
    0x98, 0x20, 0x51, 0xfd, 0x1e, 0x4b, 0xa7, 0x44, 0xbb, 0xbe, 0x68, 0x0e, 0x1f, 0xee, 0x14, 0x67,
    0x7b, 0xa1, 0xa3, 0xc3, 0x54, 0x0b, 0xf7, 0xb1, 0xcd, 0xb6, 0x06, 0xe8, 0x57, 0x23, 0x3e, 0x0e,
];
/// Hash of block 2.
pub const BLOCK2_HASH: [u8; 32] = [
    0xbd, 0xdd, 0x99, 0xcc, 0xfd, 0xa3, 0x9d, 0xa1, 0xb1, 0x08, 0xce, 0x1a, 0x5d, 0x70, 0x03, 0x8d,
    0x0a, 0x96, 0x7b, 0xac, 0xb6, 0x8b, 0x6b, 0x63, 0x06, 0x5f, 0x62, 0x6a, 0x00, 0x00, 0x00, 0x00,
];
/// Merkle root of block 2.
pub const BLOCK2_MERKLE_ROOT: [u8; 32] = [
    0xd5, 0xfd, 0xcc, 0x54, 0x1e, 0x25, 0xde, 0x1c, 0x7a, 0x5a, 0xdd, 0xed, 0xf2, 0x48, 0x58, 0xb8,
    0xbb, 0x66, 0x5c, 0x9f, 0x36, 0xef, 0x74, 0x4e, 0xe4, 0x2c, 0x31, 0x60, 0x22, 0xc9, 0x0f, 0x9b,
];
/// Previous-block hash of the genesis block.
pub const NO_BLOCK_HASH: [u8; 32] = [
    0, 0, 0, 0, 0, 0, 0, 0, 0, 0, 0, 0, 0, 0, 0, 0,
    0, 0, 0, 0, 0, 0, 0, 0, 0, 0, 0, 0, 0, 0, 0, 0,
];
/// Difficulty target of the first blocks.
pub const FIRST_BITS: u32 = 0x1d00ffff;

pub open spec fn block0() -> TestBlock {
    TestBlock {
        version: 1,
        previous_hash: NO_BLOCK_HASH,
        merkle_root: BLOCK0_MERKLE_ROOT,
        time: 1231006505,
        bits: FIRST_BITS,
        nonce: 2083236893,
        hash: BLOCK0_HASH,
    }
}

pub open spec fn block1() -> TestBlock {
    TestBlock {
        version: 1,
        previous_hash: BLOCK0_HASH,
        merkle_root: BLOCK1_MERKLE_ROOT,
        time: 1231469665,
        bits: FIRST_BITS,
        nonce: 2573394689,
        hash: BLOCK1_HASH,
    }
}

pub open spec fn block2() -> TestBlock {
    TestBlock {
        version: 1,
        previous_hash: BLOCK1_HASH,
        merkle_root: BLOCK2_MERKLE_ROOT,
        time: 1231469744,
        bits: FIRST_BITS,
        nonce: 1639830024,
        hash: BLOCK2_HASH,
    }
}

/// The fixture: the genesis block of the Bitcoin main chain and its two successors.
pub open spec fn fixture_blocks() -> Seq<TestBlock> {
    seq![block0(), block1(), block2()]
}

/// The first blocks of the Bitcoin main chain: the genesis block and its two successors.
pub fn test_blocks() -> (r: Vec<TestBlock>)
    ensures
        r@ == fixture_blocks(),
{
    let mut blocks: Vec<TestBlock> = Vec::new();
    blocks.push(TestBlock {
        version: 1,
        previous_hash: NO_BLOCK_HASH,
        merkle_root: BLOCK0_MERKLE_ROOT,
        time: 1231006505,
        bits: FIRST_BITS,
        nonce: 2083236893,
        hash: BLOCK0_HASH,
    });
    blocks.push(TestBlock {
        version: 1,
        previous_hash: BLOCK0_HASH,
        merkle_root: BLOCK1_MERKLE_ROOT,
        time: 1231469665,
        bits: FIRST_BITS,
        nonce: 2573394689,
        hash: BLOCK1_HASH,
    });
    blocks.push(TestBlock {
        version: 1,
        previous_hash: BLOCK1_HASH,
        merkle_root: BLOCK2_MERKLE_ROOT,
        time: 1231469744,
        bits: FIRST_BITS,
        nonce: 1639830024,
        hash: BLOCK2_HASH,
    });
    assert(blocks@ =~= fixture_blocks());
    blocks
}

/// The state of an engine that carries exactly one piece of work.
#[derive(Debug)]
struct OneWorkEngineInner {
    work: Option<Assignment>,
}

impl OneWorkEngineInner {
    fn is_exhausted(&self) -> (r: bool)
        ensures
            r == self.work.is_none(),
    {
        self.work.is_none()
    }

    fn next_work(&mut self) -> (r: LoopState<Assignment>)
        ensures
            final(self).work.is_none(),
            match old(self).work {
                Some(w) => r == LoopState::Break(w),
                None => r is Exhausted,
            },
    {
        match self.work.take() {
            Some(work) => LoopState::Break(work),
            None => LoopState::Exhausted,
        }
    }
}

/// A work engine that carries exactly one piece of work.
#[derive(Debug)]
pub struct OneWorkEngine {
    inner: OneWorkEngineInner,
}

impl View for OneWorkEngine {
    type V = Option<Assignment>;

    closed spec fn view(&self) -> Option<Assignment> {
        self.inner.work
    }
}

impl OneWorkEngine {
    pub fn new(work: Assignment) -> (r: OneWorkEngine)
        ensures
            r@ == Some(work),
    {
        OneWorkEngine { inner: OneWorkEngineInner { work: Some(work) } }
    }

    fn lock_inner(&mut self) -> (r: &mut OneWorkEngineInner)
        ensures
            *r == old(self).inner,
            final(self).inner == *final(r),
    {
        &mut self.inner
    }

    pub fn is_exhausted(&self) -> (r: bool)
        ensures
            r == self@.is_none(),
    {
        self.inner.is_exhausted()
    }

    /// The one piece of work, as the last; afterwards nothing.
    pub fn next_work(&mut self) -> (r: LoopState<Assignment>)
        ensures
            final(self)@.is_none(),
            match old(self)@ {
                Some(w) => r == LoopState::Break(w),
                None => r is Exhausted,
            },
    {
        self.lock_inner().next_work()
    }
}

/// What a test-block engine holds: the blocks, and the index of the next one to hand out.
pub struct TestWorkEngineView {
    pub blocks: Seq<TestBlock>,
    pub next: nat,
}

#[derive(Debug)]
struct TestWorkEngineInner {
    blocks: Vec<TestBlock>,
    next: usize,
}

impl TestWorkEngineInner {
    spec fn wf(&self) -> bool {
        self.next <= self.blocks@.len()
    }

    fn is_exhausted(&self) -> (r: bool)
        requires
            self.wf(),
        ensures
            r == (self.next == self.blocks@.len()),
    {
        self.next == self.blocks.len()
    }

    fn next_work(&mut self) -> (r: LoopState<Assignment>)
        requires
            old(self).wf(),
        ensures
            final(self).wf(),
            final(self).blocks == old(self).blocks,
            old(self).next == old(self).blocks@.len() ==> r is Exhausted && final(self).next == old(self).next,
            old(self).next < old(self).blocks@.len() ==> {
                &&& final(self).next == old(self).next + 1
                &&& match r {
                    LoopState::Continue(w) => final(self).next < final(self).blocks@.len()
                        && is_block_work(old(self).blocks@[old(self).next as int], w),
                    LoopState::Break(w) => final(self).next == final(self).blocks@.len()
                        && is_block_work(old(self).blocks@[old(self).next as int], w),
                    LoopState::Exhausted => false,
                }
            },
    {
        if self.is_exhausted() {
            return LoopState::Exhausted;
        }
        let len = self.blocks.len();
        let work = self.blocks[self.next].to_work();
        self.next = self.next + 1;
        if self.next == len {
            LoopState::Break(work)
        } else {
            LoopState::Continue(work)
        }
    }
}

/// A work engine that hands out the work of each test block in turn.
#[derive(Debug)]
pub struct TestWorkEngine {
    inner: TestWorkEngineInner,
}

impl View for TestWorkEngine {
    type V = TestWorkEngineView;

    closed spec fn view(&self) -> TestWorkEngineView {
        TestWorkEngineView { blocks: self.inner.blocks@, next: self.inner.next as nat }
    }
}

impl TestWorkEngine {
    /// An engine over all the known test blocks.
    pub fn new() -> (r: TestWorkEngine)
        ensures
            r.wf(),
            r@.blocks == fixture_blocks(),
            r@.next == 0,
    {
        Self::from_blocks(test_blocks())
    }

    /// An engine over the given blocks.
    pub fn from_blocks(blocks: Vec<TestBlock>) -> (r: TestWorkEngine)
        ensures
            r.wf(),
            r@.blocks == blocks@,
            r@.next == 0,
    {
        TestWorkEngine { inner: TestWorkEngineInner { blocks, next: 0 } }
    }

    pub open spec fn wf(&self) -> bool {
        self@.next <= self@.blocks.len()
    }

    fn lock_inner(&mut self) -> (r: &mut TestWorkEngineInner)
        ensures
            *r == old(self).inner,
            final(self).inner == *final(r),
    {
        &mut self.inner
    }

    pub fn is_exhausted(&self) -> (r: bool)
        requires
            self.wf(),
        ensures
            r == (self@.next == self@.blocks.len()),
    {
        self.inner.is_exhausted()
    }

    /// The work of the next block: the last one as `Break`, the others as `Continue`.
    pub fn next_work(&mut self) -> (r: LoopState<Assignment>)
        requires
            old(self).wf(),
        ensures
            final(self).wf(),
            final(self)@.blocks == old(self)@.blocks,
            old(self)@.next == old(self)@.blocks.len() ==> r is Exhausted && final(self)@ == old(self)@,
            old(self)@.next < old(self)@.blocks.len() ==> {
                &&& final(self)@.next == old(self)@.next + 1
                &&& match r {
                    LoopState::Continue(w) => final(self)@.next < final(self)@.blocks.len()
                        && is_block_work(old(self)@.blocks[old(self)@.next as int], w),
                    LoopState::Break(w) => final(self)@.next == final(self)@.blocks.len()
                        && is_block_work(old(self)@.blocks[old(self)@.next as int], w),
                    LoopState::Exhausted => false,
                }
            },
    {
        self.lock_inner().next_work()
    }
}

/// An engine channel whose engine hands out the work of all test blocks.
pub fn create_test_work_receiver() -> (r: EngineReceiver)
    ensures
        r.wf(),
        r@.engine == Some(WorkEngine::Test(r@.engine->Some_0->Test_0)),
        r@.engine->Some_0->Test_0@.blocks == fixture_blocks(),
        r@.engine->Some_0->Test_0@.next == 0,
        r@.reschedule.is_none(),
{
    let work_engine = TestWorkEngine::new();
    let mut receiver = engine_channel(false);
    receiver.broadcast(WorkEngine::Test(work_engine));
    receiver
}

/// A generator fed by the test-block engine.
pub fn create_test_work_generator() -> (r: Generator)
    ensures
        r.wf(),
        r@.engine is Some,
        r@.engine->Some_0 is Test,
        r@.engine->Some_0->Test_0@.blocks == fixture_blocks(),
        r@.engine->Some_0->Test_0@.next == 0,
        r@.reschedule.is_none(),
{
    Generator::new(create_test_work_receiver())
}

} // verus!
