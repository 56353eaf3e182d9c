//! Block-header templates, units of hashing work and the solutions found for them.

use vstd::prelude::*;
use bitcoin_hashes::{sha256, sha256d, HashEngine};
use byteorder::{ByteOrder, LittleEndian};

verus! {

/// Bits of the header `version` that may be rolled by the miner (bits 13..29).
pub const VERSION_MASK: u32 = 0x1fffe000;

/// Position of the lowest rollable bit of `version`.
pub const VERSION_SHIFT: u32 = 13;

/// Number of distinct values of the rolling counter.
pub const VERSION_COUNTERS: usize = 65536;

/// The four bytes of `v`, least significant first.
pub open spec fn le_bytes(v: u32) -> Seq<u8> {
    seq![
        (v & 0xff) as u8,
        ((v >> 8) & 0xff) as u8,
        ((v >> 16) & 0xff) as u8,
        ((v >> 24) & 0xff) as u8,
    ]
}

/// Encoding a `u32` little-endian loses nothing.
pub proof fn lemma_le_bytes_injective(a: u32, b: u32)
    requires
        le_bytes(a) == le_bytes(b),
    ensures
        a == b,
{
    assert(le_bytes(a)[0] == le_bytes(b)[0]);
    assert(le_bytes(a)[1] == le_bytes(b)[1]);
    assert(le_bytes(a)[2] == le_bytes(b)[2]);
    assert(le_bytes(a)[3] == le_bytes(b)[3]);
    assert(a == b) by (bit_vector)
        requires
            (a & 0xff) as u8 == (b & 0xff) as u8,
            ((a >> 8) & 0xff) as u8 == ((b >> 8) & 0xff) as u8,
            ((a >> 16) & 0xff) as u8 == ((b >> 16) & 0xff) as u8,
            ((a >> 24) & 0xff) as u8 == ((b >> 24) & 0xff) as u8,
    ;
}

/// Relies on byteorder's `LittleEndian::write_u32`: it stores `v` into the first four
/// bytes of the buffer, least significant byte first.
#[verifier::external_body]
pub(crate) fn u32_to_le(v: u32) -> (r: [u8; 4])
    ensures
        r@ == le_bytes(v),
{
    let mut buf = [0u8; 4];
    LittleEndian::write_u32(&mut buf, v);
    buf
}

/// Relies on byteorder's `LittleEndian::read_u32`: it reads the first four bytes of the
/// slice, least significant byte first (and panics on a shorter slice).
#[verifier::external_body]
pub(crate) fn u32_from_le(b: &[u8]) -> (r: u32)
    requires
        b@.len() >= 4,
    ensures
        le_bytes(r) == b@.subrange(0, 4),
{
    LittleEndian::read_u32(b)
}

/// The eight bytes of `v`, least significant first.
pub open spec fn le_bytes64(v: u64) -> Seq<u8> {
    Seq::new(8, |i: int| ((v >> (8 * i) as u64) & 0xff) as u8)
}

/// Relies on byteorder's `LittleEndian::write_u64`: it stores `v` into the first eight
/// bytes of the buffer, least significant byte first.
#[verifier::external_body]
pub(crate) fn u64_to_le(v: u64) -> (r: [u8; 8])
    ensures
        r@ == le_bytes64(v),
{
    let mut buf = [0u8; 8];
    LittleEndian::write_u64(&mut buf, v);
    buf
}

/// The SHA-256 state after compressing one 64-byte block from the initial state.
pub uninterp spec fn sha256_midstate_of(block: Seq<u8>) -> Seq<u8>;

/// Relies on bitcoin_hashes: a fresh `sha256::HashEngine` (its `Default`) fed with one 64-byte block,
/// whose `midstate()` is the 32-byte chaining state after that block.
#[verifier::external_body]
pub(crate) fn sha256_midstate(block: &[u8; 64]) -> (r: [u8; 32])
    ensures
        r@ == sha256_midstate_of(block@),
{
    let mut engine = sha256::HashEngine::default();
    engine.input(block);
    engine.midstate().into_inner()
}

/// The double SHA-256 of a byte string.
pub uninterp spec fn sha256d_of(bytes: Seq<u8>) -> Seq<u8>;

/// Relies on bitcoin_hashes: `sha256d::Hash::hash`, the SHA-256 of the SHA-256 of the
/// bytes, as its 32 inner bytes.
#[verifier::external_body]
pub(crate) fn sha256d(bytes: &[u8; 80]) -> (r: [u8; 32])
    ensures
        r@ == sha256d_of(bytes@),
{
    <sha256d::Hash as bitcoin_hashes::Hash>::into_inner(<sha256d::Hash as bitcoin_hashes::Hash>::hash(bytes))
}

/// The 80-byte block header.
pub open spec fn header_bytes(
    version: u32,
    previous_hash: Seq<u8>,
    merkle_root: Seq<u8>,
    time: u32,
    bits: u32,
    nonce: u32,
) -> Seq<u8> {
    le_bytes(version) + previous_hash + merkle_root + le_bytes(time) + le_bytes(bits) + le_bytes(nonce)
}

/// The header `version` for rolling counter `counter` on top of `base`.
pub open spec fn version_at(base: u32, counter: int) -> u32 {
    base | ((counter as u32) << VERSION_SHIFT)
}

/// The first 64 bytes of a block header: `version`, the previous block hash and the
/// first 28 bytes of the merkle root.
pub open spec fn header_chunk(version: u32, previous_hash: Seq<u8>, merkle_root: Seq<u8>) -> Seq<u8> {
    le_bytes(version) + previous_hash + merkle_root.subrange(0, 28)
}

/// Whether `m.state` is the midstate of the header of `job` with version `m.version`.
pub open spec fn is_midstate_of(job: Job, m: Midstate) -> bool {
    m.state@ == sha256_midstate_of(header_chunk(m.version, job.previous_hash@, job.merkle_root@))
}

/// A block-header template published by the upstream job producer.
///
/// `id` is the job's identity: the job channel gives every published job an id of its own.
#[derive(Clone, Copy, Debug, PartialEq, Eq)]
pub struct Job {
    pub id: u64,
    pub version: u32,
    pub previous_hash: [u8; 32],
    pub merkle_root: [u8; 32],
    pub ntime: u32,
    pub bits: u32,
}

impl Job {
    /// A job with the given header fields and identity 0; publishing assigns it its own.
    pub fn new(version: u32, previous_hash: [u8; 32], merkle_root: [u8; 32], ntime: u32, bits: u32) -> (r: Job)
        ensures
            r.id == 0,
            r.version == version,
            r.previous_hash == previous_hash,
            r.merkle_root == merkle_root,
            r.ntime == ntime,
            r.bits == bits,
    {
        Job { id: 0, version, previous_hash, merkle_root, ntime, bits }
    }

    /// The part of `version` that rolling leaves alone: its bits outside the mining mask.
    pub fn base_version(&self) -> (r: u32)
        ensures
            r == self.version & !VERSION_MASK,
    {
        self.version & !VERSION_MASK
    }

    /// The last four bytes of the merkle root, which the device gets apart from the midstate.
    pub fn merkle_root_tail(&self) -> (r: [u8; 4])
        ensures
            r@ == self.merkle_root@.subrange(28, 32),
    {
        let r = [self.merkle_root[28], self.merkle_root[29], self.merkle_root[30], self.merkle_root[31]];
        assert(r@ =~= self.merkle_root@.subrange(28, 32));
        r
    }
}

/// The SHA-256 midstate of one header variant, with the `version` that produced it.
#[derive(Clone, Copy, Debug, PartialEq, Eq)]
pub struct Midstate {
    pub version: u32,
    pub state: [u8; 32],
}

/// One unit of hashing work: a job and the midstates of some of its header variants.
#[derive(Clone, Debug)]
pub struct Assignment {
    pub job: Job,
    pub midstates: Vec<Midstate>,
    pub ntime: u32,
}

impl Assignment {
    pub fn new(job: Job, midstates: Vec<Midstate>, ntime: u32) -> (r: Assignment)
        ensures
            r.job == job,
            r.midstates@ == midstates@,
            r.ntime == ntime,
    {
        Assignment { job, midstates, ntime }
    }

    /// A copy of this assignment with the same job, midstates and time.
    pub fn duplicate(&self) -> (r: Assignment)
        ensures
            r.job == self.job,
            r.midstates@ == self.midstates@,
            r.ntime == self.ntime,
    {
        let mut midstates: Vec<Midstate> = Vec::new();
        let mut i: usize = 0;
        while i < self.midstates.len()
            invariant
                i <= self.midstates@.len(),
                midstates@ == self.midstates@.subrange(0, i as int),
            decreases self.midstates@.len() - i,
        {
            midstates.push(self.midstates[i]);
            i += 1;
        }
        assert(midstates@ =~= self.midstates@);
        Assignment { job: self.job, midstates, ntime: self.ntime }
    }

    /// The difficulty target of the job, as carried in the header.
    pub fn bits(&self) -> (r: u32)
        ensures
            r == self.job.bits,
    {
        self.job.bits
    }

    pub fn merkle_root_tail(&self) -> (r: [u8; 4])
        ensures
            r@ == self.job.merkle_root@.subrange(28, 32),
    {
        self.job.merkle_root_tail()
    }
}

/// A nonce returned by a device, with where it was found.
#[derive(Clone, Copy, Debug, PartialEq, Eq)]
pub struct Solution {
    pub nonce: u32,
    pub ntime: Option<u32>,
    pub midstate_idx: usize,
    pub solution_idx: usize,
    pub solution_id: u32,
}

/// A solution paired with the assignment it was computed against and the time, in
/// milliseconds since the epoch, at which it was received.
#[derive(Clone, Debug)]
pub struct UniqueSolution {
    pub work: Assignment,
    pub solution: Solution,
    pub timestamp_ms: Option<u64>,
}

impl UniqueSolution {
    pub fn new(work: Assignment, solution: Solution, timestamp_ms: Option<u64>) -> (r: UniqueSolution)
        ensures
            r.work == work,
            r.solution == solution,
            r.timestamp_ms == timestamp_ms,
    {
        UniqueSolution { work, solution, timestamp_ms }
    }

    /// The job the solution belongs to: always the job of its assignment.
    pub fn job(&self) -> (r: Job)
        ensures
            r == self.work.job,
    {
        self.work.job
    }

    pub fn nonce(&self) -> (r: u32)
        ensures
            r == self.solution.nonce,
    {
        self.solution.nonce
    }

    pub fn midstate_idx(&self) -> (r: usize)
        ensures
            r == self.solution.midstate_idx,
    {
        self.solution.midstate_idx
    }

    /// The time of the header: the solution's own `ntime` where it has one, else the
    /// assignment's.
    pub fn time(&self) -> (r: u32)
        ensures
            r == match self.solution.ntime {
                Some(t) => t,
                None => self.work.ntime,
            },
    {
        match self.solution.ntime {
            Some(t) => t,
            None => self.work.ntime,
        }
    }

    /// The header that the solution completes: the version of its midstate, the job's
    /// hashes, the header time, the job's bits and the nonce.
    pub open spec fn header_spec(&self) -> Seq<u8> {
        header_bytes(
            self.work.midstates@[self.solution.midstate_idx as int].version,
            self.work.job.previous_hash@,
            self.work.job.merkle_root@,
            match self.solution.ntime {
                Some(t) => t,
                None => self.work.ntime,
            },
            self.work.job.bits,
            self.solution.nonce,
        )
    }

    pub fn header(&self) -> (r: [u8; 80])
        requires
            self.solution.midstate_idx < self.work.midstates@.len(),
        ensures
            r@ == self.header_spec(),
    {
        let ghost expected = self.header_spec();
        let v = u32_to_le(self.work.midstates[self.solution.midstate_idx].version);
        let t = u32_to_le(self.time());
        let b = u32_to_le(self.work.job.bits);
        let n = u32_to_le(self.solution.nonce);
        let prev = self.work.job.previous_hash;
        let merkle = self.work.job.merkle_root;
        let mut buf = [0u8; 80];
        let mut i: usize = 0;
        assert(expected.len() == 80);
        while i < 80
            invariant
                i <= 80,
                buf@.len() == 80,
                expected == self.header_spec(),
                expected.len() == 80,
                v@ == le_bytes(self.work.midstates@[self.solution.midstate_idx as int].version),
                t@ == le_bytes(match self.solution.ntime {
                    Some(x) => x,
                    None => self.work.ntime,
                }),
                b@ == le_bytes(self.work.job.bits),
                n@ == le_bytes(self.solution.nonce),
                prev == self.work.job.previous_hash,
                merkle == self.work.job.merkle_root,
                forall|k: int| 0 <= k < i ==> buf@[k] == expected[k],
            decreases 80 - i,
        {
            let x = if i < 4 {
                v[i]
            } else if i < 36 {
                prev[i - 4]
            } else if i < 68 {
                merkle[i - 36]
            } else if i < 72 {
                t[i - 68]
            } else if i < 76 {
                b[i - 72]
            } else {
                n[i - 76]
            };
            assert(x == expected[i as int]);
            buf.set(i, x);
            i += 1;
        }
        assert(buf@ =~= expected);
        buf
    }

    /// The hash of the header that the solution completes.
    pub fn hash(&self) -> (r: [u8; 32])
        requires
            self.solution.midstate_idx < self.work.midstates@.len(),
        ensures
            r@ == sha256d_of(self.header_spec()),
    {
        sha256d(&self.header())
    }
}

/// What a work engine hands out on one request.
#[derive(Clone, Debug)]
pub enum LoopState<T> {
    /// More work remains after this one.
    Continue(T),
    /// This is the last work: the engine is exhausted afterwards.
    Break(T),
    /// No work is available.
    Exhausted,
}

} // verus!
