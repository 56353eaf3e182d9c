//! The work generator: rolls the `version` field of the current job and hands out
//! assignments of `M` midstates each.

use vstd::prelude::*;
use crate::job::{JobChannel, JobChannelView};
use crate::work::{
    header_chunk, is_midstate_of, sha256_midstate, sha256_midstate_of, u32_to_le, version_at, Assignment, Job,
    Midstate, VERSION_COUNTERS, VERSION_MASK, VERSION_SHIFT,
};

verus! {

/// The versions for `count` consecutive counters from `start`, on top of `base`.
pub open spec fn rolled_versions(base: u32, start: int, count: int) -> Seq<u32> {
    Seq::new(count as nat, |i: int| version_at(base, start + i))
}

/// Distinct counters give distinct versions when the base has no bit in the mask.
pub proof fn lemma_version_at_injective(base: u32, c1: int, c2: int)
    requires
        base & VERSION_MASK == 0,
        0 <= c1 < VERSION_COUNTERS,
        0 <= c2 < VERSION_COUNTERS,
        version_at(base, c1) == version_at(base, c2),
    ensures
        c1 == c2,
{
    let a = c1 as u32;
    let b = c2 as u32;
    assert(a == b) by (bit_vector)
        requires
            base & 0x1fffe000u32 == 0,
            a < 65536,
            b < 65536,
            base | (a << 13u32) == base | (b << 13u32),
    ;
}

/// Two blocks of counters that do not overlap give versions that do not overlap: what
/// makes the assignments handed out for one job cover disjoint parts of the search space.
pub proof fn lemma_rolled_blocks_disjoint(base: u32, s1: int, s2: int, m: int)
    requires
        base & VERSION_MASK == 0,
        0 <= s1,
        s1 + m <= s2,
        s2 + m <= VERSION_COUNTERS,
    ensures
        forall|i: int, j: int|
            0 <= i < m && 0 <= j < m ==> rolled_versions(base, s1, m)[i] != rolled_versions(base, s2, m)[j],
{
    assert forall|i: int, j: int| 0 <= i < m && 0 <= j < m implies
        rolled_versions(base, s1, m)[i] != rolled_versions(base, s2, m)[j] by {
        if version_at(base, s1 + i) == version_at(base, s2 + j) {
            lemma_version_at_injective(base, s1 + i, s2 + j);
        }
    }
}

/// What a generator holds, as plain values.
pub struct GeneratorView {
    pub current: Option<Job>,
    pub midstates: nat,
    pub next_version: nat,
    pub base_version: u32,
}

/// The versions handed out so far for the generator's current job.
pub open spec fn issued_versions(g: GeneratorView) -> Set<u32> {
    Set::new(|v: u32| exists|c: int| 0 <= c < g.next_version && v == version_at(g.base_version, c))
}

/// Whether the next work comes from a job other than the one being rolled.
pub open spec fn adopts_new_job(g: GeneratorView, c: JobChannelView) -> bool {
    match g.current {
        None => true,
        Some(j) => match c.slot {
            Some(t) => t.id != j.id,
            None => false,
        },
    }
}

/// Whether a generator call finds a job to work on.
pub open spec fn finds_job(g: GeneratorView, c: JobChannelView) -> bool {
    c.slot.is_some() && (g.current.is_some() || c.event)
}

/// The first counter of the next assignment.
pub open spec fn start_counter(g: GeneratorView, c: JobChannelView) -> int {
    if adopts_new_job(g, c) { 0 } else { g.next_version as int }
}

/// Whether the assignment from `start` is the last one of its job.
pub open spec fn ends_job(start: int, m: int) -> bool {
    start + 2 * m > VERSION_COUNTERS
}

/// The result of one generator call.
#[derive(Clone, Debug)]
pub enum Generated {
    /// The next assignment.
    Work(Assignment),
    /// No job to work on yet: the caller waits for the "new job" event and asks again.
    Blocked,
    /// No job to work on and the upstream is gone.
    Closed,
}

/// The result of looking for the job to work on.
enum JobPoll {
    Ready(Job, bool),
    Blocked,
    Closed,
}

/// Rolls header versions of the latest job into assignments.
pub struct WorkGenerator {
    current: Option<Job>,
    midstates: usize,
    next_version: u32,
    base_version: u32,
}

impl View for WorkGenerator {
    type V = GeneratorView;

    closed spec fn view(&self) -> GeneratorView {
        GeneratorView {
            current: self.current,
            midstates: self.midstates as nat,
            next_version: self.next_version as nat,
            base_version: self.base_version,
        }
    }
}

/// The 64 bytes whose SHA-256 midstate the device starts from.
pub(crate) fn header_chunk_bytes(version: u32, previous_hash: &[u8; 32], merkle_root: &[u8; 32]) -> (r: [u8; 64])
    ensures
        r@ == header_chunk(version, previous_hash@, merkle_root@),
{
    let ghost chunk = header_chunk(version, previous_hash@, merkle_root@);
    let v = u32_to_le(version);
    let mut buf = [0u8; 64];
    let mut i: usize = 0;
    assert(chunk.len() == 64);
    while i < 64
        invariant
            i <= 64,
            buf@.len() == 64,
            v@ == crate::work::le_bytes(version),
            chunk == header_chunk(version, previous_hash@, merkle_root@),
            chunk.len() == 64,
            forall|k: int| 0 <= k < i ==> buf@[k] == chunk[k],
        decreases 64 - i,
    {
        let b = if i < 4 {
            v[i]
        } else if i < 36 {
            previous_hash[i - 4]
        } else {
            merkle_root[i - 36]
        };
        assert(b == chunk[i as int]);
        buf.set(i, b);
        i += 1;
    }
    assert(buf@ =~= header_chunk(version, previous_hash@, merkle_root@));
    buf
}

/// What holds of an assignment handed out by a generator in state `g` with the channel
/// in state `c`.
pub open spec fn generated_from(g: GeneratorView, c: JobChannelView, a: Assignment) -> bool {
    let m = g.midstates as int;
    let start = start_counter(g, c);
    &&& a.job.id == c.slot->Some_0.id
    &&& adopts_new_job(g, c) ==> Some(a.job) == c.slot
    &&& !adopts_new_job(g, c) ==> Some(a.job) == g.current
    &&& a.ntime == a.job.ntime
    &&& a.midstates@.len() == m
    &&& forall|i: int| #![trigger a.midstates@[i]] 0 <= i < m ==> {
        &&& a.midstates@[i].version == version_at(a.job.version & !VERSION_MASK, start + i)
        &&& is_midstate_of(a.job, a.midstates@[i])
    }
}

impl WorkGenerator {
    /// The generator's invariant: a midstate count that fits the counter space, and, while a
    /// job is rolled, room for one more assignment and the job's base version.
    pub open spec fn wf(&self) -> bool {
        &&& 1 <= self@.midstates <= VERSION_COUNTERS
        &&& self@.next_version <= VERSION_COUNTERS
        &&& self@.current.is_some() ==> {
            &&& self@.next_version + self@.midstates <= VERSION_COUNTERS
            &&& self@.base_version == self@.current->Some_0.version & !VERSION_MASK
        }
    }

    /// A generator with no job yet, handing out `midstates` midstates per assignment.
    pub fn new(midstates: usize) -> (r: WorkGenerator)
        requires
            1 <= midstates <= VERSION_COUNTERS,
        ensures
            r.wf(),
            r@.current.is_none(),
            r@.midstates == midstates,
            r@.next_version == 0,
            r@.base_version == 0,
    {
        WorkGenerator { current: None, midstates, next_version: 0, base_version: 0 }
    }

    pub fn midstate_count(&self) -> (r: usize)
        ensures
            r == self@.midstates,
    {
        self.midstates
    }

    /// Finds the job to work on and whether it replaces the one being rolled.
    fn get_job(&mut self, channel: &mut JobChannel) -> (r: JobPoll)
        requires
            old(self).wf(),
        ensures
            final(self).wf(),
            final(self)@.midstates == old(self)@.midstates,
            final(self)@.next_version == old(self)@.next_version,
            final(self)@.base_version == old(self)@.base_version,
            final(channel)@ == (JobChannelView {
                event: old(channel)@.event && old(self)@.current.is_some(),
                ..old(channel)@
            }),
            match r {
                JobPoll::Ready(job, new_job) => {
                    &&& finds_job(old(self)@, old(channel)@)
                    &&& job.id == old(channel)@.slot->Some_0.id
                    &&& new_job == adopts_new_job(old(self)@, old(channel)@)
                    &&& new_job ==> Some(job) == old(channel)@.slot
                    &&& !new_job ==> Some(job) == old(self)@.current
                    &&& final(self)@.current == old(self)@.current
                },
                JobPoll::Blocked => {
                    &&& !finds_job(old(self)@, old(channel)@)
                    &&& !(old(self)@.current.is_none() && !old(channel)@.event && old(channel)@.closed)
                    &&& final(self)@.current.is_none()
                },
                JobPoll::Closed => {
                    &&& old(self)@.current.is_none() && !old(channel)@.event && old(channel)@.closed
                    &&& final(self)@.current.is_none()
                },
            },
    {
        let mut new_job = self.current.is_none();
        if new_job {
            if !channel.take_event() {
                if channel.is_closed() {
                    return JobPoll::Closed;
                }
                return JobPoll::Blocked;
            }
        }
        match channel.take_current() {
            None => {
                // the job was cleared meanwhile: wait for the next one
                self.current = None;
                JobPoll::Blocked
            },
            Some(top) => {
                match self.current {
                    Some(cur) => {
                        if !new_job && cur.id == top.id {
                            JobPoll::Ready(cur, false)
                        } else {
                            JobPoll::Ready(top, true)
                        }
                    },
                    None => JobPoll::Ready(top, true),
                }
            },
        }
    }

    /// Clears the current job once its search space is used up: the next call waits
    /// for a newly published job.
    fn finish_current_job(&mut self, channel: &mut JobChannel)
        requires
            1 <= old(self)@.midstates <= VERSION_COUNTERS,
            old(self)@.next_version <= VERSION_COUNTERS,
        ensures
            final(self).wf(),
            final(self)@ == (GeneratorView { current: None, ..old(self)@ }),
            final(channel)@ == (JobChannelView { slot: None, ..old(channel)@ }),
    {
        channel.clear();
        self.current = None;
    }
}


impl WorkGenerator {
    /// Rolls the versions of the next assignment of `job`; clears the job when no further
    /// assignment would fit in the counter space.
    fn next_versions(&mut self, job: &Job, new_job: bool, channel: &mut JobChannel) -> (r: Vec<u32>)
        requires
            old(self).wf(),
            new_job || old(self)@.current == Some(*job),
        ensures
            final(self).wf(),
            final(self)@.midstates == old(self)@.midstates,
            ({
                let m = old(self)@.midstates as int;
                let start = if new_job { 0 } else { old(self)@.next_version as int };
                let base = job.version & !VERSION_MASK;
                &&& r@ == rolled_versions(base, start, m)
                &&& base & VERSION_MASK == 0
                &&& start + m <= VERSION_COUNTERS
                &&& final(self)@.next_version == start + m
                &&& final(self)@.base_version == base
                &&& if ends_job(start, m) {
                    &&& final(self)@.current.is_none()
                    &&& final(channel)@ == (JobChannelView { slot: None, ..old(channel)@ })
                } else {
                    &&& final(self)@.current == Some(*job)
                    &&& final(channel)@ == old(channel)@
                }
            }),
    {
        let m = self.midstates;
        let start: usize = if new_job { 0 } else { self.next_version as usize };
        assert(start + m <= VERSION_COUNTERS);
        let base: u32 = if new_job { job.base_version() } else { self.base_version };
        let ghost v = job.version;
        assert((v & !0x1fffe000u32) & 0x1fffe000u32 == 0) by (bit_vector);
        let mut versions: Vec<u32> = Vec::with_capacity(m);
        let mut i: usize = 0;
        while i < m
            invariant
                i <= m,
                start + m <= VERSION_COUNTERS,
                versions@ == rolled_versions(base, start as int, i as int),
            decreases m - i,
        {
            let counter = start + i;
            versions.push(base | ((counter as u32) << VERSION_SHIFT));
            i += 1;
            assert(versions@ =~= rolled_versions(base, start as int, i as int));
        }
        let end = start + m;
        self.current = Some(*job);
        self.next_version = end as u32;
        self.base_version = base;
        if end + m > VERSION_COUNTERS {
            self.finish_current_job(channel);
        }
        versions
    }

    /// Hands out the next assignment of the latest job.
    ///
    /// A job newly found in the channel is rolled from counter 0; the job being rolled
    /// continues where its previous assignment ended. The assignment that leaves no room
    /// for another clears the channel's slot, and later calls wait for a new job.
    pub fn generate(&mut self, channel: &mut JobChannel) -> (r: Generated)
        requires
            old(self).wf(),
        ensures
            final(self).wf(),
            final(self)@.midstates == old(self)@.midstates,
            r is Work <==> finds_job(old(self)@, old(channel)@),
            r is Closed <==> (old(self)@.current.is_none() && !old(channel)@.event && old(channel)@.closed),
            old(channel)@.slot.is_none() ==> !(r is Work),
            !(r is Work) ==> final(self)@.current.is_none(),
            final(channel)@.event == (old(channel)@.event && old(self)@.current.is_some()),
            final(channel)@.closed == old(channel)@.closed,
            final(channel)@.next_id == old(channel)@.next_id,
            !(r is Work) ==> final(channel)@.slot == old(channel)@.slot,
            r is Work ==> ({
                let a = r->Work_0;
                let m = old(self)@.midstates as int;
                let start = start_counter(old(self)@, old(channel)@);
                &&& generated_from(old(self)@, old(channel)@, a)
                &&& !adopts_new_job(old(self)@, old(channel)@) ==> forall|i: int|
                    0 <= i < m ==> !issued_versions(old(self)@).contains(#[trigger] a.midstates@[i].version)
                &&& final(self)@.next_version == start + m
                &&& if ends_job(start, m) {
                    &&& final(self)@.current.is_none()
                    &&& final(channel)@.slot.is_none()
                } else {
                    &&& final(self)@.current == Some(a.job)
                    &&& final(channel)@.slot == old(channel)@.slot
                    &&& forall|i: int| 0 <= i < m ==> issued_versions(final(self)@).contains(
                        #[trigger] a.midstates@[i].version)
                    &&& !adopts_new_job(old(self)@, old(channel)@) ==> issued_versions(old(self)@)
                        <= issued_versions(final(self)@)
                }
            }),
    {
        let ghost g0 = self@;
        let ghost c0 = channel@;
        let (job, new_job) = match self.get_job(channel) {
            JobPoll::Ready(job, new_job) => (job, new_job),
            JobPoll::Blocked => {
                return Generated::Blocked;
            },
            JobPoll::Closed => {
                return Generated::Closed;
            },
        };
        let versions = self.next_versions(&job, new_job, channel);
        let ghost m = g0.midstates as int;
        let ghost start = start_counter(g0, c0);
        let ghost base = job.version & !VERSION_MASK;
        let mut midstates: Vec<Midstate> = Vec::with_capacity(versions.len());
        let mut i: usize = 0;
        while i < versions.len()
            invariant
                i <= versions@.len(),
                midstates@.len() == i,
                forall|k: int| #![trigger midstates@[k]] 0 <= k < i ==> {
                    &&& midstates@[k].version == versions@[k]
                    &&& is_midstate_of(job, midstates@[k])
                },
            decreases versions@.len() - i,
        {
            let version = versions[i];
            let chunk = header_chunk_bytes(version, &job.previous_hash, &job.merkle_root);
            let state = sha256_midstate(&chunk);
            midstates.push(Midstate { version, state });
            i += 1;
        }
        let a = Assignment { job, midstates, ntime: job.ntime };
        proof {
            assert(versions@ == rolled_versions(base, start, m));
            if !adopts_new_job(g0, c0) {
                assert forall|i: int| 0 <= i < m implies !issued_versions(g0).contains(
                    #[trigger] a.midstates@[i].version) by {
                    if issued_versions(g0).contains(a.midstates@[i].version) {
                        let c = choose|c: int| 0 <= c < g0.next_version
                            && a.midstates@[i].version == version_at(g0.base_version, c);
                        lemma_version_at_injective(base, c, start + i);
                    }
                }
            }
            if !ends_job(start, m) {
                let g2 = self@;
                assert forall|i: int| 0 <= i < m implies issued_versions(g2).contains(
                    #[trigger] a.midstates@[i].version) by {
                    assert(0 <= start + i < g2.next_version);
                }
                if !adopts_new_job(g0, c0) {
                    assert forall|v: u32| issued_versions(g0).contains(v) implies issued_versions(g2).contains(v) by {
                        let c = choose|c: int| 0 <= c < g0.next_version && v == version_at(g0.base_version, c);
                        assert(0 <= c < g2.next_version);
                    }
                }
            }
        }
        Generated::Work(a)
    }
}

} // verus!
