//! The hub between the upstream job producer and a hashing backend: the job channel and
//! work generator on one side, the queue of solutions on the other.

use vstd::prelude::*;
use crate::generator::{Generated, WorkGenerator};
use crate::job::JobChannel;
use crate::work::{le_bytes64, u64_to_le, Assignment, Job, Midstate, UniqueSolution, VERSION_COUNTERS};

verus! {

/// Solutions on their way from backends to the orchestrator, first in, first out.
pub struct SolutionQueue {
    items: Vec<UniqueSolution>,
}

impl View for SolutionQueue {
    type V = Seq<UniqueSolution>;

    closed spec fn view(&self) -> Seq<UniqueSolution> {
        self.items@
    }
}

impl SolutionQueue {
    pub fn new() -> (r: SolutionQueue)
        ensures
            r@.len() == 0,
    {
        SolutionQueue { items: Vec::new() }
    }

    pub fn len(&self) -> (r: usize)
        ensures
            r == self@.len(),
    {
        self.items.len()
    }

    /// Puts a solution at the back of the queue.
    pub fn send(&mut self, solution: UniqueSolution)
        ensures
            final(self)@ == old(self)@.push(solution),
    {
        self.items.push(solution);
    }

    /// Takes the solution at the front of the queue, if any.
    pub fn receive(&mut self) -> (r: Option<UniqueSolution>)
        ensures
            old(self)@.len() == 0 ==> r is None && final(self)@ == old(self)@,
            old(self)@.len() > 0 ==> r == Some(old(self)@[0]) && final(self)@ == old(self)@.drop_first(),
    {
        if self.items.len() == 0 {
            None
        } else {
            let s = self.items.remove(0);
            assert(self.items@ =~= old(self)@.drop_first());
            Some(s)
        }
    }
}

/// The job channel, the work generator reading it and the queue of solutions, owned
/// together.
pub struct WorkHub {
    pub generator: WorkGenerator,
    pub jobs: JobChannel,
    pub solutions: SolutionQueue,
}

impl WorkHub {
    pub open spec fn wf(&self) -> bool {
        self.generator.wf()
    }

    /// A hub with no job yet, whose generator hands out `midstates` midstates per
    /// assignment.
    pub fn new(midstates: usize) -> (r: WorkHub)
        requires
            1 <= midstates <= VERSION_COUNTERS,
        ensures
            r.wf(),
            r.generator@.current.is_none(),
            r.generator@.midstates == midstates,
            r.jobs@.slot.is_none(),
            !r.jobs@.event,
            !r.jobs@.closed,
            r.jobs@.next_id == 1,
            r.solutions@.len() == 0,
    {
        WorkHub { generator: WorkGenerator::new(midstates), jobs: JobChannel::new(), solutions: SolutionQueue::new() }
    }

    /// The next assignment for the hardware.
    pub fn generate_work(&mut self) -> (r: Generated)
        requires
            old(self).wf(),
        ensures
            final(self).wf(),
            final(self).solutions@ == old(self).solutions@,
            r is Work <==> crate::generator::finds_job(old(self).generator@, old(self).jobs@),
            r is Work ==> crate::generator::generated_from(old(self).generator@, old(self).jobs@, r->Work_0),
    {
        self.generator.generate(&mut self.jobs)
    }

    /// Hands a solution found by the hardware to the orchestrator.
    pub fn send_solution(&mut self, solution: UniqueSolution)
        ensures
            final(self).solutions@ == old(self).solutions@.push(solution),
            final(self).generator == old(self).generator,
            final(self).jobs@ == old(self).jobs@,
    {
        self.solutions.send(solution);
    }

    /// Publishes a job from upstream; returns the identity it was given.
    pub fn send_job(&mut self, job: Job) -> (id: u64)
        requires
            old(self).jobs@.next_id < u64::MAX,
        ensures
            id == old(self).jobs@.next_id,
            final(self).jobs@.slot == Some(Job { id, ..job }),
            final(self).jobs@.event == (old(self).jobs@.event || old(self).jobs@.slot.is_none()),
            final(self).jobs@.closed == old(self).jobs@.closed,
            final(self).jobs@.next_id == id + 1,
            final(self).generator == old(self).generator,
            final(self).solutions@ == old(self).solutions@,
    {
        self.jobs.publish(job)
    }

    /// The oldest solution not yet received.
    pub fn receive_solution(&mut self) -> (r: Option<UniqueSolution>)
        ensures
            old(self).solutions@.len() == 0 ==> r is None && final(self).solutions@ == old(self).solutions@,
            old(self).solutions@.len() > 0 ==> r == Some(old(self).solutions@[0])
                && final(self).solutions@ == old(self).solutions@.drop_first(),
            final(self).generator == old(self).generator,
            final(self).jobs@ == old(self).jobs@,
    {
        self.solutions.receive()
    }
}

/// Work for `job` with one made-up midstate whose first eight bytes hold `i`, so that
/// each `i` gives work of its own.
pub fn prepare_test_work(i: u64, job: Job) -> (r: Assignment)
    ensures
        r.job == job,
        r.ntime == job.ntime,
        r.midstates@.len() == 1,
        r.midstates@[0].version == 0,
        r.midstates@[0].state@ == le_bytes64(i) + Seq::new(24, |k: int| 0u8),
{
    let le = u64_to_le(i);
    let mut state = [0u8; 32];
    let mut k: usize = 0;
    while k < 8
        invariant
            k <= 8,
            state@.len() == 32,
            le@ == le_bytes64(i),
            forall|j: int| 0 <= j < k ==> state@[j] == le@[j],
            forall|j: int| 8 <= j < 32 ==> state@[j] == 0u8,
        decreases 8 - k,
    {
        state.set(k, le[k]);
        k += 1;
    }
    assert(state@ =~= le_bytes64(i) + Seq::new(24, |k: int| 0u8));
    let mut midstates: Vec<Midstate> = Vec::new();
    midstates.push(Midstate { version: 0, state });
    Assignment::new(job, midstates, job.ntime)
}

} // verus!
