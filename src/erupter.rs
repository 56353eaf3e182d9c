//! The Block Erupter solver: the decisions of the loop that feeds a USB hashing device with
//! work and turns the nonces it returns into solutions.
//!
//! The loop itself (transfers, the clock, the work generator) runs outside; after each
//! step it hands the solver an event and performs the action the solver returns.

use vstd::prelude::*;
use crate::error::{Error, ErrorKind};
use crate::icarus::{nonce_timeout, nonce_timeout_spec, WorkPayload};
use crate::work::{Assignment, Solution, UniqueSolution};

verus! {

/// What the solver is waiting for.
#[derive(Clone, Copy, Debug, PartialEq, Eq, Structural)]
pub enum Phase {
    /// Between two requests for a solution.
    Idle,
    /// For the device to return a nonce, or for the wait to time out.
    WaitingNonce,
    /// For the work generator.
    Generating,
    /// For the work to be written to the device.
    Sending,
    /// Nothing: the stream of solutions has ended.
    Terminated,
}

/// What happened outside since the solver's last action.
#[derive(Clone, Debug)]
pub enum SolverEvent {
    /// The next solution is asked for.
    Next { now_ms: u64 },
    /// The device returned a nonce.
    Nonce { nonce: u32, now_ms: u64 },
    /// The wait for a nonce timed out.
    NoNonce { now_ms: u64 },
    /// The work generator produced work.
    Work { work: Assignment, now_ms: u64 },
    /// The work generator has no more work.
    EndOfWork,
    /// The work was written to the device.
    Sent { now_ms: u64 },
    /// A transfer failed.
    DeviceError { error: Error },
}

/// What the loop does next.
#[derive(Clone, Debug)]
pub enum SolverAction {
    /// Hand this solution to the caller.
    Emit(UniqueSolution),
    /// Wait for a nonce for at most this many milliseconds.
    WaitForNonce { timeout_ms: u64 },
    /// Ask the work generator for work.
    GenerateWork,
    /// Write this payload to the device.
    SendWork(WorkPayload),
    /// End the stream of solutions.
    Stop,
}

/// What the solver holds, as plain values.
pub struct SolverView {
    pub phase: Phase,
    pub work_start_ms: u64,
    pub curr_work: Option<Assignment>,
    pub next_solution: Option<UniqueSolution>,
    pub solution_id: u32,
    pub stop_reason: Result<(), Error>,
    pub prev_work: Option<(Assignment, u32)>,
}

/// Whether two assignments are the same work.
pub open spec fn same_work(a: Assignment, b: Assignment) -> bool {
    &&& a.job == b.job
    &&& a.midstates@ == b.midstates@
    &&& a.ntime == b.ntime
}

/// Whether `s` is the solution `nonce`, received at `now_ms`, for `work`, as the
/// `id`-th solution of that work.
pub open spec fn is_solution_for(s: UniqueSolution, work: Assignment, nonce: u32, now_ms: u64, id: u32) -> bool {
    &&& same_work(s.work, work)
    &&& s.solution == (Solution { nonce, ntime: None, midstate_idx: 0, solution_idx: 0, solution_id: id })
    &&& s.timestamp_ms == Some(now_ms)
}

/// The state reached, and the action taken, when the loop goes round again at `now_ms`
/// from state `s`: wait for a nonce for the current work, or fetch new work.
pub open spec fn resumes(s: SolverView, now_ms: u64, t: SolverView, r: SolverAction) -> bool {
    if s.stop_reason is Err {
        t == s && r is Stop
    } else if s.curr_work.is_some() {
        if now_ms < s.work_start_ms {
            &&& t == (SolverView {
                phase: Phase::Terminated,
                stop_reason: t.stop_reason,
                ..s
            })
            &&& t.stop_reason is Err
            &&& t.stop_reason->Err_0.kind is Timer
            &&& t.stop_reason->Err_0.kind->Timer_0@ == "cannot measure elapsed time of work solution"@
            &&& r is Stop
        } else {
            &&& t == (SolverView { phase: Phase::WaitingNonce, ..s })
            &&& r == SolverAction::WaitForNonce {
                timeout_ms: nonce_timeout_spec((now_ms - s.work_start_ms) as u64),
            }
        }
    } else {
        &&& t == (SolverView { phase: Phase::Generating, prev_work: None, ..s })
        &&& r is GenerateWork
    }
}

/// Whether `p` is the payload that puts `work` on the device: its first midstate and the
/// rest of its header.
pub open spec fn payload_for(p: WorkPayload, work: Assignment) -> bool {
    &&& p.midstate == work.midstates@[0].state
    &&& p.merkle_root_tail@ == work.job.merkle_root@.subrange(28, 32)
    &&& p.ntime == work.ntime
    &&& p.bits == work.job.bits
}

/// Whether the solver went from `s` to `t` by ending the stream with an error of kind
/// `General`, returning `r`.
pub open spec fn fails_generally(s: SolverView, t: SolverView, r: SolverAction) -> bool {
    &&& t == (SolverView { phase: Phase::Terminated, stop_reason: t.stop_reason, ..s })
    &&& t.stop_reason is Err
    &&& t.stop_reason->Err_0.kind is General
    &&& r is Stop
}

/// Feeds a Block Erupter with work and correlates the nonces it returns.
pub struct BlockErupterSolver {
    phase: Phase,
    work_start_ms: u64,
    curr_work: Option<Assignment>,
    next_solution: Option<UniqueSolution>,
    solution_id: u32,
    stop_reason: Result<(), Error>,
    prev_work: Option<(Assignment, u32)>,
}

impl View for BlockErupterSolver {
    type V = SolverView;

    closed spec fn view(&self) -> SolverView {
        SolverView {
            phase: self.phase,
            work_start_ms: self.work_start_ms,
            curr_work: self.curr_work,
            next_solution: self.next_solution,
            solution_id: self.solution_id,
            stop_reason: self.stop_reason,
            prev_work: self.prev_work,
        }
    }
}

impl BlockErupterSolver {
    /// The solver's invariant: waiting on the device means there is work on it, a deferred
    /// solution waits only between requests, an error has ended the stream, and every
    /// piece of work held has a midstate.
    pub open spec fn wf(&self) -> bool {
        &&& (self@.phase == Phase::WaitingNonce || self@.phase == Phase::Sending) ==> self@.curr_work.is_some()
        &&& self@.next_solution.is_some() ==> (self@.phase == Phase::Idle || self@.phase == Phase::Terminated)
        &&& self@.stop_reason is Err ==> self@.phase == Phase::Terminated
        &&& self@.curr_work is Some ==> self@.curr_work->Some_0.midstates@.len() > 0
        &&& self@.prev_work is Some ==> self@.prev_work->Some_0.0.midstates@.len() > 0
        &&& self@.next_solution is Some ==> self@.next_solution->Some_0.solution.midstate_idx
            < self@.next_solution->Some_0.work.midstates@.len()
    }

    /// A solver with no work on the device yet.
    pub fn new() -> (r: BlockErupterSolver)
        ensures
            r.wf(),
            r@.phase == Phase::Idle,
            r@.curr_work.is_none(),
            r@.next_solution.is_none(),
            r@.prev_work.is_none(),
            r@.solution_id == 0,
            r@.work_start_ms == 0,
            r@.stop_reason is Ok,
    {
        BlockErupterSolver {
            phase: Phase::Idle,
            work_start_ms: 0,
            curr_work: None,
            next_solution: None,
            solution_id: 0,
            stop_reason: Ok(()),
            prev_work: None,
        }
    }

    pub fn phase(&self) -> (r: Phase)
        ensures
            r == self@.phase,
    {
        self.phase
    }

    /// Why the stream of solutions ended: `Ok` when the work ran out, else the error.
    pub fn get_stop_reason(self) -> (r: Result<(), Error>)
        ensures
            r == self@.stop_reason,
    {
        self.stop_reason
    }

    /// Ends the stream with `error`.
    fn fail(&mut self, error: Error) -> (r: SolverAction)
        ensures
            final(self)@ == (SolverView { phase: Phase::Terminated, stop_reason: Err(error), ..old(self)@ }),
            r is Stop,
    {
        self.stop_reason = Err(error);
        self.phase = Phase::Terminated;
        SolverAction::Stop
    }

    /// Moves the current work aside, with the number of solutions it has had, and asks
    /// for new work.
    fn switch_work(&mut self) -> (r: SolverAction)
        ensures
            final(self)@ == (SolverView {
                phase: Phase::Generating,
                curr_work: None,
                prev_work: match old(self)@.curr_work {
                    Some(w) => Some((w, old(self)@.solution_id)),
                    None => None,
                },
                ..old(self)@
            }),
            r is GenerateWork,
    {
        self.prev_work = match self.curr_work.take() {
            Some(w) => Some((w, self.solution_id)),
            None => None,
        };
        self.phase = Phase::Generating;
        SolverAction::GenerateWork
    }

    /// Goes round the loop again at `now_ms`.
    fn resume(&mut self, now_ms: u64) -> (r: SolverAction)
        ensures
            resumes(old(self)@, now_ms, final(self)@, r),
    {
        if self.stop_reason.is_err() {
            return SolverAction::Stop;
        }
        if self.curr_work.is_some() {
            if now_ms < self.work_start_ms {
                return self.fail(Error::from_kind(
                    ErrorKind::Timer("cannot measure elapsed time of work solution".to_owned()),
                ));
            }
            self.phase = Phase::WaitingNonce;
            SolverAction::WaitForNonce { timeout_ms: nonce_timeout(now_ms - self.work_start_ms) }
        } else {
            self.switch_work()
        }
    }
}


impl BlockErupterSolver {
    /// Takes in what happened outside and decides what to do next.
    ///
    /// A nonce found right after new work was sent most likely belongs to the work sent
    /// before: the solution for that work is emitted first, and the one for the new work
    /// is kept for the next request. An event that the current phase does not wait for
    /// ends the stream with an error.
    pub fn step(&mut self, event: SolverEvent) -> (r: SolverAction)
        requires
            old(self).wf(),
        ensures
            final(self).wf(),
            r is Emit ==> r->Emit_0.solution.midstate_idx < r->Emit_0.work.midstates@.len(),
            old(self)@.phase == Phase::Terminated ==> final(self)@ == old(self)@ && r is Stop,
            old(self)@.phase != Phase::Terminated ==> match event {
                SolverEvent::Next { now_ms } => if old(self)@.phase != Phase::Idle {
                    fails_generally(old(self)@, final(self)@, r)
                } else if old(self)@.next_solution.is_some() {
                    &&& r == SolverAction::Emit(old(self)@.next_solution->Some_0)
                    &&& final(self)@ == (SolverView { next_solution: None, ..old(self)@ })
                } else {
                    resumes(SolverView { prev_work: None, ..old(self)@ }, now_ms, final(self)@, r)
                },
                SolverEvent::Nonce { nonce, now_ms } => if old(self)@.phase != Phase::WaitingNonce {
                    fails_generally(old(self)@, final(self)@, r)
                } else if old(self)@.solution_id == u32::MAX {
                    &&& fails_generally(old(self)@, final(self)@, r)
                    &&& final(self)@.stop_reason->Err_0.kind->General_0@ == "too many solutions"@
                } else {
                    let w = old(self)@.curr_work->Some_0;
                    let id = old(self)@.solution_id;
                    &&& r is Emit
                    &&& final(self)@.phase == Phase::Idle
                    &&& final(self)@.curr_work == old(self)@.curr_work
                    &&& final(self)@.solution_id == id + 1
                    &&& final(self)@.prev_work.is_none()
                    &&& final(self)@.work_start_ms == old(self)@.work_start_ms
                    &&& final(self)@.stop_reason == old(self)@.stop_reason
                    &&& match old(self)@.prev_work {
                        None => {
                            &&& is_solution_for(r->Emit_0, w, nonce, now_ms, id)
                            &&& final(self)@.next_solution.is_none()
                        },
                        Some((pw, pid)) => {
                            &&& is_solution_for(r->Emit_0, pw, nonce, now_ms, pid)
                            &&& final(self)@.next_solution.is_some()
                            &&& is_solution_for(final(self)@.next_solution->Some_0, w, nonce, now_ms, id)
                        },
                    }
                },
                SolverEvent::NoNonce { now_ms } => if old(self)@.phase != Phase::WaitingNonce {
                    fails_generally(old(self)@, final(self)@, r)
                } else {
                    &&& final(self)@ == (SolverView {
                        phase: Phase::Generating,
                        curr_work: None,
                        prev_work: Some((old(self)@.curr_work->Some_0, old(self)@.solution_id)),
                        ..old(self)@
                    })
                    &&& r is GenerateWork
                },
                SolverEvent::Work { work, now_ms } => if old(self)@.phase != Phase::Generating
                    || work.midstates@.len() == 0 {
                    fails_generally(old(self)@, final(self)@, r)
                } else {
                    &&& final(self)@ == (SolverView {
                        phase: Phase::Sending,
                        curr_work: Some(work),
                        work_start_ms: now_ms,
                        solution_id: 0,
                        ..old(self)@
                    })
                    &&& r is SendWork
                    &&& payload_for(r->SendWork_0, work)
                },
                SolverEvent::EndOfWork => if old(self)@.phase != Phase::Generating {
                    fails_generally(old(self)@, final(self)@, r)
                } else {
                    &&& final(self)@ == (SolverView { phase: Phase::Terminated, ..old(self)@ })
                    &&& r is Stop
                },
                SolverEvent::Sent { now_ms } => if old(self)@.phase != Phase::Sending {
                    fails_generally(old(self)@, final(self)@, r)
                } else {
                    resumes(old(self)@, now_ms, final(self)@, r)
                },
                SolverEvent::DeviceError { error } => if old(self)@.phase != Phase::WaitingNonce
                    && old(self)@.phase != Phase::Sending {
                    fails_generally(old(self)@, final(self)@, r)
                } else {
                    &&& final(self)@ == (SolverView {
                        phase: Phase::Terminated,
                        stop_reason: Err(error),
                        ..old(self)@
                    })
                    &&& r is Stop
                },
            },
    {
        if self.phase == Phase::Terminated {
            return SolverAction::Stop;
        }
        match event {
            SolverEvent::Next { now_ms } => {
                if self.phase != Phase::Idle {
                    return self.unexpected();
                }
                if let Some(solution) = self.next_solution.take() {
                    // the deferred solution for the work sent last
                    return SolverAction::Emit(solution);
                }
                self.prev_work = None;
                self.resume(now_ms)
            },
            SolverEvent::Nonce { nonce, now_ms } => {
                if self.phase != Phase::WaitingNonce {
                    return self.unexpected();
                }
                if self.solution_id == u32::MAX {
                    return self.fail(Error::from_kind(ErrorKind::General("too many solutions".to_owned())));
                }
                let solution = match &self.curr_work {
                    Some(work) => Self::create_unique_solution(work.duplicate(), nonce, now_ms, self.solution_id),
                    None => {
                        return self.unexpected();
                    },
                };
                self.solution_id = self.solution_id + 1;
                self.phase = Phase::Idle;
                match self.prev_work.take() {
                    None => SolverAction::Emit(solution),
                    Some((prev_work, prev_solution_id)) => {
                        // the nonce came so soon after the switch that it most likely belongs
                        // to the work sent before
                        self.next_solution = Some(solution);
                        SolverAction::Emit(Self::create_unique_solution(prev_work, nonce, now_ms, prev_solution_id))
                    },
                }
            },
            SolverEvent::NoNonce { now_ms } => {
                if self.phase != Phase::WaitingNonce {
                    return self.unexpected();
                }
                self.switch_work()
            },
            SolverEvent::Work { work, now_ms } => {
                if self.phase != Phase::Generating || work.midstates.len() == 0 {
                    return self.unexpected();
                }
                let payload = WorkPayload::new(
                    &work.midstates[0].state,
                    work.merkle_root_tail(),
                    work.ntime,
                    work.bits(),
                );
                self.work_start_ms = now_ms;
                self.curr_work = Some(work);
                self.solution_id = 0;
                self.phase = Phase::Sending;
                SolverAction::SendWork(payload)
            },
            SolverEvent::EndOfWork => {
                if self.phase != Phase::Generating {
                    return self.unexpected();
                }
                self.phase = Phase::Terminated;
                SolverAction::Stop
            },
            SolverEvent::Sent { now_ms } => {
                if self.phase != Phase::Sending {
                    return self.unexpected();
                }
                self.resume(now_ms)
            },
            SolverEvent::DeviceError { error } => {
                if self.phase != Phase::WaitingNonce && self.phase != Phase::Sending {
                    return self.unexpected();
                }
                self.fail(error)
            },
        }
    }

    /// Ends the stream on an event that the current phase does not wait for.
    fn unexpected(&mut self) -> (r: SolverAction)
        ensures
            fails_generally(old(self)@, final(self)@, r),
    {
        self.fail(Error::from_kind(ErrorKind::General("unexpected solver event".to_owned())))
    }

    /// The solution `nonce`, received at `timestamp_ms`, for `work`.
    fn create_unique_solution(work: Assignment, nonce: u32, timestamp_ms: u64, solution_id: u32) -> (r: UniqueSolution)
        ensures
            is_solution_for(r, work, nonce, timestamp_ms, solution_id),
            r.work == work,
    {
        UniqueSolution::new(
            work,
            Solution { nonce, ntime: None, midstate_idx: 0, solution_idx: 0, solution_id },
            Some(timestamp_ms),
        )
    }
}

} // verus!
