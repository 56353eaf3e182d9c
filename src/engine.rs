//! Work engines and the single-slot channel that hands the latest one to a backend.

use vstd::prelude::*;
use crate::test_utils::{is_block_work, OneWorkEngine, TestWorkEngine};
use crate::work::{Assignment, LoopState};

verus! {

/// A consumable source of assignments.
#[derive(Debug)]
pub enum WorkEngine {
    /// Exactly one assignment.
    OneWork(OneWorkEngine),
    /// The work of a list of known blocks.
    Test(TestWorkEngine),
}

impl WorkEngine {
    pub open spec fn wf(&self) -> bool {
        match self {
            WorkEngine::OneWork(_) => true,
            WorkEngine::Test(e) => e.wf(),
        }
    }

    /// How many assignments the engine has left.
    pub open spec fn remaining(&self) -> nat {
        match self {
            WorkEngine::OneWork(e) => if e@.is_some() { 1 } else { 0 },
            WorkEngine::Test(e) => (e@.blocks.len() - e@.next) as nat,
        }
    }

    /// Whether `w` is the assignment the engine hands out next.
    pub open spec fn yields(&self, w: Assignment) -> bool {
        match self {
            WorkEngine::OneWork(e) => e@ == Some(w),
            WorkEngine::Test(e) => is_block_work(e@.blocks[e@.next as int], w),
        }
    }

    pub fn is_exhausted(&self) -> (r: bool)
        requires
            self.wf(),
        ensures
            r == (self.remaining() == 0),
    {
        match self {
            WorkEngine::OneWork(e) => e.is_exhausted(),
            WorkEngine::Test(e) => e.is_exhausted(),
        }
    }

    /// The next assignment: `Break` for the last one, `Continue` for the others,
    /// `Exhausted` when none is left.
    pub fn next_work(&mut self) -> (r: LoopState<Assignment>)
        requires
            old(self).wf(),
        ensures
            final(self).wf(),
            old(self).remaining() == 0 ==> r is Exhausted,
            old(self).remaining() > 0 ==> {
                &&& final(self).remaining() == old(self).remaining() - 1
                &&& match r {
                    LoopState::Continue(w) => old(self).remaining() > 1 && old(self).yields(w),
                    LoopState::Break(w) => old(self).remaining() == 1 && old(self).yields(w),
                    LoopState::Exhausted => false,
                }
            },
    {
        match self {
            WorkEngine::OneWork(e) => e.next_work(),
            WorkEngine::Test(e) => e.next_work(),
        }
    }
}

/// What an engine channel holds, as plain values.
pub struct EngineReceiverView {
    pub engine: Option<WorkEngine>,
    pub reschedule: Option<u64>,
}

/// The slot holding the latest engine, and, where the orchestrator asked for them, the
/// count of "engine exhausted, please reschedule" notifications not yet taken.
pub struct EngineReceiver {
    engine: Option<WorkEngine>,
    reschedule: Option<u64>,
}

impl View for EngineReceiver {
    type V = EngineReceiverView;

    closed spec fn view(&self) -> EngineReceiverView {
        EngineReceiverView { engine: self.engine, reschedule: self.reschedule }
    }
}

/// One more notification, unless the count is at its largest.
pub open spec fn notified(count: Option<u64>) -> Option<u64> {
    match count {
        Some(n) => Some(if n < u64::MAX { (n + 1) as u64 } else { n }),
        None => None,
    }
}

/// An engine channel with no engine yet, with notifications of exhaustion when
/// `reschedule` is set.
pub fn engine_channel(reschedule: bool) -> (r: EngineReceiver)
    ensures
        r.wf(),
        r@.engine.is_none(),
        r@.reschedule == (if reschedule { Some(0u64) } else { None }),
{
    EngineReceiver { engine: None, reschedule: if reschedule { Some(0) } else { None } }
}

impl EngineReceiver {
    pub open spec fn wf(&self) -> bool {
        self@.engine is Some ==> self@.engine->Some_0.wf()
    }

    /// Installs `engine` as the latest, in place of the one held.
    pub fn broadcast(&mut self, engine: WorkEngine)
        requires
            engine.wf(),
        ensures
            final(self).wf(),
            final(self)@.engine == Some(engine),
            final(self)@.reschedule == old(self)@.reschedule,
    {
        self.engine = Some(engine);
    }

    /// The engine held, where it has work left.
    pub fn get_engine(&self) -> (r: Option<&WorkEngine>)
        requires
            self.wf(),
        ensures
            r is Some <==> (self@.engine is Some && self@.engine->Some_0.remaining() > 0),
            r is Some ==> *r->Some_0 == self@.engine->Some_0,
    {
        match &self.engine {
            Some(e) => if e.is_exhausted() {
                None
            } else {
                Some(e)
            },
            None => None,
        }
    }

    /// Takes the engine out of the slot, leaving it empty.
    pub fn take_engine(&mut self) -> (r: Option<WorkEngine>)
        ensures
            r == old(self)@.engine,
            final(self)@.engine.is_none(),
            final(self)@.reschedule == old(self)@.reschedule,
    {
        self.engine.take()
    }

    /// Takes one pending notification of exhaustion: whether there was one.
    pub fn take_reschedule(&mut self) -> (r: bool)
        ensures
            r == (old(self)@.reschedule is Some && old(self)@.reschedule->Some_0 > 0),
            final(self)@.engine == old(self)@.engine,
            final(self)@.reschedule == (if r {
                Some((old(self)@.reschedule->Some_0 - 1) as u64)
            } else {
                old(self)@.reschedule
            }),
    {
        match self.reschedule {
            Some(n) => if n > 0 {
                self.reschedule = Some(n - 1);
                true
            } else {
                false
            },
            None => false,
        }
    }

    fn notify_exhausted(&mut self)
        ensures
            final(self)@.engine == old(self)@.engine,
            final(self)@.reschedule == notified(old(self)@.reschedule),
    {
        if let Some(n) = self.reschedule {
            if n < u64::MAX {
                self.reschedule = Some(n + 1);
            }
        }
    }
}

/// Draws assignments from the engine channel for a backend.
pub struct Generator {
    receiver: EngineReceiver,
}

impl View for Generator {
    type V = EngineReceiverView;

    closed spec fn view(&self) -> EngineReceiverView {
        self.receiver@
    }
}

impl Generator {
    pub open spec fn wf(&self) -> bool {
        self@.engine is Some ==> self@.engine->Some_0.wf()
    }

    pub fn new(receiver: EngineReceiver) -> (r: Generator)
        requires
            receiver.wf(),
        ensures
            r.wf(),
            r@ == receiver@,
    {
        Generator { receiver }
    }

    /// Installs `engine` as the latest on the generator's channel.
    pub fn broadcast(&mut self, engine: WorkEngine)
        requires
            engine.wf(),
        ensures
            final(self).wf(),
            final(self)@.engine == Some(engine),
            final(self)@.reschedule == old(self)@.reschedule,
    {
        self.receiver.broadcast(engine);
    }

    /// Takes one pending notification of exhaustion: whether there was one.
    pub fn take_reschedule(&mut self) -> (r: bool)
        requires
            old(self).wf(),
        ensures
            final(self).wf(),
            r == (old(self)@.reschedule is Some && old(self)@.reschedule->Some_0 > 0),
            final(self)@.engine == old(self)@.engine,
            final(self)@.reschedule == (if r {
                Some((old(self)@.reschedule->Some_0 - 1) as u64)
            } else {
                old(self)@.reschedule
            }),
    {
        self.receiver.take_reschedule()
    }

    /// The next assignment of the latest engine; `None` when it has no work left, and the
    /// caller waits for the next broadcast.
    ///
    /// Taking an engine's last assignment sends one notification of its exhaustion.
    pub fn generate(&mut self) -> (r: Option<Assignment>)
        requires
            old(self).wf(),
        ensures
            final(self).wf(),
            (old(self)@.engine is None || old(self)@.engine->Some_0.remaining() == 0) ==> {
                &&& r is None
                &&& final(self)@ == old(self)@
            },
            (old(self)@.engine is Some && old(self)@.engine->Some_0.remaining() > 0) ==> {
                let e = old(self)@.engine->Some_0;
                &&& r is Some
                &&& e.yields(r->Some_0)
                &&& final(self)@.engine is Some
                &&& final(self)@.engine->Some_0.remaining() == e.remaining() - 1
                &&& final(self)@.reschedule == (if e.remaining() == 1 {
                    notified(old(self)@.reschedule)
                } else {
                    old(self)@.reschedule
                })
            },
    {
        let mut engine = match self.receiver.engine.take() {
            Some(e) => e,
            None => {
                return None;
            },
        };
        if engine.is_exhausted() {
            self.receiver.engine = Some(engine);
            return None;
        }
        let r = engine.next_work();
        self.receiver.engine = Some(engine);
        match r {
            LoopState::Continue(work) => Some(work),
            LoopState::Break(work) => {
                // the engine has just run out: ask the orchestrator for the next one
                self.receiver.notify_exhausted();
                Some(work)
            },
            LoopState::Exhausted => None,
        }
    }
}

} // verus!
