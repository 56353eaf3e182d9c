//! The job channel: a single slot holding the latest job, and a one-deep "new job" event.

use vstd::prelude::*;
use crate::work::Job;

verus! {

/// What the job channel holds, as plain values.
pub struct JobChannelView {
    pub slot: Option<Job>,
    pub event: bool,
    pub closed: bool,
    pub next_id: u64,
}

/// The latest-wins mailbox between the upstream job producer and work generators.
///
/// Publishing into an empty slot raises the "new job" event; publishing over a job leaves
/// the event as it is, since consumers notice the change by the job's identity.
pub struct JobChannel {
    slot: Option<Job>,
    event: bool,
    closed: bool,
    next_id: u64,
}

impl View for JobChannel {
    type V = JobChannelView;

    closed spec fn view(&self) -> JobChannelView {
        JobChannelView { slot: self.slot, event: self.event, closed: self.closed, next_id: self.next_id }
    }
}

impl JobChannel {
    /// An open channel with an empty slot and no pending event.
    pub fn new() -> (r: JobChannel)
        ensures
            r@.slot.is_none(),
            !r@.event,
            !r@.closed,
            r@.next_id == 1,
    {
        JobChannel { slot: None, event: false, closed: false, next_id: 1 }
    }

    /// Whether another job can be given an identity of its own.
    pub fn can_publish(&self) -> (r: bool)
        ensures
            r == (self@.next_id < u64::MAX),
    {
        self.next_id < u64::MAX
    }

    /// Installs `job` as the latest, under a fresh identity that is returned.
    ///
    /// The event is raised when the slot was empty. The event holds one "new job" at most:
    /// publishing into an empty slot while an event is still pending leaves that one event
    /// raised rather than queueing a second.
    pub fn publish(&mut self, job: Job) -> (id: u64)
        requires
            old(self)@.next_id < u64::MAX,
        ensures
            id == old(self)@.next_id,
            final(self)@.slot == Some(Job { id, ..job }),
            final(self)@.event == (old(self)@.event || old(self)@.slot.is_none()),
            old(self)@.event && old(self)@.slot.is_none() ==> final(self)@.event,
            final(self)@.closed == old(self)@.closed,
            final(self)@.next_id == old(self)@.next_id + 1,
    {
        let id = self.next_id;
        let was_empty = self.slot.is_none();
        self.slot = Some(Job { id, ..job });
        self.next_id = id + 1;
        if was_empty {
            self.event = true;
        }
        id
    }

    /// The latest job, if any, without removing it.
    pub fn take_current(&self) -> (r: Option<Job>)
        ensures
            r == self@.slot,
    {
        self.slot
    }

    /// Empties the slot; the pending event, if any, stays.
    pub fn clear(&mut self)
        ensures
            final(self)@ == (JobChannelView { slot: None, ..old(self)@ }),
    {
        self.slot = None;
    }

    /// Consumes the "new job" event: whether one was pending.
    pub fn take_event(&mut self) -> (r: bool)
        ensures
            r == old(self)@.event,
            final(self)@ == (JobChannelView { event: false, ..old(self)@ }),
    {
        let r = self.event;
        self.event = false;
        r
    }

    /// Marks the upstream as gone: generators that wait for a job then end.
    pub fn close(&mut self)
        ensures
            final(self)@ == (JobChannelView { closed: true, ..old(self)@ }),
    {
        self.closed = true;
    }

    pub fn is_closed(&self) -> (r: bool)
        ensures
            r == self@.closed,
    {
        self.closed
    }

    pub fn has_event(&self) -> (r: bool)
        ensures
            r == self@.event,
    {
        self.event
    }
}

} // verus!
