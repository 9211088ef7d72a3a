//! The one-shot test job: a single slot that holds the test which waits to
//! be picked up by the device.
//!
//! Whoever asks for a test gets a ticket. The ticket is acknowledged when
//! the device picks the test up, and it is void as soon as another test
//! takes the slot.

use vstd::prelude::*;
use crate::model::WateringJob;

verus! {

/// A value that waits to be picked up, with the ticket of whoever waits for
/// the acknowledgement.
#[derive(Debug, PartialEq, Eq)]
pub struct Task<T> {
    value: T,
    ack: u64,
}

impl<T> Task<T> {
    /// The value that waits.
    pub closed spec fn value(&self) -> T {
        self.value
    }

    /// The ticket to be acknowledged.
    pub closed spec fn ticket(&self) -> u64 {
        self.ack
    }

    /// A task for `value`, and the ticket on which its acknowledgement is
    /// awaited.
    pub fn new(value: T, ticket: u64) -> (made: (Task<T>, u64))
        ensures
            made.0.value() == value,
            made.0.ticket() == ticket,
            made.1 == ticket,
    {
        (Task { value, ack: ticket }, ticket)
    }

    /// Takes the task apart: the value, and the ticket that is to be
    /// acknowledged now.
    pub fn destruct_and_ack(self) -> (parts: (T, u64))
        ensures
            parts.0 == self.value(),
            parts.1 == self.ticket(),
    {
        (self.value, self.ack)
    }
}

/// What became of a request for a test.
#[derive(Clone, Copy, Debug, PartialEq, Eq)]
pub struct Pending {
    /// The ticket on which the acknowledgement is awaited.
    pub ticket: u64,
    /// The ticket of the test that had the slot and lost it, if there was one.
    pub superseded: Option<u64>,
}

/// The slot.
#[derive(Debug)]
pub struct PendingWateringTest {
    inner: Option<Task<WateringJob>>,
    next_ticket: u64,
}

impl PendingWateringTest {
    /// The test that waits, if one does.
    pub closed spec fn pending(&self) -> Option<Task<WateringJob>> {
        self.inner
    }

    /// The ticket that the next request gets.
    pub closed spec fn next_ticket(&self) -> u64 {
        self.next_ticket
    }

    /// The test that waits has a ticket other than the next one.
    #[verifier::type_invariant]
    pub open spec fn wf(&self) -> bool {
        self.pending() matches Some(task) ==> task.ticket() != self.next_ticket()
    }

    /// An empty slot.
    pub fn new() -> (slot: PendingWateringTest)
        ensures
            slot.pending() is None,
            slot.next_ticket() == 0,
            slot.wf(),
    {
        PendingWateringTest { inner: None, next_ticket: 0 }
    }

    /// Puts a test into the slot. A test that waited there is superseded: it
    /// will never be picked up, and its ticket is handed back so that
    /// whoever waits on it can be told.
    pub fn set_pending_job(&mut self, job: WateringJob) -> (pending: Pending)
        ensures
            final(self).wf(),
            pending.ticket == old(self).next_ticket(),
            final(self).pending() matches Some(task) && task.value() == job && task.ticket()
                == pending.ticket,
            pending.superseded == match old(self).pending() {
                Some(task) => Some(task.ticket()),
                None => None,
            },
            pending.superseded != Some(pending.ticket),
            final(self).next_ticket() == if old(self).next_ticket() == u64::MAX {
                0
            } else {
                (old(self).next_ticket() + 1) as u64
            },
    {
        proof {
            use_type_invariant(&*self);
        }
        let ticket = self.next_ticket;
        let superseded = match &self.inner {
            Some(task) => Some(task.ack),
            None => None,
        };
        let (task, _) = Task::new(job, ticket);
        let next: u64 = if ticket == u64::MAX {
            0
        } else {
            ticket + 1
        };
        *self = PendingWateringTest { inner: Some(task), next_ticket: next };
        Pending { ticket, superseded }
    }

    /// Takes the test that waits out of the slot, if one does.
    pub fn pop_pending_task(&mut self) -> (task: Option<Task<WateringJob>>)
        ensures
            final(self).wf(),
            task == old(self).pending(),
            final(self).pending() is None,
            final(self).next_ticket() == old(self).next_ticket(),
    {
        proof {
            use_type_invariant(&*self);
        }
        let mut emptied = PendingWateringTest { inner: None, next_ticket: self.next_ticket };
        core::mem::swap(self, &mut emptied);
        let PendingWateringTest { inner, next_ticket: _ } = emptied;
        inner
    }
}

} // verus!
