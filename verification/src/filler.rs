//! The task that feeds the work queue: every so often it reads the stored
//! identifiers and appends them all to the queue.
//!
//! A cycle is `Sleep -> ReadIds -> Enqueue -> Sleep`. The task is the only
//! producer of queue entries and removes no duplicates: what still waits
//! from an earlier cycle is appended again.

use vstd::prelude::*;

use crate::error::StoreError;
use crate::listing::Id;
use crate::queue::QueueOp;

verus! {

/// Seconds between two refills of the queue.
pub const FILL_INTERVAL_SECS: u64 = 5;

/// Where the task stands in its cycle.
#[derive(Debug, Clone, Copy, PartialEq, Eq, Structural)]
pub enum FillerState {
    /// Waiting for the interval to pass.
    Sleeping,
    /// Waiting for the store to hand out its identifiers.
    Reading,
    /// Waiting for the identifiers to be appended to the queue.
    Enqueuing,
}

/// What the driver reports back.
#[derive(Debug, PartialEq, Eq)]
pub enum FillerEvent {
    /// The sleep is over.
    Woke,
    /// What the store answered: its identifiers, in the order it handed
    /// them out, or why there are none.
    Ids(Result<Vec<Id>, StoreError>),
    /// The identifiers were appended to the queue.
    Enqueued,
}

/// What the driver is to do next.
#[derive(Debug, PartialEq, Eq)]
pub enum FillerAction {
    /// Sleep for this many seconds.
    Sleep(u64),
    /// Read every stored identifier.
    ReadIds,
    /// Append these identifiers to the tail of the queue, in this order.
    Enqueue(Vec<Id>),
}

/// Mathematical value of a [`FillerEvent`]: what happened, without the text
/// of a failure.
pub enum FillerEventView {
    /// The sleep is over.
    Woke,
    /// The store handed out these identifiers, in this order.
    Ids(Seq<Id>),
    /// The store could not be read.
    ReadFailed,
    /// The identifiers were appended to the queue.
    Enqueued,
}

/// Mathematical value of a [`FillerAction`].
pub enum FillerActionView {
    Sleep(u64),
    ReadIds,
    Enqueue(Seq<Id>),
}

impl View for FillerEvent {
    type V = FillerEventView;

    open spec fn view(&self) -> FillerEventView {
        match *self {
            FillerEvent::Woke => FillerEventView::Woke,
            FillerEvent::Ids(Ok(ids)) => FillerEventView::Ids(ids@),
            FillerEvent::Ids(Err(_)) => FillerEventView::ReadFailed,
            FillerEvent::Enqueued => FillerEventView::Enqueued,
        }
    }
}

impl View for FillerAction {
    type V = FillerActionView;

    open spec fn view(&self) -> FillerActionView {
        match *self {
            FillerAction::Sleep(secs) => FillerActionView::Sleep(secs),
            FillerAction::ReadIds => FillerActionView::ReadIds,
            FillerAction::Enqueue(ids) => FillerActionView::Enqueue(ids@),
        }
    }
}

impl FillerActionView {
    /// What the action does to the queue once it is carried out, if it
    /// touches the queue.
    pub open spec fn queue_op(self) -> Option<QueueOp> {
        match self {
            FillerActionView::Enqueue(ids) => Some(QueueOp::Fill(ids)),
            _ => None,
        }
    }
}

/// The transition of the task: the state it moves to and the action it asks
/// for, given the state it is in and what the driver reports.
///
/// A report that does not answer what the task is waiting for, like a
/// failure, ends the cycle: the task goes back to sleep.
pub open spec fn filler_next(state: FillerState, interval_secs: u64, event: FillerEventView) -> (
    FillerState,
    FillerActionView,
) {
    match (state, event) {
        (FillerState::Sleeping, FillerEventView::Woke) => (
            FillerState::Reading,
            FillerActionView::ReadIds,
        ),
        (FillerState::Reading, FillerEventView::Ids(ids)) => (
            FillerState::Enqueuing,
            FillerActionView::Enqueue(ids),
        ),
        _ => (FillerState::Sleeping, FillerActionView::Sleep(interval_secs)),
    }
}

/// The queue filler task.
#[derive(Debug)]
pub struct Filler {
    pub interval_secs: u64,
    pub state: FillerState,
}

impl Filler {
    /// A task that sleeps `interval_secs` seconds before each refill, about
    /// to sleep for the first time.
    pub fn new(interval_secs: u64) -> (task: Filler)
        ensures
            task.interval_secs == interval_secs,
            task.state == FillerState::Sleeping,
    {
        Filler { interval_secs, state: FillerState::Sleeping }
    }

    /// The first action of the task: its first sleep.
    pub fn start(&self) -> (action: FillerAction)
        ensures
            action@ == FillerActionView::Sleep(self.interval_secs),
    {
        FillerAction::Sleep(self.interval_secs)
    }

    /// Takes the driver's report and says what to do next.
    pub fn step(&mut self, event: FillerEvent) -> (action: FillerAction)
        ensures
            (final(self).state, action@) == filler_next(
                old(self).state,
                old(self).interval_secs,
                event@,
            ),
            final(self).interval_secs == old(self).interval_secs,
    {
        match (self.state, event) {
            (FillerState::Sleeping, FillerEvent::Woke) => {
                self.state = FillerState::Reading;
                FillerAction::ReadIds
            },
            (FillerState::Reading, FillerEvent::Ids(Ok(ids))) => {
                self.state = FillerState::Enqueuing;
                FillerAction::Enqueue(ids)
            },
            _ => {
                self.state = FillerState::Sleeping;
                FillerAction::Sleep(self.interval_secs)
            },
        }
    }
}

/// The task appends exactly what the store handed out, in the store's
/// order, and touches the queue at no other time. A failed read leaves the
/// queue alone.
pub proof fn law_filler_appends_what_was_read(
    state: FillerState,
    interval_secs: u64,
    event: FillerEventView,
)
    ensures
        filler_next(state, interval_secs, event).1.queue_op() matches Some(op) ==> state
            == FillerState::Reading && op is Fill && event == FillerEventView::Ids(op->Fill_0),
        filler_next(FillerState::Reading, interval_secs, FillerEventView::ReadFailed).1.queue_op()
            is None,
{
}

} // verus!
