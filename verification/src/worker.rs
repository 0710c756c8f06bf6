//! The task that refreshes stored listings one by one: it takes an
//! identifier from the work queue, fetches the item's current detail and
//! writes the one refreshed listing to the store.
//!
//! After one delay at startup, an iteration is
//! `Sleep -> TryDequeue -> [idle | FetchDetail -> Upsert]`. An identifier
//! whose fetch fails is dropped; it comes back only when the queue filler
//! appends it again.

use vstd::prelude::*;

use crate::error::FetchError;
use crate::error::StoreError;
use crate::listing::Id;
use crate::listing::Listing;
use crate::listing::Record;
use crate::listing::records_of;
use crate::queue::QueueOp;

verus! {

/// Seconds the task waits once, before its first iteration, to let the
/// queue fill.
pub const WORKER_INITIAL_DELAY_SECS: u64 = 10;

/// Seconds the task sleeps before each iteration.
pub const WORKER_INTERVAL_SECS: u64 = 0;

/// Where the task stands.
#[derive(Debug, Clone, Copy, PartialEq, Eq, Structural)]
pub enum WorkerState {
    /// Waiting for the startup delay to pass.
    Starting,
    /// Waiting for the sleep before an iteration to pass.
    Pausing,
    /// Waiting for the head of the queue.
    Dequeuing,
    /// Waiting for the detail of this item.
    Fetching(Id),
    /// Waiting for the store to take the refreshed listing of this item.
    Storing(Id),
}

/// What the driver reports back.
#[derive(Debug, PartialEq, Eq)]
pub enum WorkerEvent {
    /// The sleep is over.
    Woke,
    /// What the pop of the queue returned.
    Dequeued(Option<Id>),
    /// What the content source answered: the item's current listing, or why
    /// there is none.
    Detail(Result<Listing, FetchError>),
    /// What the store answered to the upsert.
    Stored(Result<(), StoreError>),
}

/// What the driver is to do next.
#[derive(Debug, PartialEq, Eq)]
pub enum WorkerAction {
    /// Sleep for this many seconds.
    Sleep(u64),
    /// Pop the head of the queue, without waiting for one to arrive.
    TryDequeue,
    /// Ask the content source for the detail of this item.
    FetchDetail(Id),
    /// Upsert this batch into the store.
    Upsert(Vec<Listing>),
}

/// Mathematical value of a [`WorkerEvent`]: what happened, without the text
/// of a failure.
pub enum WorkerEventView {
    /// The sleep is over.
    Woke,
    /// What the pop of the queue returned.
    Dequeued(Option<Id>),
    /// The content source answered with the item's current record.
    Detail(Record),
    /// The content source could not be reached or its answer not be read.
    DetailFailed,
    /// The store committed the listing.
    Stored,
    /// The store refused the listing.
    StoreFailed,
}

/// Mathematical value of a [`WorkerAction`].
pub enum WorkerActionView {
    Sleep(u64),
    TryDequeue,
    FetchDetail(Id),
    Upsert(Seq<Record>),
}

impl View for WorkerEvent {
    type V = WorkerEventView;

    open spec fn view(&self) -> WorkerEventView {
        match *self {
            WorkerEvent::Woke => WorkerEventView::Woke,
            WorkerEvent::Dequeued(head) => WorkerEventView::Dequeued(head),
            WorkerEvent::Detail(Ok(listing)) => WorkerEventView::Detail(listing@),
            WorkerEvent::Detail(Err(_)) => WorkerEventView::DetailFailed,
            WorkerEvent::Stored(Ok(_)) => WorkerEventView::Stored,
            WorkerEvent::Stored(Err(_)) => WorkerEventView::StoreFailed,
        }
    }
}

impl View for WorkerAction {
    type V = WorkerActionView;

    open spec fn view(&self) -> WorkerActionView {
        match *self {
            WorkerAction::Sleep(secs) => WorkerActionView::Sleep(secs),
            WorkerAction::TryDequeue => WorkerActionView::TryDequeue,
            WorkerAction::FetchDetail(id) => WorkerActionView::FetchDetail(id),
            WorkerAction::Upsert(listings) => WorkerActionView::Upsert(records_of(listings@)),
        }
    }
}

impl WorkerActionView {
    /// The batch that the action has written to the store once it is carried
    /// out, if it writes one.
    pub open spec fn batch(self) -> Option<Seq<Record>> {
        match self {
            WorkerActionView::Upsert(records) => Some(records),
            _ => None,
        }
    }

    /// What the action does to the queue once it is carried out, if it
    /// touches the queue.
    pub open spec fn queue_op(self) -> Option<QueueOp> {
        match self {
            WorkerActionView::TryDequeue => Some(QueueOp::Take),
            _ => None,
        }
    }
}

/// The transition of the task: the state it moves to and the action it asks
/// for, given the state it is in and what the driver reports.
///
/// An empty queue, a failure, or a report that does not answer what the task
/// is waiting for ends the iteration: the task sleeps and starts the next.
pub open spec fn worker_next(state: WorkerState, interval_secs: u64, event: WorkerEventView) -> (
    WorkerState,
    WorkerActionView,
) {
    match (state, event) {
        (WorkerState::Pausing, WorkerEventView::Woke) => (
            WorkerState::Dequeuing,
            WorkerActionView::TryDequeue,
        ),
        (WorkerState::Dequeuing, WorkerEventView::Dequeued(Some(id))) => (
            WorkerState::Fetching(id),
            WorkerActionView::FetchDetail(id),
        ),
        (WorkerState::Fetching(id), WorkerEventView::Detail(record)) => (
            WorkerState::Storing(id),
            WorkerActionView::Upsert(seq![record]),
        ),
        _ => (WorkerState::Pausing, WorkerActionView::Sleep(interval_secs)),
    }
}

/// The update worker task.
#[derive(Debug)]
pub struct Worker {
    pub initial_delay_secs: u64,
    pub interval_secs: u64,
    pub state: WorkerState,
}

impl Worker {
    /// A task that waits `initial_delay_secs` seconds once and then sleeps
    /// `interval_secs` seconds before each iteration, about to start.
    pub fn new(initial_delay_secs: u64, interval_secs: u64) -> (task: Worker)
        ensures
            task.initial_delay_secs == initial_delay_secs,
            task.interval_secs == interval_secs,
            task.state == WorkerState::Starting,
    {
        Worker { initial_delay_secs, interval_secs, state: WorkerState::Starting }
    }

    /// The first action of the task: the startup delay.
    pub fn start(&self) -> (action: WorkerAction)
        ensures
            action@ == WorkerActionView::Sleep(self.initial_delay_secs),
    {
        WorkerAction::Sleep(self.initial_delay_secs)
    }

    /// Takes the driver's report and says what to do next.
    pub fn step(&mut self, event: WorkerEvent) -> (action: WorkerAction)
        ensures
            (final(self).state, action@) == worker_next(
                old(self).state,
                old(self).interval_secs,
                event@,
            ),
            final(self).interval_secs == old(self).interval_secs,
            final(self).initial_delay_secs == old(self).initial_delay_secs,
    {
        match (self.state, event) {
            (WorkerState::Pausing, WorkerEvent::Woke) => {
                self.state = WorkerState::Dequeuing;
                WorkerAction::TryDequeue
            },
            (WorkerState::Dequeuing, WorkerEvent::Dequeued(Some(id))) => {
                self.state = WorkerState::Fetching(id);
                WorkerAction::FetchDetail(id)
            },
            (WorkerState::Fetching(id), WorkerEvent::Detail(Ok(listing))) => {
                self.state = WorkerState::Storing(id);
                let ghost record = listing@;
                let batch = vec![listing];
                assert(records_of(batch@) =~= seq![record]);
                WorkerAction::Upsert(batch)
            },
            _ => {
                self.state = WorkerState::Pausing;
                WorkerAction::Sleep(self.interval_secs)
            },
        }
    }
}

/// On an empty queue the task idles: it asks for no fetch and no write, and
/// sleeps before it looks again.
pub proof fn law_empty_queue_idles(interval_secs: u64)
    ensures
        worker_next(WorkerState::Dequeuing, interval_secs, WorkerEventView::Dequeued(None)) == (
            WorkerState::Pausing,
            WorkerActionView::Sleep(interval_secs),
        ),
{
}

/// A failed fetch drops the identifier: the task asks for no write and does
/// not touch the queue, so the identifier is not put back.
pub proof fn law_failed_detail_drops_the_id(id: Id, interval_secs: u64)
    ensures
        worker_next(WorkerState::Fetching(id), interval_secs, WorkerEventView::DetailFailed) == (
            WorkerState::Pausing,
            WorkerActionView::Sleep(interval_secs),
        ),
{
}

/// The task only ever writes the one listing that was just fetched, and
/// touches the queue only to take its head.
pub proof fn law_worker_writes_only_the_detail(
    state: WorkerState,
    interval_secs: u64,
    event: WorkerEventView,
)
    ensures
        worker_next(state, interval_secs, event).1.batch() matches Some(records) ==> state
            is Fetching && event is Detail && records == seq![event->Detail_0],
        worker_next(state, interval_secs, event).1.queue_op() matches Some(op) ==> op
            == QueueOp::Take,
{
}

} // verus!
