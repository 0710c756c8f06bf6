//! The task that polls the content source for its newest listings and
//! writes them to the store.
//!
//! A cycle is `Sleep -> Fetch -> Upsert -> Sleep`. The task decides here;
//! whoever drives it sleeps, fetches and writes, and reports back.

use vstd::prelude::*;

use crate::error::FetchError;
use crate::error::StoreError;
use crate::listing::records_of;
use crate::listing::Listing;
use crate::listing::Record;

verus! {

/// Seconds between two polls of the content source.
pub const FETCH_INTERVAL_SECS: u64 = 1;

/// Where the task stands in its cycle.
#[derive(Debug, Clone, Copy, PartialEq, Eq, Structural)]
pub enum FetcherState {
    /// Waiting for the interval to pass.
    Sleeping,
    /// Waiting for the newest listings.
    Fetching,
    /// Waiting for the store to take the batch.
    Storing,
}

/// What the driver reports back.
#[derive(Debug, PartialEq, Eq)]
pub enum FetcherEvent {
    /// The sleep is over.
    Woke,
    /// What the content source answered: its newest listings, or why there
    /// are none.
    Fetched(Result<Vec<Listing>, FetchError>),
    /// What the store answered to the upsert.
    Stored(Result<(), StoreError>),
}

/// What the driver is to do next.
#[derive(Debug, PartialEq, Eq)]
pub enum FetcherAction {
    /// Sleep for this many seconds.
    Sleep(u64),
    /// Ask the content source for its newest listings.
    FetchNewest,
    /// Upsert this batch into the store.
    Upsert(Vec<Listing>),
}

/// Mathematical value of a [`FetcherEvent`]: what happened, without the
/// text of a failure.
pub enum FetcherEventView {
    /// The sleep is over.
    Woke,
    /// The content source answered with these records.
    Fetched(Seq<Record>),
    /// The content source could not be reached or its answer not be read.
    FetchFailed,
    /// The store committed the batch.
    Stored,
    /// The store refused the batch.
    StoreFailed,
}

/// Mathematical value of a [`FetcherAction`].
pub enum FetcherActionView {
    Sleep(u64),
    FetchNewest,
    Upsert(Seq<Record>),
}

impl View for FetcherEvent {
    type V = FetcherEventView;

    open spec fn view(&self) -> FetcherEventView {
        match *self {
            FetcherEvent::Woke => FetcherEventView::Woke,
            FetcherEvent::Fetched(Ok(listings)) => FetcherEventView::Fetched(
                records_of(listings@),
            ),
            FetcherEvent::Fetched(Err(_)) => FetcherEventView::FetchFailed,
            FetcherEvent::Stored(Ok(_)) => FetcherEventView::Stored,
            FetcherEvent::Stored(Err(_)) => FetcherEventView::StoreFailed,
        }
    }
}

impl View for FetcherAction {
    type V = FetcherActionView;

    open spec fn view(&self) -> FetcherActionView {
        match *self {
            FetcherAction::Sleep(secs) => FetcherActionView::Sleep(secs),
            FetcherAction::FetchNewest => FetcherActionView::FetchNewest,
            FetcherAction::Upsert(listings) => FetcherActionView::Upsert(records_of(listings@)),
        }
    }
}

impl FetcherActionView {
    /// The batch that the action has written to the store once it is carried
    /// out, if it writes one.
    pub open spec fn batch(self) -> Option<Seq<Record>> {
        match self {
            FetcherActionView::Upsert(records) => Some(records),
            _ => None,
        }
    }
}

/// The transition of the task: the state it moves to and the action it asks
/// for, given the state it is in and what the driver reports.
///
/// A report that does not answer what the task is waiting for, like a
/// failure, ends the cycle: the task goes back to sleep.
pub open spec fn fetcher_next(state: FetcherState, interval_secs: u64, event: FetcherEventView) -> (
    FetcherState,
    FetcherActionView,
) {
    match (state, event) {
        (FetcherState::Sleeping, FetcherEventView::Woke) => (
            FetcherState::Fetching,
            FetcherActionView::FetchNewest,
        ),
        (FetcherState::Fetching, FetcherEventView::Fetched(records)) => (
            FetcherState::Storing,
            FetcherActionView::Upsert(records),
        ),
        _ => (FetcherState::Sleeping, FetcherActionView::Sleep(interval_secs)),
    }
}

/// The fetcher task.
#[derive(Debug)]
pub struct Fetcher {
    pub interval_secs: u64,
    pub state: FetcherState,
}

impl Fetcher {
    /// A task that sleeps `interval_secs` seconds before each poll, about to
    /// sleep for the first time.
    pub fn new(interval_secs: u64) -> (task: Fetcher)
        ensures
            task.interval_secs == interval_secs,
            task.state == FetcherState::Sleeping,
    {
        Fetcher { interval_secs, state: FetcherState::Sleeping }
    }

    /// The first action of the task: its first sleep.
    pub fn start(&self) -> (action: FetcherAction)
        ensures
            action@ == FetcherActionView::Sleep(self.interval_secs),
    {
        FetcherAction::Sleep(self.interval_secs)
    }

    /// Takes the driver's report and says what to do next.
    pub fn step(&mut self, event: FetcherEvent) -> (action: FetcherAction)
        ensures
            (final(self).state, action@) == fetcher_next(
                old(self).state,
                old(self).interval_secs,
                event@,
            ),
            final(self).interval_secs == old(self).interval_secs,
    {
        match (self.state, event) {
            (FetcherState::Sleeping, FetcherEvent::Woke) => {
                self.state = FetcherState::Fetching;
                FetcherAction::FetchNewest
            },
            (FetcherState::Fetching, FetcherEvent::Fetched(Ok(listings))) => {
                self.state = FetcherState::Storing;
                FetcherAction::Upsert(listings)
            },
            _ => {
                self.state = FetcherState::Sleeping;
                FetcherAction::Sleep(self.interval_secs)
            },
        }
    }
}

/// A failed fetch costs the cycle and nothing else: the task goes back to
/// sleep and asks for no write.
pub proof fn law_failed_fetch_writes_nothing(interval_secs: u64)
    ensures
        fetcher_next(FetcherState::Fetching, interval_secs, FetcherEventView::FetchFailed) == (
            FetcherState::Sleeping,
            FetcherActionView::Sleep(interval_secs),
        ),
        fetcher_next(
            FetcherState::Fetching,
            interval_secs,
            FetcherEventView::FetchFailed,
        ).1.batch() is None,
{
}

/// The task only ever writes what was just fetched: an upsert is asked for
/// in no state but `Fetching`, on no report but a successful fetch, and with
/// no batch but the one fetched.
pub proof fn law_fetcher_writes_only_what_was_fetched(
    state: FetcherState,
    interval_secs: u64,
    event: FetcherEventView,
)
    ensures
        fetcher_next(state, interval_secs, event).1.batch() matches Some(records) ==> state
            == FetcherState::Fetching && event == FetcherEventView::Fetched(records),
{
}

} // verus!
