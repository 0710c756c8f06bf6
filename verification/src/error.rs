//! Failures of the pipeline and what each of them calls for.

use vstd::prelude::*;

verus! {

/// The step of a store operation at which the database refused.
#[derive(Debug, Clone, Copy, PartialEq, Eq, Structural)]
pub enum Stage {
    /// Opening the database file.
    Open,
    /// Creating the table in a new database.
    Schema,
    /// Beginning the transaction of an upsert.
    Begin,
    /// Writing one listing of a batch.
    Write,
    /// Committing the transaction of an upsert.
    Commit,
    /// Preparing the query for the stored identifiers.
    Prepare,
    /// Starting that query.
    Query,
    /// Reading one identifier from its result.
    Read,
}

/// A failure of the database, with the step at which it came and the
/// database's own words for it.
#[derive(Debug, PartialEq, Eq)]
pub struct StoreError {
    pub stage: Stage,
    pub message: String,
}

/// The content source could not be reached, or its answer could not be read.
#[derive(Debug, PartialEq, Eq)]
pub struct FetchError {
    pub message: String,
}

/// The three kinds of failure.
#[derive(Debug, Clone, Copy, PartialEq, Eq, Structural)]
pub enum Failure {
    /// The content source could not be reached, or its answer not be read.
    Fetch,
    /// A query or a transaction failed while the pipeline was running.
    Persistence,
    /// The database could not be opened or provisioned when a task started.
    Startup,
}

impl Stage {
    /// The kind of failure that a refusal at this stage is: opening and
    /// provisioning happen at startup, everything else while running.
    pub open spec fn failure_of(self) -> Failure {
        match self {
            Stage::Open => Failure::Startup,
            Stage::Schema => Failure::Startup,
            _ => Failure::Persistence,
        }
    }

    /// The kind of failure that a refusal at this stage is.
    pub fn failure(self) -> (kind: Failure)
        ensures
            kind == self.failure_of(),
            kind == Failure::Startup <==> (self == Stage::Open || self == Stage::Schema),
            kind != Failure::Fetch,
    {
        match self {
            Stage::Open => Failure::Startup,
            Stage::Schema => Failure::Startup,
            _ => Failure::Persistence,
        }
    }
}

/// What a task does after a failure.
#[derive(Debug, Clone, Copy, PartialEq, Eq, Structural)]
pub enum Policy {
    /// Warn, give up the current cycle and go on with the next.
    SkipCycle,
    /// End the whole process.
    Abort,
}

/// What each kind of failure calls for.
pub open spec fn policy_of(failure: Failure) -> Policy {
    match failure {
        Failure::Startup => Policy::Abort,
        Failure::Fetch => Policy::SkipCycle,
        Failure::Persistence => Policy::SkipCycle,
    }
}

/// The policy for a kind of failure: only a failure at startup ends the
/// process; a failed fetch or a failed store operation costs one cycle.
pub fn policy(failure: Failure) -> (p: Policy)
    ensures
        p == policy_of(failure),
        p == Policy::Abort <==> failure == Failure::Startup,
{
    match failure {
        Failure::Startup => Policy::Abort,
        Failure::Fetch => Policy::SkipCycle,
        Failure::Persistence => Policy::SkipCycle,
    }
}

} // verus!
