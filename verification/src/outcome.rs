//! How a run can end for billing, and which counter the end adds to.

use vstd::prelude::*;

verus! {

/// Why a query that should have been billed was not.
#[derive(Debug, Clone, Copy, PartialEq, Eq, Structural)]
pub enum DropReason {
    /// The claims name no realm.
    RealmMissing,
    /// The claims name a realm that the catalog does not hold.
    RealmUnrecognized,
    /// The event could not be built.
    EventBuildFailed,
}

/// What became of the billing event of a run.
#[derive(Debug, PartialEq, Eq)]
pub enum FinishOutcome {
    /// The pipeline reported an error, so nothing is billed.
    Errored,
    /// There is no tracker, so nothing is billed.
    Untracked,
    /// Nothing was sent.
    Dropped(DropReason),
    /// The tracker took the event and gave it this identifier.
    Emitted(String),
    /// The tracker refused the event, with this message.
    Rejected(String),
}

/// The counters that billing keeps.
#[derive(Debug, Clone, Copy, PartialEq, Eq, Structural)]
pub enum Counter {
    Dropped(DropReason),
    Emitted,
    Rejected,
}

impl FinishOutcome {
    /// The outcome of handing an event to the tracker, by the tracker's answer.
    pub open spec fn spec_delivered(answer: Result<String, String>) -> FinishOutcome {
        match answer {
            Ok(event_id) => FinishOutcome::Emitted(event_id),
            Err(error) => FinishOutcome::Rejected(error),
        }
    }

    /// The counter that this outcome adds one to, if any.
    pub open spec fn spec_counter(self) -> Option<Counter> {
        match self {
            FinishOutcome::Errored => None,
            FinishOutcome::Untracked => None,
            FinishOutcome::Dropped(reason) => Some(Counter::Dropped(reason)),
            FinishOutcome::Emitted(_) => Some(Counter::Emitted),
            FinishOutcome::Rejected(_) => Some(Counter::Rejected),
        }
    }

    /// The outcome of handing an event to the tracker, by the tracker's answer.
    pub fn delivered(answer: Result<String, String>) -> (outcome: FinishOutcome)
        ensures
            outcome == Self::spec_delivered(answer),
    {
        match answer {
            Ok(event_id) => FinishOutcome::Emitted(event_id),
            Err(error) => FinishOutcome::Rejected(error),
        }
    }

    /// The counter that this outcome adds one to, if any.
    pub fn counter(&self) -> (counter: Option<Counter>)
        ensures
            counter == self.spec_counter(),
    {
        match self {
            FinishOutcome::Errored => None,
            FinishOutcome::Untracked => None,
            FinishOutcome::Dropped(reason) => Some(Counter::Dropped(*reason)),
            FinishOutcome::Emitted(_) => Some(Counter::Emitted),
            FinishOutcome::Rejected(_) => Some(Counter::Rejected),
        }
    }
}

} // verus!
