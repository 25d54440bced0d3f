//! Turns one run of a query pipeline into one billing event.
//!
//! A [`observer::BillingObserver`] watches the run, and when the run finishes it decides whether
//! the query is billed, describes the event, has it built and hands it to a tracker.

pub mod constants;
pub mod event;
pub mod fidelity;
pub mod inputs;
pub mod json;
pub mod laws;
pub mod meaning;
pub mod metadata;
pub mod metrics;
pub mod observer;
pub mod outcome;
pub mod query;
pub mod text;
pub mod tracker;

pub use constants::{feature_qualified_name, BillingCatalog, RealmAlias};
pub use event::BillingEvent;
pub use inputs::BillingInputs;
pub use json::JsonObject;
pub use metadata::BillingMetadata;
pub use metrics::{ExecMetrics, QueryCost};
pub use observer::BillingObserver;
pub use outcome::{Counter, DropReason, FinishOutcome};
pub use query::{CompiledQueryContext, HopRange, Input, InputNode, InputPath, InputRelationship};
pub use tracker::BillingTracker;
