//! Watches one run of the query pipeline and bills it when it finishes.

use crate::constants::{BillingCatalog, CatalogView};
use crate::event::{BillingEvent, EventView};
use crate::inputs::{BillingInputs, InputsView};
use crate::json::JsonObject;
use crate::metadata::{BillingMetadata, MetadataView};
use crate::metrics::{ExecMetrics, MetricsView, QueryCost};
use crate::outcome::{DropReason, FinishOutcome};
use crate::query::{CompiledQueryContext, InputView};
use crate::tracker::BillingTracker;
use std::time::Duration;
use vstd::prelude::*;

verus! {

/// Collects what the pipeline reports about a run, and bills the run when it finishes.
pub struct BillingObserver<T: BillingTracker> {
    tracker: Option<T>,
    inputs: BillingInputs,
    query_type: &'static str,
    metrics: ExecMetrics,
    errored: bool,
}

pub struct ObserverView<T> {
    pub tracker: Option<T>,
    pub inputs: InputsView,
    pub query_type: Seq<char>,
    pub metrics: MetricsView,
    pub errored: bool,
}

/// Something that the pipeline tells its observer before it finishes.
pub enum Report {
    QueryType(Seq<char>),
    Compiled { input: InputView, hydration: serde_json::Value },
    CompileTime(Duration),
    ExecuteTime(Duration),
    Authorized,
    Hydrated,
    Query(QueryCost),
    Error,
}

/// What billing does at the end of a run.
pub enum Verdict {
    /// No event is built.
    Stop(FinishOutcome),
    /// An event is built for this realm.
    Bill(Seq<char>),
}

impl<T> ObserverView<T> {
    /// An observer that was told nothing yet.
    pub open spec fn fresh(tracker: Option<T>, inputs: InputsView) -> Self {
        ObserverView {
            tracker,
            inputs,
            query_type: "unknown"@,
            metrics: MetricsView::empty(),
            errored: false,
        }
    }

    /// The observer after one more report.
    pub open spec fn after(self, report: Report) -> Self {
        match report {
            Report::QueryType(query_type) => ObserverView { query_type, ..self },
            Report::Compiled { input, hydration } => ObserverView {
                metrics: MetricsView {
                    input: Some(input),
                    hydration: Some(hydration),
                    ..self.metrics
                },
                ..self
            },
            Report::CompileTime(elapsed) => ObserverView {
                metrics: MetricsView { compile_time: Some(elapsed), ..self.metrics },
                ..self
            },
            Report::ExecuteTime(elapsed) => ObserverView {
                metrics: MetricsView { execute_time: Some(elapsed), ..self.metrics },
                ..self
            },
            Report::Authorized => self,
            Report::Hydrated => self,
            Report::Query(cost) => ObserverView {
                metrics: MetricsView { queries: self.metrics.queries.push(cost), ..self.metrics },
                ..self
            },
            Report::Error => ObserverView { errored: true, ..self },
        }
    }

    /// The observer after an event was handed to its tracker, which that left as `tracker`.
    pub open spec fn having_sent(self, tracker: T) -> Self {
        ObserverView { tracker: Some(tracker), ..self }
    }

    /// The realm to bill, or why there is none.
    pub open spec fn realm(self, catalog: CatalogView) -> Result<Seq<char>, DropReason> {
        match self.inputs.realm {
            None => Err(DropReason::RealmMissing),
            Some(raw) => match catalog.normalize_realm(raw) {
                None => Err(DropReason::RealmUnrecognized),
                Some(realm) => Ok(realm),
            },
        }
    }

    /// What billing does if the run finishes now.
    pub open spec fn verdict(self, catalog: CatalogView) -> Verdict {
        if self.errored {
            Verdict::Stop(FinishOutcome::Errored)
        } else if self.tracker is None {
            Verdict::Stop(FinishOutcome::Untracked)
        } else {
            match self.realm(catalog) {
                Err(reason) => Verdict::Stop(FinishOutcome::Dropped(reason)),
                Ok(realm) => Verdict::Bill(realm),
            }
        }
    }

    /// The metadata object, given the members that the run's metrics rendered to.
    pub open spec fn metadata(self, metrics: Option<JsonObject>) -> crate::json::Members {
        MetadataView::of(self.query_type, self.inputs, self.metrics.input).object(metrics)
    }

    /// The event for `realm`, given the members that the run's metrics rendered to.
    pub open spec fn event(
        self,
        catalog: CatalogView,
        realm: Seq<char>,
        correlation_id: Option<Seq<char>>,
        metrics: Option<JsonObject>,
    ) -> EventView {
        EventView::of(catalog, realm, self.inputs, correlation_id, self.metadata(metrics))
    }
}

impl<T: BillingTracker> View for BillingObserver<T> {
    type V = ObserverView<T>;

    closed spec fn view(&self) -> ObserverView<T> {
        ObserverView {
            tracker: self.tracker,
            inputs: self.inputs@,
            query_type: self.query_type@,
            metrics: self.metrics@,
            errored: self.errored,
        }
    }
}

impl<T: BillingTracker> BillingObserver<T> {
    /// Everything that was reported so far, as it is handed to the renderer of metrics.
    pub closed spec fn reported(&self) -> ExecMetrics {
        self.metrics
    }

    /// What is handed to the renderer is what was reported.
    pub proof fn reported_is_viewed(&self)
        ensures
            self.reported()@ == self@.metrics,
    {
    }

    /// An observer for a run that `inputs` asked for. Without a tracker nothing is billed.
    pub fn new(tracker: Option<T>, inputs: BillingInputs) -> (observer: Self)
        ensures
            observer@ == ObserverView::fresh(tracker, inputs@),
    {
        BillingObserver {
            tracker,
            inputs,
            query_type: "unknown",
            metrics: ExecMetrics::default(),
            errored: false,
        }
    }

    /// Who is billed.
    pub fn inputs(&self) -> (inputs: &BillingInputs)
        ensures
            inputs@ == self@.inputs,
    {
        &self.inputs
    }

    /// The query is of this type.
    pub fn set_query_type(&mut self, query_type: &'static str)
        ensures
            final(self)@ == old(self)@.after(Report::QueryType(query_type@)),
            final(self).reported() == old(self).reported(),
    {
        self.query_type = query_type;
    }

    /// The query was compiled to this.
    pub fn set_compiled(&mut self, ctx: &CompiledQueryContext)
        ensures
            final(self)@ == old(self)@.after(
                Report::Compiled { input: ctx.input@, hydration: ctx.hydration },
            ),            final(self).reported() == (ExecMetrics {
                input: final(self).reported().input,
                hydration: Some(ctx.hydration),
                ..old(self).reported()
            }),
    {
        self.metrics.set_compiled(ctx);
    }

    /// Compiling took this long.
    pub fn compiled(&mut self, elapsed: Duration)
        ensures
            final(self)@ == old(self)@.after(Report::CompileTime(elapsed)),
            final(self).reported() == (ExecMetrics {
                compile_time: Some(elapsed),
                ..old(self).reported()
            }),
    {
        self.metrics.compiled(elapsed);
    }

    /// Executing took this long. The number of rows is not billed.
    pub fn executed(&mut self, elapsed: Duration, _row_count: usize)
        ensures
            final(self)@ == old(self)@.after(Report::ExecuteTime(elapsed)),
            final(self).reported() == (ExecMetrics {
                execute_time: Some(elapsed),
                ..old(self).reported()
            }),
    {
        self.metrics.executed(elapsed);
    }

    /// Authorizing the rows is not billed.
    pub fn authorized(&mut self, _elapsed: Duration)
        ensures
            final(self)@ == old(self)@.after(Report::Authorized),
            final(self).reported() == old(self).reported(),
    {
    }

    /// Filling in the rows is not billed.
    pub fn hydrated(&mut self, _elapsed: Duration)
        ensures
            final(self)@ == old(self)@.after(Report::Hydrated),
            final(self).reported() == old(self).reported(),
    {
    }

    /// A database query cost this much. Its label is not billed.
    pub fn query_executed(
        &mut self,
        _label: &str,
        read_rows: u64,
        read_bytes: u64,
        memory_usage: i64,
    )
        ensures
            final(self)@ == old(self)@.after(
                Report::Query(QueryCost { read_rows, read_bytes, memory_usage }),
            ),            final(self).reported() == (ExecMetrics {
                queries: final(self).reported().queries,
                ..old(self).reported()
            }),
    {
        self.metrics.query_executed(read_rows, read_bytes, memory_usage);
    }

    /// The pipeline failed. Nothing is billed for a run that did.
    pub fn record_error(&mut self)
        ensures
            final(self)@ == old(self)@.after(Report::Error),
            final(self).reported() == old(self).reported(),
    {
        self.errored = true;
    }

    /// The metadata object. `render` turns what was reported into the members of a JSON object,
    /// or gives `None` where it cannot.
    pub fn build_metadata<R: FnOnce(&ExecMetrics) -> Option<JsonObject>>(&self, render: R) -> (object:
        JsonObject)
        requires
            call_requires(render, (&self.reported(),)),
        ensures
            exists|metrics: Option<JsonObject>| #[trigger]
                call_ensures(render, (&self.reported(),), metrics) && crate::json::members(object)
                    == self@.metadata(metrics),
    {
        let dimensions = BillingMetadata::of(
            self.query_type,
            &self.inputs,
            self.metrics.input.as_ref(),
        );
        let metrics = render(&self.metrics);
        dimensions.to_object(metrics)
    }

    /// The realm to bill, or why there is none.
    pub fn realm(&self, catalog: &BillingCatalog) -> (realm: Result<String, DropReason>)
        ensures
            match realm {
                Ok(realm) => self@.realm(catalog@) == Ok::<Seq<char>, DropReason>(realm@),
                Err(reason) => self@.realm(catalog@) == Err::<Seq<char>, DropReason>(reason),
            },
    {
        let raw = match &self.inputs.realm {
            Some(raw) => raw,
            None => {
                return Err(DropReason::RealmMissing);
            },
        };
        match catalog.normalize_realm(raw.as_str()) {
            Some(realm) => Ok(realm),
            None => Err(DropReason::RealmUnrecognized),
        }
    }

    /// Describes the event of this run, or says why it cannot be billed. `render` is as in
    /// [`Self::build_metadata`]; it is called only where there is a realm to bill.
    pub fn build_event<R: FnOnce(&ExecMetrics) -> Option<JsonObject>>(
        &self,
        catalog: &BillingCatalog,
        correlation_id: Option<&str>,
        render: R,
    ) -> (event: Result<BillingEvent, DropReason>)
        requires
            call_requires(render, (&self.reported(),)),
        ensures
            match self@.realm(catalog@) {
                Err(reason) => event == Err::<BillingEvent, DropReason>(reason),
                Ok(realm) => event is Ok && exists|metrics: Option<JsonObject>| #[trigger]
                    call_ensures(render, (&self.reported(),), metrics) && event->Ok_0@
                        == self@.event(
                        catalog@,
                        realm,
                        crate::text::opt_chars(correlation_id),
                        metrics,
                    ),
            },
    {
        match self.realm(catalog) {
            Err(reason) => Err(reason),
            Ok(realm) => {
                let metadata = self.build_metadata(render);
                Ok(BillingEvent::of(catalog, realm, &self.inputs, correlation_id, metadata))
            },
        }
    }

    /// Ends the run: bills it, or says why it is not billed. The numbers of rows are not billed.
    ///
    /// `render` is as in [`Self::build_metadata`]. `build` makes the described event ready for
    /// delivery, or says why that is impossible. A run that is billed is handed to the tracker
    /// once; otherwise the tracker is left alone.
    pub fn finish<
        R: FnOnce(&ExecMetrics) -> Option<JsonObject>,
        B: FnOnce(BillingEvent) -> Result<T::Event, String>,
    >(
        &mut self,
        _row_count: usize,
        _redacted_count: usize,
        catalog: &BillingCatalog,
        correlation_id: Option<&str>,
        render: R,
        build: B,
    ) -> (outcome: FinishOutcome)
        requires
            call_requires(render, (&old(self).reported(),)),
            forall|event: BillingEvent| #[trigger] call_requires(build, (event,)),
        ensures
            final(self).reported() == old(self).reported(),
            match old(self)@.verdict(catalog@) {
                Verdict::Stop(reason) => outcome == reason && final(self)@ == old(self)@,
                Verdict::Bill(realm) => exists|
                    metrics: Option<JsonObject>,
                    event: BillingEvent,
                    built: Result<T::Event, String>,
                |
                    {
                        &&& #[trigger] call_ensures(render, (&old(self).reported(),), metrics)
                        &&& event@ == old(self)@.event(
                            catalog@,
                            realm,
                            crate::text::opt_chars(correlation_id),
                            metrics,
                        )
                        &&& #[trigger] call_ensures(build, (event,), built)
                        &&& match built {
                            Err(_) => {
                                &&& outcome == FinishOutcome::Dropped(DropReason::EventBuildFailed)
                                &&& final(self)@ == old(self)@
                            },
                            Ok(ready) => exists|tracker: &mut T, answer: Result<String, String>|
                                {
                                    &&& #[trigger] call_ensures(T::track, (tracker, ready), answer)
                                    &&& old(self)@.tracker == Some(*tracker)
                                    &&& final(self)@ == old(self)@.having_sent(*final(tracker))
                                    &&& outcome == FinishOutcome::spec_delivered(answer)
                                },
                        }
                    },
            },
    {
        if self.errored {
            return FinishOutcome::Errored;
        }
        if self.tracker.is_none() {
            return FinishOutcome::Untracked;
        }
        let event = match self.build_event(catalog, correlation_id, render) {
            Ok(event) => event,
            Err(reason) => {
                return FinishOutcome::Dropped(reason);
            },
        };
        let ready = match build(event) {
            Ok(ready) => ready,
            Err(_) => {
                return FinishOutcome::Dropped(DropReason::EventBuildFailed);
            },
        };
        match &mut self.tracker {
            Some(tracker) => FinishOutcome::delivered(tracker.track(ready)),
            None => FinishOutcome::Untracked,
        }
    }
}

} // verus!
