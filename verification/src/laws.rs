//! What holds of billing as a whole, over all inputs and all runs.

use crate::constants::CatalogView;
use crate::event::EventView;
use crate::inputs::InputsView;
use crate::json::{JsonObject, JsonView, Members};
use crate::metadata::MetadataView;
use crate::metrics::QueryCost;
use crate::observer::{ObserverView, Report, Verdict};
use crate::outcome::{Counter, DropReason, FinishOutcome};
use crate::query::InputView;
use vstd::prelude::*;

verus! {

/// One thing that happens to an observer: it is told something, or an end of the run has its
/// tracker handed an event. An end of the run that hands out nothing changes nothing.
pub enum Step<T> {
    Report(Report),
    /// What the tracker became.
    Sent(T),
}

/// The observer after one more step. Nothing is handed to a tracker that is not there.
pub open spec fn after_step<T>(observer: ObserverView<T>, step: Step<T>) -> ObserverView<T> {
    match step {
        Step::Report(report) => observer.after(report),
        Step::Sent(tracker) => if observer.tracker is Some {
            observer.having_sent(tracker)
        } else {
            observer
        },
    }
}

/// The observer after any number of steps, first to last.
pub open spec fn after_all<T>(observer: ObserverView<T>, steps: Seq<Step<T>>) -> ObserverView<T>
    decreases steps.len(),
{
    if steps.len() == 0 {
        observer
    } else {
        after_step(after_all(observer, steps.drop_last()), steps.last())
    }
}

/// The costs among the steps, in their order.
pub open spec fn query_costs<T>(steps: Seq<Step<T>>) -> Seq<QueryCost>
    decreases steps.len(),
{
    if steps.len() == 0 {
        Seq::empty()
    } else {
        let rest = query_costs(steps.drop_last());
        match steps.last() {
            Step::Report(Report::Query(cost)) => rest.push(cost),
            _ => rest,
        }
    }
}

/// The metadata has exactly these keys for its dimensions.
pub open spec fn dimension_keys() -> Set<Seq<char>> {
    set![
        "query_type"@,
        "feature_qualified_name"@,
        "source_type"@,
        "coding_agent"@,
        "is_gitlab_team_member"@,
        "node_count"@,
        "relationship_count"@,
        "max_hops"@,
        "path_max_depth"@,
    ]
}

/// No step changes who is billed or whether there is a tracker, and no report changes the tracker.
pub proof fn steps_keep_inputs_and_tracker<T>(observer: ObserverView<T>, steps: Seq<Step<T>>)
    ensures
        after_all(observer, steps).inputs == observer.inputs,
        after_all(observer, steps).tracker is Some <==> observer.tracker is Some,
        (forall|i: int| 0 <= i < steps.len() ==> (#[trigger] steps[i]) is Report) ==> after_all(
            observer,
            steps,
        ).tracker == observer.tracker,
    decreases steps.len(),
{
    if steps.len() > 0 {
        let rest = steps.drop_last();
        steps_keep_inputs_and_tracker(observer, rest);
        if forall|i: int| 0 <= i < steps.len() ==> (#[trigger] steps[i]) is Report {
            assert forall|i: int| 0 <= i < rest.len() implies (#[trigger] rest[i]) is Report by {
                assert(rest[i] == steps[i]);
            }
        }
    }
}

/// A run counts as failed exactly where an error was reported at any point of it; nothing that
/// happens later takes the error back, an end of the run included.
pub proof fn errors_are_final<T>(observer: ObserverView<T>, steps: Seq<Step<T>>)
    ensures
        after_all(observer, steps).errored <==> observer.errored || steps.contains(
            Step::Report(Report::Error),
        ),
    decreases steps.len(),
{
    if steps.len() > 0 {
        let error = Step::<T>::Report(Report::Error);
        let rest = steps.drop_last();
        errors_are_final(observer, rest);
        assert(steps.contains(error) <==> rest.contains(error) || steps.last() == error) by {
            if rest.contains(error) {
                let i = choose|i: int| 0 <= i < rest.len() && rest[i] == error;
                assert(steps[i] == error);
            }
            if steps.last() == error {
                assert(steps[steps.len() - 1] == error);
            }
            if steps.contains(error) && steps.last() != error {
                let i = choose|i: int| 0 <= i < steps.len() && steps[i] == error;
                assert(rest[i] == error);
            }
        }
    }
}

/// A run in which an error was reported is not billed, whatever else happened before or since and
/// whatever the tracker, the inputs and the catalog are.
pub proof fn failed_runs_are_not_billed<T>(
    observer: ObserverView<T>,
    steps: Seq<Step<T>>,
    catalog: CatalogView,
)
    requires
        steps.contains(Step::Report(Report::Error)),
    ensures
        after_all(observer, steps).verdict(catalog) == Verdict::Stop(FinishOutcome::Errored),
{
    errors_are_final(observer, steps);
}

/// Ending a run does not change how it ends: ended again without a report in between, it is
/// judged the same and describes the same event.
pub proof fn ends_can_be_repeated<T>(
    observer: ObserverView<T>,
    tracker: T,
    catalog: CatalogView,
    realm: Seq<char>,
    correlation_id: Option<Seq<char>>,
    metrics: Option<JsonObject>,
)
    requires
        observer.tracker is Some,
    ensures
        observer.having_sent(tracker).verdict(catalog) == observer.verdict(catalog),
        observer.having_sent(tracker).event(catalog, realm, correlation_id, metrics)
            == observer.event(catalog, realm, correlation_id, metrics),
{
}

/// A run is billed exactly where no error was reported, there is a tracker, and the claimed realm
/// is a spelling of the realm that is billed.
pub proof fn billed_exactly_when<T>(
    observer: ObserverView<T>,
    catalog: CatalogView,
    realm: Seq<char>,
)
    ensures
        observer.verdict(catalog) == Verdict::Bill(realm) <==> {
            &&& !observer.errored
            &&& observer.tracker is Some
            &&& observer.inputs.realm is Some
            &&& catalog.normalize_realm(observer.inputs.realm->0) == Some(realm)
        },
{
}

/// What is reported and claimed besides errors and the realm has no say in whether a run is
/// billed: the other fields of the inputs may all be absent.
pub proof fn other_fields_do_not_decide<T>(
    observer: ObserverView<T>,
    other: ObserverView<T>,
    catalog: CatalogView,
)
    requires
        observer.errored == other.errored,
        observer.tracker is Some == other.tracker is Some,
        observer.inputs.realm == other.inputs.realm,
    ensures
        observer.verdict(catalog) == other.verdict(catalog),
{
}

/// Two spellings of one realm are billed alike: with the same verdict and the same event.
pub proof fn spellings_are_billed_alike<T>(
    observer: ObserverView<T>,
    catalog: CatalogView,
    spelling: Seq<char>,
    other: Seq<char>,
    correlation_id: Option<Seq<char>>,
    metrics: Option<JsonObject>,
)
    requires
        catalog.normalize_realm(spelling) == catalog.normalize_realm(other),
    ensures
        ({
            let one = ObserverView {
                inputs: InputsView { realm: Some(spelling), ..observer.inputs },
                ..observer
            };
            let two = ObserverView {
                inputs: InputsView { realm: Some(other), ..observer.inputs },
                ..observer
            };
            &&& one.verdict(catalog) == two.verdict(catalog)
            &&& forall|realm: Seq<char>|
                one.event(catalog, realm, correlation_id, metrics) == #[trigger] two.event(
                    catalog,
                    realm,
                    correlation_id,
                    metrics,
                )
        }),
{
}

/// Only a run that failed or that has no tracker ends uncounted. Every other run that stops before
/// an event is built is counted as dropped.
pub proof fn stops_are_counted<T>(observer: ObserverView<T>, catalog: CatalogView)
    ensures
        observer.verdict(catalog) matches Verdict::Stop(outcome) ==> {
            &&& outcome.spec_counter() is None <==> observer.errored || observer.tracker is None
            &&& outcome.spec_counter() matches Some(counter) ==> {
                ||| counter == Counter::Dropped(DropReason::RealmMissing)
                ||| counter == Counter::Dropped(DropReason::RealmUnrecognized)
            }
        },
{
}

/// Every outcome adds to at most one counter: an event that the tracker took to the emitted ones,
/// one that it refused to the rejected ones, and one that never reached it to those dropped for
/// the same reason. A run that failed or that has no tracker adds to none.
pub proof fn outcomes_are_counted(outcome: FinishOutcome, reason: DropReason)
    ensures
        outcome.spec_counter() is None <==> outcome is Errored || outcome is Untracked,
        outcome.spec_counter() == Some(Counter::Emitted) <==> outcome is Emitted,
        outcome.spec_counter() == Some(Counter::Rejected) <==> outcome is Rejected,
        outcome.spec_counter() == Some(Counter::Dropped(reason)) <==> outcome
            == FinishOutcome::Dropped(reason),
{
}

/// An event that was handed to the tracker is never dropped silently: it counts as emitted where
/// the tracker took it, and as rejected where it did not.
pub proof fn deliveries_are_counted(answer: Result<String, String>)
    ensures
        answer is Ok <==> FinishOutcome::spec_delivered(answer).spec_counter() == Some(
            Counter::Emitted,
        ),
        answer is Err <==> FinishOutcome::spec_delivered(answer).spec_counter() == Some(
            Counter::Rejected,
        ),
{
}

/// A later report of the same kind takes the place of an earlier one.
pub proof fn later_reports_replace<T>(
    observer: ObserverView<T>,
    query_type: Seq<char>,
    later_query_type: Seq<char>,
    input: InputView,
    hydration: serde_json::Value,
    later_input: InputView,
    later_hydration: serde_json::Value,
    time: std::time::Duration,
    later_time: std::time::Duration,
)
    ensures
        observer.after(Report::QueryType(query_type)).after(Report::QueryType(later_query_type))
            == observer.after(Report::QueryType(later_query_type)),
        observer.after(Report::Compiled { input, hydration }).after(
            (Report::Compiled { input: later_input, hydration: later_hydration }),
        ) == observer.after(
            (Report::Compiled { input: later_input, hydration: later_hydration }),
        ),
        observer.after(Report::CompileTime(time)).after(Report::CompileTime(later_time))
            == observer.after(Report::CompileTime(later_time)),
        observer.after(Report::ExecuteTime(time)).after(Report::ExecuteTime(later_time))
            == observer.after(Report::ExecuteTime(later_time)),
{
}

/// Every reported cost is kept, in the order of the reports, and no other.
pub proof fn costs_are_kept_in_order<T>(observer: ObserverView<T>, steps: Seq<Step<T>>)
    ensures
        after_all(observer, steps).metrics.queries == observer.metrics.queries + query_costs(steps),
    decreases steps.len(),
{
    if steps.len() > 0 {
        costs_are_kept_in_order(observer, steps.drop_last());
    }
    assert(after_all(observer, steps).metrics.queries =~= observer.metrics.queries + query_costs(
        steps,
    ));
}

/// No two dimensions share a key: the keys differ in length, but for two that differ in their
/// first letter.
pub proof fn dimension_keys_differ()
    ensures
        "query_type"@.len() == 10,
        "query_type"@[0] == 'q',
        "feature_qualified_name"@.len() == 22,
        "source_type"@.len() == 11,
        "coding_agent"@.len() == 12,
        "is_gitlab_team_member"@.len() == 21,
        "node_count"@.len() == 10,
        "node_count"@[0] == 'n',
        "relationship_count"@.len() == 18,
        "max_hops"@.len() == 8,
        "path_max_depth"@.len() == 14,
{
    reveal_strlit("query_type");
    reveal_strlit("feature_qualified_name");
    reveal_strlit("source_type");
    reveal_strlit("coding_agent");
    reveal_strlit("is_gitlab_team_member");
    reveal_strlit("node_count");
    reveal_strlit("relationship_count");
    reveal_strlit("max_hops");
    reveal_strlit("path_max_depth");
}

/// The keys of the metadata are those of the dimensions and those of the metrics.
pub proof fn metadata_keys(dimensions: MetadataView, metrics: JsonObject)
    ensures
        dimensions.members().dom() == dimension_keys(),
        dimensions.object(Some(metrics)).dom() == dimension_keys().union(
            crate::json::members(metrics).dom(),
        ),
{
    assert(dimensions.members().dom() =~= dimension_keys());
    assert(dimensions.object(Some(metrics)).dom() =~= dimension_keys().union(
        crate::json::members(metrics).dom(),
    ));
}

/// Every metric stands in the metadata with the value that it was rendered to.
pub proof fn metrics_are_carried(dimensions: MetadataView, metrics: JsonObject, key: Seq<char>)
    requires
        crate::json::members(metrics).contains_key(key),
    ensures
        dimensions.object(Some(metrics)).contains_key(key),
        dimensions.object(Some(metrics))[key] == crate::json::members(metrics)[key],
{
}

/// Where no metric has the key of a dimension, every dimension stands in the metadata under its
/// key, and one that is unknown stands there as null.
pub proof fn dimensions_are_not_shadowed(dimensions: MetadataView, metrics: JsonObject)
    requires
        crate::json::members(metrics).dom().disjoint(dimension_keys()),
    ensures
        ({
            let object = dimensions.object(Some(metrics));
            &&& dimension_keys().subset_of(object.dom())
            &&& object["query_type"@] == JsonView::Text(dimensions.query_type)
            &&& object["feature_qualified_name"@] == JsonView::Text(
                dimensions.feature_qualified_name,
            )
            &&& object["source_type"@] == JsonView::Text(dimensions.source_type)
            &&& object["coding_agent"@] == crate::json::text_or_null(dimensions.coding_agent)
            &&& object["is_gitlab_team_member"@] == crate::json::flag_or_null(
                dimensions.is_gitlab_team_member,
            )
            &&& object["node_count"@] == crate::json::count_or_null(dimensions.node_count)
            &&& object["relationship_count"@] == crate::json::count_or_null(
                dimensions.relationship_count,
            )
            &&& object["max_hops"@] == crate::json::count_or_null(dimensions.max_hops)
            &&& object["path_max_depth"@] == crate::json::count_or_null(dimensions.path_max_depth)
        }),
{
    dimension_keys_differ();
    metadata_keys(dimensions, metrics);
    assert forall|key: Seq<char>| #[trigger]
        dimension_keys().contains(key) implies !crate::json::members(metrics).contains_key(key) by {
        assert(!crate::json::members(metrics).dom().contains(key));
    }
    assert(dimension_keys().contains("query_type"@));
    assert(dimension_keys().contains("feature_qualified_name"@));
    assert(dimension_keys().contains("source_type"@));
    assert(dimension_keys().contains("coding_agent"@));
    assert(dimension_keys().contains("is_gitlab_team_member"@));
    assert(dimension_keys().contains("node_count"@));
    assert(dimension_keys().contains("relationship_count"@));
    assert(dimension_keys().contains("max_hops"@));
    assert(dimension_keys().contains("path_max_depth"@));
}

/// Nodes and relationships are counted exactly wherever their number fits the count.
pub proof fn counts_are_exact(query_type: Seq<char>, inputs: InputsView, input: InputView)
    requires
        input.nodes.len() <= i64::MAX,
        input.relationships.len() <= i64::MAX,
    ensures
        ({
            let dimensions = MetadataView::of(query_type, inputs, Some(input));
            &&& dimensions.node_count matches Some(n) && n == input.nodes.len()
            &&& dimensions.relationship_count matches Some(n) && n == input.relationships.len()
        }),
{
}

/// Two events name the same subject only where the same user asked.
pub proof fn subjects_identify_users(
    catalog: CatalogView,
    realm: Seq<char>,
    inputs: InputsView,
    correlation_id: Option<Seq<char>>,
    metadata: Members,
    other: InputsView,
)
    requires
        EventView::of(catalog, realm, inputs, correlation_id, metadata).subject == EventView::of(
            catalog,
            realm,
            other,
            correlation_id,
            metadata,
        ).subject,
    ensures
        inputs.user_id == other.user_id,
{
    crate::text::decimal_is_injective(inputs.user_id as nat, other.user_id as nat);
}

} // verus!
