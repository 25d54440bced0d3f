//! What reports, verdicts, events and metadata mean, each over every observer and every run.

use crate::constants::CatalogView;
use crate::event::EventView;
use crate::inputs::InputsView;
use crate::json::{JsonObject, JsonView, Members};
use crate::laws::{after_all, Step};
use crate::metadata::MetadataView;
use crate::metrics::QueryCost;
use crate::observer::{ObserverView, Report, Verdict};
use crate::outcome::{DropReason, FinishOutcome};
use crate::query::InputView;
use std::time::Duration;
use vstd::prelude::*;

verus! {

/// A new observer has the tracker and the inputs that it was given, does not know the query's
/// type, and was told of no error, query, time or cost.
pub proof fn new_observers_know_nothing<T>(tracker: Option<T>, inputs: InputsView)
    ensures
        ({
            let observer = ObserverView::fresh(tracker, inputs);
            &&& observer.tracker == tracker
            &&& observer.inputs == inputs
            &&& observer.query_type == "unknown"@
            &&& !observer.errored
            &&& observer.metrics.input is None
            &&& observer.metrics.hydration is None
            &&& observer.metrics.compile_time is None
            &&& observer.metrics.execute_time is None
            &&& observer.metrics.queries.len() == 0
        }),
{
}

/// After its type was reported, the query has that type, and nothing else has changed.
pub proof fn query_type_is_kept<T>(observer: ObserverView<T>, query_type: Seq<char>)
    ensures
        ({
            let told = observer.after(Report::QueryType(query_type));
            &&& told.query_type == query_type
            &&& told.metrics == observer.metrics
            &&& told.errored == observer.errored
            &&& told.inputs == observer.inputs
            &&& told.tracker == observer.tracker
        }),
{
}

/// After a compiled query was reported, the observer holds exactly that query and its hydration
/// plan: every node, every relationship, the path and the whole form. Nothing else has changed.
pub proof fn compiled_query_is_kept<T>(
    observer: ObserverView<T>,
    input: InputView,
    hydration: serde_json::Value,
)
    ensures
        ({
            let told = observer.after(Report::Compiled { input, hydration });
            &&& told.metrics.input == Some(input)
            &&& told.metrics.input->0.nodes == input.nodes
            &&& told.metrics.input->0.relationships == input.relationships
            &&& told.metrics.input->0.path == input.path
            &&& told.metrics.input->0.whole == input.whole
            &&& told.metrics.hydration == Some(hydration)
            &&& told.metrics.compile_time == observer.metrics.compile_time
            &&& told.metrics.execute_time == observer.metrics.execute_time
            &&& told.metrics.queries == observer.metrics.queries
            &&& told.query_type == observer.query_type
            &&& told.errored == observer.errored
            &&& told.inputs == observer.inputs
            &&& told.tracker == observer.tracker
        }),
{
}

/// After a time was reported, the observer holds exactly that time, for compiling or for executing
/// as it was reported. Nothing else has changed.
pub proof fn times_are_kept<T>(observer: ObserverView<T>, elapsed: Duration)
    ensures
        ({
            let told = observer.after(Report::CompileTime(elapsed));
            &&& told.metrics.compile_time == Some(elapsed)
            &&& told.metrics.execute_time == observer.metrics.execute_time
            &&& told.metrics.input == observer.metrics.input
            &&& told.metrics.hydration == observer.metrics.hydration
            &&& told.metrics.queries == observer.metrics.queries
            &&& told.query_type == observer.query_type
            &&& told.errored == observer.errored
            &&& told.inputs == observer.inputs
            &&& told.tracker == observer.tracker
        }),
        ({
            let told = observer.after(Report::ExecuteTime(elapsed));
            &&& told.metrics.execute_time == Some(elapsed)
            &&& told.metrics.compile_time == observer.metrics.compile_time
            &&& told.metrics.input == observer.metrics.input
            &&& told.metrics.hydration == observer.metrics.hydration
            &&& told.metrics.queries == observer.metrics.queries
            &&& told.query_type == observer.query_type
            &&& told.errored == observer.errored
            &&& told.inputs == observer.inputs
            &&& told.tracker == observer.tracker
        }),
{
}

/// After a cost was reported, it stands behind those reported before, with exactly its rows,
/// bytes and memory. Nothing else has changed.
pub proof fn costs_are_kept<T>(observer: ObserverView<T>, cost: QueryCost)
    ensures
        ({
            let told = observer.after(Report::Query(cost));
            let before = observer.metrics.queries;
            &&& told.metrics.queries.len() == before.len() + 1
            &&& told.metrics.queries[before.len() as int] == cost
            &&& forall|i: int|
                0 <= i < before.len() ==> (#[trigger] told.metrics.queries[i]) == before[i]
            &&& told.metrics.input == observer.metrics.input
            &&& told.metrics.hydration == observer.metrics.hydration
            &&& told.metrics.compile_time == observer.metrics.compile_time
            &&& told.metrics.execute_time == observer.metrics.execute_time
            &&& told.query_type == observer.query_type
            &&& told.errored == observer.errored
            &&& told.inputs == observer.inputs
            &&& told.tracker == observer.tracker
        }),
{
}

/// Authorizing and hydrating change nothing; an error changes only that the run has failed.
pub proof fn other_reports_change_nothing_else<T>(observer: ObserverView<T>)
    ensures
        observer.after(Report::Authorized) == observer,
        observer.after(Report::Hydrated) == observer,
        ({
            let told = observer.after(Report::Error);
            &&& told.errored
            &&& told.metrics == observer.metrics
            &&& told.query_type == observer.query_type
            &&& told.inputs == observer.inputs
            &&& told.tracker == observer.tracker
        }),
{
}

/// Handing out an event changes the tracker as the tracker says, and nothing else.
pub proof fn sending_changes_only_the_tracker<T>(observer: ObserverView<T>, tracker: T)
    ensures
        ({
            let sent = observer.having_sent(tracker);
            &&& sent.tracker == Some(tracker)
            &&& sent.metrics == observer.metrics
            &&& sent.query_type == observer.query_type
            &&& sent.errored == observer.errored
            &&& sent.inputs == observer.inputs
        }),
{
}

/// Of all that happened in a run, the last report of each kind is what the observer holds.
pub proof fn last_report_of_a_kind_counts<T>(observer: ObserverView<T>, steps: Seq<Step<T>>, k: int)
    requires
        0 <= k < steps.len(),
    ensures
        ({
            let told = after_all(observer, steps);
            match steps[k] {
                Step::Report(Report::QueryType(query_type)) => (forall|j: int|
                    k < j < steps.len() ==> !((#[trigger] steps[j]) matches Step::Report(
                        Report::QueryType(_),
                    ))) ==> told.query_type == query_type,
                Step::Report(Report::Compiled { input, hydration }) => (forall|j: int|
                    k < j < steps.len() ==> !((#[trigger] steps[j]) matches Step::Report(
                        Report::Compiled { .. },
                    ))) ==> told.metrics.input == Some(input) && told.metrics.hydration == Some(
                    hydration,
                ),
                Step::Report(Report::CompileTime(elapsed)) => (forall|j: int|
                    k < j < steps.len() ==> !((#[trigger] steps[j]) matches Step::Report(
                        Report::CompileTime(_),
                    ))) ==> told.metrics.compile_time == Some(elapsed),
                Step::Report(Report::ExecuteTime(elapsed)) => (forall|j: int|
                    k < j < steps.len() ==> !((#[trigger] steps[j]) matches Step::Report(
                        Report::ExecuteTime(_),
                    ))) ==> told.metrics.execute_time == Some(elapsed),
                _ => true,
            }
        }),
    decreases steps.len(),
{
    let rest = steps.drop_last();
    if k < rest.len() {
        last_report_of_a_kind_counts(observer, rest, k);
        assert(rest[k] == steps[k]);
        assert(forall|j: int| 0 <= j < rest.len() ==> (#[trigger] rest[j]) == steps[j]);
        assert(steps[steps.len() - 1] == steps.last());
    }
}

/// `spelling` stands in the catalog for `realm`: its first entry with that spelling names it.
pub open spec fn first_entry_names(
    catalog: CatalogView,
    spelling: Seq<char>,
    realm: Seq<char>,
) -> bool {
    exists|i: int|
        {
            &&& 0 <= i < catalog.realms.len()
            &&& (#[trigger] catalog.realms[i]).0 == spelling
            &&& catalog.realms[i].1 == realm
            &&& forall|j: int| 0 <= j < i ==> (#[trigger] catalog.realms[j]).0 != spelling
        }
}

/// The catalog resolves a spelling to a realm exactly where its first entry with that spelling
/// names the realm, and resolves none that it does not hold.
pub proof fn spellings_resolve_by_the_catalog(
    catalog: CatalogView,
    spelling: Seq<char>,
    realm: Seq<char>,
)
    ensures
        catalog.normalize_realm(spelling) == Some(realm) <==> first_entry_names(
            catalog,
            spelling,
            realm,
        ),
        catalog.normalize_realm(spelling) is None <==> forall|i: int|
            0 <= i < catalog.realms.len() ==> (#[trigger] catalog.realms[i]).0 != spelling,
{
    catalog.normalize_realm_is_first_match(spelling);
    if first_entry_names(catalog, spelling, realm) {
        let i = choose|i: int|
            {
                &&& 0 <= i < catalog.realms.len()
                &&& (#[trigger] catalog.realms[i]).0 == spelling
                &&& catalog.realms[i].1 == realm
                &&& forall|j: int| 0 <= j < i ==> (#[trigger] catalog.realms[j]).0 != spelling
            };
        assert(catalog.resolves_at(spelling, i));
    }
    if catalog.normalize_realm(spelling) == Some(realm) {
        let i = choose|i: int| catalog.resolves_at(spelling, i);
        assert(catalog.resolves_at(spelling, i));
        assert(catalog.realms[i].1 == realm);
    }
}

/// Each way for a run to end without an event comes exactly where it should, and otherwise the run
/// is billed, for the realm that its claim stands for in the catalog.
pub proof fn verdicts_come_exactly_where<T>(
    observer: ObserverView<T>,
    catalog: CatalogView,
    realm: Seq<char>,
)
    ensures
        ({
            let verdict = observer.verdict(catalog);
            let open = !observer.errored && observer.tracker is Some;
            let claim = observer.inputs.realm;
            &&& verdict == Verdict::Stop(FinishOutcome::Errored) <==> observer.errored
            &&& verdict == Verdict::Stop(FinishOutcome::Untracked) <==> !observer.errored
                && observer.tracker is None
            &&& verdict == Verdict::Stop(FinishOutcome::Dropped(DropReason::RealmMissing)) <==> open
                && claim is None
            &&& verdict == Verdict::Stop(FinishOutcome::Dropped(DropReason::RealmUnrecognized))
                <==> open && claim is Some && forall|i: int|
                0 <= i < catalog.realms.len() ==> (#[trigger] catalog.realms[i]).0 != claim->0
            &&& verdict == Verdict::Bill(realm) <==> open && claim is Some && first_entry_names(
                catalog,
                claim->0,
                realm,
            )
            &&& verdict matches Verdict::Stop(outcome) ==> {
                ||| outcome is Errored
                ||| outcome is Untracked
                ||| outcome == FinishOutcome::Dropped(DropReason::RealmMissing)
                ||| outcome == FinishOutcome::Dropped(DropReason::RealmUnrecognized)
            }
        }),
{
    if observer.inputs.realm is Some {
        spellings_resolve_by_the_catalog(catalog, observer.inputs.realm->0, realm);
    }
}

/// Where a run has no realm to bill, the reason is that none is claimed, or that the claimed one
/// is not in the catalog; otherwise the realm is the one that the claim stands for.
pub proof fn realms_come_from_the_claim<T>(
    observer: ObserverView<T>,
    catalog: CatalogView,
    realm: Seq<char>,
)
    ensures
        observer.realm(catalog) == Err::<Seq<char>, DropReason>(DropReason::RealmMissing)
            <==> observer.inputs.realm is None,
        observer.realm(catalog) == Err::<Seq<char>, DropReason>(DropReason::RealmUnrecognized)
            <==> observer.inputs.realm is Some && forall|i: int|
            0 <= i < catalog.realms.len() ==> (#[trigger] catalog.realms[i]).0
                != observer.inputs.realm->0,
        observer.realm(catalog) == Ok::<Seq<char>, DropReason>(realm) <==> observer.inputs.realm
            is Some && first_entry_names(catalog, observer.inputs.realm->0, realm),
        observer.realm(catalog) != Err::<Seq<char>, DropReason>(DropReason::EventBuildFailed),
{
    if observer.inputs.realm is Some {
        spellings_resolve_by_the_catalog(catalog, observer.inputs.realm->0, realm);
    }
}

/// The tracker's answer is passed on whole: the identifier of an event that it took, and the
/// message about one that it refused.
pub proof fn answers_are_passed_on(event_id: String, error: String)
    ensures
        FinishOutcome::spec_delivered(Ok(event_id)) == FinishOutcome::Emitted(event_id),
        FinishOutcome::spec_delivered(Err(error)) == FinishOutcome::Rejected(error),
{
}

/// One run is one unit of usage, whatever was reported about it. The event carries the realm and
/// the correlation identifier that it is described for, and the catalog's wording.
pub proof fn events_are_one_unit<T>(
    observer: ObserverView<T>,
    catalog: CatalogView,
    realm: Seq<char>,
    correlation_id: Option<Seq<char>>,
    metrics: Option<JsonObject>,
)
    ensures
        ({
            let event = observer.event(catalog, realm, correlation_id, metrics);
            &&& event.quantity == 1
            &&& event.realm == realm
            &&& event.category == catalog.category
            &&& event.event_type == catalog.event_type
            &&& event.unit_of_measure == catalog.unit_of_measure
            &&& event.correlation_id == correlation_id
            &&& event.metadata == observer.metadata(metrics)
        }),
{
}

/// Every identifier of an event is the claim of the same name, absent exactly where the claim is,
/// and the subject is the user's number, spelled in decimal digits without leading zeros.
pub proof fn events_name_who_used_it<T>(
    observer: ObserverView<T>,
    catalog: CatalogView,
    realm: Seq<char>,
    correlation_id: Option<Seq<char>>,
    metrics: Option<JsonObject>,
)
    ensures
        ({
            let event = observer.event(catalog, realm, correlation_id, metrics);
            let claims = observer.inputs;
            &&& event.organization_id == claims.organization_id
            &&& event.instance_id == claims.instance_id
            &&& event.unique_instance_id == claims.unique_instance_id
            &&& event.instance_version == claims.instance_version
            &&& event.global_user_id == claims.global_user_id
            &&& event.host_name == claims.host_name
            &&& event.root_namespace_id == claims.root_namespace_id
            &&& event.deployment_type == claims.deployment_type
            &&& crate::text::number(event.subject) == claims.user_id
            &&& event.subject.len() > 0
            &&& event.subject.len() > 1 ==> event.subject[0] != '0'
            &&& forall|i: int|
                0 <= i < event.subject.len() ==> '0' as int <= (#[trigger] event.subject[i]) as int
                    <= '9' as int
        }),
{
    crate::text::decimal_reads_back(observer.inputs.user_id as nat);
}

/// Whatever metadata an event is given, it keeps that metadata, is one unit of usage, and takes
/// every other part from where it belongs: the wording from the catalog, and each identifier from
/// the claim of the same name.
pub proof fn described_events_keep_their_parts(
    catalog: CatalogView,
    realm: Seq<char>,
    claims: InputsView,
    correlation_id: Option<Seq<char>>,
    metadata: Members,
)
    ensures
        ({
            let event = EventView::of(catalog, realm, claims, correlation_id, metadata);
            &&& event.quantity == 1
            &&& event.realm == realm
            &&& event.category == catalog.category
            &&& event.event_type == catalog.event_type
            &&& event.unit_of_measure == catalog.unit_of_measure
            &&& event.correlation_id == correlation_id
            &&& event.metadata == metadata
            &&& crate::text::number(event.subject) == claims.user_id
            &&& event.organization_id == claims.organization_id
            &&& event.instance_id == claims.instance_id
            &&& event.unique_instance_id == claims.unique_instance_id
            &&& event.instance_version == claims.instance_version
            &&& event.global_user_id == claims.global_user_id
            &&& event.host_name == claims.host_name
            &&& event.root_namespace_id == claims.root_namespace_id
            &&& event.deployment_type == claims.deployment_type
        }),
{
    crate::text::decimal_reads_back(claims.user_id as nat);
}

/// Each part of an event depends on its own claim alone: two runs that agree on a claim have
/// events that agree on it, and two that differ in it have events that differ in it, however the
/// runs, catalogs and metrics differ otherwise.
pub proof fn claims_do_not_mix<T>(
    observer: ObserverView<T>,
    other: ObserverView<T>,
    catalog: CatalogView,
    other_catalog: CatalogView,
    realm: Seq<char>,
    other_realm: Seq<char>,
    correlation_id: Option<Seq<char>>,
    other_correlation_id: Option<Seq<char>>,
    metrics: Option<JsonObject>,
    other_metrics: Option<JsonObject>,
)
    ensures
        ({
            let a = observer.event(catalog, realm, correlation_id, metrics);
            let b = other.event(other_catalog, other_realm, other_correlation_id, other_metrics);
            let x = observer.inputs;
            let y = other.inputs;
            &&& a.organization_id == b.organization_id <==> x.organization_id == y.organization_id
            &&& a.instance_id == b.instance_id <==> x.instance_id == y.instance_id
            &&& a.unique_instance_id == b.unique_instance_id <==> x.unique_instance_id
                == y.unique_instance_id
            &&& a.instance_version == b.instance_version <==> x.instance_version
                == y.instance_version
            &&& a.global_user_id == b.global_user_id <==> x.global_user_id == y.global_user_id
            &&& a.host_name == b.host_name <==> x.host_name == y.host_name
            &&& a.root_namespace_id == b.root_namespace_id <==> x.root_namespace_id
                == y.root_namespace_id
            &&& a.deployment_type == b.deployment_type <==> x.deployment_type == y.deployment_type
            &&& a.subject == b.subject <==> x.user_id == y.user_id
            &&& a.quantity == b.quantity
            &&& a.realm == b.realm <==> realm == other_realm
            &&& a.correlation_id == b.correlation_id <==> correlation_id == other_correlation_id
        }),
{
    if crate::text::decimal(observer.inputs.user_id as nat) == crate::text::decimal(
        other.inputs.user_id as nat,
    ) {
        crate::text::decimal_is_injective(
            observer.inputs.user_id as nat,
            other.inputs.user_id as nat,
        );
    }
}

/// The key is one of those under which the metadata keeps a dimension.
pub open spec fn is_dimension(key: Seq<char>) -> bool {
    ||| key == "query_type"@
    ||| key == "feature_qualified_name"@
    ||| key == "source_type"@
    ||| key == "coding_agent"@
    ||| key == "is_gitlab_team_member"@
    ||| key == "node_count"@
    ||| key == "relationship_count"@
    ||| key == "max_hops"@
    ||| key == "path_max_depth"@
}

/// The metadata of a run has the keys of all dimensions and of all metrics and no other, and
/// every metric stands there with the value that it was rendered to. Where the metrics could not be
/// rendered it has no key.
pub proof fn metadata_holds_dimensions_and_metrics<T>(
    observer: ObserverView<T>,
    metrics: JsonObject,
    key: Seq<char>,
)
    ensures
        ({
            let object = observer.metadata(Some(metrics));
            let rendered = crate::json::members(metrics);
            &&& object.contains_key(key) <==> is_dimension(key) || rendered.contains_key(key)
            &&& rendered.contains_key(key) ==> object[key] == rendered[key]
            &&& !observer.metadata(None).contains_key(key)
        }),
{
    crate::laws::metadata_keys(
        MetadataView::of(observer.query_type, observer.inputs, observer.metrics.input),
        metrics,
    );
}

/// A text, flag or count is kept in JSON as it is, and as null exactly where it is unknown.
pub proof fn json_keeps_values(text: Seq<char>, flag: bool, count: i64)
    ensures
        crate::json::text_or_null(Some(text)) == JsonView::Text(text),
        crate::json::text_or_null(None) == JsonView::Null,
        crate::json::flag_or_null(Some(flag)) == JsonView::Bool(flag),
        crate::json::flag_or_null(None) == JsonView::Null,
        crate::json::count_or_null(Some(count)) == JsonView::Int(count as int),
        crate::json::count_or_null(None) == JsonView::Null,
{
}

/// Whatever the dimensions are, their object has the keys of all dimensions and of all metrics and
/// no other; a metric stands there as it was rendered, and a dimension as it is where no metric
/// has its key. Where the metrics could not be rendered the object has no key.
pub proof fn objects_hold_dimensions_and_metrics(
    dimensions: MetadataView,
    metrics: JsonObject,
    key: Seq<char>,
)
    ensures
        ({
            let object = dimensions.object(Some(metrics));
            let rendered = crate::json::members(metrics);
            &&& object.contains_key(key) <==> is_dimension(key) || rendered.contains_key(key)
            &&& rendered.contains_key(key) ==> object[key] == rendered[key]
            &&& !dimensions.object(None).contains_key(key)
            &&& !rendered.contains_key(key) ==> {
                &&& key == "query_type"@ ==> object[key] == JsonView::Text(dimensions.query_type)
                &&& key == "feature_qualified_name"@ ==> object[key] == JsonView::Text(
                    dimensions.feature_qualified_name,
                )
                &&& key == "source_type"@ ==> object[key] == JsonView::Text(dimensions.source_type)
                &&& key == "coding_agent"@ ==> match dimensions.coding_agent {
                    Some(agent) => object[key] == JsonView::Text(agent),
                    None => object[key] == JsonView::Null,
                }
                &&& key == "is_gitlab_team_member"@ ==> match dimensions.is_gitlab_team_member {
                    Some(member) => object[key] == JsonView::Bool(member),
                    None => object[key] == JsonView::Null,
                }
                &&& key == "node_count"@ ==> match dimensions.node_count {
                    Some(n) => object[key] == JsonView::Int(n as int),
                    None => object[key] == JsonView::Null,
                }
                &&& key == "relationship_count"@ ==> match dimensions.relationship_count {
                    Some(n) => object[key] == JsonView::Int(n as int),
                    None => object[key] == JsonView::Null,
                }
                &&& key == "max_hops"@ ==> match dimensions.max_hops {
                    Some(n) => object[key] == JsonView::Int(n as int),
                    None => object[key] == JsonView::Null,
                }
                &&& key == "path_max_depth"@ ==> match dimensions.path_max_depth {
                    Some(n) => object[key] == JsonView::Int(n as int),
                    None => object[key] == JsonView::Null,
                }
            }
        }),
{
    crate::laws::dimension_keys_differ();
    crate::laws::metadata_keys(dimensions, metrics);
}

/// The metadata of a run says what was asked, through which feature and source, and by whom:
/// under each of these keys, where no metric has it, stands what was reported or claimed, and null
/// where nothing was claimed.
pub proof fn metadata_says_who_asked<T>(observer: ObserverView<T>, metrics: JsonObject)
    ensures
        ({
            let object = observer.metadata(Some(metrics));
            let rendered = crate::json::members(metrics);
            let claims = observer.inputs;
            &&& !rendered.contains_key("query_type"@) ==> object["query_type"@] == JsonView::Text(
                observer.query_type,
            )
            &&& !rendered.contains_key("feature_qualified_name"@)
                ==> object["feature_qualified_name"@] == JsonView::Text(
                "orbit_"@ + claims.source_type,
            )
            &&& !rendered.contains_key("source_type"@) ==> object["source_type"@]
                == JsonView::Text(claims.source_type)
            &&& !rendered.contains_key("coding_agent"@) ==> match claims.coding_agent {
                Some(agent) => object["coding_agent"@] == JsonView::Text(agent),
                None => object["coding_agent"@] == JsonView::Null,
            }
            &&& !rendered.contains_key("is_gitlab_team_member"@)
                ==> match claims.is_gitlab_team_member {
                Some(member) => object["is_gitlab_team_member"@] == JsonView::Bool(member),
                None => object["is_gitlab_team_member"@] == JsonView::Null,
            }
        }),
{
    crate::laws::dimension_keys_differ();
}

/// The metadata of a run says how far the compiled query reaches, whatever else was reported:
/// under each of these keys, where no metric has it, stand the number of its nodes, the number of
/// its relationships, the greatest upper hop limit among them (0 where there are none), and the
/// depth of its path, or null where it has no path. All four are null until a query was reported.
pub proof fn metadata_says_how_far_the_query_reaches<T>(
    observer: ObserverView<T>,
    metrics: JsonObject,
)
    ensures
        ({
            let object = observer.metadata(Some(metrics));
            let rendered = crate::json::members(metrics);
            match observer.metrics.input {
                Some(input) => {
                    let relationships = input.relationships;
                    &&& !rendered.contains_key("node_count"@) && input.nodes.len() <= i64::MAX
                        ==> object["node_count"@] == JsonView::Int(input.nodes.len() as int)
                    &&& !rendered.contains_key("relationship_count"@) && relationships.len()
                        <= i64::MAX ==> object["relationship_count"@] == JsonView::Int(
                        relationships.len() as int,
                    )
                    &&& !rendered.contains_key("max_hops"@) ==> {
                        &&& object["max_hops"@] is Int
                        &&& relationships.len() == 0 ==> object["max_hops"@] == JsonView::Int(0)
                        &&& relationships.len() > 0 ==> exists|i: int|
                            0 <= i < relationships.len() && object["max_hops"@] == JsonView::Int(
                                (#[trigger] relationships[i]).hops.max as int,
                            )
                        &&& forall|i: int|
                            0 <= i < relationships.len() ==> (#[trigger] relationships[i]).hops.max
                                <= object["max_hops"@]->Int_0
                    }
                    &&& !rendered.contains_key("path_max_depth"@) ==> match input.path {
                        Some(path) => object["path_max_depth"@] == JsonView::Int(
                            path.max_depth as int,
                        ),
                        None => object["path_max_depth"@] == JsonView::Null,
                    }
                },
                None => {
                    &&& !rendered.contains_key("node_count"@) ==> object["node_count"@]
                        == JsonView::Null
                    &&& !rendered.contains_key("relationship_count"@)
                        ==> object["relationship_count"@] == JsonView::Null
                    &&& !rendered.contains_key("max_hops"@) ==> object["max_hops"@]
                        == JsonView::Null
                    &&& !rendered.contains_key("path_max_depth"@) ==> object["path_max_depth"@]
                        == JsonView::Null
                },
            }
        }),
{
    crate::laws::dimension_keys_differ();
    if observer.metrics.input is Some {
        crate::query::max_hops_is_greatest(observer.metrics.input->0.relationships);
    }
}

/// Beside the metrics, the metadata of a run depends on nothing but the query's type and compiled
/// form, the source, the coding agent and the team membership.
pub proof fn metadata_depends_on_nothing_else<T>(
    observer: ObserverView<T>,
    other: ObserverView<T>,
    metrics: Option<JsonObject>,
)
    requires
        observer.query_type == other.query_type,
        observer.metrics.input == other.metrics.input,
        observer.inputs.source_type == other.inputs.source_type,
        observer.inputs.coding_agent == other.inputs.coding_agent,
        observer.inputs.is_gitlab_team_member == other.inputs.is_gitlab_team_member,
    ensures
        observer.metadata(metrics) == other.metadata(metrics),
{
}

/// The dimensions are those of the query that was compiled: its path's depth is known exactly
/// where it has a path, and is that path's, whatever nodes and relationships there are; its hops
/// are known exactly where it was reported, and no relationship reaches further.
pub proof fn dimensions_follow_the_query(
    query_type: Seq<char>,
    inputs: InputsView,
    input: Option<InputView>,
)
    ensures
        ({
            let dimensions = MetadataView::of(query_type, inputs, input);
            &&& dimensions.query_type == query_type
            &&& dimensions.feature_qualified_name == "orbit_"@ + inputs.source_type
            &&& dimensions.source_type == inputs.source_type
            &&& dimensions.coding_agent == inputs.coding_agent
            &&& dimensions.is_gitlab_team_member == inputs.is_gitlab_team_member
            &&& input is None ==> {
                &&& dimensions.node_count is None
                &&& dimensions.relationship_count is None
                &&& dimensions.max_hops is None
                &&& dimensions.path_max_depth is None
            }
            &&& input matches Some(asked) ==> {
                &&& dimensions.node_count is Some
                &&& dimensions.relationship_count is Some
                &&& asked.nodes.len() <= i64::MAX ==> dimensions.node_count->0 == asked.nodes.len()
                &&& asked.relationships.len() <= i64::MAX ==> dimensions.relationship_count->0
                    == asked.relationships.len()
                &&& dimensions.path_max_depth is Some <==> asked.path is Some
                &&& asked.path matches Some(path) ==> dimensions.path_max_depth->0
                    == path.max_depth
                &&& dimensions.max_hops is Some
                &&& asked.relationships.len() == 0 ==> dimensions.max_hops->0 == 0
                &&& asked.relationships.len() > 0 ==> exists|i: int|
                    0 <= i < asked.relationships.len() && dimensions.max_hops->0 == (
                    #[trigger] asked.relationships[i]).hops.max
                &&& forall|i: int|
                    0 <= i < asked.relationships.len() ==> (#[trigger] asked.relationships[i]).hops.max
                        <= dimensions.max_hops->0
            }
        }),
{
    if input is Some {
        crate::query::max_hops_is_greatest(input->0.relationships);
    }
}

} // verus!
