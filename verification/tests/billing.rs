use std::cell::Cell;
use std::rc::Rc;
use std::time::Duration;

use gkg_billing::{
    feature_qualified_name, BillingCatalog, BillingEvent, BillingInputs, BillingMetadata,
    BillingObserver, BillingTracker, CompiledQueryContext, Counter, DropReason, ExecMetrics,
    FinishOutcome, HopRange, Input, InputNode, InputPath, InputRelationship, JsonObject,
    QueryCost, RealmAlias,
};
use serde_json::Value;

/// Keeps the last event and counts how many it was handed; refuses them if told to.
struct Probe {
    handed: Rc<Cell<usize>>,
    last: Rc<Cell<Option<BillingEvent>>>,
    refuse: bool,
}

impl Probe {
    fn new(refuse: bool) -> Self {
        Probe { handed: Rc::new(Cell::new(0)), last: Rc::new(Cell::new(None)), refuse }
    }

    fn share(&self) -> Self {
        Probe { handed: self.handed.clone(), last: self.last.clone(), refuse: self.refuse }
    }
}

impl BillingTracker for Probe {
    type Event = BillingEvent;

    fn track(&mut self, event: BillingEvent) -> Result<String, String> {
        self.handed.set(self.handed.get() + 1);
        self.last.set(Some(event));
        if self.refuse {
            Err("closed".to_string())
        } else {
            Ok("event-7".to_string())
        }
    }
}

fn inputs(realm: Option<&str>) -> BillingInputs {
    BillingInputs {
        user_id: 90210,
        source_type: "rest".into(),
        organization_id: Some(-3),
        instance_id: Some("instance".into()),
        unique_instance_id: Some("unique".into()),
        instance_version: Some("17.9".into()),
        global_user_id: Some("global".into()),
        host_name: Some("host".into()),
        root_namespace_id: Some(11),
        deployment_type: Some("dedicated".into()),
        realm: realm.map(String::from),
        is_gitlab_team_member: Some(false),
        coding_agent: Some("agent".into()),
    }
}

fn alias(spelling: &str, realm: &str) -> RealmAlias {
    RealmAlias { spelling: spelling.into(), realm: realm.into() }
}

fn catalog() -> BillingCatalog {
    BillingCatalog {
        category: "usage".into(),
        event_type: "query".into(),
        unit_of_measure: "request".into(),
        realms: vec![alias("North", "N"), alias("north", "N"), alias("south", "S"), alias("north", "X")],
    }
}

fn no_metrics(_metrics: &ExecMetrics) -> Option<JsonObject> {
    Some(JsonObject::new())
}

fn accept(event: BillingEvent) -> Result<BillingEvent, String> {
    Ok(event)
}

fn hop(max: u32) -> InputRelationship {
    InputRelationship {
        types: vec!["A".into(), "B".into()],
        from: "x".into(),
        to: "y".into(),
        hops: HopRange { min: 0, max },
    }
}

fn query(nodes: usize, hops: &[u32], depth: Option<u32>) -> CompiledQueryContext {
    CompiledQueryContext {
        input: Input {
            nodes: (0..nodes).map(|_| InputNode { entity: None }).collect(),
            relationships: hops.iter().map(|max| hop(*max)).collect(),
            path: depth.map(|max_depth| InputPath { max_depth }),
            whole: Value::from("whole query"),
        },
        hydration: Value::from("plan"),
    }
}

#[test]
fn event_says_who_used_what() {
    let probe = Probe::new(false);
    let mut obs = BillingObserver::new(Some(probe.share()), inputs(Some("north")));
    let outcome = obs.finish(5, 6, &catalog(), Some("corr-1"), no_metrics, accept);
    assert_eq!(outcome, FinishOutcome::Emitted("event-7".to_string()));
    let event = probe.last.take().unwrap();
    assert_eq!(event.category, "usage");
    assert_eq!(event.event_type, "query");
    assert_eq!(event.unit_of_measure, "request");
    assert_eq!(event.realm, "N");
    assert_eq!(event.quantity, 1);
    assert_eq!(event.subject, "90210");
    assert_eq!(event.organization_id, Some(-3));
    assert_eq!(event.correlation_id.as_deref(), Some("corr-1"));
    assert_eq!(event.instance_id.as_deref(), Some("instance"));
    assert_eq!(event.unique_instance_id.as_deref(), Some("unique"));
    assert_eq!(event.instance_version.as_deref(), Some("17.9"));
    assert_eq!(event.global_user_id.as_deref(), Some("global"));
    assert_eq!(event.host_name.as_deref(), Some("host"));
    assert_eq!(event.root_namespace_id, Some(11));
    assert_eq!(event.deployment_type.as_deref(), Some("dedicated"));
    assert_eq!(event.metadata["query_type"], "unknown");
    assert_eq!(event.metadata["feature_qualified_name"], "orbit_rest");
    assert_eq!(event.metadata["is_gitlab_team_member"], false);
}

#[test]
fn absent_inputs_are_absent_from_the_event() {
    let probe = Probe::new(false);
    let bare = BillingInputs {
        organization_id: None,
        instance_id: None,
        unique_instance_id: None,
        instance_version: None,
        global_user_id: None,
        host_name: None,
        root_namespace_id: None,
        deployment_type: None,
        is_gitlab_team_member: None,
        coding_agent: None,
        ..inputs(Some("south"))
    };
    let mut obs = BillingObserver::new(Some(probe.share()), bare);
    obs.finish(0, 0, &catalog(), None, no_metrics, accept);
    let event = probe.last.take().unwrap();
    assert_eq!(event.realm, "S");
    assert_eq!(event.organization_id, None);
    assert_eq!(event.correlation_id, None);
    assert_eq!(event.instance_id, None);
    assert_eq!(event.unique_instance_id, None);
    assert_eq!(event.instance_version, None);
    assert_eq!(event.global_user_id, None);
    assert_eq!(event.host_name, None);
    assert_eq!(event.root_namespace_id, None);
    assert_eq!(event.deployment_type, None);
}

#[test]
fn subject_is_the_decimal_user_number() {
    for user_id in [0, 9, 10, 101, 1_234_567_890, u64::MAX] {
        let who = BillingInputs { user_id, ..inputs(Some("North")) };
        let event =
            BillingEvent::of(&catalog(), "N".to_string(), &who, None, JsonObject::new());
        assert_eq!(event.subject, user_id.to_string());
    }
}

#[test]
fn errors_win_over_everything() {
    let probe = Probe::new(false);
    let mut obs = BillingObserver::new(Some(probe.share()), inputs(Some("north")));
    obs.record_error();
    obs.set_query_type("path");
    obs.set_compiled(&query(1, &[1], None));
    obs.compiled(Duration::from_millis(1));
    obs.executed(Duration::from_millis(2), 3);
    obs.authorized(Duration::from_millis(4));
    obs.hydrated(Duration::from_millis(5));
    obs.query_executed("base", 1, 2, 3);
    let outcome = obs.finish(1, 1, &catalog(), None, no_metrics, accept);
    assert_eq!(outcome, FinishOutcome::Errored);
    assert_eq!(outcome.counter(), None);
    assert_eq!(probe.handed.get(), 0);

    let mut untracked = BillingObserver::<Probe>::new(None, inputs(None));
    untracked.record_error();
    let outcome = untracked.finish(1, 1, &catalog(), None, no_metrics, accept);
    assert_eq!(outcome, FinishOutcome::Errored);
}

#[test]
fn without_a_tracker_nothing_is_counted() {
    let mut obs = BillingObserver::<Probe>::new(None, inputs(None));
    let outcome = obs.finish(1, 1, &catalog(), None, no_metrics, accept);
    assert_eq!(outcome, FinishOutcome::Untracked);
    assert_eq!(outcome.counter(), None);
}

#[test]
fn missing_realm_is_dropped() {
    let probe = Probe::new(false);
    let mut obs = BillingObserver::new(Some(probe.share()), inputs(None));
    assert_eq!(obs.realm(&catalog()), Err(DropReason::RealmMissing));
    let outcome = obs.finish(1, 1, &catalog(), None, no_metrics, accept);
    assert_eq!(outcome, FinishOutcome::Dropped(DropReason::RealmMissing));
    assert_eq!(outcome.counter(), Some(Counter::Dropped(DropReason::RealmMissing)));
    assert_eq!(probe.handed.get(), 0);
}

#[test]
fn unknown_realm_is_dropped() {
    let probe = Probe::new(false);
    let mut obs = BillingObserver::new(Some(probe.share()), inputs(Some("NORTH")));
    assert_eq!(obs.realm(&catalog()), Err(DropReason::RealmUnrecognized));
    let outcome = obs.finish(1, 1, &catalog(), None, no_metrics, accept);
    assert_eq!(outcome, FinishOutcome::Dropped(DropReason::RealmUnrecognized));
    assert_eq!(outcome.counter(), Some(Counter::Dropped(DropReason::RealmUnrecognized)));
    assert_eq!(probe.handed.get(), 0);
}

#[test]
fn unbuildable_event_is_dropped() {
    let probe = Probe::new(false);
    let mut obs = BillingObserver::new(Some(probe.share()), inputs(Some("north")));
    let outcome =
        obs.finish(1, 1, &catalog(), None, no_metrics, |_event| Err("invalid".to_string()));
    assert_eq!(outcome, FinishOutcome::Dropped(DropReason::EventBuildFailed));
    assert_eq!(outcome.counter(), Some(Counter::Dropped(DropReason::EventBuildFailed)));
    assert_eq!(probe.handed.get(), 0);
}

#[test]
fn tracker_answers_are_counted() {
    let taking = Probe::new(false);
    let mut obs = BillingObserver::new(Some(taking.share()), inputs(Some("north")));
    let outcome = obs.finish(1, 1, &catalog(), None, no_metrics, accept);
    assert_eq!(outcome.counter(), Some(Counter::Emitted));
    assert_eq!(taking.handed.get(), 1);

    let refusing = Probe::new(true);
    let mut obs = BillingObserver::new(Some(refusing.share()), inputs(Some("north")));
    let outcome = obs.finish(1, 1, &catalog(), None, no_metrics, accept);
    assert_eq!(outcome, FinishOutcome::Rejected("closed".to_string()));
    assert_eq!(outcome.counter(), Some(Counter::Rejected));
    assert_eq!(refusing.handed.get(), 1);
    assert_eq!(
        FinishOutcome::delivered(Err("late".to_string())),
        FinishOutcome::Rejected("late".to_string())
    );
}

#[test]
fn spellings_of_one_realm_give_one_event() {
    let mut events = Vec::new();
    for spelling in ["North", "north"] {
        let obs = BillingObserver::<Probe>::new(None, inputs(Some(spelling)));
        let event = obs.build_event(&catalog(), Some("c"), no_metrics);
        events.push(event.ok().unwrap());
    }
    assert_eq!(events[0].realm, "N");
    assert_eq!(events[0].realm, events[1].realm);
    assert_eq!(events[0].subject, events[1].subject);
    assert_eq!(events[0].metadata, events[1].metadata);
}

#[test]
fn first_spelling_in_the_catalog_counts() {
    let catalog = catalog();
    assert_eq!(catalog.normalize_realm("north"), Some("N".to_string()));
    assert_eq!(catalog.normalize_realm("south"), Some("S".to_string()));
    assert_eq!(catalog.normalize_realm("S"), None);
    assert_eq!(catalog.normalize_realm(""), None);
}

#[test]
fn feature_name_is_prefixed() {
    assert_eq!(feature_qualified_name("mcp"), "orbit_mcp");
    assert_eq!(feature_qualified_name(""), "orbit_");
}

#[test]
fn shape_is_unknown_until_compiled() {
    let obs = BillingObserver::<Probe>::new(None, inputs(None));
    let metadata = obs.build_metadata(no_metrics);
    for key in ["node_count", "relationship_count", "max_hops", "path_max_depth"] {
        assert_eq!(metadata.get(key), Some(&Value::Null));
    }
    assert_eq!(metadata.len(), 9);
}

#[test]
fn shape_of_an_empty_query_is_zero() {
    let mut obs = BillingObserver::<Probe>::new(None, inputs(None));
    obs.set_compiled(&query(0, &[], None));
    let metadata = obs.build_metadata(no_metrics);
    assert_eq!(metadata["node_count"], 0);
    assert_eq!(metadata["relationship_count"], 0);
    assert_eq!(metadata["max_hops"], 0);
    assert!(metadata["path_max_depth"].is_null());
}

#[test]
fn deepest_relationship_counts() {
    let mut obs = BillingObserver::<Probe>::new(None, inputs(None));
    obs.set_compiled(&query(3, &[2, u32::MAX, 5], Some(4)));
    let metadata = obs.build_metadata(no_metrics);
    assert_eq!(metadata["node_count"], 3);
    assert_eq!(metadata["relationship_count"], 3);
    assert_eq!(metadata["max_hops"], 4_294_967_295i64);
    assert_eq!(metadata["path_max_depth"], 4);
}

#[test]
fn metrics_shadow_dimensions_of_the_same_key() {
    let mut metrics = JsonObject::new();
    metrics.insert("query_type".into(), Value::from("shadow"));
    metrics.insert("compile_ms".into(), Value::from(1.5));
    let who = inputs(None);
    let metadata = BillingMetadata::of("search", &who, None).to_object(Some(metrics));
    assert_eq!(metadata["query_type"], "shadow");
    assert_eq!(metadata["compile_ms"], 1.5);
    assert_eq!(metadata["source_type"], "rest");
    assert_eq!(metadata["coding_agent"], "agent");
    assert_eq!(metadata.len(), 10);
}

#[test]
fn metrics_that_cannot_be_rendered_leave_no_metadata() {
    let obs = BillingObserver::<Probe>::new(None, inputs(None));
    let metadata = obs.build_metadata(|_metrics| None);
    assert!(metadata.is_empty());
}

#[test]
fn renderer_sees_what_was_reported() {
    let mut obs = BillingObserver::<Probe>::new(None, inputs(None));
    obs.set_query_type("early");
    obs.set_query_type("late");
    obs.compiled(Duration::from_millis(7));
    obs.executed(Duration::from_millis(1), 3);
    obs.executed(Duration::from_millis(9), 3);
    obs.authorized(Duration::from_secs(100));
    obs.hydrated(Duration::from_secs(100));
    obs.query_executed("base", 1, 2, 3);
    obs.query_executed("hydration", u64::MAX, 5, -6);
    obs.set_compiled(&query(2, &[8], Some(1)));
    let metadata = obs.build_metadata(|metrics| {
        assert_eq!(metrics.compile_time, Some(Duration::from_millis(7)));
        assert_eq!(metrics.execute_time, Some(Duration::from_millis(9)));
        assert_eq!(metrics.hydration, Some(Value::from("plan")));
        assert_eq!(
            metrics.queries,
            vec![
                QueryCost { read_rows: 1, read_bytes: 2, memory_usage: 3 },
                QueryCost { read_rows: u64::MAX, read_bytes: 5, memory_usage: -6 },
            ]
        );
        let input = metrics.input.as_ref().unwrap();
        assert_eq!(input.nodes.len(), 2);
        assert_eq!(input.nodes[0].entity, None);
        assert_eq!(input.relationships[0].types, vec!["A".to_string(), "B".to_string()]);
        assert_eq!(input.relationships[0].from, "x");
        assert_eq!(input.relationships[0].to, "y");
        assert_eq!(input.relationships[0].hops, HopRange { min: 0, max: 8 });
        assert_eq!(input.path, Some(InputPath { max_depth: 1 }));
        assert_eq!(input.whole, Value::from("whole query"));
        let mut object = JsonObject::new();
        object.insert("seen".into(), Value::from(metrics.queries.len()));
        Some(object)
    });
    assert_eq!(metadata["seen"], 2);
    assert_eq!(metadata["query_type"], "late");
}

#[test]
fn new_metrics_hold_nothing() {
    let metrics = ExecMetrics::default();
    assert!(metrics.input.is_none());
    assert!(metrics.hydration.is_none());
    assert!(metrics.compile_time.is_none());
    assert!(metrics.execute_time.is_none());
    assert!(metrics.queries.is_empty());
}

#[test]
fn inputs_stay_readable() {
    let obs = BillingObserver::<Probe>::new(None, inputs(Some("north")));
    assert_eq!(obs.inputs().user_id, 90210);
    assert_eq!(obs.realm(&catalog()), Ok("N".to_string()));
}

#[test]
fn reports_without_metrics_leave_the_metrics_alone() {
    let probe = Probe::new(false);
    let mut obs = BillingObserver::new(Some(probe.share()), inputs(Some("north")));
    obs.compiled(Duration::from_millis(3));
    obs.query_executed("base", 4, 5, 6);
    obs.finish(1, 1, &catalog(), None, no_metrics, accept);
    obs.set_query_type("path");
    obs.authorized(Duration::from_secs(1));
    obs.hydrated(Duration::from_secs(1));
    obs.record_error();
    obs.finish(1, 1, &catalog(), None, no_metrics, accept);
    obs.build_metadata(|metrics| {
        assert_eq!(metrics.compile_time, Some(Duration::from_millis(3)));
        assert_eq!(metrics.execute_time, None);
        assert!(metrics.input.is_none());
        assert!(metrics.hydration.is_none());
        assert_eq!(
            metrics.queries,
            vec![QueryCost { read_rows: 4, read_bytes: 5, memory_usage: 6 }]
        );
        None
    });
}

#[test]
fn every_end_hands_out_one_event_until_an_error() {
    let probe = Probe::new(false);
    let mut obs = BillingObserver::new(Some(probe.share()), inputs(Some("north")));
    for end in 1..4 {
        let outcome = obs.finish(1, 1, &catalog(), None, no_metrics, accept);
        assert_eq!(outcome, FinishOutcome::Emitted("event-7".to_string()));
        assert_eq!(probe.handed.get(), end);
    }
    obs.record_error();
    for _ in 0..2 {
        let outcome = obs.finish(1, 1, &catalog(), None, no_metrics, accept);
        assert_eq!(outcome, FinishOutcome::Errored);
        assert_eq!(probe.handed.get(), 3);
    }
}
