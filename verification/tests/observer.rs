use std::sync::{Arc, Mutex};

use gkg_billing::{
    BillingCatalog, BillingEvent, BillingInputs, BillingObserver, BillingTracker,
    CompiledQueryContext, ExecMetrics, HopRange, Input, InputNode, InputRelationship, JsonObject,
    RealmAlias,
};
use serde_json::Value;

#[derive(Clone)]
struct InMemoryBillingTracker {
    events: Arc<Mutex<Vec<BillingEvent>>>,
}

impl InMemoryBillingTracker {
    fn new() -> Self {
        InMemoryBillingTracker { events: Arc::new(Mutex::new(Vec::new())) }
    }

    fn count(&self) -> usize {
        self.events.lock().unwrap().len()
    }
}

impl BillingTracker for InMemoryBillingTracker {
    type Event = BillingEvent;

    fn track(&mut self, event: BillingEvent) -> Result<String, String> {
        let mut events = self.events.lock().unwrap();
        events.push(event);
        Ok(format!("event-{}", events.len()))
    }
}

#[derive(Clone)]
struct FailingBillingTracker {
    attempts: Arc<Mutex<usize>>,
}

impl FailingBillingTracker {
    fn new() -> Self {
        FailingBillingTracker { attempts: Arc::new(Mutex::new(0)) }
    }

    fn count(&self) -> usize {
        *self.attempts.lock().unwrap()
    }
}

impl BillingTracker for FailingBillingTracker {
    type Event = BillingEvent;

    fn track(&mut self, _event: BillingEvent) -> Result<String, String> {
        *self.attempts.lock().unwrap() += 1;
        Err("queue is full".to_string())
    }
}

fn test_inputs() -> BillingInputs {
    BillingInputs {
        user_id: 123,
        source_type: "mcp".into(),
        organization_id: Some(42),
        instance_id: Some("inst-abc".into()),
        unique_instance_id: Some("uid-abc".into()),
        instance_version: Some("18.0.0".into()),
        global_user_id: Some("guser-456".into()),
        host_name: Some("gitlab.com".into()),
        root_namespace_id: Some(9970),
        deployment_type: Some(".com".into()),
        realm: Some("SaaS".into()),
        is_gitlab_team_member: Some(true),
        coding_agent: Some("agent-cli".into()),
    }
}

fn alias(spelling: &str, realm: &str) -> RealmAlias {
    RealmAlias { spelling: spelling.into(), realm: realm.into() }
}

fn catalog() -> BillingCatalog {
    BillingCatalog {
        category: "category".into(),
        event_type: "event-type".into(),
        unit_of_measure: "unit".into(),
        realms: vec![
            alias("SaaS", "SaaS"),
            alias("saas", "SaaS"),
            alias("self-managed", "SelfManaged"),
        ],
    }
}

/// Metrics of a run about which nothing was reported.
fn unreported(_metrics: &ExecMetrics) -> Option<JsonObject> {
    let mut object = JsonObject::new();
    object.insert("compile_ms".into(), Value::Null);
    object.insert("execute_ms".into(), Value::Null);
    object.insert("ch_read_rows".into(), Value::from(0));
    object.insert("ch_read_bytes".into(), Value::from(0));
    object.insert("ch_memory_usage".into(), Value::from(0));
    Some(object)
}

fn accept(event: BillingEvent) -> Result<BillingEvent, String> {
    Ok(event)
}

fn finish<T: BillingTracker<Event = BillingEvent>>(
    obs: &mut BillingObserver<T>,
    row_count: usize,
    redacted_count: usize,
) {
    obs.finish(row_count, redacted_count, &catalog(), None, unreported, accept);
}

#[test]
fn billing_observer_emits_on_finish() {
    let tracker = InMemoryBillingTracker::new();
    let mut obs = BillingObserver::new(Some(tracker.clone()), test_inputs());
    obs.set_query_type("traversal");
    finish(&mut obs, 42, 3);

    assert_eq!(tracker.count(), 1);
}

#[test]
fn metadata_carries_agent_and_source_dimensions() {
    let mut obs = BillingObserver::<InMemoryBillingTracker>::new(None, test_inputs());
    obs.set_query_type("traversal");

    let metadata = Value::Object(obs.build_metadata(unreported));

    assert_eq!(metadata["query_type"], "traversal");
    assert_eq!(metadata["source_type"], "mcp");
    assert_eq!(metadata["coding_agent"], "agent-cli");
    assert_eq!(metadata["is_gitlab_team_member"], true);
    assert_eq!(metadata["feature_qualified_name"], "orbit_mcp");
    let obj = metadata.as_object().unwrap();
    for key in ["compile_ms", "ch_read_rows", "ch_read_bytes", "ch_memory_usage"] {
        assert!(obj.contains_key(key), "metadata missing metric `{key}`");
    }
}

#[test]
fn metadata_agent_dimensions_null_when_absent() {
    let inputs = BillingInputs {
        coding_agent: None,
        is_gitlab_team_member: None,
        ..test_inputs()
    };
    let obs = BillingObserver::<InMemoryBillingTracker>::new(None, inputs);

    let metadata = Value::Object(obs.build_metadata(unreported));

    assert!(metadata["coding_agent"].is_null());
    assert!(metadata["is_gitlab_team_member"].is_null());
    assert!(metadata.as_object().unwrap().contains_key("coding_agent"));
    assert!(metadata.as_object().unwrap().contains_key("is_gitlab_team_member"));
}

/// The query of [`metadata_carries_depth_dimensions`] with the fields that billing passes over.
fn whole_query() -> Value {
    let mut relationship = JsonObject::new();
    relationship.insert("types".into(), Value::from(vec!["AUTHORED"]));
    relationship.insert("from".into(), Value::from("u"));
    relationship.insert("to".into(), Value::from("mr"));
    relationship.insert("direction".into(), Value::from("outgoing"));
    relationship.insert("fk_column".into(), Value::Null);
    relationship.insert("scope_prefix".into(), Value::Null);
    relationship.insert("scope_preserving".into(), Value::from(false));
    let mut query = JsonObject::new();
    query.insert("nodes".into(), Value::from(vec!["User", "MergeRequest"]));
    query.insert("relationships".into(), Value::from(vec![Value::Object(relationship)]));
    Value::Object(query)
}

#[test]
fn metadata_carries_depth_dimensions() {
    let mut obs = BillingObserver::<InMemoryBillingTracker>::new(None, test_inputs());
    obs.set_query_type("traversal");
    obs.set_compiled(&CompiledQueryContext {
        input: Input {
            nodes: vec![
                InputNode { entity: Some("User".into()) },
                InputNode { entity: Some("MergeRequest".into()) },
            ],
            relationships: vec![InputRelationship {
                types: vec!["AUTHORED".into()],
                from: "u".into(),
                to: "mr".into(),
                hops: HopRange { min: 1, max: 3 },
            }],
            path: None,
            whole: whole_query(),
        },
        hydration: Value::Null,
    });

    let metadata = Value::Object(obs.build_metadata(unreported));

    assert_eq!(metadata["node_count"], 2);
    assert_eq!(metadata["relationship_count"], 1);
    assert_eq!(metadata["max_hops"], 3);
    assert!(metadata["path_max_depth"].is_null());
}

#[test]
fn metrics_keys_do_not_collide_with_billing_dimensions() {
    let billing_keys = [
        "query_type",
        "feature_qualified_name",
        "source_type",
        "coding_agent",
        "is_gitlab_team_member",
        "node_count",
        "relationship_count",
        "max_hops",
        "path_max_depth",
    ];
    let metrics = unreported(&ExecMetrics::default()).unwrap();
    for key in billing_keys {
        assert!(
            !metrics.contains_key(key),
            "the metrics render `{key}`, which would shadow the billing dimension of the same name"
        );
    }
    let obs = BillingObserver::<InMemoryBillingTracker>::new(None, test_inputs());
    let metadata = obs.build_metadata(unreported);
    assert_eq!(metadata.len(), billing_keys.len() + metrics.len());
    for key in billing_keys {
        assert!(metadata.contains_key(key));
    }
}

#[test]
fn billing_observer_skips_on_error() {
    let tracker = InMemoryBillingTracker::new();
    let mut obs = BillingObserver::new(Some(tracker.clone()), test_inputs());
    obs.set_query_type("traversal");
    obs.record_error();
    finish(&mut obs, 42, 3);

    assert_eq!(tracker.count(), 0);
}

#[test]
fn billing_observer_emits_with_lowercase_realm_alias() {
    let tracker = InMemoryBillingTracker::new();
    let inputs = BillingInputs { realm: Some("saas".into()), ..test_inputs() };
    let mut obs = BillingObserver::new(Some(tracker.clone()), inputs);
    obs.set_query_type("traversal");
    finish(&mut obs, 1, 0);

    assert_eq!(tracker.count(), 1);
    assert_eq!(tracker.events.lock().unwrap()[0].realm, "SaaS");
}

#[test]
fn billing_observer_emits_with_self_managed_realm_alias() {
    let tracker = InMemoryBillingTracker::new();
    let inputs = BillingInputs { realm: Some("self-managed".into()), ..test_inputs() };
    let mut obs = BillingObserver::new(Some(tracker.clone()), inputs);
    obs.set_query_type("traversal");
    finish(&mut obs, 1, 0);

    assert_eq!(tracker.count(), 1);
    assert_eq!(tracker.events.lock().unwrap()[0].realm, "SelfManaged");
}

#[test]
fn billing_observer_skips_when_realm_absent() {
    let tracker = InMemoryBillingTracker::new();
    let inputs = BillingInputs { realm: None, ..test_inputs() };
    let mut obs = BillingObserver::new(Some(tracker.clone()), inputs);
    obs.set_query_type("traversal");
    finish(&mut obs, 1, 0);

    assert_eq!(tracker.count(), 0);
}

#[test]
fn billing_observer_skips_when_realm_unrecognized() {
    let tracker = InMemoryBillingTracker::new();
    let inputs = BillingInputs { realm: Some("bogus".into()), ..test_inputs() };
    let mut obs = BillingObserver::new(Some(tracker.clone()), inputs);
    obs.set_query_type("traversal");
    finish(&mut obs, 1, 0);

    assert_eq!(tracker.count(), 0);
}

#[test]
fn billing_observer_emits_when_optional_fields_absent() {
    let tracker = InMemoryBillingTracker::new();
    let inputs = BillingInputs {
        organization_id: None,
        instance_id: None,
        unique_instance_id: None,
        instance_version: None,
        global_user_id: None,
        host_name: None,
        root_namespace_id: None,
        deployment_type: None,
        ..test_inputs()
    };
    let mut obs = BillingObserver::new(Some(tracker.clone()), inputs);
    obs.set_query_type("traversal");
    finish(&mut obs, 1, 0);

    assert_eq!(tracker.count(), 1);
}

#[test]
fn billing_observer_skips_when_tracker_none() {
    let mut obs = BillingObserver::<InMemoryBillingTracker>::new(None, test_inputs());
    obs.set_query_type("traversal");
    finish(&mut obs, 1, 0);
}

#[test]
fn billing_observer_handles_tracker_rejection() {
    let tracker = FailingBillingTracker::new();
    let mut obs = BillingObserver::new(Some(tracker.clone()), test_inputs());
    obs.set_query_type("traversal");
    finish(&mut obs, 1, 0);

    assert_eq!(tracker.count(), 1);
}
