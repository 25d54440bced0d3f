//! What the views show: every field of a value, each under its own name and unchanged.

use crate::constants::BillingCatalog;
use crate::event::BillingEvent;
use crate::inputs::BillingInputs;
use crate::metadata::BillingMetadata;
use crate::metrics::ExecMetrics;
use crate::query::{Input, InputNode, InputRelationship};
use vstd::prelude::*;

verus! {

/// Optional text is seen as it is: absent where it is absent, and with exactly its characters
/// where it is there, be they none.
pub proof fn optional_text_is_shown(owned: Option<String>, borrowed: Option<&str>)
    ensures
        owned is None <==> crate::text::opt_text(owned) is None,
        owned matches Some(s) ==> crate::text::opt_text(owned) == Some(s@),
        borrowed is None <==> crate::text::opt_chars(borrowed) is None,
        borrowed matches Some(s) ==> crate::text::opt_chars(borrowed) == Some(s@),
{
}

/// A claim is seen as `shown` exactly where it is `claim`.
pub open spec fn shows(claim: Option<String>, shown: Option<Seq<char>>) -> bool {
    match (claim, shown) {
        (Some(s), Some(chars)) => s@ == chars,
        (None, None) => true,
        _ => false,
    }
}

/// The claims are seen each under its own name.
pub proof fn inputs_are_shown(inputs: BillingInputs)
    ensures
        inputs@.user_id == inputs.user_id,
        inputs@.source_type == inputs.source_type@,
        inputs@.organization_id == inputs.organization_id,
        shows(inputs.instance_id, inputs@.instance_id),
        shows(inputs.unique_instance_id, inputs@.unique_instance_id),
        shows(inputs.instance_version, inputs@.instance_version),
        shows(inputs.global_user_id, inputs@.global_user_id),
        shows(inputs.host_name, inputs@.host_name),
        inputs@.root_namespace_id == inputs.root_namespace_id,
        shows(inputs.deployment_type, inputs@.deployment_type),
        shows(inputs.realm, inputs@.realm),
        inputs@.is_gitlab_team_member == inputs.is_gitlab_team_member,
        shows(inputs.coding_agent, inputs@.coding_agent),
{
}

/// The parts of an event are seen each under its own name.
pub proof fn event_is_shown(event: BillingEvent)
    ensures
        event@.category == event.category@,
        event@.event_type == event.event_type@,
        event@.realm == event.realm@,
        event@.unit_of_measure == event.unit_of_measure@,
        event@.quantity == event.quantity,
        event@.organization_id == event.organization_id,
        event@.subject == event.subject@,
        shows(event.correlation_id, event@.correlation_id),
        shows(event.instance_id, event@.instance_id),
        shows(event.unique_instance_id, event@.unique_instance_id),
        shows(event.instance_version, event@.instance_version),
        shows(event.global_user_id, event@.global_user_id),
        shows(event.host_name, event@.host_name),
        event@.root_namespace_id == event.root_namespace_id,
        shows(event.deployment_type, event@.deployment_type),
        event@.metadata == crate::json::members(event.metadata),
{
}

/// The catalog's wording is seen as it is, and its entries one for one, in their order.
pub proof fn catalog_is_shown(catalog: BillingCatalog)
    ensures
        catalog@.category == catalog.category@,
        catalog@.event_type == catalog.event_type@,
        catalog@.unit_of_measure == catalog.unit_of_measure@,
        catalog@.realms.len() == catalog.realms@.len(),
        forall|i: int|
            0 <= i < catalog.realms@.len() ==> (#[trigger] catalog@.realms[i]).0
                == catalog.realms@[i].spelling@ && catalog@.realms[i].1 == catalog.realms@[i].realm@,
{
}

/// A node is seen by its entity.
pub proof fn node_is_shown(node: InputNode)
    ensures
        shows(node.entity, node@),
{
}

/// A relationship is seen with all its types, its ends and its hops.
pub proof fn relationship_is_shown(relationship: InputRelationship)
    ensures
        relationship@.types.len() == relationship.types@.len(),
        forall|i: int|
            0 <= i < relationship.types@.len() ==> (#[trigger] relationship@.types[i])
                == relationship.types@[i]@,
        relationship@.from == relationship.from@,
        relationship@.to == relationship.to@,
        relationship@.hops.min == relationship.hops.min,
        relationship@.hops.max == relationship.hops.max,
{
}

/// A query is seen with all its nodes and relationships, in their order, its path and its whole
/// form.
pub proof fn input_is_shown(input: Input)
    ensures
        input@.nodes.len() == input.nodes@.len(),
        forall|i: int|
            0 <= i < input.nodes@.len() ==> (#[trigger] input@.nodes[i]) == input.nodes@[i]@,
        input@.relationships.len() == input.relationships@.len(),
        forall|i: int|
            0 <= i < input.relationships@.len() ==> (#[trigger] input@.relationships[i])
                == input.relationships@[i]@,
        input@.path == input.path,
        input@.whole == input.whole,
{
}

/// What was reported is seen each under its own name.
pub proof fn metrics_are_shown(metrics: ExecMetrics)
    ensures
        metrics.input is None <==> metrics@.input is None,
        metrics.input matches Some(input) ==> metrics@.input == Some(input@),
        metrics@.hydration == metrics.hydration,
        metrics@.compile_time == metrics.compile_time,
        metrics@.execute_time == metrics.execute_time,
        metrics@.queries == metrics.queries@,
{
}

/// The dimensions are seen each under its own name.
pub proof fn dimensions_are_shown(dimensions: BillingMetadata<'_>)
    ensures
        dimensions@.query_type == dimensions.query_type@,
        dimensions@.feature_qualified_name == dimensions.feature_qualified_name@,
        dimensions@.source_type == dimensions.source_type@,
        dimensions.coding_agent is None <==> dimensions@.coding_agent is None,
        dimensions.coding_agent matches Some(s) ==> dimensions@.coding_agent == Some(s@),
        dimensions@.is_gitlab_team_member == dimensions.is_gitlab_team_member,
        dimensions@.node_count == dimensions.node_count,
        dimensions@.relationship_count == dimensions.relationship_count,
        dimensions@.max_hops == dimensions.max_hops,
        dimensions@.path_max_depth == dimensions.path_max_depth,
{
}

} // verus!
