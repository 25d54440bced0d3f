//! The event that is billed.

use crate::constants::{BillingCatalog, CatalogView};
use crate::inputs::{BillingInputs, InputsView};
use crate::json::JsonObject;
use crate::text::{decimal_string, to_owned};
use vstd::prelude::*;

verus! {

/// All that goes into one billing event.
pub struct BillingEvent {
    pub category: String,
    pub event_type: String,
    pub realm: String,
    pub unit_of_measure: String,
    pub quantity: u64,
    pub organization_id: Option<i64>,
    pub subject: String,
    pub correlation_id: Option<String>,
    pub instance_id: Option<String>,
    pub unique_instance_id: Option<String>,
    pub instance_version: Option<String>,
    pub global_user_id: Option<String>,
    pub host_name: Option<String>,
    pub root_namespace_id: Option<i64>,
    pub deployment_type: Option<String>,
    pub metadata: JsonObject,
}

pub struct EventView {
    pub category: Seq<char>,
    pub event_type: Seq<char>,
    pub realm: Seq<char>,
    pub unit_of_measure: Seq<char>,
    pub quantity: u64,
    pub organization_id: Option<i64>,
    pub subject: Seq<char>,
    pub correlation_id: Option<Seq<char>>,
    pub instance_id: Option<Seq<char>>,
    pub unique_instance_id: Option<Seq<char>>,
    pub instance_version: Option<Seq<char>>,
    pub global_user_id: Option<Seq<char>>,
    pub host_name: Option<Seq<char>>,
    pub root_namespace_id: Option<i64>,
    pub deployment_type: Option<Seq<char>>,
    pub metadata: crate::json::Members,
}

impl View for BillingEvent {
    type V = EventView;

    open spec fn view(&self) -> EventView {
        EventView {
            category: self.category@,
            event_type: self.event_type@,
            realm: self.realm@,
            unit_of_measure: self.unit_of_measure@,
            quantity: self.quantity,
            organization_id: self.organization_id,
            subject: self.subject@,
            correlation_id: crate::text::opt_text(self.correlation_id),
            instance_id: crate::text::opt_text(self.instance_id),
            unique_instance_id: crate::text::opt_text(self.unique_instance_id),
            instance_version: crate::text::opt_text(self.instance_version),
            global_user_id: crate::text::opt_text(self.global_user_id),
            host_name: crate::text::opt_text(self.host_name),
            root_namespace_id: self.root_namespace_id,
            deployment_type: crate::text::opt_text(self.deployment_type),
            metadata: crate::json::members(self.metadata),
        }
    }
}

impl EventView {
    /// One unit of usage in `realm` by `inputs`. The subject is the user's number; an identifier
    /// that the inputs lack is absent from the event.
    pub open spec fn of(
        catalog: CatalogView,
        realm: Seq<char>,
        inputs: InputsView,
        correlation_id: Option<Seq<char>>,
        metadata: crate::json::Members,
    ) -> Self {
        EventView {
            category: catalog.category,
            event_type: catalog.event_type,
            realm,
            unit_of_measure: catalog.unit_of_measure,
            quantity: 1,
            organization_id: inputs.organization_id,
            subject: crate::text::decimal(inputs.user_id as nat),
            correlation_id,
            instance_id: inputs.instance_id,
            unique_instance_id: inputs.unique_instance_id,
            instance_version: inputs.instance_version,
            global_user_id: inputs.global_user_id,
            host_name: inputs.host_name,
            root_namespace_id: inputs.root_namespace_id,
            deployment_type: inputs.deployment_type,
            metadata,
        }
    }
}

impl BillingEvent {
    /// One unit of usage in `realm` by `inputs`.
    pub fn of(
        catalog: &BillingCatalog,
        realm: String,
        inputs: &BillingInputs,
        correlation_id: Option<&str>,
        metadata: JsonObject,
    ) -> (event: Self)
        ensures
            event@ == EventView::of(
                catalog@,
                realm@,
                inputs@,
                crate::text::opt_chars(correlation_id),
                crate::json::members(metadata),
            ),
    {
        BillingEvent {
            category: catalog.category.clone(),
            event_type: catalog.event_type.clone(),
            realm,
            unit_of_measure: catalog.unit_of_measure.clone(),
            quantity: 1,
            organization_id: inputs.organization_id,
            subject: decimal_string(inputs.user_id),
            correlation_id: to_owned(correlation_id),
            instance_id: inputs.instance_id.clone(),
            unique_instance_id: inputs.unique_instance_id.clone(),
            instance_version: inputs.instance_version.clone(),
            global_user_id: inputs.global_user_id.clone(),
            host_name: inputs.host_name.clone(),
            root_namespace_id: inputs.root_namespace_id,
            deployment_type: inputs.deployment_type.clone(),
            metadata,
        }
    }
}

} // verus!
