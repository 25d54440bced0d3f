//! Who is billed.

use vstd::prelude::*;

verus! {

/// What the request's claims say about the user, the instance and the client of a query.
pub struct BillingInputs {
    pub user_id: u64,
    pub source_type: String,
    pub organization_id: Option<i64>,
    pub instance_id: Option<String>,
    pub unique_instance_id: Option<String>,
    pub instance_version: Option<String>,
    pub global_user_id: Option<String>,
    pub host_name: Option<String>,
    pub root_namespace_id: Option<i64>,
    pub deployment_type: Option<String>,
    pub realm: Option<String>,
    pub is_gitlab_team_member: Option<bool>,
    pub coding_agent: Option<String>,
}

pub struct InputsView {
    pub user_id: u64,
    pub source_type: Seq<char>,
    pub organization_id: Option<i64>,
    pub instance_id: Option<Seq<char>>,
    pub unique_instance_id: Option<Seq<char>>,
    pub instance_version: Option<Seq<char>>,
    pub global_user_id: Option<Seq<char>>,
    pub host_name: Option<Seq<char>>,
    pub root_namespace_id: Option<i64>,
    pub deployment_type: Option<Seq<char>>,
    pub realm: Option<Seq<char>>,
    pub is_gitlab_team_member: Option<bool>,
    pub coding_agent: Option<Seq<char>>,
}

impl View for BillingInputs {
    type V = InputsView;

    open spec fn view(&self) -> InputsView {
        InputsView {
            user_id: self.user_id,
            source_type: self.source_type@,
            organization_id: self.organization_id,
            instance_id: crate::text::opt_text(self.instance_id),
            unique_instance_id: crate::text::opt_text(self.unique_instance_id),
            instance_version: crate::text::opt_text(self.instance_version),
            global_user_id: crate::text::opt_text(self.global_user_id),
            host_name: crate::text::opt_text(self.host_name),
            root_namespace_id: self.root_namespace_id,
            deployment_type: crate::text::opt_text(self.deployment_type),
            realm: crate::text::opt_text(self.realm),
            is_gitlab_team_member: self.is_gitlab_team_member,
            coding_agent: crate::text::opt_text(self.coding_agent),
        }
    }
}

} // verus!
