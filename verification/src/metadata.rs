//! The metadata of a billing event: what was asked, from where, and how deep the query went.

use crate::constants::feature_qualified_name;
use crate::inputs::{BillingInputs, InputsView};
use crate::json::{empty_object, merge, put_count, put_flag, put_text, JsonObject};
use crate::query::{Input, InputView};
use crate::text::as_deref;
use vstd::prelude::*;

verus! {

/// The dimensions by which usage is broken down.
pub struct BillingMetadata<'a> {
    pub query_type: &'a str,
    pub feature_qualified_name: String,
    pub source_type: &'a str,
    pub coding_agent: Option<&'a str>,
    pub is_gitlab_team_member: Option<bool>,
    pub node_count: Option<i64>,
    pub relationship_count: Option<i64>,
    pub max_hops: Option<i64>,
    pub path_max_depth: Option<i64>,
}

pub struct MetadataView {
    pub query_type: Seq<char>,
    pub feature_qualified_name: Seq<char>,
    pub source_type: Seq<char>,
    pub coding_agent: Option<Seq<char>>,
    pub is_gitlab_team_member: Option<bool>,
    pub node_count: Option<i64>,
    pub relationship_count: Option<i64>,
    pub max_hops: Option<i64>,
    pub path_max_depth: Option<i64>,
}

impl<'a> View for BillingMetadata<'a> {
    type V = MetadataView;

    open spec fn view(&self) -> MetadataView {
        MetadataView {
            query_type: self.query_type@,
            feature_qualified_name: self.feature_qualified_name@,
            source_type: self.source_type@,
            coding_agent: crate::text::opt_chars(self.coding_agent),
            is_gitlab_team_member: self.is_gitlab_team_member,
            node_count: self.node_count,
            relationship_count: self.relationship_count,
            max_hops: self.max_hops,
            path_max_depth: self.path_max_depth,
        }
    }
}

impl MetadataView {
    /// The dimensions of a query of type `query_type`, asked by `inputs`, whose compiled form is
    /// `input` where it was reported. The shape of the query is unknown until then, and the depth
    /// of its path also where it has none.
    pub open spec fn of(query_type: Seq<char>, inputs: InputsView, input: Option<InputView>) -> Self {
        MetadataView {
            query_type,
            feature_qualified_name: "orbit_"@ + inputs.source_type,
            source_type: inputs.source_type,
            coding_agent: inputs.coding_agent,
            is_gitlab_team_member: inputs.is_gitlab_team_member,
            node_count: match input {
                Some(i) => Some(i.nodes.len() as i64),
                None => None,
            },
            relationship_count: match input {
                Some(i) => Some(i.relationships.len() as i64),
                None => None,
            },
            max_hops: match input {
                Some(i) => Some(crate::query::max_hops(i.relationships) as i64),
                None => None,
            },
            path_max_depth: match input {
                Some(i) => match i.path {
                    Some(p) => Some(p.max_depth as i64),
                    None => None,
                },
                None => None,
            },
        }
    }

    /// The dimensions as members of a JSON object. One that is unknown is there, as null.
    pub open spec fn members(self) -> crate::json::Members {
        map![
            "query_type"@ => crate::json::JsonView::Text(self.query_type),
            "feature_qualified_name"@ => crate::json::JsonView::Text(self.feature_qualified_name),
            "source_type"@ => crate::json::JsonView::Text(self.source_type),
            "coding_agent"@ => crate::json::text_or_null(self.coding_agent),
            "is_gitlab_team_member"@ => crate::json::flag_or_null(self.is_gitlab_team_member),
            "node_count"@ => crate::json::count_or_null(self.node_count),
            "relationship_count"@ => crate::json::count_or_null(self.relationship_count),
            "max_hops"@ => crate::json::count_or_null(self.max_hops),
            "path_max_depth"@ => crate::json::count_or_null(self.path_max_depth),
        ]
    }

    /// The whole metadata object: the dimensions and, beside them, the members that the run's
    /// metrics render to. Where both have a key, the metric stays. Metrics that cannot be
    /// rendered leave the object empty.
    pub open spec fn object(self, metrics: Option<JsonObject>) -> crate::json::Members {
        match metrics {
            Some(m) => self.members().union_prefer_right(crate::json::members(m)),
            None => crate::json::Members::empty(),
        }
    }
}

impl<'a> BillingMetadata<'a> {
    /// The dimensions of a query of type `query_type`, asked by `inputs`, whose compiled form is
    /// `input` where it was reported.
    pub fn of(query_type: &'a str, inputs: &'a BillingInputs, input: Option<&Input>) -> (metadata: Self)
        ensures
            metadata@ == MetadataView::of(
                query_type@,
                inputs@,
                match input {
                    Some(i) => Some(i@),
                    None => None,
                },
            ),
    {
        BillingMetadata {
            query_type,
            feature_qualified_name: feature_qualified_name(inputs.source_type.as_str()),
            source_type: inputs.source_type.as_str(),
            coding_agent: as_deref(&inputs.coding_agent),
            is_gitlab_team_member: inputs.is_gitlab_team_member,
            node_count: match input {
                Some(i) => Some(
                    #[verifier::truncate]
                    (i.nodes.len() as i64),
                ),
                None => None,
            },
            relationship_count: match input {
                Some(i) => Some(
                    #[verifier::truncate]
                    (i.relationships.len() as i64),
                ),
                None => None,
            },
            max_hops: match input {
                Some(i) => Some(i.max_hops() as i64),
                None => None,
            },
            path_max_depth: match input {
                Some(i) => match i.path {
                    Some(p) => Some(p.max_depth as i64),
                    None => None,
                },
                None => None,
            },
        }
    }

    /// The metadata object, given the members that the run's metrics rendered to, or `None` where
    /// they could not be rendered.
    pub fn to_object(&self, metrics: Option<JsonObject>) -> (object: JsonObject)
        ensures
            crate::json::members(object) == self@.object(metrics),
    {
        let mut object = empty_object();
        if let Some(metrics) = metrics {
            put_text(&mut object, "query_type", Some(self.query_type));
            put_text(
                &mut object,
                "feature_qualified_name",
                Some(self.feature_qualified_name.as_str()),
            );
            put_text(&mut object, "source_type", Some(self.source_type));
            put_text(&mut object, "coding_agent", self.coding_agent);
            put_flag(&mut object, "is_gitlab_team_member", self.is_gitlab_team_member);
            put_count(&mut object, "node_count", self.node_count);
            put_count(&mut object, "relationship_count", self.relationship_count);
            put_count(&mut object, "max_hops", self.max_hops);
            put_count(&mut object, "path_max_depth", self.path_max_depth);
            merge(&mut object, metrics);
        }
        object
    }
}

} // verus!
