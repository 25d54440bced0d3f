//! The parts of a compiled query that billing looks at.

use vstd::prelude::*;

verus! {

/// How many hops a relationship may span.
#[derive(Debug, Clone, Copy, PartialEq, Eq, Structural)]
pub struct HopRange {
    pub min: u32,
    pub max: u32,
}

/// A node that the query asks for.
pub struct InputNode {
    pub entity: Option<String>,
}

/// A relationship that the query follows.
pub struct InputRelationship {
    pub types: Vec<String>,
    pub from: String,
    pub to: String,
    pub hops: HopRange,
}

/// The path that a path query searches for.
#[derive(Debug, Clone, Copy, PartialEq, Eq, Structural)]
pub struct InputPath {
    pub max_depth: u32,
}

/// A query as it was asked.
pub struct Input {
    pub nodes: Vec<InputNode>,
    pub relationships: Vec<InputRelationship>,
    pub path: Option<InputPath>,
    /// The whole query, with the fields that billing does not look at, in the JSON form in which
    /// the engine reports it.
    pub whole: serde_json::Value,
}

/// What the compiler hands on: the query, and the plan by which its rows are filled in, in the
/// JSON form in which the engine reports it.
pub struct CompiledQueryContext {
    pub input: Input,
    pub hydration: serde_json::Value,
}

pub struct RelationshipView {
    pub types: Seq<Seq<char>>,
    pub from: Seq<char>,
    pub to: Seq<char>,
    pub hops: HopRange,
}

pub struct InputView {
    /// The entity of each node.
    pub nodes: Seq<Option<Seq<char>>>,
    pub relationships: Seq<RelationshipView>,
    pub path: Option<InputPath>,
    pub whole: serde_json::Value,
}

impl View for InputNode {
    type V = Option<Seq<char>>;

    open spec fn view(&self) -> Option<Seq<char>> {
        crate::text::opt_text(self.entity)
    }
}

impl View for InputRelationship {
    type V = RelationshipView;

    open spec fn view(&self) -> RelationshipView {
        RelationshipView {
            types: self.types@.map_values(|t: String| t@),
            from: self.from@,
            to: self.to@,
            hops: self.hops,
        }
    }
}

impl View for Input {
    type V = InputView;

    open spec fn view(&self) -> InputView {
        InputView {
            nodes: self.nodes@.map_values(|n: InputNode| n@),
            relationships: self.relationships@.map_values(|r: InputRelationship| r@),
            path: self.path,
            whole: self.whole,
        }
    }
}

impl Clone for InputNode {
    fn clone(&self) -> (copy: Self)
        ensures
            copy@ == self@,
    {
        InputNode { entity: self.entity.clone() }
    }
}

impl Clone for InputRelationship {
    fn clone(&self) -> (copy: Self)
        ensures
            copy@ == self@,
    {
        let copy = InputRelationship {
            types: self.types.clone(),
            from: self.from.clone(),
            to: self.to.clone(),
            hops: self.hops,
        };
        assert(copy@.types =~= self@.types);
        copy
    }
}

impl Clone for Input {
    fn clone(&self) -> (copy: Self)
        ensures
            copy@ == self@,
    {
        let copy = Input {
            nodes: self.nodes.clone(),
            relationships: self.relationships.clone(),
            path: self.path,
            whole: self.whole.clone(),
        };
        assert(copy@.nodes =~= self@.nodes);
        assert(copy@.relationships =~= self@.relationships);
        copy
    }
}

/// The largest upper hop limit among `relationships`, or 0 where there is none.
pub open spec fn max_hops(relationships: Seq<RelationshipView>) -> u32
    decreases relationships.len(),
{
    if relationships.len() == 0 {
        0
    } else {
        let rest = max_hops(relationships.drop_last());
        let last = relationships.last().hops.max;
        if last > rest {
            last
        } else {
            rest
        }
    }
}

/// No relationship reaches further than [`max_hops`], and where there are relationships one of
/// them reaches exactly that far.
pub proof fn max_hops_is_greatest(relationships: Seq<RelationshipView>)
    ensures
        forall|i: int|
            0 <= i < relationships.len() ==> (#[trigger] relationships[i]).hops.max <= max_hops(
                relationships,
            ),
        relationships.len() > 0 ==> exists|i: int|
            0 <= i < relationships.len() && (#[trigger] relationships[i]).hops.max == max_hops(
                relationships,
            ),
        relationships.len() == 0 ==> max_hops(relationships) == 0,
    decreases relationships.len(),
{
    if relationships.len() > 0 {
        let rest = relationships.drop_last();
        let last = relationships.len() - 1;
        max_hops_is_greatest(rest);
        assert forall|i: int| 0 <= i < relationships.len() implies (
        #[trigger] relationships[i]).hops.max <= max_hops(relationships) by {
            if i < last {
                assert(rest[i] == relationships[i]);
            }
        }
        if relationships[last].hops.max < max_hops(relationships) {
            let k = choose|k: int| 0 <= k < rest.len() && (#[trigger] rest[k]).hops.max == max_hops(rest);
            assert(relationships[k] == rest[k]);
        }
    }
}

impl Input {
    /// The largest upper hop limit among the query's relationships, or 0 where there is none.
    pub fn max_hops(&self) -> (greatest: u32)
        ensures
            greatest == max_hops(self@.relationships),
    {
        let ghost all = self@.relationships;
        let mut greatest: u32 = 0;
        let mut i: usize = 0;
        while i < self.relationships.len()
            invariant
                i <= self.relationships.len(),
                all == self@.relationships,
                greatest == max_hops(all.take(i as int)),
            decreases self.relationships.len() - i,
        {
            let limit: u32 = self.relationships[i].hops.max;
            assert(all.take(i + 1).drop_last() =~= all.take(i as int));
            assert(all.take(i + 1).last().hops.max == limit);
            if limit > greatest {
                greatest = limit;
            }
            i += 1;
        }
        assert(all.take(i as int) =~= all);
        greatest
    }
}

} // verus!
