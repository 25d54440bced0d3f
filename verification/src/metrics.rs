//! What the pipeline reports about one run.

use crate::query::{CompiledQueryContext, Input, InputView};
use std::time::Duration;
use vstd::prelude::*;

verus! {

/// What one database query cost.
#[derive(Debug, Clone, Copy, PartialEq, Eq, Structural)]
pub struct QueryCost {
    pub read_rows: u64,
    pub read_bytes: u64,
    pub memory_usage: i64,
}

/// Everything that was reported about a run so far.
pub struct ExecMetrics {
    pub input: Option<Input>,
    pub hydration: Option<serde_json::Value>,
    pub compile_time: Option<Duration>,
    pub execute_time: Option<Duration>,
    /// The cost of each database query, in the order in which they were reported.
    pub queries: Vec<QueryCost>,
}

pub struct MetricsView {
    pub input: Option<InputView>,
    pub hydration: Option<serde_json::Value>,
    pub compile_time: Option<Duration>,
    pub execute_time: Option<Duration>,
    pub queries: Seq<QueryCost>,
}

impl View for ExecMetrics {
    type V = MetricsView;

    open spec fn view(&self) -> MetricsView {
        MetricsView {
            input: match self.input {
                Some(input) => Some(input@),
                None => None,
            },
            hydration: self.hydration,
            compile_time: self.compile_time,
            execute_time: self.execute_time,
            queries: self.queries@,
        }
    }
}

impl MetricsView {
    /// Nothing was reported yet.
    pub open spec fn empty() -> MetricsView {
        MetricsView {
            input: None,
            hydration: None,
            compile_time: None,
            execute_time: None,
            queries: Seq::empty(),
        }
    }
}

impl Default for ExecMetrics {
    fn default() -> (metrics: Self)
        ensures
            metrics@ == MetricsView::empty(),
    {
        ExecMetrics {
            input: None,
            hydration: None,
            compile_time: None,
            execute_time: None,
            queries: Vec::new(),
        }
    }
}

impl ExecMetrics {
    /// Notes the compiled query; a later one takes its place.
    pub fn set_compiled(&mut self, ctx: &CompiledQueryContext)
        ensures
            final(self)@ == (MetricsView {
                input: Some(ctx.input@),
                hydration: Some(ctx.hydration),
                ..old(self)@
            }),
            *final(self) == (ExecMetrics {
                input: final(self).input,
                hydration: Some(ctx.hydration),
                ..*old(self)
            }),
    {
        self.input = Some(ctx.input.clone());
        self.hydration = Some(ctx.hydration.clone());
    }

    /// Notes how long compiling took; a later time takes its place.
    pub fn compiled(&mut self, elapsed: Duration)
        ensures
            final(self)@ == (MetricsView { compile_time: Some(elapsed), ..old(self)@ }),
            *final(self) == (ExecMetrics { compile_time: Some(elapsed), ..*old(self) }),
    {
        self.compile_time = Some(elapsed);
    }

    /// Notes how long executing took; a later time takes its place.
    pub fn executed(&mut self, elapsed: Duration)
        ensures
            final(self)@ == (MetricsView { execute_time: Some(elapsed), ..old(self)@ }),
            *final(self) == (ExecMetrics { execute_time: Some(elapsed), ..*old(self) }),
    {
        self.execute_time = Some(elapsed);
    }

    /// Notes the cost of one more database query.
    pub fn query_executed(&mut self, read_rows: u64, read_bytes: u64, memory_usage: i64)
        ensures
            final(self)@ == (MetricsView {
                queries: old(self)@.queries.push(QueryCost { read_rows, read_bytes, memory_usage }),
                ..old(self)@
            }),
            *final(self) == (ExecMetrics { queries: final(self).queries, ..*old(self) }),
    {
        self.queries.push(QueryCost { read_rows, read_bytes, memory_usage });
    }
}

} // verus!
