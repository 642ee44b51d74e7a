//! Queries: synchronous reads of workflow-computed state that never
//! mutate history.

use vstd::prelude::*;

verus! {

/// A query kind, named so that the engine can route requests to the
/// handler registered under the same name.
pub trait Query {
    /// The type of a query's answer.
    type Result;

    /// The query's registered name.
    fn name() -> &'static str;
}

} // verus!
