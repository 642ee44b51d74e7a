//! Storage of full event-sourced executions.
//!
//! The engine depends only on this store's contract, never on a
//! concrete backend, so storage technology is swappable without
//! touching orchestration logic.  The in-memory store here is the
//! default backend and the one the tests run against.

use vstd::prelude::*;
use crate::error::StorageError;
use crate::event::EventHistory;
use crate::types::{WorkflowId, WorkflowExecution};
use crate::vecmap::{Keyed, KeyedVec};

verus! {

/// One stored execution: its identity and its full history.
#[derive(Debug, Clone)]
pub struct StoredExecution {
    /// Copy of the execution's workflow id text, the lookup key.
    pub workflow_id: String,
    /// The stored execution identity.
    pub execution: WorkflowExecution,
    /// The stored history.
    pub history: EventHistory,
}

impl Keyed for StoredExecution {
    open spec fn key(&self) -> Seq<char> {
        self.workflow_id@
    }

    fn matches_key(&self, k: &String) -> (r: bool) {
        self.workflow_id == *k
    }
}

/// In-memory execution store.
#[derive(Debug, Clone)]
pub struct InMemoryStorage {
    table: KeyedVec<StoredExecution>,
}

impl InMemoryStorage {
    /// The stored executions, keyed by workflow id text.
    pub closed spec fn view(&self) -> Map<Seq<char>, StoredExecution> {
        self.table.view()
    }

    /// Internal invariant: unique keys, and each entry's key matches
    /// its execution's workflow id.
    pub closed spec fn well_formed(&self) -> bool {
        &&& self.table.well_formed()
        &&& forall|k: Seq<char>| self.table.view().contains_key(k)
                ==> (#[trigger] self.table.view()[k]).execution.workflow_id.0@ == k
    }

    /// A fresh, empty store.
    pub fn new() -> (r: Self)
        ensures
            r.well_formed(),
            r@ == Map::<Seq<char>, StoredExecution>::empty(),
    {
        InMemoryStorage { table: KeyedVec::new() }
    }

    /// Persist (or overwrite) an execution together with its history.
    pub fn save_workflow_execution(
        &mut self,
        execution: &WorkflowExecution,
        history: &EventHistory,
    ) -> (r: Result<(), StorageError>)
        requires
            old(self).well_formed(),
        ensures
            r is Ok,
            final(self).well_formed(),
            final(self)@.contains_key(execution.workflow_id.0@),
            final(self)@[execution.workflow_id.0@].execution == *execution,
            final(self)@[execution.workflow_id.0@].history@ == history@,
            final(self)@.remove(execution.workflow_id.0@) == old(self)@.remove(execution.workflow_id.0@),
    {
        let key = execution.workflow_id.0.clone();
        let entry = StoredExecution {
            workflow_id: key.clone(),
            execution: execution.clone(),
            history: history.clone(),
        };
        self.table.insert(&key, entry);
        proof {
            assert(final(self)@.remove(execution.workflow_id.0@)
                =~= old(self)@.remove(execution.workflow_id.0@));
            assert forall|k: Seq<char>| final(self).table.view().contains_key(k)
                implies (#[trigger] final(self).table.view()[k]).execution.workflow_id.0@ == k by {
                if k != execution.workflow_id.0@ {
                    assert(final(self).table.view()[k] == old(self).table.view()[k]);
                }
            }
        }
        Ok(())
    }

    /// Load an execution and its history; `NotFound` when nothing was
    /// stored under the id.
    pub fn load_workflow_execution(
        &self,
        workflow_id: &WorkflowId,
    ) -> (r: Result<(WorkflowExecution, EventHistory), StorageError>)
        requires
            self.well_formed(),
        ensures
            r is Ok <==> self@.contains_key(workflow_id.0@),
            r matches Ok(p) ==> p.0 == self@[workflow_id.0@].execution
                && p.1@ == self@[workflow_id.0@].history@,
            r matches Err(e) ==> e is NotFound,
    {
        match self.table.get(&workflow_id.0) {
            Some(entry) => Ok((entry.execution.clone(), entry.history.clone())),
            None => Err(StorageError::NotFound),
        }
    }
}

} // verus!
