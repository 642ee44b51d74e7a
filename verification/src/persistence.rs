//! In-memory persistence: workflow state snapshots and idempotency
//! markers.
//!
//! The adapter stores the latest snapshot per workflow id and offers
//! atomic insert-if-absent idempotency keys with a time-to-live, so an
//! external effect retried under failure can detect that it already
//! ran.

use vstd::prelude::*;
use crate::error::StorageError;
use crate::external::now_seconds;
use crate::vecmap::{Keyed, KeyedVec};

verus! {

/// A workflow's latest state, as persisted.  The state payload is
/// carried as opaque encoded text.
#[derive(Debug)]
pub struct StateSnapshot {
    /// The workflow the snapshot belongs to.
    pub workflow_id: String,
    /// Encoded state payload.
    pub state: String,
    /// Seconds since the Unix epoch when the snapshot was taken.
    pub updated_at: i64,
}

impl Clone for StateSnapshot {
    fn clone(&self) -> (r: Self)
        ensures
            r == *self,
    {
        StateSnapshot {
            workflow_id: self.workflow_id.clone(),
            state: self.state.clone(),
            updated_at: self.updated_at,
        }
    }
}

impl Keyed for StateSnapshot {
    open spec fn key(&self) -> Seq<char> {
        self.workflow_id@
    }

    fn matches_key(&self, k: &String) -> (r: bool) {
        self.workflow_id == *k
    }
}

/// Dedup marker for an external side-effecting call.
#[derive(Debug, Clone)]
pub struct IdempotencyRecord {
    /// The dedup key.
    pub key: String,
    /// Seconds since the Unix epoch when the key was stored.
    pub created_at: i64,
    /// Seconds the key stays live; afterwards it may be stored anew.
    pub ttl_seconds: u64,
}

impl Keyed for IdempotencyRecord {
    open spec fn key(&self) -> Seq<char> {
        self.key@
    }

    fn matches_key(&self, k: &String) -> (r: bool) {
        self.key == *k
    }
}

impl IdempotencyRecord {
    /// True while the record still blocks a duplicate insert.
    pub open spec fn live_at(&self, now: int) -> bool {
        now < self.created_at + self.ttl_seconds
    }

    /// The record's expiry instant is representable.
    pub open spec fn bounded(&self) -> bool {
        self.created_at >= 0 && self.created_at + self.ttl_seconds <= i64::MAX
    }
}

/// In-memory persistence adapter: the default backend, also used by
/// tests.
#[derive(Debug, Clone)]
pub struct InMemoryAdapter {
    states: KeyedVec<StateSnapshot>,
    keys: KeyedVec<IdempotencyRecord>,
}

impl InMemoryAdapter {
    /// The stored snapshots, keyed by workflow id.
    pub closed spec fn states_view(&self) -> Map<Seq<char>, StateSnapshot> {
        self.states.view()
    }

    /// The stored idempotency records, keyed by key text.
    pub closed spec fn keys_view(&self) -> Map<Seq<char>, IdempotencyRecord> {
        self.keys.view()
    }

    /// Internal invariant: unique keys on both tables and every
    /// record's expiry instant representable.
    pub closed spec fn well_formed(&self) -> bool {
        &&& self.states.well_formed()
        &&& self.keys.well_formed()
        &&& forall|k: Seq<char>| self.keys.view().contains_key(k)
                ==> (#[trigger] self.keys.view()[k]).bounded()
    }

    /// A fresh, empty adapter.
    pub fn new() -> (r: Self)
        ensures
            r.well_formed(),
            r.states_view() == Map::<Seq<char>, StateSnapshot>::empty(),
            r.keys_view() == Map::<Seq<char>, IdempotencyRecord>::empty(),
    {
        InMemoryAdapter { states: KeyedVec::new(), keys: KeyedVec::new() }
    }

    /// Persist (or overwrite) a workflow's latest snapshot.
    pub fn save_state(&mut self, snapshot: StateSnapshot) -> (r: Result<(), StorageError>)
        requires
            old(self).well_formed(),
        ensures
            r is Ok,
            final(self).well_formed(),
            final(self).states_view() == old(self).states_view().insert(snapshot.workflow_id@, snapshot),
            final(self).keys_view() == old(self).keys_view(),
    {
        let id = snapshot.workflow_id.clone();
        self.states.insert(&id, snapshot);
        Ok(())
    }

    /// Fetch the latest snapshot for `workflow_id`, or `None` when no
    /// snapshot was ever saved.
    pub fn load_state(&self, workflow_id: &str) -> (r: Result<Option<StateSnapshot>, StorageError>)
        requires
            self.well_formed(),
        ensures
            r is Ok,
            r matches Ok(o) ==> (o is Some <==> self.states_view().contains_key(workflow_id@)),
            r matches Ok(o) ==> (o matches Some(s) ==> s == self.states_view()[workflow_id@]),
    {
        let id = workflow_id.to_owned();
        match self.states.get(&id) {
            Some(s) => Ok(Some(s.clone())),
            None => Ok(None),
        }
    }

    /// Atomic insert-if-absent of an idempotency key, judged at time
    /// `now`: returns `true` and stores the key when no live record
    /// with that key exists, `false` (leaving the store unchanged)
    /// when one does.  A record whose TTL has elapsed no longer blocks.
    pub fn put_idempotency_key_at(&mut self, key: &str, ttl_seconds: u64, now: i64) -> (r: bool)
        requires
            old(self).well_formed(),
            now >= 0,
            now + ttl_seconds <= i64::MAX,
        ensures
            final(self).well_formed(),
            r <==> !(old(self).keys_view().contains_key(key@)
                && old(self).keys_view()[key@].live_at(now as int)),
            r ==> final(self).keys_view().contains_key(key@)
                && final(self).keys_view()[key@].key@ == key@
                && final(self).keys_view()[key@].created_at == now
                && final(self).keys_view()[key@].ttl_seconds == ttl_seconds
                && final(self).keys_view().remove(key@) == old(self).keys_view().remove(key@),
            !r ==> *final(self) == *old(self),
            final(self).states_view() == old(self).states_view(),
    {
        let key_s = key.to_owned();
        let blocked = match self.keys.get(&key_s) {
            Some(existing) => now < existing.created_at + (existing.ttl_seconds as i64),
            None => false,
        };
        if blocked {
            false
        } else {
            let rec = IdempotencyRecord { key: key_s.clone(), created_at: now, ttl_seconds };
            self.keys.insert(&key_s, rec);
            proof {
                assert(final(self).keys_view().remove(key@) =~= old(self).keys_view().remove(key@));
                assert forall|k: Seq<char>| final(self).keys.view().contains_key(k)
                    implies (#[trigger] final(self).keys.view()[k]).bounded() by {
                    if k != key@ {
                        assert(final(self).keys.view()[k] == old(self).keys.view()[k]);
                    }
                }
            }
            true
        }
    }

    /// Atomic insert-if-absent of an idempotency key, judged at the
    /// wall clock's current reading; readings outside the storable
    /// window are clamped to it.  Whatever the clock returned: an
    /// absent key is newly inserted (`true`), `false` is returned only
    /// when a record already blocked the key (leaving the store
    /// unchanged), and the key is present afterwards.
    pub fn put_idempotency_key(&mut self, key: &str, ttl_seconds: u64) -> (r: Result<bool, StorageError>)
        requires
            old(self).well_formed(),
            ttl_seconds <= u32::MAX,
        ensures
            r is Ok,
            final(self).well_formed(),
            final(self).keys_view().contains_key(key@),
            final(self).states_view() == old(self).states_view(),
            !old(self).keys_view().contains_key(key@) ==> (r matches Ok(b) && b),
            (r matches Ok(b) && !b) ==> old(self).keys_view().contains_key(key@)
                && *final(self) == *old(self),
    {
        let now = now_seconds();
        let now_clamped: i64 = if now > 4_000_000_000i64 {
            4_000_000_000i64
        } else if now < 0 {
            0
        } else {
            now
        };
        let inserted = self.put_idempotency_key_at(key, ttl_seconds, now_clamped);
        proof {
            if !inserted {
                assert(old(self).keys_view().contains_key(key@));
            }
        }
        Ok(inserted)
    }
}

} // verus!
