//! The session store: a durable mapping from user identity to the current
//! dialogue state, exactly one state per user.
//!
//! Callers for distinct users are independent; all processing for a single
//! user goes through one `&mut` borrow of the store, so Rust's exclusive
//! borrowing is the per-user serialization the store contract asks for.

use std::collections::HashMap;

use vstd::prelude::*;

use crate::state::{state_wf, SessionState, StateView};

verus! {

broadcast use vstd::std_specs::hash::group_hash_axioms;

/// The opaque identity of the chat or user a session belongs to.
pub type UserId = u64;

/// An in-memory session store: the abstract value is the map from user
/// identity to the view of that user's current state.
pub struct SessionStore {
    table: HashMap<UserId, SessionState>,
}

impl View for SessionStore {
    type V = Map<UserId, StateView>;

    closed spec fn view(&self) -> Map<UserId, StateView> {
        self.table@.map_values(|s: SessionState| s@)
    }
}

/// Every stored session is well formed and none is terminal: a session
/// that completes is converted into a listing and destroyed in the same
/// step, never written back.
pub open spec fn store_wf(m: Map<UserId, StateView>) -> bool {
    forall|id: UserId| m.contains_key(id) ==> !(#[trigger] m[id] is Complete) && state_wf(m[id])
}

impl SessionStore {
    /// An empty store: no user has a session.
    pub fn new() -> (s: Self)
        ensures
            s@ == Map::<UserId, StateView>::empty(),
            store_wf(s@),
    {
        let s = SessionStore { table: HashMap::new() };
        proof {
            assert(s@ =~= Map::<UserId, StateView>::empty());
        }
        s
    }

    /// Looks a user's session up without changing anything.
    pub fn get(&self, id: UserId) -> (r: Option<&SessionState>)
        ensures
            match r {
                Some(state) => self@.contains_key(id) && state@ == self@[id],
                None => !self@.contains_key(id),
            },
    {
        let r = self.table.get(&id);
        proof {
            assert(self.table@.contains_key(id) == self@.contains_key(id));
        }
        r
    }

    /// Stores `state` as the one session of `id`, replacing any previous
    /// one.
    pub fn put(&mut self, id: UserId, state: SessionState)
        ensures
            final(self)@ == old(self)@.insert(id, state@),
    {
        self.table.insert(id, state);
        proof {
            assert(final(self)@ =~= old(self)@.insert(id, state@));
        }
    }

    /// Removes and returns the session of `id`, leaving the user without
    /// one.
    pub fn take(&mut self, id: UserId) -> (r: Option<SessionState>)
        ensures
            final(self)@ == old(self)@.remove(id),
            match r {
                Some(state) => old(self)@.contains_key(id) && state@ == old(self)@[id],
                None => !old(self)@.contains_key(id),
            },
    {
        let r = self.table.remove(&id);
        proof {
            assert(final(self)@ =~= old(self)@.remove(id));
            assert(old(self).table@.contains_key(id) == old(self)@.contains_key(id));
        }
        r
    }

    /// Deletes the session of `id`; a missing session is already deleted.
    pub fn delete(&mut self, id: UserId)
        ensures
            final(self)@ == old(self)@.remove(id),
    {
        let _ = self.take(id);
    }

    /// How many users currently have a session.
    pub fn len(&self) -> (n: usize)
        ensures
            n == self@.dom().len(),
    {
        proof {
            assert(self@.dom() =~= self.table@.dom());
        }
        self.table.len()
    }
}

} // verus!
