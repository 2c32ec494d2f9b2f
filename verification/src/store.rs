//! The shared token cell: one writer (the refresh scheduler), any number of
//! concurrent readers. Built on vstd's verified reader-writer lock, so a
//! reader always sees a complete stored token — the value present before or
//! after a replacement, never a partial one — and exclusive access lasts
//! only for the in-memory swap.

use vstd::prelude::*;
use vstd::rwlock::RwLock;
use crate::keycloak::KeycloakToken;

verus! {

/// Thread-safe holder of the current token for one credential set.
pub struct TokenStore {
    cell: RwLock<KeycloakToken, spec_fn(KeycloakToken) -> bool>,
}

impl TokenStore {
    /// The lock admits every token value: the cell is a plain holder with no
    /// further invariant.
    pub closed spec fn wf(&self) -> bool {
        forall|t: KeycloakToken| self.cell.inv(t)
    }

    /// Creates the store around the token obtained by the initial blocking
    /// acquisition.
    pub fn new(initial: KeycloakToken) -> (store: TokenStore)
        ensures
            store.wf(),
    {
        let store = TokenStore { cell: RwLock::new(initial, Ghost(|t: KeycloakToken| true)) };
        proof {
            assert forall|t: KeycloakToken| store.cell.inv(t) by {}
        }
        store
    }

    /// Returns a snapshot of the current token: a complete copy of the value
    /// stored at the moment of the read. Readers share the lock, so they
    /// never wait on one another, and a concurrent replacement is seen
    /// either entirely or not at all.
    pub fn read(&self) -> (t: KeycloakToken) {
        let handle = self.cell.acquire_read();
        let t = handle.borrow().clone();
        handle.release_read();
        t
    }

    /// Replaces the stored token. This is the store's only mutation path;
    /// exclusive access is held just for the swap, never across network
    /// work or a callback.
    pub fn update(&self, new_token: KeycloakToken)
        requires
            self.wf(),
    {
        let (_old_token, handle) = self.cell.acquire_write();
        handle.release_write(new_token);
    }
}

} // verus!
