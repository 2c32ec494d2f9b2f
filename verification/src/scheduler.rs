//! The refresh scheduler's decision logic: a state machine over one
//! credential set, driven by a fixed-interval timer. Each tick compares the
//! stored expiry with the current time; only an expired token triggers an
//! acquisition, whose outcome either rotates the store and yields exactly
//! one callback payload, or ends the scheduler in its terminal failed
//! state.

use vstd::prelude::*;
use crate::keycloak::KeycloakToken;
use crate::retry::RetryPolicy;
use crate::store::TokenStore;

verus! {

/// Where the scheduler stands between ticks.
pub enum SchedulerPhase {
    /// The stored token is presumed valid; ticks only watch the expiry.
    Valid,
    /// A tick found the stored expiry reached; a refresh is due.
    Expiring,
    /// An acquisition is under way for an expired token.
    Refreshing,
    /// Retries were exhausted; the scheduler is done for good.
    Failed,
}

/// The periodic background refresher for one credential set.
pub struct RefreshScheduler {
    /// Seconds between expiry checks.
    pub expiry_check_interval_seconds: u64,
    /// Retry budget applied to each refresh.
    pub policy: RetryPolicy,
    /// Current state of the refresh state machine.
    pub phase: SchedulerPhase,
}

/// Whether a tick at time `now` must refresh a token expiring at `expiry`:
/// exactly when the tick does not come strictly before the expiry.
pub open spec fn needs_refresh(now: u64, expiry: u64) -> bool {
    now >= expiry
}

/// Decides one tick: `true` exactly when `now` has reached `expiry`. A tick
/// strictly before the expiry asks for no work at all.
pub fn tick_needs_refresh(now: u64, expiry: u64) -> (refresh: bool)
    ensures
        refresh == needs_refresh(now, expiry),
{
    now >= expiry
}

impl RefreshScheduler {
    /// Sets the scheduler up, ready for its first tick.
    pub fn new(expiry_check_interval_seconds: u64, policy: RetryPolicy) -> (s: RefreshScheduler)
        ensures
            s.expiry_check_interval_seconds == expiry_check_interval_seconds,
            s.policy == policy,
            s.phase is Valid,
    {
        RefreshScheduler { expiry_check_interval_seconds, policy, phase: SchedulerPhase::Valid }
    }

    /// Handles a timer tick at time `now` against the store's snapshot
    /// expiry: it reports whether a refresh must start, and nothing but the
    /// phase changes. A tick strictly before the expiry leaves the
    /// scheduler exactly as it was, so it performs no acquisition.
    pub fn on_tick(&mut self, now: u64, expiry: u64) -> (refresh: bool)
        requires
            old(self).phase is Valid,
        ensures
            refresh == needs_refresh(now, expiry),
            refresh ==> final(self).phase is Expiring,
            !refresh ==> final(self).phase is Valid,
            final(self).expiry_check_interval_seconds == old(self).expiry_check_interval_seconds,
            final(self).policy == old(self).policy,
    {
        let refresh = tick_needs_refresh(now, expiry);
        if refresh {
            self.phase = SchedulerPhase::Expiring;
        }
        refresh
    }

    /// Starts the acquisition for a token found expiring.
    pub fn start_refresh(&mut self)
        requires
            old(self).phase is Expiring,
        ensures
            final(self).phase is Refreshing,
            final(self).expiry_check_interval_seconds == old(self).expiry_check_interval_seconds,
            final(self).policy == old(self).policy,
    {
        self.phase = SchedulerPhase::Refreshing;
    }

    /// Concludes a refresh with the acquisition's final outcome. On success
    /// the new token is stored — under the store's brief exclusive window —
    /// and the one callback payload is returned, carrying exactly the token
    /// just stored; the scheduler is valid again. On failure the error is
    /// handed back unchanged and the scheduler enters its terminal failed
    /// state: the caller terminates rather than serve a stale credential.
    pub fn on_refresh_outcome<E>(
        &mut self,
        store: &TokenStore,
        outcome: Result<KeycloakToken, E>,
    ) -> (r: Result<KeycloakToken, E>)
        requires
            old(self).phase is Refreshing,
            store.wf(),
        ensures
            r is Ok <==> outcome is Ok,
            outcome matches Ok(t) ==> (r matches Ok(payload) && payload.access_token@
                == t.access_token@ && payload.expiry == t.expiry && final(self).phase is Valid),
            outcome matches Err(e) ==> (r matches Err(e2) && e2 == e
                && final(self).phase is Failed),
            final(self).expiry_check_interval_seconds == old(self).expiry_check_interval_seconds,
            final(self).policy == old(self).policy,
    {
        match outcome {
            Ok(new_token) => {
                let payload = new_token.clone();
                store.update(new_token);
                self.phase = SchedulerPhase::Valid;
                Ok(payload)
            },
            Err(e) => {
                self.phase = SchedulerPhase::Failed;
                Err(e)
            },
        }
    }
}

} // verus!
