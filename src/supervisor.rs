use vstd::prelude::*;
use crate::backoff::{delay_spec, BackoffPolicy};
use crate::credential::Credential;
use crate::error::SubscribeError;

verus! {

/// The session's connection state.
#[derive(PartialEq, Eq, Structural, Clone, Copy, Debug)]
pub enum SessionState {
    Disconnected,
    Connecting,
    Connected,
}

/// The attempts made since the last successful connection, and when the
/// current one started (milliseconds on the caller's monotonic clock).
#[derive(PartialEq, Eq, Structural, Clone, Copy, Debug)]
pub struct RetryContext {
    pub attempt_count: u32,
    pub attempt_started_at_ms: u64,
}

/// What the driving loop does after a health check.
#[derive(PartialEq, Eq, Structural, Clone, Copy, Debug)]
pub enum HealthAction {
    /// The session is usable as it is.
    Healthy,
    /// Reconnect with a fresh credential; where `tear_down`, first close the
    /// transport cleanly.
    Reconnect { tear_down: bool },
}

/// What the driving loop does after a connection attempt.
#[derive(PartialEq, Eq, Structural, Clone, Copy, Debug)]
pub enum AttemptOutcome {
    /// The handshake succeeded: restore the subscriptions before use.
    RestoreSubscriptions,
    /// The handshake failed: wait this many milliseconds, then try again.
    RetryAfter(u32),
}

/// Everything the supervisor decides from.
#[derive(PartialEq, Eq, Structural, Clone, Copy, Debug)]
pub struct SupervisorState {
    pub state: SessionState,
    /// The subscriptions of the current connection are in place.
    pub ready: bool,
    pub retry: RetryContext,
    /// Expiry of the credential in use (Unix seconds).
    pub expiry: u64,
    pub ttl_seconds: u64,
    /// Renew once less than this share (in percent) of the lifetime is left.
    pub renew_percent: u8,
    pub policy: BackoffPolicy,
}

/// The credential must be renewed: less than `renew_percent` percent of its
/// lifetime `ttl` remains before `expiry`.
pub open spec fn renewal_due(expiry: u64, now: u64, ttl: u64, renew_percent: u8) -> bool {
    (expiry as int - now as int) * 100 < ttl as int * renew_percent as int
}

/// Milliseconds from `started` to `now`, clipped to the range of a `u32`.
pub open spec fn elapsed_ms(started: u64, now: u64) -> u32 {
    if now <= started {
        0
    } else if now - started > u32::MAX {
        u32::MAX
    } else {
        (now - started) as u32
    }
}

pub open spec fn with_state(v: SupervisorState, state: SessionState, ready: bool) -> SupervisorState {
    SupervisorState {
        state,
        ready,
        retry: v.retry,
        expiry: v.expiry,
        ttl_seconds: v.ttl_seconds,
        renew_percent: v.renew_percent,
        policy: v.policy,
    }
}

pub open spec fn with_retry(v: SupervisorState, state: SessionState, retry: RetryContext) -> SupervisorState {
    SupervisorState {
        state,
        ready: false,
        retry,
        expiry: v.expiry,
        ttl_seconds: v.ttl_seconds,
        renew_percent: v.renew_percent,
        policy: v.policy,
    }
}

/// A health check at `now` (Unix seconds): a connected session whose link is
/// gone or whose credential is due for renewal is disconnected; any session
/// that is not connected afterwards asks for a reconnect.
pub open spec fn health_step(v: SupervisorState, now: u64, transport_connected: bool) -> (
    SupervisorState,
    HealthAction,
) {
    if v.state == SessionState::Connected && transport_connected && !renewal_due(
        v.expiry,
        now,
        v.ttl_seconds,
        v.renew_percent,
    ) {
        (v, HealthAction::Healthy)
    } else if v.state == SessionState::Connected {
        (
            with_state(v, SessionState::Disconnected, false),
            HealthAction::Reconnect { tear_down: transport_connected },
        )
    } else {
        (v, HealthAction::Reconnect { tear_down: transport_connected })
    }
}

/// The start of a connection attempt at `now_ms`: a disconnected session
/// starts counting attempts from zero.
pub open spec fn begin_step(v: SupervisorState, now_ms: u64) -> SupervisorState {
    let count = if v.state == SessionState::Connecting {
        v.retry.attempt_count
    } else {
        0
    };
    with_retry(
        v,
        SessionState::Connecting,
        RetryContext { attempt_count: count, attempt_started_at_ms: now_ms },
    )
}

/// The attempt count after one more failure; it stops at the largest `u32`.
pub open spec fn next_count(count: u32) -> u32 {
    if count < u32::MAX {
        (count + 1) as u32
    } else {
        u32::MAX
    }
}

/// The result of the current attempt, reported at `now_ms`: success connects
/// with the attempt count back at zero and the subscriptions still to
/// restore; failure counts the attempt and waits as the policy says.
pub open spec fn attempt_step(v: SupervisorState, connected: bool, now_ms: u64) -> (
    SupervisorState,
    AttemptOutcome,
) {
    if connected {
        (
            with_retry(
                v,
                SessionState::Connected,
                RetryContext { attempt_count: 0, attempt_started_at_ms: v.retry.attempt_started_at_ms },
            ),
            AttemptOutcome::RestoreSubscriptions,
        )
    } else {
        let count = next_count(v.retry.attempt_count);
        (
            with_retry(
                v,
                SessionState::Connecting,
                RetryContext { attempt_count: count, attempt_started_at_ms: v.retry.attempt_started_at_ms },
            ),
            AttemptOutcome::RetryAfter(
                delay_spec(
                    elapsed_ms(v.retry.attempt_started_at_ms, now_ms),
                    count,
                    v.policy.base_ms,
                    v.policy.cap_ms,
                    v.policy.jitter,
                ) as u32,
            ),
        )
    }
}

/// The attempts of one reconnect: each is started at its `.1`, reported at
/// its `.2`, and succeeded where its `.0` holds. Gives the state after them
/// and the outcome of each.
pub open spec fn run_attempts(v: SupervisorState, attempts: Seq<(bool, u64, u64)>) -> (
    SupervisorState,
    Seq<AttemptOutcome>,
)
    decreases attempts.len(),
{
    if attempts.len() == 0 {
        (v, Seq::empty())
    } else {
        let a = attempts[0];
        let (v1, out) = attempt_step(begin_step(v, a.1), a.0, a.2);
        let (v2, rest) = run_attempts(v1, attempts.drop_first());
        (v2, seq![out] + rest)
    }
}

/// The delay that the policy gives the failed attempt numbered `count`.
pub open spec fn retry_delay(v: SupervisorState, a: (bool, u64, u64), count: u32) -> u32 {
    delay_spec(elapsed_ms(a.1, a.2), count, v.policy.base_ms, v.policy.cap_ms, v.policy.jitter) as u32
}

proof fn lemma_run_from(v: SupervisorState, attempts: Seq<(bool, u64, u64)>, k: nat, done: nat)
    requires
        v.state != SessionState::Connected,
        done == (if v.state == SessionState::Connecting { v.retry.attempt_count as nat } else { 0 }),
        attempts.len() == k + 1,
        forall|i: int| 0 <= i < k ==> !(#[trigger] attempts[i]).0,
        attempts[k as int].0,
        done + k < u32::MAX,
    ensures
        run_attempts(v, attempts).0.state == SessionState::Connected,
        !run_attempts(v, attempts).0.ready,
        run_attempts(v, attempts).0.retry.attempt_count == 0,
        run_attempts(v, attempts).0.policy == v.policy,
        run_attempts(v, attempts).1.len() == k + 1,
        forall|i: int|
            0 <= i < k ==> #[trigger] run_attempts(v, attempts).1[i] == AttemptOutcome::RetryAfter(
                retry_delay(v, attempts[i], (done + i + 1) as u32),
            ),
        run_attempts(v, attempts).1[k as int] == AttemptOutcome::RestoreSubscriptions,
    decreases k,
{
    let a = attempts[0];
    let v1 = attempt_step(begin_step(v, a.1), a.0, a.2).0;
    let rest_attempts = attempts.drop_first();
    if k > 0 {
        assert(!attempts[0].0);
        assert(v1.retry.attempt_count == done + 1);
        assert forall|i: int| 0 <= i < k - 1 implies !(#[trigger] rest_attempts[i]).0 by {
            assert(rest_attempts[i] == attempts[i + 1]);
        }
        assert(rest_attempts[(k - 1) as int] == attempts[k as int]);
        lemma_run_from(v1, rest_attempts, (k - 1) as nat, done + 1);
        let outs = run_attempts(v, attempts).1;
        let rest = run_attempts(v1, rest_attempts).1;
        assert(outs == seq![attempt_step(begin_step(v, a.1), a.0, a.2).1] + rest);
        assert forall|i: int| 0 <= i < k implies #[trigger] outs[i] == AttemptOutcome::RetryAfter(
            retry_delay(v, attempts[i], (done + i + 1) as u32),
        ) by {
            if i > 0 {
                assert(outs[i] == rest[i - 1]);
                assert(rest_attempts[i - 1] == attempts[i]);
            }
        }
        assert(outs[k as int] == rest[k - 1]);
        assert(run_attempts(v, attempts).0 == run_attempts(v1, rest_attempts).0);
    } else {
        assert(rest_attempts.len() == 0);
        assert(run_attempts(v1, rest_attempts).0 == v1);
        assert(run_attempts(v, attempts).0 == v1);
    }
}

/// From a disconnected session, when the first `k` attempts fail and the
/// next one succeeds, the supervisor is connected after exactly `k` retries,
/// each after the delay that the backoff policy gives its attempt number.
pub proof fn lemma_reconnect_liveness(v: SupervisorState, attempts: Seq<(bool, u64, u64)>, k: nat)
    requires
        v.state == SessionState::Disconnected,
        attempts.len() == k + 1,
        forall|i: int| 0 <= i < k ==> !(#[trigger] attempts[i]).0,
        attempts[k as int].0,
        k < u32::MAX,
    ensures
        run_attempts(v, attempts).0.state == SessionState::Connected,
        run_attempts(v, attempts).0.retry.attempt_count == 0,
        run_attempts(v, attempts).1.len() == k + 1,
        forall|i: int|
            0 <= i < k ==> #[trigger] run_attempts(v, attempts).1[i] == AttemptOutcome::RetryAfter(
                retry_delay(v, attempts[i], (i + 1) as u32),
            ),
        run_attempts(v, attempts).1[k as int] == AttemptOutcome::RestoreSubscriptions,
{
    lemma_run_from(v, attempts, k, 0);
}

/// A session becomes ready only through restored subscriptions: every
/// attempt that connects asks for the subscriptions to be restored and
/// leaves the session not ready, and neither a health check nor the start
/// of an attempt makes a session ready that was not.
pub proof fn lemma_ready_only_after_restore(
    v: SupervisorState,
    now: u64,
    transport_connected: bool,
    connected: bool,
    now_ms: u64,
)
    ensures
        attempt_step(v, connected, now_ms).0.state == SessionState::Connected ==> {
            &&& attempt_step(v, connected, now_ms).1 == AttemptOutcome::RestoreSubscriptions
            &&& !attempt_step(v, connected, now_ms).0.ready
        },
        health_step(v, now, transport_connected).0.ready ==> v.ready,
        !begin_step(v, now_ms).ready,
{
}

/// Drives the connect, reconnect and renewal cycle of one session. The
/// caller performs each action it returns and reports back what happened.
pub struct ConnectionSupervisor {
    s: SupervisorState,
}

impl View for ConnectionSupervisor {
    type V = SupervisorState;

    closed spec fn view(&self) -> SupervisorState {
        self.s
    }
}

impl ConnectionSupervisor {
    /// A disconnected supervisor with no credential yet.
    pub fn new(ttl_seconds: u64, renew_percent: u8, policy: BackoffPolicy) -> (r: ConnectionSupervisor)
        ensures
            r@.state == SessionState::Disconnected,
            !r@.ready,
            r@.retry == (RetryContext { attempt_count: 0, attempt_started_at_ms: 0 }),
            r@.expiry == 0,
            r@.ttl_seconds == ttl_seconds,
            r@.renew_percent == renew_percent,
            r@.policy == policy,
    {
        ConnectionSupervisor {
            s: SupervisorState {
                state: SessionState::Disconnected,
                ready: false,
                retry: RetryContext { attempt_count: 0, attempt_started_at_ms: 0 },
                expiry: 0,
                ttl_seconds,
                renew_percent,
                policy,
            },
        }
    }

    pub fn state(&self) -> (r: SessionState)
        ensures
            r == self@.state,
    {
        self.s.state
    }

    pub fn retry_context(&self) -> (r: RetryContext)
        ensures
            r == self@.retry,
    {
        self.s.retry
    }

    /// The session is connected and its subscriptions are in place.
    pub fn is_ready(&self) -> (r: bool)
        ensures
            r == (self@.state == SessionState::Connected && self@.ready),
    {
        self.s.state == SessionState::Connected && self.s.ready
    }

    /// Whether the credential in use is due for renewal at `now`.
    pub fn renewal_due(&self, now: u64) -> (r: bool)
        ensures
            r == renewal_due(self@.expiry, now, self@.ttl_seconds, self@.renew_percent),
    {
        let expiry = self.s.expiry;
        if now > expiry {
            true
        } else {
            let remaining: u128 = (expiry - now) as u128;
            let ttl: u128 = self.s.ttl_seconds as u128;
            let percent: u128 = self.s.renew_percent as u128;
            assert(ttl * percent <= ttl * 255) by (nonlinear_arith)
                requires
                    percent <= 255,
            ;
            remaining * 100 < ttl * percent
        }
    }

    /// Evaluates the session once per tick, at `now` (Unix seconds), given
    /// whether the transport reports its link as active.
    pub fn health_check(&mut self, now: u64, transport_connected: bool) -> (r: HealthAction)
        ensures
            (final(self)@, r) == health_step(old(self)@, now, transport_connected),
            old(self)@.state == SessionState::Connected && renewal_due(
                old(self)@.expiry,
                now,
                old(self)@.ttl_seconds,
                old(self)@.renew_percent,
            ) ==> final(self)@.state != SessionState::Connected,
            old(self)@.state == SessionState::Connected && transport_connected && !renewal_due(
                old(self)@.expiry,
                now,
                old(self)@.ttl_seconds,
                old(self)@.renew_percent,
            ) ==> final(self)@ == old(self)@ && r == HealthAction::Healthy,
    {
        if self.s.state == SessionState::Connected {
            if transport_connected && !self.renewal_due(now) {
                HealthAction::Healthy
            } else {
                self.s.state = SessionState::Disconnected;
                self.s.ready = false;
                HealthAction::Reconnect { tear_down: transport_connected }
            }
        } else {
            HealthAction::Reconnect { tear_down: transport_connected }
        }
    }

    /// Records the start of a connection attempt at `now_ms`.
    pub fn begin_attempt(&mut self, now_ms: u64)
        requires
            old(self)@.state != SessionState::Connected,
        ensures
            final(self)@ == begin_step(old(self)@, now_ms),
    {
        let count: u32 = if self.s.state == SessionState::Connecting {
            self.s.retry.attempt_count
        } else {
            0
        };
        self.s.state = SessionState::Connecting;
        self.s.ready = false;
        self.s.retry = RetryContext { attempt_count: count, attempt_started_at_ms: now_ms };
    }

    /// Takes up a freshly issued credential for the next attempt.
    pub fn install_credential(&mut self, credential: &Credential)
        ensures
            final(self)@ == (SupervisorState { expiry: credential.issued_for_epoch, ..old(self)@ }),
    {
        self.s.expiry = credential.issued_for_epoch;
    }

    /// Reports how the current attempt ended, at `now_ms`.
    pub fn attempt_finished(&mut self, connected: bool, now_ms: u64) -> (r: AttemptOutcome)
        requires
            old(self)@.state == SessionState::Connecting,
        ensures
            (final(self)@, r) == attempt_step(old(self)@, connected, now_ms),
            final(self)@.state == SessionState::Connected ==> !final(self)@.ready,
    {
        if connected {
            self.s.state = SessionState::Connected;
            self.s.ready = false;
            self.s.retry.attempt_count = 0;
            AttemptOutcome::RestoreSubscriptions
        } else {
            let count: u32 = if self.s.retry.attempt_count < u32::MAX {
                self.s.retry.attempt_count + 1
            } else {
                u32::MAX
            };
            self.s.retry.attempt_count = count;
            self.s.ready = false;
            let started = self.s.retry.attempt_started_at_ms;
            let elapsed: u32 = if now_ms <= started {
                0
            } else if now_ms - started > u32::MAX as u64 {
                u32::MAX
            } else {
                (now_ms - started) as u32
            };
            AttemptOutcome::RetryAfter(self.s.policy.delay(elapsed, count))
        }
    }

    /// Reports whether every subscription of the fresh connection was
    /// restored. Only then is the session ready; otherwise it goes back to
    /// disconnected and the failure is handed on.
    pub fn subscriptions_restored(&mut self, restored: bool) -> (r: Result<(), SubscribeError>)
        requires
            old(self)@.state == SessionState::Connected,
        ensures
            restored ==> r is Ok && final(self)@ == with_state(old(self)@, SessionState::Connected, true),
            !restored ==> r == Err::<(), SubscribeError>(SubscribeError::Rejected) && final(self)@
                == with_state(old(self)@, SessionState::Disconnected, false),
    {
        if restored {
            self.s.ready = true;
            Ok(())
        } else {
            self.s.state = SessionState::Disconnected;
            self.s.ready = false;
            Err(SubscribeError::Rejected)
        }
    }
}

} // verus!
