use hub_session::{
    next_delay, topic_subscribe, AttemptOutcome, BackoffPolicy, ConnectionSupervisor, Credential,
    HealthAction, SessionState, SubscribeError,
};

fn connected(ttl: u64, expiry: u64) -> ConnectionSupervisor {
    let mut s = ConnectionSupervisor::new(ttl, 20, BackoffPolicy::standard());
    assert_eq!(s.health_check(0, false), HealthAction::Reconnect { tear_down: false });
    s.begin_attempt(0);
    s.install_credential(&Credential::new("t".to_string(), expiry));
    assert_eq!(s.attempt_finished(true, 5), AttemptOutcome::RestoreSubscriptions);
    assert_eq!(s.subscriptions_restored(true), Ok(()));
    assert!(s.is_ready());
    s
}

#[test]
fn renewal_due_below_a_fifth_of_lifetime() {
    // ttl 100: renewal once fewer than 20 seconds remain.
    let mut s = connected(100, 1100);
    assert_eq!(s.health_check(1080, true), HealthAction::Healthy);
    assert_eq!(s.state(), SessionState::Connected);
    let mut s2 = connected(100, 1100);
    assert_eq!(s2.health_check(1081, true), HealthAction::Reconnect { tear_down: true });
    assert_eq!(s2.state(), SessionState::Disconnected);
    let mut s3 = connected(100, 1100);
    assert_eq!(s3.health_check(2000, true), HealthAction::Reconnect { tear_down: true });
    assert_eq!(s3.state(), SessionState::Disconnected);
}

#[test]
fn lost_link_disconnects_without_teardown() {
    let mut s = connected(100, 1100);
    assert_eq!(s.health_check(1000, false), HealthAction::Reconnect { tear_down: false });
    assert_eq!(s.state(), SessionState::Disconnected);
    assert!(!s.is_ready());
}

#[test]
fn reconnects_after_k_failures() {
    let k = 4u32;
    let mut s = ConnectionSupervisor::new(120, 20, BackoffPolicy::standard());
    assert_eq!(s.state(), SessionState::Disconnected);
    let mut retries = 0u32;
    let mut now = 0u64;
    loop {
        s.begin_attempt(now);
        let succeed = retries == k;
        now += 100;
        match s.attempt_finished(succeed, now) {
            AttemptOutcome::RetryAfter(d) => {
                retries += 1;
                assert_eq!(s.retry_context().attempt_count, retries);
                assert_eq!(d, next_delay(100, retries, 1000, 600_000, 0));
                now += d as u64;
            }
            AttemptOutcome::RestoreSubscriptions => break,
        }
    }
    assert_eq!(retries, k);
    assert_eq!(s.state(), SessionState::Connected);
    assert_eq!(s.retry_context().attempt_count, 0);
    assert!(!s.is_ready());
}

#[test]
fn retry_delays_follow_policy() {
    let mut s = ConnectionSupervisor::new(120, 20, BackoffPolicy::standard());
    s.begin_attempt(10);
    assert_eq!(s.attempt_finished(false, 310), AttemptOutcome::RetryAfter(700));
    s.begin_attempt(2000);
    assert_eq!(s.attempt_finished(false, 2000), AttemptOutcome::RetryAfter(2000));
    s.begin_attempt(5000);
    assert_eq!(s.attempt_finished(false, 4000), AttemptOutcome::RetryAfter(4000));
}

#[test]
fn subscriptions_restored_in_order_before_ready() {
    let plan = topic_subscribe("devices/dev1/messages/devicebound/#", "$iothub/methods/POST/#");
    assert_eq!(plan.len(), 2);
    assert_eq!(plan[0].topic, "devices/dev1/messages/devicebound/#");
    assert_eq!(plan[1].topic, "$iothub/methods/POST/#");
    assert!(plan.iter().all(|p| p.qos == 1));
    let mut s = ConnectionSupervisor::new(120, 20, BackoffPolicy::standard());
    s.begin_attempt(0);
    s.attempt_finished(true, 1);
    assert_eq!(s.state(), SessionState::Connected);
    assert!(!s.is_ready());
    assert_eq!(s.subscriptions_restored(false), Err(SubscribeError::Rejected));
    assert_eq!(s.state(), SessionState::Disconnected);
}

#[test]
fn failed_subscriptions_fold_back_into_reconnect() {
    let mut s = ConnectionSupervisor::new(120, 20, BackoffPolicy::standard());
    s.begin_attempt(0);
    s.attempt_finished(true, 1);
    assert!(s.subscriptions_restored(false).is_err());
    assert_eq!(s.health_check(0, false), HealthAction::Reconnect { tear_down: false });
    s.begin_attempt(2);
    assert_eq!(s.retry_context().attempt_count, 0);
    assert_eq!(s.retry_context().attempt_started_at_ms, 2);
}
