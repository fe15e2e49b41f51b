//! Device-side session management for a cloud message broker: credential
//! renewal, a reconnecting connection supervisor with exponential backoff,
//! subscription restoration, inbound message routing and a telemetry cadence.
//!
//! The transport, the clock and the hub's protocol helpers stay with the
//! caller; this crate takes their results as plain values and decides.

mod backoff;
mod config;
mod credential;
mod error;
mod router;
mod subscription;
mod supervisor;
mod telemetry;

pub use backoff::{
    delay_spec, grown_delay, lemma_delay_bounded_and_monotone, min_nat, next_delay, pow2,
    BackoffPolicy,
};
pub use config::{
    device_id_pattern, fields_match, host_name_pattern, parse_connection_string, parsed_fields,
    regex_group_one, shared_access_key_pattern, startup_check, ConnectionFields,
};
pub use credential::{
    base64_decoded, base64_encoded, hmac_sha256_of, signed_hash, Credential, CredentialIssuer,
};
pub use error::{exit_status, ConfigError, FatalError, PayloadDecodeError, SubscribeError};
pub use router::{
    lemma_routing_responses, method_call_of, notification_of, process_c2d_message,
    process_method_message, responses_of, route, routed_as, success_body, CommandResponse,
    InboundMessage, MessageClassification, MethodCall, Notification, Routed, STATUS_SUCCESS,
};
pub use subscription::{topic_subscribe, Subscription, QOS_AT_LEAST_ONCE};
pub use supervisor::{
    attempt_step, begin_step, elapsed_ms, health_step, lemma_ready_only_after_restore,
    lemma_reconnect_liveness, next_count, renewal_due, retry_delay, run_attempts, with_retry,
    with_state, AttemptOutcome, ConnectionSupervisor, HealthAction, RetryContext, SessionState,
    SupervisorState,
};
pub use telemetry::{decimal, telemetry_body, telemetry_message, TelemetryScheduler};
