use vstd::prelude::*;

verus! {

/// Quality of service of every subscription and publish: at least once.
pub const QOS_AT_LEAST_ONCE: i32 = 1;

/// One subscribe request: a topic filter and its quality of service.
#[derive(Clone, Debug)]
pub struct Subscription {
    pub topic: String,
    pub qos: i32,
}

/// The subscribe requests that restore inbound delivery on a fresh
/// connection: one for notifications, then one for commands, both at least
/// once. Restoring is all or nothing: the caller issues them in this order
/// and stops at the first that fails.
pub fn topic_subscribe(notification_topic: &str, command_topic: &str) -> (r: Vec<Subscription>)
    ensures
        r@.len() == 2,
        r@[0].topic@ == notification_topic@,
        r@[0].qos == QOS_AT_LEAST_ONCE,
        r@[1].topic@ == command_topic@,
        r@[1].qos == QOS_AT_LEAST_ONCE,
{
    let mut requests: Vec<Subscription> = Vec::new();
    requests.push(Subscription { topic: notification_topic.to_owned(), qos: QOS_AT_LEAST_ONCE });
    requests.push(Subscription { topic: command_topic.to_owned(), qos: QOS_AT_LEAST_ONCE });
    requests
}

} // verus!
