//! The JetStream stream and consumer that the server sets up before it
//! accepts connections, derived from the settings.

use vstd::prelude::*;
use crate::config::NatsConfig;

verus! {

/// How a JetStream stream keeps its messages.
pub enum RetentionPolicy {
    /// Kept until a limit (count, size, age) is reached.
    Limits,
    /// Kept while some consumer is interested.
    Interest,
    /// Kept until one consumer acknowledges them.
    WorkQueue,
}

/// The settings of the stream the middleware creates.
pub struct StreamSettings {
    pub name: String,
    pub retention: RetentionPolicy,
    pub subjects: Vec<String>,
    /// The age in seconds after which a message is dropped.
    pub max_age_secs: u64,
}

/// The settings of the durable pull consumer the middleware reads replies
/// from.
pub struct ConsumerSettings {
    pub durable_name: Option<String>,
    pub filter_subject: String,
}

/// The stream: named after the configured stream, holding the configured
/// subjects as a work queue, dropping messages after a minute.
pub fn stream_settings(nats: &NatsConfig) -> (s: StreamSettings)
    ensures
        s.name@ == nats.stream@,
        s.retention == RetentionPolicy::WorkQueue,
        s.subjects@.len() == 1,
        s.subjects@[0]@ == nats.subjects@,
        s.max_age_secs == 60,
{
    StreamSettings {
        name: nats.stream.clone(),
        retention: RetentionPolicy::WorkQueue,
        subjects: vec![nats.subjects.clone()],
        max_age_secs: 60,
    }
}

/// The consumer: durable under the configured name, filtered on the
/// configured subject.
pub fn consumer_settings(nats: &NatsConfig) -> (c: ConsumerSettings)
    ensures
        c.durable_name matches Some(n) && n@ == nats.consumer.durable_name@,
        c.filter_subject@ == nats.consumer.filter_subject@,
{
    ConsumerSettings {
        durable_name: Some(nats.consumer.durable_name.clone()),
        filter_subject: nats.consumer.filter_subject.clone(),
    }
}

} // verus!
