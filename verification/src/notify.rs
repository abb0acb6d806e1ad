//! The notifier: what is published, and where.

use vstd::prelude::*;

verus! {

/// One message to publish to one topic.
#[derive(Debug)]
pub struct Notification {
    pub topic_arn: String,
    pub message: String,
}

/// What to publish for `message`: one notification to the configured topic,
/// or nothing where no topic is configured.
pub fn plan_notification(topic_arn: Option<String>, message: String) -> (plan: Option<
    Notification,
>)
    ensures
        plan == match topic_arn {
            Some(topic) => Some(Notification { topic_arn: topic, message }),
            None => None::<Notification>,
        },
{
    match topic_arn {
        Some(topic) => Some(Notification { topic_arn: topic, message }),
        None => None,
    }
}

} // verus!
