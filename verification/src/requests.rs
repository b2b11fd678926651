//! The requests that go out to the broker for events, their subscriptions
//! and the replies that handlers send back.

use vstd::prelude::*;
use crate::text::opt_text;

verus! {

/// Delivery guarantee of an MQTT message.
#[derive(Clone, Copy, Debug, PartialEq, Eq, Structural)]
pub enum Qos {
    AtMostOnce,
    AtLeastOnce,
    ExactlyOnce,
}

/// A message to publish.
pub struct PublishRequest {
    pub topic: String,
    pub qos: Qos,
    pub retain: bool,
    pub payload: String,
    /// The topic on which a reply is expected, sent as a publish property.
    pub response_topic: Option<String>,
}

/// A subscription to ask for.
pub struct SubscribeRequest {
    pub topic: String,
    pub qos: Qos,
}

/// `req` publishes `payload` on `topic` with `qos`, not retained, and asks
/// for a reply on `reply` when there is one.
pub open spec fn publishes(
    req: PublishRequest,
    topic: Seq<char>,
    qos: Qos,
    payload: Seq<char>,
    reply: Option<Seq<char>>,
) -> bool {
    &&& req.topic@ == topic
    &&& req.qos == qos
    &&& !req.retain
    &&& req.payload@ == payload
    &&& opt_text(req.response_topic) == reply
}

/// What a request that publishes something is: it goes out on the given
/// topic with the given delivery guarantee, carries exactly the given
/// payload and reply topic, and is never retained by the broker, whatever
/// the payload, the guarantee or the reply topic.
pub proof fn lemma_publishes_fields(
    req: PublishRequest,
    topic: Seq<char>,
    qos: Qos,
    payload: Seq<char>,
    reply: Option<Seq<char>>,
)
    requires
        publishes(req, topic, qos, payload, reply),
    ensures
        req.topic@ == topic,
        req.qos == qos,
        req.retain == false,
        req.payload@ == payload,
        reply is None ==> req.response_topic is None,
        reply matches Some(r) ==> (req.response_topic matches Some(t) && t@ == r),
{
}

/// Publishing an event whose reply is awaited on `reply_topic`.
pub fn request_publish(topic: &str, qos: Qos, payload: String, reply_topic: &str) -> (res:
    PublishRequest)
    ensures
        publishes(res, topic@, qos, payload@, Some(reply_topic@)),
        res.topic@ == topic@,
        res.qos == qos,
        !res.retain,
        res.payload@ == payload@,
        opt_text(res.response_topic) == Some(reply_topic@),
{
    PublishRequest {
        topic: String::from_str(topic),
        qos,
        retain: false,
        payload,
        response_topic: Some(String::from_str(reply_topic)),
    }
}

/// The subscription on which a reply is awaited: at least once, so that a
/// reply is not lost.
pub fn reply_subscription(reply_topic: &str) -> (res: SubscribeRequest)
    ensures
        res.topic@ == reply_topic@,
        res.qos == Qos::AtLeastOnce,
{
    SubscribeRequest { topic: String::from_str(reply_topic), qos: Qos::AtLeastOnce }
}

/// The subscription of a handler to the events of `topic`.
pub fn event_subscription(topic: &str, qos: Qos) -> (res: SubscribeRequest)
    ensures
        res.topic@ == topic@,
        res.qos == qos,
{
    SubscribeRequest { topic: String::from_str(topic), qos }
}

/// What a handler sends back after it processed an event: the serialised
/// result, or the text of the error, published at least once on the reply
/// topic that came with the event. Without a reply topic nothing is sent.
pub fn invocation_reply(reply_topic: Option<&str>, outcome: Result<String, String>) -> (res: Option<
    PublishRequest,
>)
    ensures
        reply_topic is None ==> res is None,
        reply_topic matches Some(t) ==> (res matches Some(req) && publishes(
            req,
            t@,
            Qos::AtLeastOnce,
            match outcome {
                Ok(s) => s@,
                Err(e) => e@,
            },
            None,
        )),
{
    let payload = match outcome {
        Ok(s) => s,
        Err(e) => e,
    };
    match reply_topic {
        Some(t) => Some(
            PublishRequest {
                topic: String::from_str(t),
                qos: Qos::AtLeastOnce,
                retain: false,
                payload,
                response_topic: None,
            },
        ),
        None => None,
    }
}

} // verus!
