//! Routing of incoming publishes to the handlers registered for them.

use vstd::prelude::*;
use vstd::utf8::*;
use crate::error::EventParseError;
use crate::registry::{TopicRegistry, lookup};
use crate::text::utf8_text;
use crate::response::reply_topic;
use crate::requests::{PublishRequest, Qos, publishes};
use crate::text::opt_text;

verus! {

/// A reply reaches the one who asked: a request announces its reply topic,
/// the handler publishes its answer on the reply topic it received, and
/// routing that publish hands the answer, as sent, to the handler that was
/// registered to await that topic. It does so once: after the delivery
/// nothing awaits that topic any more.
pub proof fn lemma_reply_reaches_waiter<A>(
    awaited: Map<Seq<char>, A>,
    topic: Seq<char>,
    id: nat,
    waiter: A,
    request: PublishRequest,
    qos: Qos,
    payload: Seq<char>,
    reply: PublishRequest,
    answer: Seq<char>,
)
    requires
        publishes(request, topic, qos, payload, Some(reply_topic(topic, id))),
        publishes(reply, opt_text(request.response_topic)->0, Qos::AtLeastOnce, answer, None),
    ensures
        valid_utf8(encode_utf8(reply.topic@)),
        valid_utf8(encode_utf8(reply.payload@)),
        decode_utf8(encode_utf8(reply.payload@)) == answer,
        lookup(awaited.insert(reply_topic(topic, id), waiter), decode_utf8(encode_utf8(reply.topic@)))
            == Some(waiter),
        lookup(
            awaited.insert(reply_topic(topic, id), waiter).remove(
                decode_utf8(encode_utf8(reply.topic@)),
            ),
            reply_topic(topic, id),
        ) is None,
{
    broadcast use encode_utf8_valid_utf8, encode_utf8_decode_utf8;

}

/// Where an incoming publish goes.
pub enum Routed<'e, A, E> {
    /// The topic is not UTF-8 text; nothing is delivered.
    UnparsableTopic(EventParseError),
    /// The payload is not UTF-8 text; nothing is delivered.
    UnparsablePayload(EventParseError),
    /// The publish is delivered to the handlers below.
    Delivered(Delivery<'e, A, E>),
}

/// A publish as text, with the awaited reply handler it answers, which is
/// no longer awaited, and the event handler of its topic.
pub struct Delivery<'e, A, E> {
    pub topic: String,
    pub payload: String,
    pub awaited: Option<A>,
    pub event: Option<&'e E>,
}

/// Routes a publish with raw `topic` and `payload`: both must be UTF-8
/// text. Then the handler awaiting a reply on that topic, if any, is taken
/// out of `awaited` and handed back, and the event handler registered for
/// the topic, if any, is handed back too.
pub fn route_publish<'e, A, E>(
    awaited: &mut TopicRegistry<A>,
    events: &'e TopicRegistry<E>,
    topic: &[u8],
    payload: &[u8],
) -> (res: Routed<'e, A, E>)
    ensures
        !valid_utf8(topic@) ==> res matches Routed::UnparsableTopic(EventParseError::Parsing(_)),
        valid_utf8(topic@) && !valid_utf8(payload@) ==> res matches Routed::UnparsablePayload(
            EventParseError::Parsing(_),
        ),
        !(valid_utf8(topic@) && valid_utf8(payload@)) ==> final(awaited)@ == old(awaited)@,
        valid_utf8(topic@) && valid_utf8(payload@) ==> (res matches Routed::Delivered(d) && {
            &&& d.topic@ == decode_utf8(topic@)
            &&& d.payload@ == decode_utf8(payload@)
            &&& d.awaited == lookup(old(awaited)@, d.topic@)
            &&& final(awaited)@ == old(awaited)@.remove(d.topic@)
            &&& (d.event is Some <==> events@.contains_key(d.topic@))
            &&& (d.event matches Some(e) ==> *e == events@[d.topic@])
        }),
{
    let topic = match utf8_text(topic) {
        Ok(t) => t,
        Err(e) => {
            return Routed::UnparsableTopic(EventParseError::Parsing(e));
        },
    };
    let payload = match utf8_text(payload) {
        Ok(p) => p,
        Err(e) => {
            return Routed::UnparsablePayload(EventParseError::Parsing(e));
        },
    };
    let answered = awaited.remove(topic.as_str());
    let event = events.get(topic.as_str());
    Routed::Delivered(Delivery { topic, payload, awaited: answered, event })
}

} // verus!
