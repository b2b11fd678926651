//! Replies to published events: where they are awaited and how they are
//! handed to the one waiting for them.
//!
//! Every request gets a reply topic of its own, made from the event's topic
//! and a number that no earlier request got. A response slot holds the
//! reply once it has arrived, and who to wake when it does.

use vstd::prelude::*;
use crate::text::{opt_text, decimal, push_decimal, lemma_decimal_injective, is_decimal, digits_value, lemma_decimal_digits};

verus! {

/// The topic on which the reply to request number `id` on `topic` arrives.
pub open spec fn reply_topic(topic: Seq<char>, id: nat) -> Seq<char> {
    topic + "/__res_"@ + decimal(id)
}

/// The reply topic of request number `id` on `topic`.
pub fn response_topic(topic: &str, id: usize) -> (res: String)
    ensures
        res@ == reply_topic(topic@, id as nat),
{
    let mut res = String::from_str(topic);
    res.append("/__res_");
    push_decimal(&mut res, id);
    proof {
        assert(res@ =~= reply_topic(topic@, id as nat));
    }
    res
}

/// Two requests with different numbers on the same topic never share a
/// reply topic.
pub proof fn lemma_reply_topics_distinct(topic: Seq<char>, a: nat, b: nat)
    requires
        a != b,
    ensures
        reply_topic(topic, a) != reply_topic(topic, b),
{
    let prefix = topic + "/__res_"@;
    if reply_topic(topic, a) == reply_topic(topic, b) {
        let n: int = prefix.len() as int;
        assert(reply_topic(topic, a).subrange(n, reply_topic(topic, a).len() as int) =~= decimal(a));
        assert(reply_topic(topic, b).subrange(n, reply_topic(topic, b).len() as int) =~= decimal(b));
        lemma_decimal_injective(a, b);
    }
}

/// Hands out request numbers, each one larger than the one before.
pub struct ResponseIds {
    next: usize,
}

impl View for ResponseIds {
    type V = nat;

    /// The number that the next request gets.
    closed spec fn view(&self) -> nat {
        self.next as nat
    }
}

impl ResponseIds {
    /// Numbering that starts at zero.
    pub fn new() -> (res: Self)
        ensures
            res@ == 0,
    {
        ResponseIds { next: 0 }
    }

    /// Whether another number can be handed out.
    pub fn can_issue(&self) -> (res: bool)
        ensures
            res == (self@ < usize::MAX),
    {
        self.next < usize::MAX
    }

    /// Hands out the next number.
    pub fn issue(&mut self) -> (res: usize)
        requires
            old(self)@ < usize::MAX,
        ensures
            res == old(self)@,
            final(self)@ == old(self)@ + 1,
    {
        let id: usize = self.next;
        self.next = self.next + 1;
        id
    }
}

/// A response slot after a reply `payload` with `properties` arrived.
pub open spec fn fulfilled<W, P>(
    slot: (Option<Seq<char>>, Option<W>, Option<P>),
    payload: Seq<char>,
    properties: Option<P>,
) -> (Option<Seq<char>>, Option<W>, Option<P>) {
    (Some(payload), slot.1, properties)
}

/// A response slot after it was polled by `waker`.
pub open spec fn polled<W, P>(slot: (Option<Seq<char>>, Option<W>, Option<P>), waker: W) -> (
    Option<Seq<char>>,
    Option<W>,
    Option<P>,
) {
    (slot.0, Some(waker), slot.2)
}

/// Where a reply is awaited: the reply once it arrived, the waker of the
/// last poll, and the properties that came with the reply.
pub struct ResponseSlot<W, P> {
    payload: Option<String>,
    waker: Option<W>,
    properties: Option<P>,
}

impl<W, P> View for ResponseSlot<W, P> {
    type V = (Option<Seq<char>>, Option<W>, Option<P>);

    closed spec fn view(&self) -> (Option<Seq<char>>, Option<W>, Option<P>) {
        (opt_text(self.payload), self.waker, self.properties)
    }
}

impl<W, P> ResponseSlot<W, P> {
    /// A slot where nothing has arrived and nobody waits yet.
    pub fn new() -> (res: Self)
        ensures
            res@ == (None::<Seq<char>>, None::<W>, None::<P>),
    {
        ResponseSlot { payload: None, waker: None, properties: None }
    }

    /// Polls the slot on behalf of `waker`: remembers the waker and returns
    /// the reply if it has arrived. When a reply is returned the caller
    /// wakes `waker` once more.
    pub fn poll(&mut self, waker: W) -> (ready: Option<String>)
        ensures
            final(self)@ == polled(old(self)@, waker),
            opt_text(ready) == old(self)@.0,
    {
        self.waker = Some(waker);
        match &self.payload {
            Some(p) => Some(p.clone()),
            None => None,
        }
    }

    /// Stores the reply `payload` with its `properties`. Returns whether a
    /// waker is waiting, which the caller then wakes.
    pub fn fulfill(&mut self, payload: String, properties: Option<P>) -> (wake: bool)
        ensures
            final(self)@ == fulfilled(old(self)@, payload@, properties),
            wake == old(self)@.1 is Some,
    {
        self.payload = Some(payload);
        self.properties = properties;
        self.waker.is_some()
    }

    /// The waker of the last poll.
    pub fn waker(&self) -> (res: Option<&W>)
        ensures
            res is Some <==> self@.1 is Some,
            res matches Some(w) ==> *w == self@.1->0,
    {
        match &self.waker {
            Some(w) => Some(w),
            None => None,
        }
    }

    /// The properties that came with the reply.
    pub fn publish_properties(&self) -> (res: Option<&P>)
        ensures
            res is Some <==> self@.2 is Some,
            res matches Some(p) ==> *p == self@.2->0,
    {
        match &self.properties {
            Some(p) => Some(p),
            None => None,
        }
    }
}

/// Polling only registers the waker: it never changes which reply the slot
/// holds nor its properties, however often it happens. So a slot that was
/// never fulfilled hands out nothing, and a fulfilled one hands out the
/// same reply on every poll.
pub proof fn lemma_poll_keeps_reply<W, P>(
    slot: (Option<Seq<char>>, Option<W>, Option<P>),
    first: W,
    second: W,
)
    ensures
        polled(slot, first).0 == slot.0,
        polled(slot, first).2 == slot.2,
        polled(slot, first).1 == Some(first),
        polled(polled(slot, first), second).0 == slot.0,
        slot.0 is None ==> polled(polled(slot, first), second).0 is None,
{
}

/// Fulfilling stores exactly the given reply and properties and keeps the
/// waker that is waiting, so that it can be woken.
pub proof fn lemma_fulfill_stores_reply<W, P>(
    slot: (Option<Seq<char>>, Option<W>, Option<P>),
    payload: Seq<char>,
    properties: Option<P>,
)
    ensures
        fulfilled(slot, payload, properties).0 == Some(payload),
        fulfilled(slot, payload, properties).1 == slot.1,
        fulfilled(slot, payload, properties).2 == properties,
{
}

/// A reply topic is the event's topic, then `/__res_`, then the number of
/// the request written in decimal digits: the suffix consists of digits
/// only, has no leading zero, and reads back as the number.
pub proof fn lemma_reply_topic_shape(topic: Seq<char>, id: nat)
    ensures
        reply_topic(topic, id).subrange(0, topic.len() as int) == topic,
        reply_topic(topic, id).subrange(topic.len() as int, (topic.len() + 7) as int) == "/__res_"@,
        is_decimal(
            reply_topic(topic, id).subrange((topic.len() + 7) as int, reply_topic(topic, id).len() as int),
        ),
        digits_value(
            reply_topic(topic, id).subrange((topic.len() + 7) as int, reply_topic(topic, id).len() as int),
        ) == id,
{
    let r = reply_topic(topic, id);
    reveal_strlit("/__res_");
    assert(r.subrange(0, topic.len() as int) =~= topic);
    assert(r.subrange(topic.len() as int, (topic.len() + 7) as int) =~= "/__res_"@);
    assert(r.subrange((topic.len() + 7) as int, r.len() as int) =~= decimal(id));
    lemma_decimal_digits(id);
}

/// A poll returns the reply that was stored last, whatever came before it;
/// a slot that was polled wakes its waker when a reply arrives; and a fresh
/// slot has nothing to hand out.
pub proof fn lemma_slot_read_after_write<W, P>(
    slot: (Option<Seq<char>>, Option<W>, Option<P>),
    earlier: Seq<char>,
    payload: Seq<char>,
    earlier_properties: Option<P>,
    properties: Option<P>,
    waker: W,
)
    ensures
        polled(fulfilled(slot, payload, properties), waker).0 == Some(payload),
        polled(fulfilled(fulfilled(slot, earlier, earlier_properties), payload, properties), waker).0
            == Some(payload),
        fulfilled(polled(slot, waker), payload, properties).1 is Some,
        polled((None::<Seq<char>>, None::<W>, None::<P>), waker).0 is None,
{
}

} // verus!
