//! Streams of items published on one topic, ended by an empty message.

use vstd::prelude::*;
use crate::error::PublishError;
use crate::requests::{PublishRequest, Qos, publishes};

verus! {

/// The number of items a receiver buffers unless told otherwise.
pub const DEFAULT_BUFFER_SIZE: usize = 8;

/// A receiver buffers eight items unless told otherwise.
pub proof fn lemma_default_buffer_size()
    ensures
        DEFAULT_BUFFER_SIZE == 8,
{
}

/// A stream of items of type `T` on `topic`; a receiver buffers up to
/// `buffer_size` of them.
pub struct Stream<T> {
    pub topic: String,
    pub buffer_size: usize,
    /// Marks the item type; carries no data.
    pub p: std::marker::PhantomData<T>,
}

impl<T> View for Stream<T> {
    /// The topic and the buffer size.
    type V = (Seq<char>, usize);

    open spec fn view(&self) -> (Seq<char>, usize) {
        (self.topic@, self.buffer_size)
    }
}

impl<T> Stream<T> {
    /// A stream on `topic` with the default buffer size.
    pub fn new(topic: &str) -> (res: Stream<T>)
        ensures
            res@ == (topic@, DEFAULT_BUFFER_SIZE),
    {
        Self::new_with_size(topic, DEFAULT_BUFFER_SIZE)
    }

    /// A stream on `topic` whose receiver buffers `buffer_size` items.
    pub fn new_with_size(topic: &str, buffer_size: usize) -> (res: Stream<T>)
        ensures
            res@ == (topic@, buffer_size),
    {
        Stream { topic: String::from_str(topic), buffer_size, p: std::marker::PhantomData }
    }
}

/// Publishing one serialised item of a stream: exactly once.
pub fn stream_item_publish(topic: &str, payload: String) -> (res: PublishRequest)
    ensures
        publishes(res, topic@, Qos::ExactlyOnce, payload@, None),
        res.topic@ == topic@,
        res.qos == Qos::ExactlyOnce,
        !res.retain,
        res.payload@ == payload@,
        res.response_topic is None,
{
    PublishRequest {
        topic: String::from_str(topic),
        qos: Qos::ExactlyOnce,
        retain: false,
        payload,
        response_topic: None,
    }
}

/// The message that ends a stream: an empty payload, exactly once.
pub fn stream_end_publish(topic: &str) -> (res: PublishRequest)
    ensures
        publishes(res, topic@, Qos::ExactlyOnce, Seq::<char>::empty(), None),
        res.topic@ == topic@,
        res.qos == Qos::ExactlyOnce,
        !res.retain,
        res.payload@.len() == 0,
        res.response_topic is None,
{
    stream_item_publish(topic, String::new())
}

/// Whether a receiver stops at this result: it does at an empty payload,
/// and forwards every other result.
pub fn ends_stream<T>(result: &Result<T, PublishError>) -> (res: bool)
    ensures
        res <==> (result matches Err(PublishError::EmptyPayload)),
{
    match result {
        Err(PublishError::EmptyPayload) => true,
        _ => false,
    }
}

} // verus!
