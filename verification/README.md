# monadic_mqtt

Request/response events over MQTT 5: an event is serialised to JSON and
published; the publisher awaits the answer on a reply topic of its own, which
it announces in the publish properties; the receiver handles the event and
publishes the answer back on that topic.

## Layout

- `src/` — the verified library (Verus):
  - `text.rs`: decimal rendering, UTF-8 decoding, text comparison;
  - `registry.rs`: handlers registered by topic, viewed as a map;
  - `response.rs`: reply topic naming, request numbering, the response slot;
  - `requests.rs`: the publish and subscribe requests sent for events;
  - `listener.rs`: routing of incoming publishes to awaited and event handlers;
  - `stream.rs`: streams of items on one topic;
  - `error.rs`: error types and their serialisable reports.
- `app/` — the async layer on rumqttc and tokio: connections, the event loop,
  the `PublishEvent`/`SubscribeEvent` traits, futures for replies, streams.
- `tests/` — tests of the library.
