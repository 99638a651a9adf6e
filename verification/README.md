# aiko

Building blocks of a strongly typed, distributed media pipeline, verified with Verus.

`src/` is the verified library:

- `frame`, `media`, `codec`: frames and their metadata, video and audio buffers,
  and frame envelopes tagged with their payload type.
- `element`, `builder`: pipeline elements and the type-state pipeline builder,
  which only chains stages whose types match.
- `topics`, `mqtt`: the MQTT topic scheme (building and parsing topics), the
  connection configuration and the decisions of the broker event loop.
- `rtc`, `signaling`, `reconnect`: WebRTC configuration, the signaling pump's
  decisions and exponential-backoff reconnection.
- `h264`, `video`, `audio`: H.264 RTP depacketizing, the H.264 encode and decode
  stages (through `openh264`), I420 plane packing, and PCM conversion for Opus.
- `actor`, `executor`, `registry`: supervision, the actor mailbox rule, the run
  state of pipeline stage actors, and the id and name indexes of the actor registry.
- `ident`, `text`: identifiers and their textual form, and text helpers.

`app/` holds the asynchronous runtime around it: the element and actor traits,
the actor tasks and the registry's handles, the MQTT and WebRTC transports, the media elements,
and the serde forms of the library's types.

`tests/` exercises the library on concrete values.
