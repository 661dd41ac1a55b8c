# rmp-serde

MessagePack serialization with machine-checked contracts.

- `src/write.rs`: byte sinks (`MsgWrite`, implemented by `Vec<u8>` and the
  fixed-size `FixedBuf`) and the account of what a sequence of writes leaves
  behind when a sink runs out of room.
- `src/marker.rs`, `src/pack.rs`: the format markers and the encoders of
  single values (nil, booleans, integers in their smallest format, float bit
  patterns, string/binary/array/map headers).
- `src/utf8.rs`: the UTF-8 bytes of a character.
- `src/config.rs`, `src/encode.rs`: the serializer, its layout configurations
  (structs as arrays or maps, variants by index or by name) and its errors.
- `src/decode.rs`: how the written bytes read back, and the round-trip laws.
- `src/laws.rs`: laws of writes and layouts.
- `src/ext.rs`: the value model and how a value is described when it is not
  what a deserializer expected.
- `app/lib.rs`: the `serde::Serializer` front end, the std/serde error
  traits, and the functions that write into an `std::io::Write` stream.
