# yunba_rust_sdk

Client logic of the Yunba messaging SDK, verified with Verus.

- `src/register_ticket.rs` frames register and ticket requests (version,
  length, JSON body).
- `src/json.rs` cuts the JSON object out of a server reply and reads its
  string fields (parsing by `rustc-serialize`).
- `src/mqtt_client.rs` holds the broker configuration, the packets of each
  MQTT exchange (encoded by `mqtt-protocol` through `src/packet.rs`), the
  commands of Yunba's PUBLISH-alias extension and the decisions taken on
  what the broker sends.
- `src/pattern.rs` and `src/text.rs` wrap `regex` and UTF-8 decoding;
  `src/tcp.rs` turns a receive buffer into text.
- `app/` performs the network I/O around the library.
