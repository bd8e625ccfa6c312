//! Client-side logic of the Yunba messaging SDK: the binary framing of
//! register and ticket requests, the extraction of a JSON object from a raw
//! server reply and the lookup of its string fields, and the MQTT packets
//! and decisions of a publishing session.
pub mod text;
pub mod pattern;
pub mod json;
pub mod packet;
pub mod mqtt_client;
pub mod tcp;
pub mod register_ticket;
