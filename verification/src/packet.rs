//! MQTT packets as bytes, encoded by the `mqtt` crate.
use vstd::prelude::*;
use vstd::utf8::*;
use mqtt::Encodable;
use mqtt::control::variable_header::protocol_level::SPEC_3_1_1;
use mqtt::packet::{ConnectPacket, PingrespPacket, PublishPacket, QoSWithPacketIdentifier, SubscribePacket};
use mqtt::{QualityOfService, TopicFilter, TopicName};

verus! {

/// Quality of service of a PUBLISH packet, with its packet identifier when
/// the level has one.
#[derive(Debug, Clone, Copy)]
pub enum PublishQos {
    Level0,
    Level1(u16),
    Level2(u16),
}

/// Quality of service requested for a subscription.
#[derive(Debug, Clone, Copy)]
pub enum SubscribeQos {
    Level0,
    Level1,
    Level2,
}

/// Number of bytes of the UTF-8 encoding of a text.
pub open spec fn utf8_len(s: Seq<char>) -> nat {
    encode_utf8(s).len()
}

/// A text that the `mqtt` crate can write as a length-prefixed string: at
/// most 65535 bytes (a longer one trips an assertion in the crate).
pub open spec fn fits_mqtt_string(s: Seq<char>) -> bool {
    utf8_len(s) <= 65535
}

/// Largest remaining length that an MQTT fixed header can carry.
pub open spec fn max_remaining_length() -> int {
    0x0FFF_FFFF
}

/// A topic name that `mqtt::TopicName::new` accepts: not empty, at most
/// 65535 bytes, and free of the wildcards `#` and `+`.
pub open spec fn valid_topic_name(topic: Seq<char>) -> bool {
    &&& topic.len() > 0
    &&& fits_mqtt_string(topic)
    &&& !topic.contains('#')
    &&& !topic.contains('+')
}

/// The bytes of the CONNECT packet that the `mqtt` crate writes for these
/// fields (protocol level 4, a user name and a password, no will).
pub uninterp spec fn connect_encoding(
    protocol_name: Seq<char>,
    client_id: Seq<char>,
    user_name: Seq<char>,
    password: Seq<char>,
    clean_session: bool,
) -> Seq<u8>;

/// Builds a `mqtt::packet::ConnectPacket` with `ConnectPacket::with_level`
/// (at the crate's default level `SPEC_3_1_1`, which that function always
/// accepts), sets the user name, password and clean-session flag with
/// `set_user_name`, `set_password` and `set_clean_session`, and writes it
/// with `Encodable::encode` into a `Vec`, which cannot fail. The bytes are
/// named `connect_encoding`; nothing more is stated of them. Strings longer
/// than 65535 bytes make the crate panic, so they are left out.
#[verifier::external_body]
pub(crate) fn encode_connect(
    protocol_name: &String,
    client_id: &String,
    user_name: &String,
    password: &String,
    clean_session: bool,
) -> (r: Vec<u8>)
    requires
        fits_mqtt_string(protocol_name@),
        fits_mqtt_string(client_id@),
        fits_mqtt_string(user_name@),
        fits_mqtt_string(password@),
    ensures
        r@ == connect_encoding(protocol_name@, client_id@, user_name@, password@, clean_session),
{
    let mut packet = ConnectPacket::with_level(protocol_name.as_str(), client_id.as_str(), SPEC_3_1_1)
        .expect("SPEC_3_1_1 is a supported level");
    packet.set_user_name(Some(user_name.clone()));
    packet.set_password(Some(password.clone()));
    packet.set_clean_session(clean_session);
    let mut buf: Vec<u8> = Vec::new();
    packet.encode(&mut buf).expect("writing into a Vec does not fail");
    buf
}

/// The bytes of the PUBLISH packet that the `mqtt` crate writes for this
/// topic, quality of service and payload.
pub uninterp spec fn publish_encoding(topic: Seq<char>, qos: PublishQos, payload: Seq<u8>) -> Seq<u8>;

/// Remaining length of a PUBLISH packet: the topic with its length prefix,
/// the packet identifier when the level has one, and the payload.
pub open spec fn publish_remaining_length(topic: Seq<char>, qos: PublishQos, payload_len: nat) -> int {
    2 + utf8_len(topic) + (if qos is Level0 { 0int } else { 2int }) + payload_len
}

/// Checks the topic with `mqtt::TopicName::new` and, when it is valid,
/// builds a `mqtt::packet::PublishPacket` with `PublishPacket::new` and
/// writes it with `Encodable::encode` into a `Vec`. `TopicName::new` rejects
/// exactly the topics that `valid_topic_name` excludes (its source says so);
/// the bytes are named `publish_encoding`. Packets too long for an MQTT
/// fixed header are left out.
#[verifier::external_body]
pub(crate) fn encode_publish(topic: &String, qos: PublishQos, payload: &Vec<u8>) -> (r: Option<Vec<u8>>)
    requires
        publish_remaining_length(topic@, qos, payload@.len()) <= max_remaining_length(),
    ensures
        r is Some <==> valid_topic_name(topic@),
        r matches Some(bytes) ==> bytes@ == publish_encoding(topic@, qos, payload@),
{
    let qos = match qos {
        PublishQos::Level0 => QoSWithPacketIdentifier::Level0,
        PublishQos::Level1(id) => QoSWithPacketIdentifier::Level1(id),
        PublishQos::Level2(id) => QoSWithPacketIdentifier::Level2(id),
    };
    let topic = TopicName::new(topic.clone()).ok()?;
    let packet = PublishPacket::new(topic, qos, payload.clone());
    let mut buf: Vec<u8> = Vec::new();
    packet.encode(&mut buf).expect("writing into a Vec does not fail");
    Some(buf)
}

/// The bytes of the SUBSCRIBE packet that the `mqtt` crate writes for one
/// topic filter.
pub uninterp spec fn subscribe_encoding(packet_id: u16, filter: Seq<char>, qos: SubscribeQos) -> Seq<u8>;

/// A topic filter without wildcards that `mqtt::TopicFilter::new` accepts:
/// not empty, at most 65535 bytes, no `#` and no `+`.
pub open spec fn plain_topic_filter(filter: Seq<char>) -> bool {
    valid_topic_name(filter)
}

/// Checks the filter with `mqtt::TopicFilter::new` and, when it is valid,
/// builds a `mqtt::packet::SubscribePacket` for it alone with
/// `SubscribePacket::new` and writes it with `Encodable::encode` into a
/// `Vec`. The source of `TopicFilter::new` accepts every filter without
/// wildcards (and rejects the empty one and any over 65535 bytes); which
/// filters with wildcards it accepts is not stated. The bytes are named
/// `subscribe_encoding`.
#[verifier::external_body]
pub(crate) fn encode_subscribe(packet_id: u16, filter: &str, qos: SubscribeQos) -> (r: Option<Vec<u8>>)
    ensures
        plain_topic_filter(filter@) ==> r is Some,
        r is Some ==> filter@.len() > 0 && fits_mqtt_string(filter@),
        r matches Some(bytes) ==> bytes@ == subscribe_encoding(packet_id, filter@, qos),
{
    let qos = match qos {
        SubscribeQos::Level0 => QualityOfService::Level0,
        SubscribeQos::Level1 => QualityOfService::Level1,
        SubscribeQos::Level2 => QualityOfService::Level2,
    };
    let filter = TopicFilter::new(filter).ok()?;
    let packet = SubscribePacket::new(packet_id, vec![(filter, qos)]);
    let mut buf: Vec<u8> = Vec::new();
    packet.encode(&mut buf).expect("writing into a Vec does not fail");
    Some(buf)
}

/// Writes `mqtt::packet::PingrespPacket::new()` with `Encodable::encode`:
/// the two bytes `0xD0 0x00` (packet type 13, no flags, remaining length 0).
#[verifier::external_body]
pub(crate) fn encode_pingresp() -> (r: Vec<u8>)
    ensures
        r@ == seq![0xD0u8, 0x00u8],
{
    let mut buf: Vec<u8> = Vec::new();
    PingrespPacket::new().encode(&mut buf).expect("writing into a Vec does not fail");
    buf
}

} // verus!
