//! An MQTT client of the Yunba broker: its configuration, the packets of
//! each exchange, the alias commands of Yunba's PUBLISH-alias extension and
//! the decisions taken on what the broker sends back.
use vstd::prelude::*;
use vstd::utf8::*;
use vstd::string::StringSliceAdditionalSpecFns;
use crate::register_ticket;
use crate::register_ticket::{
    parse_num_accepts, spec_parse_num, to_le_outcome, frame_text, target_is_little_endian,
};
use crate::pattern::{regex_find, regex_first_match, matched_text, slice_between};
use crate::packet::{
    PublishQos, utf8_len, fits_mqtt_string, max_remaining_length, valid_topic_name,
    connect_encoding, publish_encoding, publish_remaining_length, encode_connect, encode_publish,
    encode_pingresp, encode_subscribe, subscribe_encoding, plain_topic_filter, SubscribeQos,
};

use crate::text::string_from_utf8;

verus! {

/// Writes `num` as the text of its frame, as `register_ticket::parse_num`
/// does.
pub fn parse_num(num: usize) -> (s: String)
    requires
        parse_num_accepts(num),
    ensures
        exists|num_little: u16|
            to_le_outcome(num as u16, num_little) && s@ == frame_text(num, num_little),
        s@ == spec_parse_num(num, true) || s@ == spec_parse_num(num, false),
        s@ == spec_parse_num(num, target_is_little_endian()),
{
    register_ticket::parse_num(num)
}

/// The pattern that picks `a.b.c.d:port` out of the broker address (each
/// `.` stands for any character, as written).
pub open spec fn ip_port_pattern() -> Seq<char> {
    "[0-9]{1,3}.[0-9]{1,3}.[0-9]{1,3}.[0-9]{1,3}:[0-9]{4}"@
}

/// Packet identifier of every packet that needs one.
pub open spec fn packet_id() -> u16 {
    10
}

/// The topic filter of `subscribe`.
pub open spec fn subscribe_filter() -> Seq<char> {
    "Hello yunba"@
}

/// The alias numbers that `publish_alias` knows a command for.
pub open spec fn known_alias(alias: usize) -> bool {
    ||| 1 <= alias <= 10
    ||| 13 <= alias <= 16
    ||| alias == 19
    ||| alias == 20
}

/// The command text of an alias: the frame of the number for a known alias
/// (as `parse_num` writes it on a little- or a big-endian target), nothing
/// for any other.
pub open spec fn spec_alias_command(alias: usize, little_endian: bool) -> Seq<char> {
    if known_alias(alias) {
        spec_parse_num(alias, little_endian)
    } else {
        Seq::empty()
    }
}

/// The payload of a PUBLISH-alias packet: the UTF-8 bytes of the command
/// text followed by the content, then a zero byte.
pub open spec fn alias_payload(alias: usize, content: Seq<char>, little_endian: bool) -> Seq<u8> {
    encode_utf8(spec_alias_command(alias, little_endian) + content).push(0u8)
}

/// The command text of `alias` (see `spec_alias_command`).
pub fn alias_command(alias: usize) -> (cmd: String)
    ensures
        cmd@ == spec_alias_command(alias, true) || cmd@ == spec_alias_command(alias, false),
        cmd@ == spec_alias_command(alias, target_is_little_endian()),
{
    match alias {
        1 => parse_num(alias),
        2 => parse_num(alias),
        3 => parse_num(alias),
        13 => parse_num(alias),
        4 => parse_num(alias),
        14 => parse_num(alias),
        5 => parse_num(alias),
        15 => parse_num(alias),
        6 => parse_num(alias),
        16 => parse_num(alias),
        7 => parse_num(alias),
        8 => parse_num(alias),
        9 => parse_num(alias),
        19 => parse_num(alias),
        10 => parse_num(alias),
        20 => parse_num(alias),
        _ => String::new(),
    }
}

/// The packets of one exchange: the CONNECT packet, then the packet sent
/// once the broker has accepted the connection.
pub struct MqttExchange {
    pub connect: Vec<u8>,
    pub message: Vec<u8>,
}

/// A PUBLISH-alias exchange: the CONNECT packet and what the alias packet
/// carries (its topic, quality of service and payload).
pub struct AliasPublication {
    pub connect: Vec<u8>,
    pub topic: String,
    pub qos: PublishQos,
    pub payload: Vec<u8>,
}

/// What the broker sent while the client waits for responses.
pub enum BrokerEvent {
    /// No packet could be read or decoded.
    ReadFailed,
    /// A PINGREQ packet.
    PingRequest,
    /// A PUBLISH packet with its topic and payload.
    Publish { topic: String, payload: Vec<u8> },
    /// Any other packet.
    Other,
}

/// What the client does next.
pub enum SessionStep {
    /// Stop waiting for responses.
    Stop,
    /// Send these bytes and keep waiting.
    Reply(Vec<u8>),
    /// Show a published message and keep waiting.
    Show { topic: String, message: String },
    /// Keep waiting.
    Continue,
}

/// The decision taken on one event (see `SessionStep`): a read failure ends
/// the session, a PINGREQ is answered with a PINGRESP, a PUBLISH is shown
/// when its payload is UTF-8 text and ends the session otherwise, and any
/// other packet is passed over.
pub open spec fn step_for(event: BrokerEvent, step: SessionStep) -> bool {
    match event {
        BrokerEvent::ReadFailed => step is Stop,
        BrokerEvent::PingRequest => step matches SessionStep::Reply(bytes) && bytes@ == seq![0xD0u8, 0x00u8],
        BrokerEvent::Publish { topic, payload } => if valid_utf8(payload@) {
            step matches SessionStep::Show { topic: t, message: m } && t@ == topic@
                && m@ == decode_utf8(payload@)
        } else {
            step is Stop
        },
        BrokerEvent::Other => step is Continue,
    }
}

/// Decides what to do on one event from the broker.
pub fn next_step(event: BrokerEvent) -> (step: SessionStep)
    ensures
        step_for(event, step),
{
    match event {
        BrokerEvent::ReadFailed => SessionStep::Stop,
        BrokerEvent::PingRequest => SessionStep::Reply(encode_pingresp()),
        BrokerEvent::Publish { topic, payload } => match string_from_utf8(payload) {
            Some(message) => SessionStep::Show { topic, message },
            None => SessionStep::Stop,
        },
        BrokerEvent::Other => SessionStep::Continue,
    }
}

/// Whether a CONNACK return code accepts the connection (code 0); on any
/// other code the session fails.
pub fn connection_accepted(return_code: u8) -> (accepted: bool)
    ensures
        accepted <==> return_code == 0,
{
    return_code == 0
}

proof fn lemma_encode_utf8_concat(a: Seq<char>, b: Seq<char>)
    ensures
        encode_utf8(a + b) == encode_utf8(a) + encode_utf8(b),
    decreases a.len(),
{
    if a.len() > 0 {
        assert((a + b).drop_first() =~= a.drop_first() + b);
        lemma_encode_utf8_concat(a.drop_first(), b);
        assert(encode_utf8(a + b) =~= encode_utf8(a) + encode_utf8(b));
    } else {
        assert(a + b =~= b);
        assert(encode_utf8(a) =~= Seq::<u8>::empty());
        assert(encode_utf8(a) + encode_utf8(b) =~= encode_utf8(b));
    }
}

/// An alias payload is the bytes of the alias command, then the bytes of
/// the content, then one zero byte; the command is one or two bytes for a
/// known alias and nothing for any other.
pub proof fn lemma_alias_payload_layout(alias: usize, content: Seq<char>, little_endian: bool)
    ensures
        alias_payload(alias, content, little_endian) == encode_utf8(
            spec_alias_command(alias, little_endian),
        ) + encode_utf8(content) + seq![0u8],
        alias_payload(alias, content, little_endian).last() == 0u8,
        known_alias(alias) ==> 1 <= encode_utf8(spec_alias_command(alias, little_endian)).len() <= 2,
        !known_alias(alias) ==> encode_utf8(spec_alias_command(alias, little_endian)).len() == 0,
{
    lemma_encode_utf8_concat(spec_alias_command(alias, little_endian), content);
    assert(alias_payload(alias, content, little_endian) =~= encode_utf8(
        spec_alias_command(alias, little_endian),
    ) + encode_utf8(content) + seq![0u8]);
    let cmd = spec_alias_command(alias, little_endian);
    if known_alias(alias) {
        broadcast use vstd::utf8::is_ascii_chars_encode_utf8;
        assert(vstd::utf8::is_ascii_chars(cmd));
    } else {
        assert(encode_utf8(cmd) =~= Seq::<u8>::empty());
    }
}

/// The command at the front of an alias payload is the alias number in the
/// target's byte order: on a little-endian target the payload of alias
/// 1..=9 starts with that number and the payload of alias 10..=20 starts
/// with a zero byte followed by it; on a big-endian target the payload of
/// alias 1..=9 starts with a zero byte and that of alias 10..=20 with the
/// number followed by a zero byte. The content's bytes follow the command,
/// and the payload ends with a zero byte.
pub proof fn law_alias_payload_command(alias: usize, content: Seq<char>)
    requires
        known_alias(alias),
    ensures
        ({
            let p = alias_payload(alias, content, target_is_little_endian());
            let a = alias as u8;
            let n: int = if alias <= 9 { 1 } else { 2 };
            &&& p.len() == n + encode_utf8(content).len() + 1
            &&& p.subrange(n, p.len() - 1) == encode_utf8(content)
            &&& p.last() == 0u8
            &&& target_is_little_endian() ==> (alias <= 9 ==> p[0] == a)
            &&& target_is_little_endian() ==> (alias >= 10 ==> p[0] == 0u8 && p[1] == a)
            &&& !target_is_little_endian() ==> (alias <= 9 ==> p[0] == 0u8)
            &&& !target_is_little_endian() ==> (alias >= 10 ==> p[0] == a && p[1] == 0u8)
        }),
{
    let le = target_is_little_endian();
    lemma_alias_payload_layout(alias, content, le);
    let cmd = spec_alias_command(alias, le);
    broadcast use vstd::utf8::is_ascii_chars_encode_utf8;
    assert(vstd::utf8::is_ascii_chars(cmd));
    let p = alias_payload(alias, content, le);
    let eb = encode_utf8(cmd);
    assert(p == eb + encode_utf8(content) + seq![0u8]);
    assert(p.subrange(eb.len() as int, p.len() - 1) =~= encode_utf8(content));
    assert(p[0] == eb[0]);
    if eb.len() == 2 {
        assert(p[1] == eb[1]);
    }
    assert(eb[0] == cmd[0] as u8);
    if eb.len() == 2 {
        assert(eb[1] == cmd[1] as u8);
    }
}

/// Exactly the known aliases have a command.
pub proof fn lemma_alias_command_iff_known(alias: usize, little_endian: bool)
    ensures
        spec_alias_command(alias, little_endian).len() > 0 <==> known_alias(alias),
{
}

/// Text published as its UTF-8 bytes comes back as the same text: when the
/// broker delivers a PUBLISH whose payload encodes `content`, the session
/// shows exactly `content` on that topic.
pub proof fn lemma_published_text_is_shown(event: BrokerEvent, step: SessionStep, content: Seq<char>)
    requires
        event matches BrokerEvent::Publish { payload, .. } && payload@ == encode_utf8(content),
        step_for(event, step),
    ensures
        step matches SessionStep::Show { topic, message } && message@ == content
            && event->Publish_topic@ == topic@,
{
    broadcast use encode_utf8_valid_utf8, encode_utf8_decode_utf8;
}

/// How to reach and log in to the broker.
pub struct MqttConfig {
    pub client_id: String,
    pub user_name: String,
    pub pass_word: String,
    pub ip_port: String,
    pub protocol_name: String,
}

impl MqttConfig {
    /// The fields fit in MQTT strings, so that a CONNECT packet can be
    /// written for them.
    pub open spec fn fits_connect(&self) -> bool {
        &&& fits_mqtt_string(self.protocol_name@)
        &&& fits_mqtt_string(self.client_id@)
        &&& fits_mqtt_string(self.user_name@)
        &&& fits_mqtt_string(self.pass_word@)
    }

    /// The CONNECT packet of every exchange: this configuration's protocol
    /// name, client id, user name and password, with a clean session.
    pub open spec fn spec_connect(&self) -> Seq<u8> {
        connect_encoding(self.protocol_name@, self.client_id@, self.user_name@, self.pass_word@, true)
    }

    /// A PUBLISH exchange of `content` on `topic` can be written.
    pub open spec fn can_publish(&self, topic: Seq<char>, content: Seq<char>) -> bool {
        &&& self.fits_connect()
        &&& valid_topic_name(topic)
        &&& publish_remaining_length(topic, PublishQos::Level2(packet_id()), utf8_len(content))
            <= max_remaining_length()
    }

    /// The PUBLISH packet of `publish`: `content` as UTF-8 bytes on `topic`,
    /// at quality of service 2 with packet identifier 10.
    pub open spec fn spec_publish(topic: Seq<char>, content: Seq<char>) -> Seq<u8> {
        publish_encoding(topic, PublishQos::Level2(packet_id()), encode_utf8(content))
    }

    /// Keeps the part of `ip_port` that looks like `a.b.c.d:port`, or
    /// nothing when no part does; the other fields are kept as given.
    pub fn new(
        client_id: String,
        user_name: String,
        pass_word: String,
        ip_port: String,
        protocol_name: String,
    ) -> (r: MqttConfig)
        requires
            regex_first_match(ip_port_pattern(), ip_port@) is Some,
        ensures
            r.client_id@ == client_id@,
            r.user_name@ == user_name@,
            r.pass_word@ == pass_word@,
            r.ip_port@ == matched_text(ip_port_pattern(), ip_port@),
            r.protocol_name@ == protocol_name@,
    {
        let text: &str = ip_port.as_str();
        let result = regex_find("[0-9]{1,3}.[0-9]{1,3}.[0-9]{1,3}.[0-9]{1,3}:[0-9]{4}", text);
        let mut start: usize = 0;
        let mut end: usize = 0;
        match result {
            Some(Some((x, y))) => {
                start = x;
                end = y;
            },
            _ => {},
        }
        proof {
            broadcast use encode_utf8_valid_utf8, is_char_boundary_start_end_of_seq;
            assert(valid_utf8(text.spec_bytes()));
        }
        let str_ip_port = slice_between(text, start, end);
        assert(str_ip_port@ =~= matched_text(ip_port_pattern(), ip_port@));
        MqttConfig {
            client_id: client_id,
            user_name: user_name,
            pass_word: pass_word,
            ip_port: str_ip_port,
            protocol_name: protocol_name,
        }
    }

    /// `new` when the address pattern compiles, `None` otherwise.
    pub fn try_new(
        client_id: String,
        user_name: String,
        pass_word: String,
        ip_port: String,
        protocol_name: String,
    ) -> (r: Option<MqttConfig>)
        ensures
            r is Some <==> regex_first_match(ip_port_pattern(), ip_port@) is Some,
            r matches Some(c) ==> {
                &&& c.client_id@ == client_id@
                &&& c.user_name@ == user_name@
                &&& c.pass_word@ == pass_word@
                &&& c.ip_port@ == matched_text(ip_port_pattern(), ip_port@)
                &&& c.protocol_name@ == protocol_name@
            },
    {
        if regex_find("[0-9]{1,3}.[0-9]{1,3}.[0-9]{1,3}.[0-9]{1,3}:[0-9]{4}", ip_port.as_str()).is_some() {
            Some(MqttConfig::new(client_id, user_name, pass_word, ip_port, protocol_name))
        } else {
            None
        }
    }

    /// The CONNECT packet sent to the broker at `ip_port`.
    pub fn connect_to_broker(&self) -> (connect: Vec<u8>)
        requires
            self.fits_connect(),
        ensures
            connect@ == self.spec_connect(),
    {
        encode_connect(&self.protocol_name, &self.client_id, &self.user_name, &self.pass_word, true)
    }

    /// The packets that publish `content` on `topic`: CONNECT, then PUBLISH
    /// (see `spec_publish`).
    pub fn publish(&self, topic: String, content: String) -> (r: MqttExchange)
        requires
            self.can_publish(topic@, content@),
        ensures
            r.connect@ == self.spec_connect(),
            r.message@ == Self::spec_publish(topic@, content@),
    {
        let connect = self.connect_to_broker();
        let vec_content = content.as_str().as_bytes_vec();
        match encode_publish(&topic, PublishQos::Level2(10), &vec_content) {
            Some(message) => MqttExchange { connect, message },
            None => MqttExchange { connect, message: Vec::new() },
        }
    }

    /// `r` is the exchange of `publish_alias(alias, topic, content)`: the
    /// CONNECT packet, then an alias packet on `topic` at quality of service
    /// 2 with packet identifier 10 carrying `alias_payload(alias, content, _)`
    /// with the command written in the target's byte order.
    pub open spec fn is_alias_publication(
        &self,
        alias: usize,
        topic: Seq<char>,
        content: Seq<char>,
        r: AliasPublication,
    ) -> bool {
        &&& r.connect@ == self.spec_connect()
        &&& r.topic@ == topic
        &&& r.qos == PublishQos::Level2(packet_id())
        &&& exists|little_endian: bool| r.payload@ == alias_payload(alias, content, little_endian)
        &&& r.payload@ == alias_payload(alias, content, target_is_little_endian())
    }

    /// The exchange that sends the command of `alias` with `content` on
    /// `topic` through Yunba's PUBLISH-alias packet.
    pub fn publish_alias(&self, alias: usize, topic: String, content: String) -> (r: AliasPublication)
        requires
            self.fits_connect(),
            valid_topic_name(topic@),
        ensures
            self.is_alias_publication(alias, topic@, content@, r),
    {
        let connect = self.connect_to_broker();
        let cmd_binary = alias_command(alias);
        let ghost command = cmd_binary@;
        let mut str_payload = cmd_binary;
        str_payload.append(content.as_str());
        let mut vec_payload = str_payload.as_str().as_bytes_vec();
        vec_payload.push(0);
        proof {
            assert(vec_payload@ =~= alias_payload(alias, content@, target_is_little_endian()));
        }
        AliasPublication { connect, topic, qos: PublishQos::Level2(10), payload: vec_payload }
    }

    /// The packets of a subscription to the topic `Hello yunba` at quality
    /// of service 0: CONNECT, then SUBSCRIBE with packet identifier 10.
    pub fn subscribe(&self) -> (r: MqttExchange)
        requires
            self.fits_connect(),
        ensures
            r.connect@ == self.spec_connect(),
            r.message@ == subscribe_encoding(packet_id(), subscribe_filter(), SubscribeQos::Level0),
    {
        let connect = self.connect_to_broker();
        let topic: &str = "Hello yunba";
        proof {
            reveal_strlit("Hello yunba");
            broadcast use vstd::utf8::is_ascii_chars_encode_utf8;
            assert(is_ascii_chars(topic@));
            assert(plain_topic_filter(topic@));
        }
        match encode_subscribe(10, topic, SubscribeQos::Level0) {
            Some(message) => MqttExchange { connect, message },
            None => MqttExchange { connect, message: Vec::new() },
        }
    }

    /// Sets the alias of this client to `content`: a publication of
    /// `content` on the topic `,yali`.
    pub fn pub_set_alias(&self, content: String) -> (r: MqttExchange)
        requires
            self.can_publish(",yali"@, content@),
        ensures
            r.connect@ == self.spec_connect(),
            r.message@ == Self::spec_publish(",yali"@, content@),
    {
        self.publish(String::from_str(",yali"), content)
    }

    /// Asks for the alias of this client: an empty publication on the topic
    /// `,yaliget`.
    pub fn pub_get_alias(&self) -> (r: MqttExchange)
        requires
            self.can_publish(",yaliget"@, Seq::empty()),
        ensures
            r.connect@ == self.spec_connect(),
            r.message@ == Self::spec_publish(",yaliget"@, Seq::empty()),
    {
        self.publish(String::from_str(",yaliget"), String::new())
    }

    /// `publish_alias` with alias 2.
    pub fn pub_get_alias_ack(&self, topic: String, content: String) -> (r: AliasPublication)
        requires
            self.fits_connect(),
            valid_topic_name(topic@),
        ensures
            self.is_alias_publication(2, topic@, content@, r),
    {
        self.publish_alias(2, topic, content)
    }

    /// `publish_alias` with alias 3.
    pub fn pub_get_topic_list(&self, topic: String, content: String) -> (r: AliasPublication)
        requires
            self.fits_connect(),
            valid_topic_name(topic@),
        ensures
            self.is_alias_publication(3, topic@, content@, r),
    {
        self.publish_alias(3, topic, content)
    }

    /// `publish_alias` with alias 13.
    pub fn pub_get_topic_list_v2(&self, topic: String, content: String) -> (r: AliasPublication)
        requires
            self.fits_connect(),
            valid_topic_name(topic@),
        ensures
            self.is_alias_publication(13, topic@, content@, r),
    {
        self.publish_alias(13, topic, content)
    }

    /// `publish_alias` with alias 4.
    pub fn pub_get_topic_list_ack(&self, topic: String, content: String) -> (r: AliasPublication)
        requires
            self.fits_connect(),
            valid_topic_name(topic@),
        ensures
            self.is_alias_publication(4, topic@, content@, r),
    {
        self.publish_alias(4, topic, content)
    }

    /// `publish_alias` with alias 14.
    pub fn pub_get_topic_list_ack_v2(&self, topic: String, content: String) -> (r: AliasPublication)
        requires
            self.fits_connect(),
            valid_topic_name(topic@),
        ensures
            self.is_alias_publication(14, topic@, content@, r),
    {
        self.publish_alias(14, topic, content)
    }

    /// `publish_alias` with alias 5.
    pub fn pub_get_aliaslist(&self, topic: String, content: String) -> (r: AliasPublication)
        requires
            self.fits_connect(),
            valid_topic_name(topic@),
        ensures
            self.is_alias_publication(5, topic@, content@, r),
    {
        self.publish_alias(5, topic, content)
    }

    /// `publish_alias` with alias 15.
    pub fn pub_get_aliaslist_v2(&self, topic: String, content: String) -> (r: AliasPublication)
        requires
            self.fits_connect(),
            valid_topic_name(topic@),
        ensures
            self.is_alias_publication(15, topic@, content@, r),
    {
        self.publish_alias(15, topic, content)
    }

    /// `publish_alias` with alias 6.
    pub fn pub_get_aliaslist_ack(&self, topic: String, content: String) -> (r: AliasPublication)
        requires
            self.fits_connect(),
            valid_topic_name(topic@),
        ensures
            self.is_alias_publication(6, topic@, content@, r),
    {
        self.publish_alias(6, topic, content)
    }

    /// `publish_alias` with alias 16.
    pub fn pub_get_aliaslist_ack_v2(&self, topic: String, content: String) -> (r: AliasPublication)
        requires
            self.fits_connect(),
            valid_topic_name(topic@),
        ensures
            self.is_alias_publication(16, topic@, content@, r),
    {
        self.publish_alias(16, topic, content)
    }

    /// `publish_alias` with alias 7.
    pub fn pub_new_publish(&self, topic: String, content: String) -> (r: AliasPublication)
        requires
            self.fits_connect(),
            valid_topic_name(topic@),
        ensures
            self.is_alias_publication(7, topic@, content@, r),
    {
        self.publish_alias(7, topic, content)
    }

    /// `publish_alias` with alias 8.
    pub fn pub_new_puback(&self, topic: String, content: String) -> (r: AliasPublication)
        requires
            self.fits_connect(),
            valid_topic_name(topic@),
        ensures
            self.is_alias_publication(8, topic@, content@, r),
    {
        self.publish_alias(8, topic, content)
    }

    /// `publish_alias` with alias 9.
    pub fn pub_get_status(&self, topic: String, content: String) -> (r: AliasPublication)
        requires
            self.fits_connect(),
            valid_topic_name(topic@),
        ensures
            self.is_alias_publication(9, topic@, content@, r),
    {
        self.publish_alias(9, topic, content)
    }

    /// `publish_alias` with alias 19.
    pub fn pub_get_status_v2(&self, topic: String, content: String) -> (r: AliasPublication)
        requires
            self.fits_connect(),
            valid_topic_name(topic@),
        ensures
            self.is_alias_publication(19, topic@, content@, r),
    {
        self.publish_alias(19, topic, content)
    }

    /// `publish_alias` with alias 10.
    pub fn pub_get_status_ack(&self, topic: String, content: String) -> (r: AliasPublication)
        requires
            self.fits_connect(),
            valid_topic_name(topic@),
        ensures
            self.is_alias_publication(10, topic@, content@, r),
    {
        self.publish_alias(10, topic, content)
    }

    /// `publish_alias` with alias 20.
    pub fn pub_get_status_ack_v2(&self, topic: String, content: String) -> (r: AliasPublication)
        requires
            self.fits_connect(),
            valid_topic_name(topic@),
        ensures
            self.is_alias_publication(20, topic@, content@, r),
    {
        self.publish_alias(20, topic, content)
    }

    /// `publish_alias` with alias 11.
    pub fn pub_recvack(&self, topic: String, content: String) -> (r: AliasPublication)
        requires
            self.fits_connect(),
            valid_topic_name(topic@),
        ensures
            self.is_alias_publication(11, topic@, content@, r),
    {
        self.publish_alias(11, topic, content)
    }
}

} // verus!
