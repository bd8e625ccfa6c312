use yunba_rust_sdk::json::{select_field, JsonDocument, JsonMember, JsonParser};
use yunba_rust_sdk::mqtt_client::{
    self, alias_command, connection_accepted, next_step, BrokerEvent, MqttConfig, SessionStep,
};
use yunba_rust_sdk::packet::PublishQos;
use yunba_rust_sdk::register_ticket::{self, RegisterTicketConfig};
use yunba_rust_sdk::tcp::response_text;

fn config() -> MqttConfig {
    MqttConfig::new(
        "c1".to_string(),
        "u".to_string(),
        "p".to_string(),
        "tcp://10.0.0.1:1883".to_string(),
        "MQIsdp".to_string(),
    )
}

#[test]
fn frame_of_follows_to_le_outcome() {
    assert_eq!(register_ticket::frame_of(5, 5), "\u{5}");
    assert_eq!(register_ticket::frame_of(5, 5u16.swap_bytes()), "\u{0}");
    assert_eq!(register_ticket::frame_of(40, 40), "\u{0}(");
    assert_eq!(register_ticket::frame_of(40, 40u16.swap_bytes()), "(\u{0}");
    assert_eq!(register_ticket::frame_of(127, 127), "\u{0}\u{7f}");
    assert_eq!(register_ticket::frame_of(300, 300), "");
    for n in [0usize, 1, 9, 10, 40, 127, 255, 1000] {
        assert_eq!(register_ticket::parse_num(n), register_ticket::frame_of(n, (n as u16).to_le()));
    }
}

fn little_endian_target() -> bool {
    1u16.to_le() == 1
}

#[test]
fn parse_num_single_digit() {
    if little_endian_target() {
        assert_eq!(register_ticket::parse_num(0), "\u{0}");
        assert_eq!(register_ticket::parse_num(5), "\u{5}");
        assert_eq!(register_ticket::parse_num(9), "\u{9}");
    } else {
        assert_eq!(register_ticket::parse_num(0), "\u{0}");
        assert_eq!(register_ticket::parse_num(5), "\u{0}");
        assert_eq!(register_ticket::parse_num(9), "\u{0}");
    }
}

#[test]
fn parse_num_two_bytes() {
    if little_endian_target() {
        assert_eq!(register_ticket::parse_num(10), "\u{0}\n");
        assert_eq!(register_ticket::parse_num(40), "\u{0}(");
        assert_eq!(register_ticket::parse_num(127), "\u{0}\u{7f}");
    } else {
        assert_eq!(register_ticket::parse_num(10), "\n\u{0}");
        assert_eq!(register_ticket::parse_num(40), "(\u{0}");
        assert_eq!(register_ticket::parse_num(127), "\u{7f}\u{0}");
    }
}

#[test]
fn parse_num_large_is_empty() {
    assert_eq!(register_ticket::parse_num(255), "");
    assert_eq!(register_ticket::parse_num(1000), "");
    assert_eq!(register_ticket::parse_num(65536 + 5), "");
}

#[test]
fn parse_num_reads_low_32_bits() {
    if usize::BITS == 64 {
        let big: usize = (1usize << 32) + 7;
        assert_eq!(register_ticket::parse_num(big), "\u{7}");
    }
}

#[test]
fn mqtt_parse_num_agrees() {
    for n in [0usize, 3, 9, 10, 64, 127, 255, 4096] {
        assert_eq!(mqtt_client::parse_num(n), register_ticket::parse_num(n));
    }
}

#[test]
fn frames_of_different_numbers_differ() {
    if !little_endian_target() {
        return;
    }
    let frames: Vec<String> = (0usize..128).map(register_ticket::parse_num).collect();
    for a in 0..128 {
        for b in 0..128 {
            assert_eq!(frames[a] == frames[b], a == b);
        }
    }
}

#[test]
fn work_concatenates_frames_and_body() {
    let le = little_endian_target();
    let mut c = RegisterTicketConfig::new(1, "{}".to_string(), 2);
    assert_eq!(c.work(), if le { "\u{1}\u{2}{}" } else { "\u{0}\u{0}{}" });
    let mut d = RegisterTicketConfig::new(12, "x".to_string(), 300);
    let want = if le { "\u{0}\u{c}x" } else { "\u{c}\u{0}x" };
    assert_eq!(d.work(), want);
    assert_eq!(d.work(), want);
}

#[test]
fn json_parser_cuts_out_object() {
    let p = JsonParser::new("HTTP junk {\"c\": \"x\"} trailing\u{0}\u{0}".to_string());
    assert_eq!(p.json_content, "{\"c\": \"x\"}");
    assert_eq!(p.output, "");
}

#[test]
fn json_parser_spans_lines_to_last_brace() {
    let p = JsonParser::new("a{\n\"k\": {\"n\": 1}\n}b}c".to_string());
    assert_eq!(p.json_content, "{\n\"k\": {\"n\": 1}\n}b}");
}

#[test]
fn json_parser_without_object_is_empty() {
    let p = JsonParser::new("no object here }{".to_string());
    assert_eq!(p.json_content, "");
    let q = JsonParser::try_new("".to_string()).unwrap();
    assert_eq!(q.json_content, "");
}

#[test]
fn json_parser_multibyte_text() {
    let p = JsonParser::new("é{\"c\": \"ü\"}ö".to_string());
    assert_eq!(p.json_content, "{\"c\": \"ü\"}");
}

#[test]
fn parser_reads_string_fields() {
    let mut p = JsonParser::new("{\"c\": \"abc\", \"p\": 2, \"u\": \"\"}".to_string());
    assert_eq!(p.parser("c".to_string()), "abc");
    assert_eq!(p.parser("p".to_string()), "");
    assert_eq!(p.parser("u".to_string()), "");
    assert_eq!(p.json_content, "{\"c\": \"abc\", \"p\": 2, \"u\": \"\"}");
}

#[test]
fn try_parser_refuses_missing_field() {
    let mut p = JsonParser::new("{\"c\": \"abc\"}".to_string());
    assert_eq!(p.try_parser("c".to_string()), Some("abc".to_string()));
    assert_eq!(p.try_parser("x".to_string()), None);
}

#[test]
fn try_parser_refuses_malformed_and_non_objects() {
    let mut bad = JsonParser { json_content: "{\"c\": ".to_string(), output: String::new() };
    assert_eq!(bad.try_parser("c".to_string()), None);
    let mut list = JsonParser { json_content: "[1, 2]".to_string(), output: String::new() };
    assert_eq!(list.try_parser("c".to_string()), None);
    let mut empty = JsonParser::new("nothing".to_string());
    assert_eq!(empty.try_parser("c".to_string()), None);
}

#[test]
fn select_field_takes_first_member() {
    let doc = JsonDocument::Object(vec![
        JsonMember { key: "a".to_string(), text: None },
        JsonMember { key: "b".to_string(), text: Some("one".to_string()) },
        JsonMember { key: "b".to_string(), text: Some("two".to_string()) },
    ]);
    assert_eq!(select_field(&doc, &"a".to_string()), Some(String::new()));
    assert_eq!(select_field(&doc, &"b".to_string()), Some("one".to_string()));
    assert_eq!(select_field(&doc, &"c".to_string()), None);
    assert_eq!(select_field(&JsonDocument::Malformed, &"a".to_string()), None);
    assert_eq!(select_field(&JsonDocument::NotObject, &"a".to_string()), None);
}

#[test]
fn mqtt_config_extracts_address() {
    let c = config();
    assert_eq!(c.ip_port, "10.0.0.1:1883");
    assert_eq!(c.client_id, "c1");
    assert_eq!(c.protocol_name, "MQIsdp");
    let d = MqttConfig::try_new(
        String::new(),
        String::new(),
        String::new(),
        "localhost:1883".to_string(),
        String::new(),
    )
    .unwrap();
    assert_eq!(d.ip_port, "");
}

#[test]
fn connect_packet_bytes() {
    let c = config();
    let bytes = c.connect_to_broker();
    let mut expected: Vec<u8> = vec![0x10, 22, 0, 6];
    expected.extend_from_slice(b"MQIsdp");
    expected.extend_from_slice(&[4, 0xC2, 0, 0, 0, 2, b'c', b'1', 0, 1, b'u', 0, 1, b'p']);
    assert_eq!(bytes, expected);
}

#[test]
fn publish_packet_bytes() {
    let c = config();
    let e = c.publish("t".to_string(), "hi".to_string());
    assert_eq!(e.connect, c.connect_to_broker());
    assert_eq!(e.message, vec![0x34, 7, 0, 1, b't', 0, 10, b'h', b'i']);
}

#[test]
fn subscribe_packet_bytes() {
    let c = config();
    let e = c.subscribe();
    let mut expected: Vec<u8> = vec![0x82, 16, 0, 10, 0, 11];
    expected.extend_from_slice(b"Hello yunba");
    expected.push(0);
    assert_eq!(e.message, expected);
}

#[test]
fn alias_commands() {
    if little_endian_target() {
        assert_eq!(alias_command(1), "\u{1}");
        assert_eq!(alias_command(9), "\u{9}");
        assert_eq!(alias_command(10), "\u{0}\n");
        assert_eq!(alias_command(20), "\u{0}\u{14}");
    } else {
        assert_eq!(alias_command(1), "\u{0}");
        assert_eq!(alias_command(10), "\n\u{0}");
    }
    assert_eq!(alias_command(0), "");
    assert_eq!(alias_command(11), "");
    assert_eq!(alias_command(12), "");
    assert_eq!(alias_command(17), "");
    assert_eq!(alias_command(21), "");
}

#[test]
fn publish_alias_payload() {
    let c = config();
    let le = little_endian_target();
    let a = c.publish_alias(9, "t".to_string(), "ab".to_string());
    assert_eq!(a.payload, if le { vec![9, b'a', b'b', 0] } else { vec![0, b'a', b'b', 0] });
    assert_eq!(a.topic, "t");
    assert!(matches!(a.qos, PublishQos::Level2(10)));
    assert_eq!(a.connect, c.connect_to_broker());
    let b = c.publish_alias(13, "t".to_string(), "ab".to_string());
    assert_eq!(b.payload, if le { vec![0, 13, b'a', b'b', 0] } else { vec![13, 0, b'a', b'b', 0] });
    let u = c.publish_alias(12, "t".to_string(), "ab".to_string());
    assert_eq!(u.payload, vec![b'a', b'b', 0]);
}

#[test]
fn pub_alias_methods_use_their_alias() {
    if !little_endian_target() {
        return;
    }
    let c = config();
    let t = || "t".to_string();
    let x = || "x".to_string();
    let cases: Vec<(Vec<u8>, Vec<u8>)> = vec![
        (c.pub_get_alias_ack(t(), x()).payload, vec![2, b'x', 0]),
        (c.pub_get_topic_list(t(), x()).payload, vec![3, b'x', 0]),
        (c.pub_get_topic_list_v2(t(), x()).payload, vec![0, 13, b'x', 0]),
        (c.pub_get_topic_list_ack(t(), x()).payload, vec![4, b'x', 0]),
        (c.pub_get_topic_list_ack_v2(t(), x()).payload, vec![0, 14, b'x', 0]),
        (c.pub_get_aliaslist(t(), x()).payload, vec![5, b'x', 0]),
        (c.pub_get_aliaslist_v2(t(), x()).payload, vec![0, 15, b'x', 0]),
        (c.pub_get_aliaslist_ack(t(), x()).payload, vec![6, b'x', 0]),
        (c.pub_get_aliaslist_ack_v2(t(), x()).payload, vec![0, 16, b'x', 0]),
        (c.pub_new_publish(t(), x()).payload, vec![7, b'x', 0]),
        (c.pub_new_puback(t(), x()).payload, vec![8, b'x', 0]),
        (c.pub_get_status(t(), x()).payload, vec![9, b'x', 0]),
        (c.pub_get_status_v2(t(), x()).payload, vec![0, 19, b'x', 0]),
        (c.pub_get_status_ack(t(), x()).payload, vec![0, 10, b'x', 0]),
        (c.pub_get_status_ack_v2(t(), x()).payload, vec![0, 20, b'x', 0]),
        (c.pub_recvack(t(), x()).payload, vec![b'x', 0]),
    ];
    for (got, want) in cases {
        assert_eq!(got, want);
    }
}

#[test]
fn alias_payload_ends_with_zero() {
    let c = config();
    for alias in 0usize..25 {
        let p = c.publish_alias(alias, "t".to_string(), "héllo".to_string()).payload;
        assert_eq!(*p.last().unwrap(), 0);
        assert_eq!(&p[p.len() - 7..p.len() - 1], "héllo".as_bytes());
    }
}

#[test]
fn session_steps() {
    assert!(matches!(next_step(BrokerEvent::ReadFailed), SessionStep::Stop));
    match next_step(BrokerEvent::PingRequest) {
        SessionStep::Reply(bytes) => assert_eq!(bytes, vec![0xD0, 0x00]),
        _ => panic!("a PINGREQ is answered"),
    }
    assert!(matches!(next_step(BrokerEvent::Other), SessionStep::Continue));
    let bad = BrokerEvent::Publish { topic: "t".to_string(), payload: vec![0xff, 0x00] };
    assert!(matches!(next_step(bad), SessionStep::Stop));
}

#[test]
fn published_text_is_shown() {
    let event = BrokerEvent::Publish { topic: "news".to_string(), payload: "grüße".as_bytes().to_vec() };
    match next_step(event) {
        SessionStep::Show { topic, message } => {
            assert_eq!(topic, "news");
            assert_eq!(message, "grüße");
        }
        _ => panic!("a UTF-8 payload is shown"),
    }
}

#[test]
fn connack_codes() {
    assert!(connection_accepted(0));
    assert!(!connection_accepted(1));
    assert!(!connection_accepted(5));
}

#[test]
fn response_text_keeps_whole_buffer() {
    let mut buf = [0u8; 8];
    buf[..3].copy_from_slice(b"{x}");
    assert_eq!(response_text(&buf), Some("{x}\u{0}\u{0}\u{0}\u{0}\u{0}".to_string()));
    assert_eq!(response_text(&[0x7b, 0xc3]), None);
    assert_eq!(response_text(&[0xc3, 0xbc]), Some("ü".to_string()));
}
