use yunba_rust_sdk::json::JsonParser;
use yunba_rust_sdk::mqtt_client::MqttConfig;
use yunba_rust_sdk::register_ticket::RegisterTicketConfig;
use yunba_rust_sdk::tcp::response_text;

// The register and ticket exchanges of the SDK, with the replies of the
// servers given as receive buffers instead of read from the network.
fn register() -> (String, String, String) {
    let register_version: usize = 1;
    let register_json = "{\"a\": \"5335292c44deccab56399e4f\", \"p\":2}".to_string();
    let register_length: usize = register_json.len();
    let mut register = RegisterTicketConfig::new(register_version, register_json, register_length);
    let register_request = register.work();
    let frames = if 1u16.to_le() == 1 { "\u{1}\u{0}(" } else { "\u{0}(\u{0}" };
    assert_eq!(register_request, frames.to_string() + "{\"a\": \"5335292c44deccab56399e4f\", \"p\":2}");

    let mut buf = [0u8; 1024];
    let reply = b"{\"c\": \"0000000001-000000000001\", \"p\": \"secret\", \"u\": \"user-1\"}";
    buf[..reply.len()].copy_from_slice(reply);
    let register_response = response_text(&buf).unwrap();

    let mut register_json = JsonParser::new(register_response);
    let client_id = register_json.parser("c".to_string());
    let pass_word = register_json.parser("p".to_string());
    let user_name = register_json.parser("u".to_string());
    (client_id, pass_word, user_name)
}

fn ticket() -> String {
    let ticket_version: usize = 1;
    let ticket_json = "{\"a\": \"5335292c44deccab56399e4f\"}".to_string();
    let ticket_length: usize = ticket_json.len();
    let mut ticket = RegisterTicketConfig::new(ticket_version, ticket_json, ticket_length);
    let ticket_request = ticket.work();
    let frames = if 1u16.to_le() == 1 { "\u{1}\u{0}!" } else { "\u{0}!\u{0}" };
    assert_eq!(ticket_request, frames.to_string() + "{\"a\": \"5335292c44deccab56399e4f\"}");

    let mut buf = [0u8; 1024];
    let reply = b"{\"c\": \"tcp://123.57.32.238:1883\"}";
    buf[..reply.len()].copy_from_slice(reply);
    let ticket_response = response_text(&buf).unwrap();

    let mut ticket_json = JsonParser::new(ticket_response);
    ticket_json.parser("c".to_string())
}

#[test]
fn mqtt() {
    let (client_id, user_name, pass_word) = register();
    let client_config = ticket();
    let mqtt_client =
        MqttConfig::new(client_id, user_name, pass_word, client_config, "MQIsdp".to_string());
    assert_eq!(mqtt_client.ip_port, "123.57.32.238:1883");
    let set = mqtt_client.pub_set_alias("sun".to_string());
    let get = mqtt_client.pub_get_alias();
    assert_eq!(set.connect, get.connect);
    assert_eq!(set.message, vec![0x34, 12, 0, 5, b',', b'y', b'a', b'l', b'i', 0, 10, b's', b'u', b'n']);
    assert_eq!(get.message, vec![0x34, 12, 0, 8, b',', b'y', b'a', b'l', b'i', b'g', b'e', b't', 0, 10]);
}
