use deskstream::agent::{
    agent_display_id, classify_relay_message, classify_session_packet, clipboard_changed,
    fixed_len, keyframe_requested, next_backoff, parse_file_meta, presentation_time_us,
    session_body_len, waits_for_queue, FileReceiver, RelayMessage, SessionPacket,
};
use deskstream::backend::{assigned_system_id, backend_url_for_relay, BackendClient};
use deskstream::json_doc::{member, parse_json, JsonValue};
use deskstream::protocol::{chat_packet, clipboard_packet, file_chunk_packet, file_meta_packet};
use deskstream::gui::{
    dashboard_url, format_heartbeat, format_sysid, gui_config_json, http_body, parse_agent_status,
    parse_server_config, parse_u64, read_gui_config, status_label, GuiStatus,
};
use deskstream::json_text::{escape_json, json_get, set_json_string_value};
use deskstream::status::{local_health_json, record_backend_reply, set_relay_state, touch_heartbeat, AgentStatus, BackendReply};

#[test]
fn json_values_by_key() {
    let j = "{\"system_id\": \"847293615\", \"relay_connected\":true, \"n\": 42, \"b\": false}";
    assert_eq!(json_get(j, "system_id"), Some("847293615".to_string()));
    assert_eq!(json_get(j, "relay_connected"), Some("true".to_string()));
    assert_eq!(json_get(j, "n"), Some("42".to_string()));
    assert_eq!(json_get(j, "b"), Some("false".to_string()));
    assert_eq!(json_get(j, "missing"), None);
    assert_eq!(json_get("{\"x\" 1}", "x"), None);
}

#[test]
fn json_escaping_and_rewriting() {
    assert_eq!(escape_json("a\"b\\c"), "a\\\"b\\\\c");
    let mut j = "{\"pin\":\"1234\", \"x\": 1}".to_string();
    set_json_string_value(&mut j, "pin", "9\"9");
    assert_eq!(j, "{\"pin\":\"9\\\"9\", \"x\": 1}");
    assert_eq!(json_get(&j, "x"), Some("1".to_string()));
    // Only the compact `"key":"` form is rewritten.
    let mut spaced = "{\"pin\": \"1234\"}".to_string();
    set_json_string_value(&mut spaced, "pin", "99");
    assert_eq!(spaced, "{\"pin\": \"1234\"}");
}

#[test]
fn window_formatting() {
    assert_eq!(format_sysid("847293615"), "847 293 615");
    assert_eq!(format_sysid("12-34"), "1234");
    assert_eq!(format_heartbeat(false, 5, 10), "\u{2014}");
    assert_eq!(format_heartbeat(true, 0, 10), "\u{2014}");
    assert_eq!(format_heartbeat(true, 1000, 2500), "Just now");
    assert_eq!(format_heartbeat(true, 1000, 8999), "7s ago");
    assert_eq!(format_heartbeat(true, 5000, 1000), "Just now");
    assert_eq!(status_label("online"), "ONLINE");
    assert_eq!(status_label("connecting"), "CONNECTING");
    assert_eq!(status_label("error"), "ERROR");
    assert_eq!(status_label("weird"), "OFFLINE");
}

#[test]
fn number_parsing() {
    assert_eq!(parse_u64("1700000000000"), Some(1_700_000_000_000));
    assert_eq!(parse_u64("+7"), Some(7));
    assert_eq!(parse_u64(""), None);
    assert_eq!(parse_u64("12a"), None);
    assert_eq!(parse_u64("18446744073709551616"), None);
    assert_eq!(parse_u64("18446744073709551615"), Some(u64::MAX));
}

#[test]
fn agent_status_polls() {
    let resp = "HTTP/1.1 200 OK\r\nContent-Type: application/json\r\n\r\n{\"system_id\":\"847293615\",\"status\":\"online\",\"backend_connected\":true,\"relay_connected\":false,\"last_heartbeat_ms\":1234,\"device_name\":\"PC\",\"version\":\"0.1.0\"}";
    let body = http_body(resp);
    assert!(body.starts_with('{'));
    let v = parse_agent_status(&body);
    assert_eq!(v.system_id, "847293615");
    assert_eq!(v.status, "online");
    assert!(v.backend_connected);
    assert!(!v.relay_connected);
    assert_eq!(v.last_heartbeat_ms, 1234);
    let mut g = GuiStatus {
        system_id: "old".to_string(),
        device_name: "dev".to_string(),
        version: "v".to_string(),
        status: "connecting".to_string(),
        backend_connected: false,
        relay_connected: true,
        last_heartbeat_ms: 1,
    };
    g.apply_poll(Some(v));
    assert_eq!(g.system_id, "847293615");
    assert_eq!(g.status, "online");
    g.apply_poll(None);
    assert_eq!(g.status, "offline");
    assert!(!g.relay_connected);
    assert_eq!(g.system_id, "847293615");
}

#[test]
fn gui_settings_files() {
    assert!(parse_server_config("{\"backend_url\": \"\", \"relay_url\": \"r\"}").is_none());
    let sc = parse_server_config("{\"server_addr\": \"s\", \"backend_url\": \"b\", \"relay_url\": \"r\"}").unwrap();
    assert_eq!((sc.backend_url.as_str(), sc.relay_url.as_str(), sc.server_addr.as_str()), ("b", "r", "s"));
    let c = read_gui_config(Some(sc), Some("{\"relay_url\": \"x:1\", \"start_with_windows\": false}"));
    assert_eq!(c.backend_url, "b");
    assert_eq!(c.relay_url, "x:1");
    assert_eq!(c.environment, "Production");
    assert!(!c.start_with_windows);
    let d = read_gui_config(None, None);
    assert_eq!(d.backend_url, "http://127.0.0.1/Screen%20Share/backend/api");
    assert_eq!(d.relay_url, "127.0.0.1:9001");
    assert!(d.start_with_windows);
    let text = gui_config_json("b", "r\"", "Dev", true, "PC");
    let back = read_gui_config(None, Some(&text));
    assert_eq!(back.backend_url, "b");
    assert_eq!(back.environment, "Dev");
    assert!(back.start_with_windows);
    assert_eq!(dashboard_url(""), "http://127.0.0.1/Screen%20Share/frontend/dashboard.php");
    assert_eq!(dashboard_url("http://h/api//"), "http://h/api/dashboard.php");
}

#[test]
fn agent_status_updates() {
    let mut s = AgentStatus::new("847293615", "PC", None, "0.1.0");
    assert_eq!(s.status, "connecting");
    assert_eq!(s.environment, "Production");
    set_relay_state(&mut s, true, 500);
    assert_eq!((s.status.as_str(), s.relay_connected, s.last_heartbeat_ms), ("online", true, 500));
    set_relay_state(&mut s, false, 900);
    assert_eq!((s.status.as_str(), s.relay_connected, s.last_heartbeat_ms), ("offline", false, 500));
    touch_heartbeat(&mut s, 1000);
    assert_eq!(s.last_heartbeat_ms, 1000);
    record_backend_reply(&mut s, BackendReply::Success, 2000);
    assert!(s.backend_connected);
    assert_eq!(s.last_heartbeat_ms, 2000);
    record_backend_reply(&mut s, BackendReply::Failure, 3000);
    assert!(s.backend_connected);
    record_backend_reply(&mut s, BackendReply::Unreachable, 4000);
    assert!(!s.backend_connected);
    assert_eq!(s.last_heartbeat_ms, 2000);
    let e = AgentStatus::new("1", "PC", Some("Staging"), "2");
    assert_eq!(e.environment, "Staging");
    assert_eq!(
        local_health_json("847293615"),
        "{\"running\": true, \"system_id\":\"847293615\", \"status\": \"online\"}"
    );
}

#[test]
fn backend_client_endpoints_and_fields() {
    let c = BackendClient::new("http://10.0.0.1/api///", "uuid-1", "");
    assert_eq!(c.base_url(), "http://10.0.0.1/api");
    assert_eq!(c.register_url(), "http://10.0.0.1/api/devices/register.php");
    assert_eq!(c.heartbeat_url(), "http://10.0.0.1/api/devices/heartbeat.php");
    assert_eq!(c.session_start_url(), "http://10.0.0.1/api/sessions/start.php");
    assert_eq!(c.session_end_url(), "http://10.0.0.1/api/sessions/end.php");
    let f = c.registration_fields("PC", "windows");
    assert_eq!(f.len(), 3);
    assert_eq!(f[0], ("machine_identifier".to_string(), "uuid-1".to_string()));
    assert_eq!(f[2], ("os_info".to_string(), "windows".to_string()));
    let c2 = BackendClient::new("http://h", "m", "847293615");
    let f2 = c2.registration_fields("PC", "linux");
    assert_eq!(f2[3], ("system_id".to_string(), "847293615".to_string()));
    assert_eq!(c2.heartbeat_fields()[1], ("system_id".to_string(), "847293615".to_string()));
    assert_eq!(c2.session_start_fields("k")[0], ("device_id".to_string(), "847293615".to_string()));
}

#[test]
fn registration_reply_assigns_the_system_id() {
    let mut c = BackendClient::new("http://h", "m", "111111111");
    let body = "{\"success\": true, \"system\": {\"system_id\": \"847293615\", \"id\": 3}}";
    assert_eq!(c.accept_registration_reply(200, body), Some("847293615".to_string()));
    assert_eq!(c.system_id(), "847293615");
    assert_eq!(c.accept_registration_reply(200, "{\"system\": {}}"), None);
    assert_eq!(c.accept_registration_reply(201, "not json"), None);
    assert_eq!(c.system_id(), "847293615");
    assert_eq!(c.record_registration(Some("222222222")), Some("222222222".to_string()));
    assert_eq!(c.system_id(), "222222222");
}

#[test]
fn registration_reply_with_error_status_keeps_the_id() {
    let mut c = BackendClient::new("http://h", "m", "111111111");
    let body = "{\"system\": {\"system_id\": \"847293615\"}}";
    assert_eq!(c.accept_registration_reply(500, body), None);
    assert_eq!(c.accept_registration_reply(404, body), None);
    assert_eq!(c.accept_registration_reply(199, body), None);
    assert_eq!(c.accept_registration_reply(300, body), None);
    assert_eq!(c.system_id(), "111111111");
    assert_eq!(c.accept_registration_reply(299, body), Some("847293615".to_string()));
    assert_eq!(c.system_id(), "847293615");
}

#[test]
fn assigned_system_id_reads_system_dot_system_id() {
    let doc = parse_json("{\"system\": {\"id\": 7, \"system_id\": \"123456789\"}}").unwrap();
    assert_eq!(assigned_system_id(&doc), Some("123456789".to_string()));
    let numeric = parse_json("{\"system\": {\"system_id\": 123456789}}").unwrap();
    assert_eq!(assigned_system_id(&numeric), None);
    let flat = parse_json("{\"system_id\": \"123456789\"}").unwrap();
    assert_eq!(assigned_system_id(&flat), None);
    let arr = parse_json("[1, 2]").unwrap();
    assert_eq!(assigned_system_id(&arr), None);
    assert!(parse_json("{\"system\": ").is_none());
    let hand = JsonValue::Object(vec![(
        "system".to_string(),
        JsonValue::Object(vec![("system_id".to_string(), JsonValue::Str("42".to_string()))]),
    )]);
    assert_eq!(assigned_system_id(&hand), Some("42".to_string()));
}

#[test]
fn json_members_are_found_by_key() {
    let doc = parse_json("{\"a\": 1, \"b\": [true, null], \"c\": \"x\"}").unwrap();
    assert!(matches!(member(&doc, "a"), Some(JsonValue::Number(n)) if n == "1"));
    match member(&doc, "b") {
        Some(JsonValue::Array(items)) => {
            assert_eq!(items.len(), 2);
            assert!(matches!(items[0], JsonValue::Bool(true)));
            assert!(matches!(items[1], JsonValue::Null));
        }
        _ => panic!("b is an array"),
    }
    assert!(matches!(member(&doc, "c"), Some(JsonValue::Str(s)) if s == "x"));
    assert!(member(&doc, "d").is_none());
    assert!(member(&JsonValue::Null, "a").is_none());
}

#[test]
fn agent_loop_decisions() {
    assert_eq!(backend_url_for_relay("10.0.0.7:9001"), "http://10.0.0.7/Screen%20Share/backend/api");
    assert_eq!(backend_url_for_relay("host"), "http://host/Screen%20Share/backend/api");
    assert_eq!(next_backoff(1), 2);
    assert_eq!(next_backoff(2), 5);
    assert_eq!(next_backoff(5), 10);
    assert_eq!(next_backoff(10), 10);
    assert_eq!(next_backoff(next_backoff(next_backoff(7))), 10);
    assert_eq!(agent_display_id("847293615"), "847 293 615");
    assert_eq!(agent_display_id("abc12"), "12");
    assert_eq!(classify_relay_message(14), RelayMessage::HeartbeatAck);
    assert_eq!(classify_relay_message(3), RelayMessage::SessionRequest);
    assert_eq!(classify_relay_message(99), RelayMessage::SessionEnded);
    assert_eq!(classify_relay_message(4), RelayMessage::Ignored);
}

#[test]
fn session_packets_from_the_viewer() {
    assert_eq!(classify_session_packet(0), SessionPacket::Input);
    assert_eq!(classify_session_packet(10), SessionPacket::Input);
    assert_eq!(classify_session_packet(11), SessionPacket::Ignored);
    assert_eq!(classify_session_packet(12), SessionPacket::Clipboard);
    assert_eq!(classify_session_packet(21), SessionPacket::FileChunk);
    assert_eq!(classify_session_packet(99), SessionPacket::Disconnect);
    assert_eq!(fixed_len(SessionPacket::FileMeta), 10);
    assert_eq!(fixed_len(SessionPacket::Chat), 3);
    assert_eq!(session_body_len(SessionPacket::Clipboard, &[0, 0xa0, 0, 0]), Some(10 * 1024 * 1024));
    assert_eq!(session_body_len(SessionPacket::Clipboard, &[0, 0xa0, 0, 1]), None);
    assert_eq!(session_body_len(SessionPacket::FileChunk, &[6, 0x40, 0, 0]), Some(100 * 1024 * 1024));
    assert_eq!(session_body_len(SessionPacket::FileChunk, &[6, 0x40, 0, 1]), None);
    assert_eq!(session_body_len(SessionPacket::Chat, &[1, 1, 0]), Some(256));
    assert_eq!(parse_file_meta(&[0, 5, 0, 0, 0, 0, 0, 0, 1, 0]), (5, 256));
}

#[test]
fn file_reception_closes_when_complete() {
    let mut f = FileReceiver::new();
    assert!(!f.accepts_chunk());
    f.begin(10, true);
    assert!(f.accepts_chunk());
    assert!(!f.chunk_written(4, true));
    assert!(f.chunk_written(6, true));
    assert!(!f.accepts_chunk());
    f.begin(10, true);
    assert!(f.chunk_written(4, false));
    assert!(!f.accepts_chunk());
    f.begin(5, false);
    assert!(!f.accepts_chunk());
}

#[test]
fn video_pacing() {
    assert!(keyframe_requested(0, true));
    assert!(keyframe_requested(5, false));
    assert!(keyframe_requested(240, true));
    assert!(!keyframe_requested(241, true));
    assert_eq!(presentation_time_us(3), 24999);
    assert!(waits_for_queue(1));
    assert!(!waits_for_queue(2));
    assert!(clipboard_changed("old", "new"));
    assert!(!clipboard_changed("same", "same"));
    assert!(!clipboard_changed("old", ""));
}

#[test]
fn saved_settings_read_back() {
    let text = gui_config_json("http://10.0.0.2/api", "10.0.0.2:9001", "Staging", false, "Front desk");
    let back = read_gui_config(None, Some(&text));
    assert_eq!(back.backend_url, "http://10.0.0.2/api");
    assert_eq!(back.relay_url, "10.0.0.2:9001");
    assert_eq!(back.environment, "Staging");
    assert!(!back.start_with_windows);
    assert_eq!(back.device_name, "Front desk");
    // A value that is itself a key name hides the key that follows it.
    let odd = gui_config_json("relay_url", "10.0.0.2:9001", "Staging", true, "PC");
    assert_eq!(read_gui_config(None, Some(&odd)).relay_url, "127.0.0.1:9001");
}

#[test]
fn sysid_display_is_stable() {
    let once = format_sysid("id: 847-293-615");
    assert_eq!(once, "847 293 615");
    assert_eq!(format_sysid(&once), once);
    assert_eq!(format_sysid("12 34"), "1234");
    assert_eq!(format_sysid(&format_sysid("12 34")), "1234");
}

#[test]
fn viewer_packets_are_read_whole_by_the_agent() {
    let chat = chat_packet(1, b"hello");
    assert_eq!(classify_session_packet(chat[0]), SessionPacket::Chat);
    let n = fixed_len(SessionPacket::Chat);
    assert_eq!(session_body_len(SessionPacket::Chat, &chat[1..1 + n]), Some(5));
    assert_eq!(&chat[1 + n..], b"hello");
    let clip = clipboard_packet(b"copied");
    assert_eq!(classify_session_packet(clip[0]), SessionPacket::Clipboard);
    assert_eq!(session_body_len(SessionPacket::Clipboard, &clip[1..5]), Some(6));
    assert_eq!(&clip[5..], b"copied");
    let chunk = file_chunk_packet(&[9u8; 300]);
    assert_eq!(classify_session_packet(chunk[0]), SessionPacket::FileChunk);
    assert_eq!(session_body_len(SessionPacket::FileChunk, &chunk[1..5]), Some(300));
    let meta = file_meta_packet(b"report.pdf", 123456789);
    assert_eq!(classify_session_packet(meta[0]), SessionPacket::FileMeta);
    assert_eq!(parse_file_meta(&meta[1..11]), (10, 123456789));
    assert_eq!(&meta[11..], b"report.pdf");
}

#[test]
fn agent_identity_after_registration() {
    assert_eq!(deskstream::agent::agent_system_id(Some("111222333".to_string()), "847293615"), "111222333");
    assert_eq!(deskstream::agent::agent_system_id(None, "847293615"), "847293615");
    assert!(deskstream::agent::registration_acknowledged(1));
    assert!(!deskstream::agent::registration_acknowledged(0));
}
