use deskstream::local::{forwards_request_header, forwards_response_header, route_local_request, LocalRoute, Page};
use deskstream::viewer::{
    button_change, clean_target_id, is_frame_packet, remote_payload_len, viewer_admitted,
    viewer_window_size, chat_line, file_path_from_line, outgoing_chat, target_id_from_arg, target_id_from_line, valid_target_id,
    ChatLog, FpsMeter, CHAT_HISTORY,
};

#[test]
fn api_requests_go_upstream() {
    match route_local_request("/api/agents/register?x=1") {
        LocalRoute::Proxy { upstream_url } => assert_eq!(
            upstream_url,
            "https://friendssoftwaresolutions.in/DeskStream/api/agents/register?x=1"
        ),
        _ => panic!("expected a proxied request"),
    }
}

#[test]
fn health_paths_answer_health() {
    assert!(matches!(route_local_request("/local-health"), LocalRoute::Health));
    assert!(matches!(route_local_request("/local-health/"), LocalRoute::Health));
}

#[test]
fn pages_are_served_without_query() {
    match route_local_request("/?tab=1") {
        LocalRoute::Static { page, content_type } => {
            assert_eq!(page, Page::Dashboard);
            assert_eq!(content_type, "text/html");
        }
        _ => panic!("expected the dashboard"),
    }
    match route_local_request("/session.html?id=3") {
        LocalRoute::Static { page, .. } => assert_eq!(page, Page::Session),
        _ => panic!("expected the session page"),
    }
    match route_local_request("/icon.png") {
        LocalRoute::Static { page, content_type } => {
            assert_eq!(page, Page::IconPng);
            assert_eq!(content_type, "image/png");
        }
        _ => panic!("expected the icon"),
    }
    match route_local_request("/icon.ico") {
        LocalRoute::Static { content_type, .. } => assert_eq!(content_type, "image/x-icon"),
        _ => panic!("expected the icon"),
    }
    assert!(matches!(route_local_request("/nothing.html"), LocalRoute::NotFound));
}

#[test]
fn only_content_headers_are_forwarded() {
    assert!(forwards_request_header("Content-Type"));
    assert!(forwards_request_header("ACCEPT"));
    assert!(!forwards_request_header("Cookie"));
    assert!(forwards_response_header("content-TYPE"));
    assert!(!forwards_response_header("Set-Cookie"));
    assert!(!forwards_response_header("Accept"));
}

#[test]
fn target_id_from_link() {
    assert_eq!(target_id_from_arg("  screenshare://123-456/ "), "123456");
    assert_eq!(target_id_from_arg("987-654"), "987654");
    assert_eq!(target_id_from_line(" 111-222 \n"), "111222");
}

#[test]
fn target_ids_are_six_digits() {
    assert!(valid_target_id("123456"));
    assert!(!valid_target_id("12345"));
    assert!(!valid_target_id("1234567"));
    assert!(!valid_target_id("12a456"));
    assert!(!valid_target_id("１23456"));
}

#[test]
fn chat_keeps_the_last_hundred_lines() {
    let mut log = ChatLog::new();
    for i in 0..(CHAT_HISTORY + 5) {
        log.push(format!("line {}", i));
    }
    let lines = log.lines();
    assert_eq!(lines.len(), CHAT_HISTORY);
    assert_eq!(lines[0], "line 5");
    assert_eq!(lines[CHAT_HISTORY - 1], format!("line {}", CHAT_HISTORY + 4));
}

#[test]
fn chat_lines_name_the_sender() {
    assert_eq!(chat_line(0, "hi"), "HOST: hi");
    assert_eq!(chat_line(1, "hello"), "YOU: hello");
}

#[test]
fn outgoing_chat_packet() {
    let (packet, shown) = outgoing_chat("  hi there \n").unwrap();
    let mut expected = vec![16u8, 1, 0, 8];
    expected.extend_from_slice(b"hi there");
    assert_eq!(packet, expected);
    assert_eq!(shown, "YOU: hi there");
    assert!(outgoing_chat("   ").is_none());
}

#[test]
fn file_paths_lose_quotes() {
    assert_eq!(file_path_from_line("  \"C:\\a b.txt\"  "), Some("C:\\a b.txt".to_string()));
    assert_eq!(file_path_from_line("plain.txt"), Some("plain.txt".to_string()));
    assert_eq!(file_path_from_line(" \"\" "), None);
}

#[test]
fn fps_meter_counts_per_second() {
    let mut m = FpsMeter::new(1000);
    m.frame(1100);
    m.frame(1500);
    assert_eq!(m.count, 2);
    assert_eq!(m.shown, 0);
    m.frame(2000);
    assert_eq!(m.count, 0);
    assert_eq!(m.shown, 3);
    assert_eq!(m.since_ms, 2000);
}

#[test]
fn wide_strings_are_utf16_with_nul() {
    assert_eq!(deskstream::text::to_wide("A\u{20AC}\u{1F600}"), vec![0x41, 0x20AC, 0xD83D, 0xDE00, 0]);
    assert_eq!(deskstream::text::to_wide(""), vec![0]);
}

#[test]
fn file_announcements() {
    let p = deskstream::viewer::file_announcement("a.txt", 258).unwrap();
    assert_eq!(p, vec![20, 0, 5, 0, 0, 0, 0, 0, 0, 1, 2, b'a', b'.', b't', b'x', b't']);
    let long = "x".repeat(65_536);
    assert!(deskstream::viewer::file_announcement(&long, 1).is_none());
    assert!(deskstream::viewer::file_announcement(&"x".repeat(65_535), 1).is_some());
}

#[test]
fn agent_viewer_session_pieces() {
    assert_eq!(clean_target_id(" 847 293 615\n"), "847293615");
    assert!(viewer_admitted(2));
    assert!(!viewer_admitted(0));
    // A type 13 frame followed by a type 15 frame: each is read with its own
    // header size, and the payload is what follows the header.
    let f13 = deskstream::protocol::video_frame_packet(640, 480, 77, &[1, 2, 3]);
    let f15 = deskstream::protocol::legacy_video_frame_packet(640, 480, &[4, 5]);
    let mut stream = f13.clone();
    stream.extend_from_slice(&f15);
    let n = deskstream::viewer::remote_header_len(stream[0]);
    assert_eq!(n, 20);
    let len = remote_payload_len(stream[0], &stream[1..1 + n]).unwrap() as usize;
    assert_eq!(&stream[1 + n..1 + n + len], &[1, 2, 3]);
    let next = 1 + n + len;
    assert_eq!(stream[next], 15);
    let m = deskstream::viewer::remote_header_len(stream[next]);
    assert_eq!(m, 12);
    let len2 = remote_payload_len(15, &stream[next + 1..next + 1 + m]).unwrap() as usize;
    assert_eq!(&stream[next + 1 + m..next + 1 + m + len2], &[4, 5]);
    let mut h = [0u8; 12];
    h[8..12].copy_from_slice(&(50 * 1024 * 1024 + 1u32).to_be_bytes());
    assert_eq!(remote_payload_len(15, &h), None);
    assert!(is_frame_packet(13) && is_frame_packet(15) && !is_frame_packet(14));
    assert_eq!(button_change(false, true, 1, 2), Some(1));
    assert_eq!(button_change(true, false, 1, 2), Some(2));
    assert_eq!(button_change(true, true, 1, 2), None);
    assert_eq!(viewer_window_size(1920, 1080), (1600, 900));
    assert_eq!(viewer_window_size(800, 600), (800, 600));
}
