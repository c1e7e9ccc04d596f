use deskstream::registry::HostRegistry;
use deskstream::relay::{
    assemble_host_frame, classify_auth_reply, classify_connection, classify_embedded_connection,
    classify_viewer_ack, decode_session_id, host_frame_rule, host_id_len, host_payload_len,
    is_video_lane, parse_ws_viewer_request, tcp_viewer_id_len, AuthReply, ConnectionKind,
    HostFrameRule, ViewerAck, ViewerRejection,
};
use deskstream::relay::{pair_request, pair_verdict, PairRequest, PAIR_OFFLINE, PAIR_REQUEST};
use deskstream::service::{RelayService, RelayStats};

fn peek14(prefix: &[u8]) -> Vec<u8> {
    let mut v = prefix.to_vec();
    v.resize(14, 0);
    v
}

#[test]
fn connections_are_classified_by_their_first_bytes() {
    assert_eq!(classify_connection(&peek14(b"GET /health HTTP")), ConnectionKind::HealthCheck);
    assert_eq!(classify_connection(&peek14(b"GET /ws HTTP/1.1")), ConnectionKind::WebSocketViewer);
    assert_eq!(classify_connection(&peek14(&[1, b'1', b'2'])), ConnectionKind::Host);
    assert_eq!(classify_connection(&peek14(&[2, b'1'])), ConnectionKind::TcpViewer);
    assert_eq!(classify_connection(&peek14(&[9])), ConnectionKind::Unknown);
}

#[test]
fn embedded_relay_takes_http_as_websocket() {
    assert_eq!(classify_embedded_connection(b"GET / HTTP/1.1"), ConnectionKind::WebSocketViewer);
    assert_eq!(classify_embedded_connection(b"HTTP/1.1"), ConnectionKind::WebSocketViewer);
    assert_eq!(classify_embedded_connection(&[1, b'4']), ConnectionKind::Host);
    assert_eq!(classify_embedded_connection(&[2]), ConnectionKind::TcpViewer);
    assert_eq!(classify_embedded_connection(b"GE"), ConnectionKind::Unknown);
}

#[test]
fn host_identifier_length() {
    assert_eq!(host_id_len(b"847293615\x0e"), 9);
    assert_eq!(host_id_len(b"abc-12 rest"), 6);
    assert_eq!(host_id_len(&[0xff; 12]), 9);
    assert_eq!(host_id_len(&[0xff; 3]), 6);
    assert_eq!(tcp_viewer_id_len(41), 9);
    assert_eq!(tcp_viewer_id_len(38), 6);
    assert_eq!(tcp_viewer_id_len(32), 9);
}

#[test]
fn session_ids_are_trimmed_utf8() {
    assert_eq!(decode_session_id(b"  847293615\n"), Some("847293615".to_string()));
    assert_eq!(decode_session_id(&[0xff, 0xfe]), None);
}

#[test]
fn websocket_viewer_requests() {
    let mut msg = vec![2u8];
    msg.extend_from_slice(b"847 293 615\0\0");
    msg.extend_from_slice(&[5u8; 32]);
    let req = parse_ws_viewer_request(&msg).unwrap();
    assert_eq!(req.session_id, "847 293 615");
    assert_eq!(req.auth_hash, vec![5u8; 32]);

    let short = [2u8, b'4', b'2'];
    let req = parse_ws_viewer_request(&short).unwrap();
    assert_eq!(req.session_id, "42");
    assert_eq!(req.auth_hash, vec![0u8; 32]);

    assert!(matches!(parse_ws_viewer_request(&[2]), Err(ViewerRejection::Malformed)));
    assert!(matches!(parse_ws_viewer_request(&[1, b'4']), Err(ViewerRejection::Malformed)));
    assert!(matches!(parse_ws_viewer_request(&[2, 0xff]), Err(ViewerRejection::InvalidId)));
}

#[test]
fn replies_and_acks() {
    assert_eq!(classify_auth_reply(1), AuthReply::Approved);
    assert_eq!(classify_auth_reply(0), AuthReply::Rejected);
    assert_eq!(classify_auth_reply(14), AuthReply::Heartbeat);
    assert_eq!(classify_auth_reply(7), AuthReply::Unexpected);
    assert_eq!(classify_viewer_ack(1), ViewerAck::Approved);
    assert_eq!(classify_viewer_ack(2), ViewerAck::Rejected);
    assert_eq!(classify_viewer_ack(0), ViewerAck::HostNotFound);
}

#[test]
fn host_frames_are_sized_by_their_header() {
    assert_eq!(host_frame_rule(13), HostFrameRule::Header(20));
    assert_eq!(host_frame_rule(15), HostFrameRule::Header(12));
    assert_eq!(host_frame_rule(99), HostFrameRule::EndSession);
    assert_eq!(host_frame_rule(50), HostFrameRule::Ignore);
    let mut h = vec![0u8; 20];
    h[0..4].copy_from_slice(&1920u32.to_be_bytes());
    h[4..8].copy_from_slice(&1080u32.to_be_bytes());
    h[8..12].copy_from_slice(&1000u32.to_be_bytes());
    assert_eq!(host_payload_len(13, &h), Some(1000));
    h[0..4].copy_from_slice(&0u32.to_be_bytes());
    assert_eq!(host_payload_len(13, &h), None);
    h[0..4].copy_from_slice(&7681u32.to_be_bytes());
    assert_eq!(host_payload_len(13, &h), None);
    assert_eq!(host_payload_len(16, &[1, 2]), Some(258));
    assert_eq!(host_payload_len(14, &[0; 8]), Some(0));
    let mut clip = vec![0u8; 4];
    clip.copy_from_slice(&(50u32 * 1024 * 1024 + 1).to_be_bytes());
    assert_eq!(host_payload_len(12, &clip), None);
}

#[test]
fn forwarded_frames_keep_their_bytes() {
    assert_eq!(assemble_host_frame(12, &[0, 0, 0, 1], b"x"), vec![12, 0, 0, 0, 1, b'x']);
    assert!(is_video_lane(13));
    assert!(is_video_lane(15));
    assert!(!is_video_lane(12));
}

#[test]
fn registry_read_after_write_and_stale_release() {
    let mut reg: HostRegistry<u32> = HostRegistry::new();
    assert_eq!(reg.register("847293615".to_string(), 1, 10), None);
    assert_eq!(reg.get("847293615"), Some(&10));
    assert_eq!(reg.len(), 1);
    // The host reconnects: the newer connection replaces the older one.
    assert_eq!(reg.register("847293615".to_string(), 2, 20), Some(10));
    assert_eq!(reg.len(), 1);
    // The old connection closing does not unregister the new one.
    assert!(!reg.release("847293615", 1));
    assert_eq!(reg.get("847293615"), Some(&20));
    assert!(reg.release("847293615", 2));
    assert_eq!(reg.get("847293615"), None);
    assert_eq!(reg.len(), 0);
}

#[test]
fn registry_lookup_ignores_spaces_and_take_removes() {
    let mut reg: HostRegistry<&str> = HostRegistry::new();
    reg.register("847293615".to_string(), 1, "host");
    assert_eq!(reg.get_lenient("847 293 615"), Some(&"host"));
    assert_eq!(reg.get("847 293 615"), None);
    assert_eq!(reg.take("847293615"), Some("host"));
    assert_eq!(reg.take("847293615"), None);
}

#[test]
fn relay_counters() {
    let mut s = RelayStats::new();
    s.host_registered(false);
    s.host_registered(true);
    s.session_started();
    s.video_frame_relayed();
    s.video_frame_relayed();
    assert_eq!((s.active_hosts, s.active_sessions, s.total_video_frames), (1, 1, 2));
    let mut m = RelayStats { active_hosts: u64::MAX, active_sessions: 0, total_video_frames: 0 };
    m.host_registered(false);
    assert_eq!(m.active_hosts, 0);
}

#[test]
fn relay_service_start_and_stop() {
    let mut svc = RelayService::new("0.0.0.0:9001".to_string());
    assert!(!svc.is_running);
    assert_eq!(svc.listen_port(), "9001");
    assert_eq!(svc.probe_address(), "127.0.0.1:9001");
    svc.bind_succeeded();
    assert!(svc.is_running);
    svc.stop();
    assert!(!svc.is_running);
    assert_eq!(svc.bind_failed(true, "in use"), Ok(()));
    assert!(svc.is_running);
    svc.stop();
    assert_eq!(
        svc.bind_failed(false, "in use"),
        Err("[SERVER][ERROR] Port 9001 is occupied by another process: in use".to_string())
    );
    assert!(!svc.is_running);
}

#[test]
fn agent_video_frames_are_forwarded_unchanged() {
    let data = [0u8, 0, 0, 1, 0x65, 0xAA];
    let p = deskstream::protocol::video_frame_packet(1920, 1080, 42, &data);
    assert_eq!(host_frame_rule(p[0]), HostFrameRule::Header(20));
    assert_eq!(host_payload_len(p[0], &p[1..21]), Some(data.len() as u64));
    assert_eq!(assemble_host_frame(p[0], &p[1..21], &p[21..]), p);
    let q = deskstream::protocol::legacy_video_frame_packet(640, 480, &data);
    assert_eq!(host_frame_rule(q[0]), HostFrameRule::Header(12));
    assert_eq!(host_payload_len(q[0], &q[1..13]), Some(data.len() as u64));
    assert_eq!(assemble_host_frame(q[0], &q[1..13], &q[13..]), q);
    // Beyond the relay's width limit the session ends.
    let wide = deskstream::protocol::video_frame_packet(7681, 1080, 42, &data);
    assert_eq!(host_payload_len(wide[0], &wide[1..21]), None);
}

#[test]
fn built_in_relay_pairs_agents_and_viewers() {
    assert_eq!(pair_request(b"\x01123456"), Some(PairRequest::AgentWaits("123456".to_string())));
    assert_eq!(pair_request(b"\x02 12345"), Some(PairRequest::ViewerAsks(" 12345".to_string())));
    assert_eq!(pair_request(b"\x09123456"), Some(PairRequest::Other));
    assert_eq!(pair_request(&[1, 0xFF, 0, 0, 0, 0, 0]), None);
    assert_eq!(pair_verdict(Some(1)), 1);
    assert_eq!(pair_verdict(Some(0)), 2);
    assert_eq!(pair_verdict(None), 2);
    assert_eq!((PAIR_REQUEST, PAIR_OFFLINE), (3, 0));
}

#[test]
fn agent_audio_and_clipboard_are_forwarded_unchanged() {
    let samples = [0u8, 0, 128, 63, 0, 0, 0, 0];
    let a = deskstream::protocol::audio_packet(48000, 2, &samples);
    assert_eq!(host_frame_rule(a[0]), HostFrameRule::Header(10));
    assert_eq!(host_payload_len(a[0], &a[1..11]), Some(8));
    assert_eq!(assemble_host_frame(a[0], &a[1..11], &a[11..]), a);
    let c = deskstream::protocol::clipboard_packet(b"copied text");
    assert_eq!(host_frame_rule(c[0]), HostFrameRule::Header(4));
    assert_eq!(host_payload_len(c[0], &c[1..5]), Some(11));
    assert_eq!(assemble_host_frame(c[0], &c[1..5], &c[5..]), c);
}
