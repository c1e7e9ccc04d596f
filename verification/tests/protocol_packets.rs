use deskstream::protocol::{
    audio_header_acceptable, audio_packet, auth_request_packet, chat_packet, clipboard_packet,
    decode_input_event, encode_input_event, file_chunk_packet, file_meta_packet, heartbeat_packet,
    heartbeat_timestamp, legacy_video_frame_packet, make_input_packet, make_key_packet,
    parse_video_header, registration_packet, round_trip_ms, video_frame_packet,
    video_header_acceptable, viewer_handshake_packet, InputEvent, MouseButton, VideoHeader,
};
use deskstream::wire::{read_u16_be, read_u32_be, read_u64_be};

#[test]
fn input_packet_is_nine_bytes_big_endian() {
    let p = make_input_packet(0, 0x1234, 0xabcd);
    assert_eq!(p, vec![0, 0x12, 0x34, 0xab, 0xcd, 0, 0, 0, 0]);
}

#[test]
fn key_packet_carries_code_in_value_a() {
    assert_eq!(make_key_packet(5, 65), vec![5, 0, 65, 0, 0, 0, 0, 0, 0]);
    assert_eq!(make_key_packet(6, 65), vec![6, 0, 65, 0, 0, 0, 0, 0, 0]);
}

#[test]
fn every_input_event_decodes_to_itself() {
    let events = vec![
        InputEvent::MouseMove { x: 100, y: 65535 },
        InputEvent::MouseDown { button: MouseButton::Left, x: 1, y: 2 },
        InputEvent::MouseUp { button: MouseButton::Left, x: 3, y: 4 },
        InputEvent::MouseDown { button: MouseButton::Right, x: 5, y: 6 },
        InputEvent::MouseUp { button: MouseButton::Right, x: 7, y: 8 },
        InputEvent::MouseDown { button: MouseButton::Middle, x: 9, y: 10 },
        InputEvent::MouseUp { button: MouseButton::Middle, x: 11, y: 12 },
        InputEvent::KeyDown { code: 46 },
        InputEvent::KeyUp { code: 0x0102 },
        InputEvent::Wheel { scroll: -120 },
        InputEvent::MonitorSwitch { index: 0 },
        InputEvent::MonitorSwitch { index: 1 },
        InputEvent::MonitorSwitch { index: 300 },
    ];
    for ev in events {
        let p = encode_input_event(ev);
        assert_eq!(p.len(), 9);
        assert_eq!(decode_input_event(p[0], &p[1..9]), Some(ev));
    }
}

#[test]
fn wheel_and_monitor_switch_use_their_own_types() {
    let w = encode_input_event(InputEvent::Wheel { scroll: -1 });
    assert_eq!(w, vec![9, 0, 0, 0xff, 0xff, 0, 0, 0, 0]);
    let m = encode_input_event(InputEvent::MonitorSwitch { index: 2 });
    assert_eq!(m, vec![10, 0, 2, 0, 0, 0, 0, 0, 0]);
}

#[test]
fn monitor_switch_index_is_value_a() {
    let raw = [0u8, 1, 0, 0, 0, 0, 0, 0];
    assert_eq!(decode_input_event(10, &raw), Some(InputEvent::MonitorSwitch { index: 1 }));
    let key = [0u8, 65, 9, 9, 9, 9, 9, 9];
    assert_eq!(decode_input_event(5, &key), Some(InputEvent::KeyDown { code: 65 }));
    assert_eq!(decode_input_event(6, &key), Some(InputEvent::KeyUp { code: 65 }));
}

#[test]
fn unknown_input_type_decodes_to_nothing() {
    let raw = [0u8; 8];
    assert_eq!(decode_input_event(11, &raw), None);
    assert_eq!(decode_input_event(200, &raw), None);
}

#[test]
fn heartbeat_roundtrip() {
    let p = heartbeat_packet(1_700_000_000_123);
    assert_eq!(p.len(), 9);
    assert_eq!(p[0], 14);
    assert_eq!(heartbeat_timestamp(&p[1..9]), 1_700_000_000_123);
}

#[test]
fn round_trip_needs_a_forward_clock() {
    assert_eq!(round_trip_ms(1500, 1000), Some(500));
    assert_eq!(round_trip_ms(1000, 1500), None);
}

#[test]
fn registration_and_handshake_layouts() {
    assert_eq!(registration_packet("123"), vec![1, b'1', b'2', b'3']);
    let hash = [7u8; 32];
    let h = viewer_handshake_packet("12", &hash);
    assert_eq!(h.len(), 1 + 2 + 32);
    assert_eq!(&h[..3], &[2, b'1', b'2']);
    assert_eq!(&h[3..], &hash[..]);
    let a = auth_request_packet(&hash);
    assert_eq!(a[0], 3);
    assert_eq!(&a[1..], &hash[..]);
}

#[test]
fn clipboard_chat_and_file_packets() {
    assert_eq!(clipboard_packet(b"hi"), vec![12, 0, 0, 0, 2, b'h', b'i']);
    assert_eq!(chat_packet(1, b"yo"), vec![16, 1, 0, 2, b'y', b'o']);
    assert_eq!(
        file_meta_packet(b"a.txt", 258),
        vec![20, 0, 5, 0, 0, 0, 0, 0, 0, 1, 2, b'a', b'.', b't', b'x', b't']
    );
    assert_eq!(file_chunk_packet(&[9, 9]), vec![21, 0, 0, 0, 2, 9, 9]);
}

#[test]
fn audio_packet_layout_and_acceptance() {
    let p = audio_packet(48000, 2, &[1, 2, 3, 4]);
    assert_eq!(p, vec![17, 0, 0, 0, 4, 0, 0, 0xbb, 0x80, 0, 2, 1, 2, 3, 4]);
    assert!(audio_header_acceptable(4, 48000, 2));
    assert!(!audio_header_acceptable(0, 48000, 2));
    assert!(!audio_header_acceptable(6, 48000, 2));
    assert!(!audio_header_acceptable(4, 0, 2));
    assert!(!audio_header_acceptable(4, 48000, 0));
    assert!(!audio_header_acceptable(1024 * 1024 + 4, 48000, 2));
}

#[test]
fn video_frame_roundtrip() {
    let data = [0u8, 0, 0, 1, 0x65, 0x88];
    let p = video_frame_packet(1920, 1080, 42, &data);
    assert_eq!(p.len(), 21 + data.len());
    assert_eq!(p[0], 13);
    let h = parse_video_header(13, &p[1..21]);
    assert_eq!(h, VideoHeader { width: 1920, height: 1080, payload_len: 6, timestamp: Some(42) });
    assert_eq!(&p[21..], &data[..]);
    assert!(video_header_acceptable(&h));
}

#[test]
fn legacy_video_frame_has_no_timestamp() {
    let p = legacy_video_frame_packet(640, 480, &[1, 2, 3]);
    assert_eq!(p.len(), 13 + 3);
    let h = parse_video_header(15, &p[1..13]);
    assert_eq!(h, VideoHeader { width: 640, height: 480, payload_len: 3, timestamp: None });
}

#[test]
fn empty_or_oversized_frames_are_refused() {
    let h = VideoHeader { width: 0, height: 1, payload_len: 1, timestamp: None };
    assert!(!video_header_acceptable(&h));
    let h = VideoHeader { width: 1, height: 1, payload_len: 50 * 1024 * 1024 + 1, timestamp: None };
    assert!(!video_header_acceptable(&h));
    let h = VideoHeader { width: 1, height: 1, payload_len: 50 * 1024 * 1024, timestamp: None };
    assert!(video_header_acceptable(&h));
}

#[test]
fn big_endian_readers() {
    assert_eq!(read_u16_be(&[1, 2]), Some(0x0102));
    assert_eq!(read_u16_be(&[1]), None);
    assert_eq!(read_u32_be(&[0, 0, 1, 0, 9]), Some(256));
    assert_eq!(read_u64_be(&[0, 0, 0, 0, 0, 0, 0, 5]), Some(5));
    assert_eq!(read_u64_be(&[0; 7]), None);
}
