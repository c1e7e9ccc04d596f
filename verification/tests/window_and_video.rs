use deskstream::canvas::{draw_rect_outline, fill_rect, fill_rounded_rect};
use deskstream::font::{draw_char, draw_text, text_width, Font};
use deskstream::h264::{convert_to_annex_b, nal_unit_types};
use deskstream::identity::AgentConfig;
use deskstream::keys::{
    key_event_flags, key_to_agent_code, monitor_hotkey_packet, key_to_char, legacy_key_code, map_key_code, AgentKey, Key,
};
use deskstream::nv12::rgba_to_nv12;
use deskstream::ui::{is_in_rect, ConnectionStatus, Tab, UiApp};

fn config() -> AgentConfig {
    AgentConfig {
        device_uuid: "u".to_string(),
        system_id: "847293615".to_string(),
        name: "PC".to_string(),
        relay_addr: "10.0.0.1:9001".to_string(),
        app_mode: "client".to_string(),
        relay_port: 9001,
        server_bind_addr: "0.0.0.0:9001".to_string(),
        pin: "".to_string(),
    }
}

/// A font whose glyph for 'A' is a full block and whose other glyphs are empty.
fn block_font() -> Font {
    let mut rows = vec![0u8; 95 * 13];
    let a = (b'A' - 32) as usize * 13;
    for r in 0..13 {
        rows[a + r] = 0xff;
    }
    Font::new(rows).unwrap()
}

#[test]
fn font_needs_thirteen_rows_per_glyph() {
    assert!(Font::new(vec![0u8; 95 * 13]).is_some());
    assert!(Font::new(vec![0u8; 10]).is_none());
}

#[test]
fn draw_char_paints_its_glyph_clipped() {
    let font = block_font();
    let mut buf = vec![0u32; 20 * 20];
    draw_char(&font, &mut buf, 20, 20, 15, 10, 'A', 7, 1);
    let painted = buf.iter().filter(|&&p| p == 7).count();
    // 5 columns fit (15..20) and 10 rows (10..20).
    assert_eq!(painted, 5 * 10);
    assert_eq!(buf[10 * 20 + 15], 7);
    assert_eq!(buf[10 * 20 + 14], 0);
    let mut buf2 = vec![0u32; 20 * 20];
    draw_char(&font, &mut buf2, 20, 20, 0, 0, 'B', 7, 1);
    assert!(buf2.iter().all(|&p| p == 0));
    draw_char(&font, &mut buf2, 20, 20, 0, 0, 'A', 7, 0);
    assert!(buf2.iter().all(|&p| p == 0));
}

#[test]
fn draw_text_advances_and_wraps() {
    let font = block_font();
    let mut buf = vec![0u32; 40 * 40];
    draw_text(&font, &mut buf, 40, 40, 0, 0, "BA\nA", 1, 1);
    // 'A' after 'B' at x = 8; the second line starts at x = 0, y = 15.
    assert_eq!(buf[0], 0);
    assert_eq!(buf[8], 1);
    assert_eq!(buf[15 * 40], 1);
    assert_eq!(buf[14 * 40], 0);
    let count = buf.iter().filter(|&&p| p == 1).count();
    assert_eq!(count, 2 * 8 * 13);
    assert_eq!(text_width("Relay Server", 1), 96);
    assert_eq!(text_width("ab", 3), 48);
}

#[test]
fn rectangles() {
    let mut buf = vec![0u32; 10 * 10];
    fill_rect(&mut buf, 10, 10, 8, 8, 5, 5, 3);
    assert_eq!(buf.iter().filter(|&&p| p == 3).count(), 4);
    let mut o = vec![0u32; 10 * 10];
    draw_rect_outline(&mut o, 10, 10, 1, 1, 4, 3, 9);
    assert_eq!(o.iter().filter(|&&p| p == 9).count(), 10);
    assert_eq!(o[2 * 10 + 2], 0);
    let mut r = vec![0u32; 10 * 10];
    fill_rounded_rect(&mut r, 10, 10, 0, 0, 6, 6, 2, 1);
    assert_eq!(r[0], 0);
    assert_eq!(r[2], 1);
    assert_eq!(r[2 * 10], 1);
    assert_eq!(r.iter().filter(|&&p| p == 1).count(), 36 - 4 * 4);
    assert!(is_in_rect(5, 5, 0, 0, 5, 5));
    assert!(!is_in_rect(6, 5, 0, 0, 5, 5));
}

#[test]
fn key_tables() {
    assert_eq!(key_to_agent_code(Key::Letter(0)), Some(65));
    assert_eq!(key_to_agent_code(Key::Letter(25)), Some(90));
    assert_eq!(key_to_agent_code(Key::Letter(26)), None);
    assert_eq!(key_to_agent_code(Key::Digit(7)), Some(55));
    assert_eq!(key_to_agent_code(Key::Escape), Some(27));
    assert_eq!(key_to_agent_code(Key::NumPad(1)), None);
    assert_eq!(legacy_key_code(Key::Left), Some(37));
    assert_eq!(legacy_key_code(Key::Escape), None);
    assert_eq!(legacy_key_code(Key::Delete), None);
    assert_eq!(key_to_char(Key::NumPad(3)), Some('3'));
    assert_eq!(key_to_char(Key::Letter(2)), Some('c'));
    assert_eq!(key_to_char(Key::NumPadDot), Some('.'));
    assert_eq!(key_to_char(Key::Enter), None);
    assert_eq!(map_key_code(65), Some(AgentKey::Unicode('a')));
    assert_eq!(map_key_code(57), Some(AgentKey::Unicode('9')));
    assert_eq!(map_key_code(46), Some(AgentKey::Delete));
    assert_eq!(map_key_code(27), None);
    assert_eq!(map_key_code(key_to_agent_code(Key::Letter(7)).unwrap()), Some(AgentKey::Unicode('h')));
    assert_eq!(key_event_flags(37, false), 1);
    assert_eq!(key_event_flags(37, true), 3);
    assert_eq!(key_event_flags(65, true), 2);
    assert_eq!(key_event_flags(145, false), 1);
}

#[test]
fn window_starts_on_the_mode_tab() {
    let mut c = config();
    let ui = UiApp::new(&c, "NVIDIA NVENC", vec!["192.168.1.5".to_string()]);
    assert_eq!(ui.current_tab, Tab::Dashboard);
    assert_eq!(ui.input_relay_addr, "10.0.0.1:9001");
    c.app_mode = "server".to_string();
    let ui = UiApp::new(&c, "x", vec![]);
    assert_eq!(ui.current_tab, Tab::RelayServer);
    assert_eq!(ConnectionStatus::Authenticating.as_str(), "AUTHENTICATING");
    assert_eq!(ConnectionStatus::Online.as_str(), "ONLINE");
}

#[test]
fn typing_and_connecting() {
    let mut c = config();
    let mut ui = UiApp::new(&c, "x", vec![]);
    ui.active_field = 1;
    let keys = [Key::Digit(8), Key::Space, Key::Digit(4), Key::Digit(7), Key::Backspace, Key::Digit(9), Key::Enter];
    let e = ui.handle_input(&keys, false, 0, 0, &mut c, 1000);
    assert!(!e.save_config);
    assert_eq!(ui.input_partner_id, "8 49");
    assert_eq!(ui.connect_request, Some(("849".to_string(), "".to_string())));
    // The partner field takes at most 12 bytes.
    for _ in 0..20 {
        ui.handle_key(Key::Digit(1), &mut c, 0);
    }
    assert_eq!(ui.input_partner_id.len(), 12);
    ui.handle_key(Key::Tab, &mut c, 0);
    assert_eq!(ui.active_field, 2);
    ui.handle_key(Key::Escape, &mut c, 0);
    assert_eq!(ui.active_field, 0);
}

#[test]
fn saving_settings_from_the_keyboard() {
    let mut c = config();
    let mut ui = UiApp::new(&c, "x", vec![]);
    ui.active_field = 4;
    ui.input_relay_addr = " 10.9.9.9:9001 ".to_string();
    ui.handle_key(Key::Digit(5), &mut c, 0);
    let save = ui.handle_key(Key::Enter, &mut c, 777);
    assert!(save);
    assert_eq!(c.relay_addr, "10.9.9.9:9001");
    assert_eq!(c.pin, "5");
    assert_eq!(ui.save_feedback_timer, Some(777));
    assert!(ui.config_updated);
    assert_eq!(ui.active_field, 0);
}

#[test]
fn clicks_switch_modes_tabs_and_copy() {
    let mut c = config();
    let mut ui = UiApp::new(&c, "x", vec!["192.168.1.5".to_string()]);
    // Server mode pill.
    let e = ui.handle_mouse(true, 700, 30, &mut c, 0);
    assert!(e.save_config);
    assert_eq!(c.app_mode, "server");
    assert_eq!(ui.current_tab, Tab::RelayServer);
    // Holding the button is not another click.
    let e = ui.handle_mouse(true, 610, 260, &mut c, 0);
    assert!(e.copy_server_address.is_none());
    let _ = ui.handle_mouse(false, 0, 0, &mut c, 0);
    let e = ui.handle_mouse(true, 610, 260, &mut c, 0);
    assert_eq!(e.copy_server_address, Some("192.168.1.5:9001".to_string()));
    ui.server_address_copied(50);
    assert_eq!(ui.copy_server_ip_timer, Some(50));
    let _ = ui.handle_mouse(false, 0, 0, &mut c, 0);
    // Dashboard tab, then the copy-ID button.
    let _ = ui.handle_mouse(true, 40, 80, &mut c, 0);
    assert_eq!(ui.current_tab, Tab::Dashboard);
    let _ = ui.handle_mouse(false, 0, 0, &mut c, 0);
    let e = ui.handle_mouse(true, 220, 250, &mut c, 0);
    assert_eq!(e.copy_system_id, Some("847293615".to_string()));
    let _ = ui.handle_mouse(false, 0, 0, &mut c, 0);
    // The offline banner leads to the relay address field of the settings.
    let _ = ui.handle_mouse(true, 60, 415, &mut c, 0);
    assert_eq!(ui.current_tab, Tab::Settings);
    let _ = ui.handle_mouse(false, 0, 0, &mut c, 0);
    let _ = ui.handle_mouse(true, 300, 390, &mut c, 0);
    assert!(ui.test_network_requested);
}

#[test]
fn annex_b_conversion() {
    let avcc = [0u8, 0, 0, 2, 0x67, 0x42, 0, 0, 0, 1, 0x65];
    let out = convert_to_annex_b(&avcc);
    assert_eq!(out, vec![0, 0, 0, 1, 0x67, 0x42, 0, 0, 0, 1, 0x65]);
    assert_eq!(convert_to_annex_b(&out), out);
    assert_eq!(convert_to_annex_b(&[]), Vec::<u8>::new());
    let bad = [0u8, 0, 0, 9, 1];
    assert_eq!(convert_to_annex_b(&bad), bad.to_vec());
    let partial = [0u8, 0, 0, 1, 0x41, 0, 0, 0, 9];
    assert_eq!(convert_to_annex_b(&partial), partial.to_vec());
    let truncated = [0u8, 0, 0, 2, 0xaa, 0xbb, 0, 0, 0, 5, 1];
    assert_eq!(convert_to_annex_b(&truncated), vec![0, 0, 0, 1, 0xaa, 0xbb]);
}

#[test]
fn nal_types_of_a_keyframe() {
    let s = [0u8, 0, 0, 1, 0x67, 1, 0, 0, 1, 0x68, 2, 0, 0, 0, 1, 0x65, 3, 4];
    let n = nal_unit_types(&s);
    assert_eq!(n.types, vec![7, 8, 5]);
    assert!(n.has_sps && n.has_pps && n.has_idr);
    let p = nal_unit_types(&[0, 0, 1, 0x41, 9]);
    assert_eq!(p.types, vec![1]);
    assert!(!p.has_idr);
    assert!(nal_unit_types(&[0, 0, 1]).types.is_empty());
}

#[test]
fn nv12_conversion_of_a_two_by_two_image() {
    let rgba = [255u8, 0, 0, 255, 0, 255, 0, 255, 0, 0, 255, 255, 255, 255, 255, 255];
    let mut out = vec![0u8; 6];
    rgba_to_nv12(&rgba, 2, 2, &mut out);
    assert_eq!(out, vec![82, 144, 41, 235, 90, 240]);
}

#[test]
fn nv12_odd_width_and_short_input() {
    // 3x3 gray image: the chroma of row 2 starts where row 0's last V went.
    let rgba = vec![10u8, 20, 30, 255].repeat(9);
    let mut out = vec![0u8; 9 + 6];
    rgba_to_nv12(&rgba, 3, 3, &mut out);
    assert_eq!(&out[..9], &[32u8; 9]);
    assert_eq!(&out[9..], &[134, 123, 134, 134, 123, 0]);
    // Only the first pixel's bytes are present.
    let mut short = vec![0u8; 4 + 2];
    rgba_to_nv12(&[0, 0, 0], 2, 2, &mut short);
    assert_eq!(short, vec![16, 0, 0, 0, 128, 128]);
}

#[test]
fn nv12_samples_stay_in_studio_range() {
    let rgba = [0u8, 0, 0, 255, 255, 255, 255, 255, 0, 0, 255, 255, 255, 0, 0, 255];
    let mut out = vec![0u8; 6];
    rgba_to_nv12(&rgba, 2, 2, &mut out);
    assert_eq!(&out[..4], &[16, 235, 41, 82]);
    for s in &out[4..] {
        assert!((16..=240).contains(s));
    }
}

#[test]
fn captured_bgra_becomes_opaque_rgba() {
    let bgra = [1u8, 2, 3, 0, 10, 20, 30, 40, 9];
    assert_eq!(deskstream::agent::bgra_to_rgba(&bgra), vec![3, 2, 1, 255, 30, 20, 10, 255]);
    assert!(deskstream::agent::bgra_to_rgba(&[]).is_empty());
}

#[test]
fn non_printable_characters_draw_nothing_anywhere() {
    let font = block_font();
    let mut tiny = vec![7u32; 2];
    draw_char(&font, &mut tiny, 100, 100, usize::MAX, usize::MAX, '\n', 1, 3);
    assert_eq!(tiny, vec![7, 7]);
}

#[test]
fn function_keys_switch_monitors() {
    assert_eq!(monitor_hotkey_packet(Key::Function(1)), Some(vec![10, 0, 0, 0, 0, 0, 0, 0, 0]));
    assert_eq!(monitor_hotkey_packet(Key::Function(2)), Some(vec![10, 0, 1, 0, 0, 0, 0, 0, 0]));
    assert_eq!(monitor_hotkey_packet(Key::Function(3)), Some(vec![10, 0, 2, 0, 0, 0, 0, 0, 0]));
    assert_eq!(monitor_hotkey_packet(Key::Function(4)), None);
    assert_eq!(monitor_hotkey_packet(Key::Function(0)), None);
    assert_eq!(monitor_hotkey_packet(Key::Letter(0)), None);
    assert_eq!(key_to_agent_code(Key::Function(1)), None);
}

#[test]
fn draw_text_equals_its_characters_drawn_in_order() {
    let font = Font::new((0..95 * 13).map(|i| (i * 37 % 251) as u8).collect()).unwrap();
    let mut by_text = vec![3u32; 50 * 40];
    draw_text(&font, &mut by_text, 50, 40, 2, 1, "Hi\n!~", 9, 2);
    let mut by_chars = vec![3u32; 50 * 40];
    draw_char(&font, &mut by_chars, 50, 40, 2, 1, 'H', 9, 2);
    draw_char(&font, &mut by_chars, 50, 40, 2 + 16, 1, 'i', 9, 2);
    draw_char(&font, &mut by_chars, 50, 40, 2, 1 + 30, '!', 9, 2);
    draw_char(&font, &mut by_chars, 50, 40, 2 + 16, 1 + 30, '~', 9, 2);
    assert_eq!(by_text, by_chars);
    let mut empty = vec![3u32; 50 * 40];
    draw_text(&font, &mut empty, 50, 40, 2, 1, "", 9, 2);
    assert!(empty.iter().all(|&p| p == 3));
}

#[test]
fn fields_stay_within_their_limits_whatever_is_typed() {
    let mut c = config();
    let mut ui = UiApp::new(&c, "x", vec![]);
    let typing: Vec<Key> = (0..60)
        .map(|i| match i % 5 {
            0 => Key::Letter((i % 26) as u8),
            1 => Key::Digit((i % 10) as u8),
            2 => Key::Period,
            3 => Key::Space,
            _ => Key::Minus,
        })
        .collect();
    for field in 1..=4 {
        ui.active_field = field;
        ui.handle_input(&typing, false, 0, 0, &mut c, 5);
        ui.active_field = field;
        ui.handle_input(&[Key::Backspace, Key::Letter(1), Key::Letter(2)], false, 0, 0, &mut c, 5);
        assert!(ui.input_partner_id.len() <= 12);
        assert!(ui.input_partner_pin.len() <= 16);
        assert!(ui.input_relay_addr.len() <= 40);
        assert!(ui.input_pin.len() <= 16);
    }
    assert_eq!(ui.input_partner_id.len(), 12);
    assert_eq!(ui.input_partner_pin.len(), 16);
    assert_eq!(ui.input_pin.len(), 16);
    assert!(ui.input_partner_id.chars().all(|ch| ch.is_ascii_digit() || ch.is_ascii_lowercase() || ".- ".contains(ch)));
    // Clicks change no field.
    let before = ui.input_relay_addr.clone();
    ui.handle_input(&[], true, 100, 80, &mut c, 6);
    assert_eq!(ui.input_relay_addr, before);
}
