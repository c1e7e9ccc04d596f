use deskstream::backend::{backend_host_of, presence_request, resolve_backend_config};
use deskstream::discovery::{discover_request, discovery_matches, discovery_reply};
use deskstream::font::Font;
use deskstream::frame::{paint, DrawOp, Frame};
use deskstream::hud::{draw_char as hud_draw_char, draw_text as hud_draw_text, render_status};
use deskstream::identity::{pin_auth_hash, AgentConfig};
use deskstream::relay::{session_close, session_opening, writer_idle_tick, SessionClose};
use deskstream::service::RelayStats;
use deskstream::text::{byte_prefix, cat, dec_string};
use deskstream::ui::{ConnectionStatus, Tab, UiApp, COLOR_BG, COLOR_SURFACE_ALT, WINDOW_HEIGHT, WINDOW_WIDTH};

fn config() -> AgentConfig {
    AgentConfig {
        device_uuid: "0123456789abcdef-rest".to_string(),
        system_id: "847293615".to_string(),
        name: "PC".to_string(),
        relay_addr: "10.0.0.1:9001".to_string(),
        app_mode: "client".to_string(),
        relay_port: 9001,
        server_bind_addr: "0.0.0.0:9001".to_string(),
        pin: "".to_string(),
    }
}

fn texts(f: &Frame) -> Vec<String> {
    f.ops
        .iter()
        .filter_map(|op| match op {
            DrawOp::Text { text, .. } => Some(text.clone()),
            _ => None,
        })
        .collect()
}

#[test]
fn pin_hash_is_sha256() {
    let h = pin_auth_hash("abc");
    assert_eq!(&h[..4], &[0xba, 0x78, 0x16, 0xbf]);
    assert_eq!(h[31], 0xad);
}

#[test]
fn text_helpers() {
    assert_eq!(cat("a", "bc"), "abc");
    assert_eq!(dec_string(0), "0");
    assert_eq!(dec_string(18446744073709551615), "18446744073709551615");
    assert_eq!(byte_prefix("hello world", 5), "hello");
    assert_eq!(byte_prefix("hi", 5), "hi");
    assert_eq!(byte_prefix("\u{e9}t\u{e9}", 3), "\u{e9}t");
}

#[test]
fn discovery_exchange() {
    let req = discover_request("847293615");
    assert_eq!(req, "DS_DISCOVER:847293615");
    let reply = discovery_reply(&req, "847293615").unwrap();
    assert_eq!(reply, "DS_FOUND:847293615");
    assert!(discovery_matches(&reply, "847293615"));
    assert_eq!(discovery_reply("DS_DISCOVER: 847293615 \n", "847293615"), Some(reply.clone()));
    assert_eq!(discovery_reply(&req, "111111111"), None);
    assert_eq!(discovery_reply("HELLO", "847293615"), None);
    assert!(!discovery_matches("DS_FOUND:1", "847293615"));
}

#[test]
fn backend_presence() {
    assert_eq!(backend_host_of("http://example.org/Screen%20Share/backend/api"), "example.org");
    assert_eq!(backend_host_of("https://h:8443/x"), "h:8443");
    assert_eq!(backend_host_of("plain/path"), "plain");
    let (u, h, p) = resolve_backend_config(None, None, None, None);
    assert_eq!(u, "http://127.0.0.1/Screen%20Share/backend/api");
    assert_eq!(h, "127.0.0.1");
    assert_eq!(p, "80");
    let (u, h, p) = resolve_backend_config(None, Some("db"), Some("8080"), Some("http://x/api"));
    assert_eq!((u.as_str(), h.as_str(), p.as_str()), ("http://x/api", "db", "8080"));
    let r = presence_request("http://x/api/", "x", "847293615");
    assert_eq!(
        r,
        "POST http://x/api/devices/heartbeat.php HTTP/1.1\r\nHost: x\r\nContent-Type: application/json\r\nContent-Length: 25\r\nConnection: close\r\n\r\n{\"system_id\":\"847293615\"}"
    );
}

#[test]
fn browser_session_lifecycle() {
    assert_eq!(session_close(true), SessionClose::HostDisconnected);
    assert_eq!(session_close(false).code(), 1000);
    assert_eq!(SessionClose::HostDisconnected.code(), 1011);
    assert_eq!(SessionClose::ViewerDisconnected.reason(), "Viewer disconnected");
    assert_eq!(session_opening(), vec![vec![1u8], vec![2u8]]);
    assert_eq!(writer_idle_tick(0), (false, 20));
    assert_eq!(writer_idle_tick(80), (true, 0));
}

#[test]
fn hud_glyphs_and_status_box() {
    let mut buf = vec![0u32; 10 * 10];
    hud_draw_char(&mut buf, 10, 10, 0, 0, '1', 5);
    // '1' is rows 4,12,4,4,4,4,14: its first row sets only column 2.
    assert_eq!(&buf[0..5], &[0, 0, 5, 0, 0]);
    assert_eq!(buf.iter().filter(|&&p| p == 5).count(), 1 + 2 + 1 + 1 + 1 + 1 + 3);
    let mut lower = vec![0u32; 10 * 10];
    hud_draw_char(&mut lower, 10, 10, 0, 0, 'a', 5);
    let mut upper = vec![0u32; 10 * 10];
    hud_draw_char(&mut upper, 10, 10, 0, 0, 'A', 5);
    assert_eq!(lower, upper);
    let mut two = vec![0u32; 20 * 10];
    hud_draw_text(&mut two, 20, 10, 0, 0, "--", 1);
    assert_eq!(two[3 * 20 + 0], 1);
    assert_eq!(two[3 * 20 + 8], 1);
    assert_eq!(two[3 * 20 + 5], 0);
    let mut small = vec![7u32; 200 * 30];
    render_status(&mut small, 200, 30, 60, 5);
    assert!(small.iter().all(|&p| p == 7));
    let mut screen = vec![0u32; 300 * 50];
    render_status(&mut screen, 300, 50, 60, 5);
    assert_eq!(screen[12 * 300 + 78], 0x101827);
    assert_eq!(screen[11 * 300 + 78], 0);
    assert!(screen.iter().any(|&p| p == 0xFFFFFF));
}

#[test]
fn frame_of_the_dashboard() {
    let c = config();
    let ui = UiApp::new(&c, "NVENC", vec!["192.168.1.5".to_string()]);
    let stats = RelayStats::new();
    let f = ui.build_frame(&c, ConnectionStatus::Disconnected, "", false, &stats, &[], 0);
    let t = texts(&f);
    assert!(t.contains(&"847 293 615".to_string()));
    assert!(t.contains(&"\u{25CF} DISCONNECTED".to_string()));
    assert!(t.contains(&"Cannot reach server. Click to config".to_string()));
    assert!(t.contains(&"NVENC (Active)".to_string()));
    assert!(t.contains(&"Relay: 10.0.0.1:9001".to_string()));
    assert!(matches!(f.ops[0], DrawOp::Clear { color: COLOR_BG }));
}

#[test]
fn frame_of_the_relay_and_settings_tabs() {
    let c = config();
    let mut ui = UiApp::new(&c, "x", vec!["192.168.1.5".to_string()]);
    ui.current_tab = Tab::RelayServer;
    let stats = RelayStats { active_hosts: 3, active_sessions: 1, total_video_frames: 1200 };
    let t = texts(&ui.build_frame(&c, ConnectionStatus::Online, "", true, &stats, &[], 0));
    assert!(t.contains(&"ACTIVE & LISTENING".to_string()));
    assert!(t.contains(&"LAN IP: 192.168.1.5:9001".to_string()));
    assert!(t.contains(&"1200".to_string()));
    assert!(t.contains(&"3. Set Server Address to:  192.168.1.5:9001  and click Save & Connect.".to_string()));
    ui.current_tab = Tab::Settings;
    ui.network_test_result = Some((false, "x".repeat(60)));
    ui.save_feedback_timer = Some(1000);
    let t = texts(&ui.build_frame(&c, ConnectionStatus::Online, "", true, &stats, &[], 2500));
    assert!(t.contains(&"0123456789abcdef...".to_string()));
    assert!(t.contains(&"CLIENT".to_string()));
    assert!(t.contains(&"x".repeat(50)));
    assert!(t.contains(&"Saved & Connecting!".to_string()));
    let t = texts(&ui.build_frame(&c, ConnectionStatus::Online, "", true, &stats, &[], 3000));
    assert!(t.contains(&"Save & Connect Now".to_string()));
}

#[test]
fn frame_of_the_logs_tab_shows_the_last_lines() {
    let c = config();
    let mut ui = UiApp::new(&c, "x", vec![]);
    ui.current_tab = Tab::Logs;
    let logs: Vec<String> = (0..30).map(|i| format!("[SERVER] line {}", i)).collect();
    let f = ui.build_frame(&c, ConnectionStatus::Online, "", true, &RelayStats::new(), &logs, 0);
    let t = texts(&f);
    assert!(!t.contains(&"[SERVER] line 8".to_string()));
    assert!(t.contains(&"[SERVER] line 9".to_string()));
    assert!(t.contains(&"[SERVER] line 29".to_string()));
}

#[test]
fn render_paints_the_frame() {
    let c = config();
    let ui = UiApp::new(&c, "x", vec![]);
    let font = Font::new(vec![0xffu8; 95 * 13]).unwrap();
    let mut buf = vec![1u32; WINDOW_WIDTH * WINDOW_HEIGHT];
    ui.render(&font, &mut buf, &c, ConnectionStatus::Online, "", false, &RelayStats::new(), &[], 0);
    // A header pixel away from any text keeps the header color.
    assert_eq!(buf[5 * WINDOW_WIDTH + 5], COLOR_SURFACE_ALT);
    // The background shows between the cards.
    assert_eq!(buf[120 * WINDOW_WIDTH + 5], COLOR_BG);
    let mut again = vec![0u32; WINDOW_WIDTH * WINDOW_HEIGHT];
    let f = ui.build_frame(&c, ConnectionStatus::Online, "", false, &RelayStats::new(), &[], 0);
    paint(&font, &mut again, WINDOW_WIDTH, WINDOW_HEIGHT, &f.ops);
    assert_eq!(buf, again);
}
