use deskstream::identity::{
    default_app_mode, default_relay_port, default_server_bind_addr, format_uuid_v4,
    generate_deterministic_system_id, generate_uuid_v4, new_identity, reconcile_config,
    system_id_from_digest, AgentConfig,
};
use deskstream::setup::{install_config_json, resolve_server_addr, server_addr_from_args, server_config_json};
use deskstream::json_text::{extract_server_addr, server_config_backend_url};

fn config(uuid: &str, sid: &str, relay: &str) -> AgentConfig {
    AgentConfig {
        device_uuid: uuid.to_string(),
        system_id: sid.to_string(),
        name: "PC".to_string(),
        relay_addr: relay.to_string(),
        app_mode: "client".to_string(),
        relay_port: 9001,
        server_bind_addr: "0.0.0.0:9001".to_string(),
        pin: String::new(),
    }
}

#[test]
fn system_id_is_sha256_prefix_reduced_to_nine_digits() {
    // SHA-256("abc") begins ba 78 16 bf; 0xba7816bf mod 900000000 + 100000000.
    assert_eq!(generate_deterministic_system_id("abc"), "528432319");
    assert_eq!(generate_deterministic_system_id("hw-1-pc"), "896911404");
    let mut digest = [0u8; 32];
    assert_eq!(system_id_from_digest(&digest), "100000000");
    digest[0..4].copy_from_slice(&899_999_999u32.to_be_bytes());
    assert_eq!(system_id_from_digest(&digest), "999999999");
}

#[test]
fn generated_ids_display_in_three_groups() {
    let mut c = config("u", "", "10.0.0.1:9001");
    c.system_id = generate_deterministic_system_id("abc");
    assert_eq!(c.formatted_id(), "528 432 319");
}

#[test]
fn formatted_id_cases() {
    assert_eq!(config("u", "847293615", "").formatted_id(), "847 293 615");
    assert_eq!(config("u", "847-293", "").formatted_id(), "847 293");
    assert_eq!(config("u", "", "").formatted_id(), "Connecting...");
    assert_eq!(config("u", "12ab34", "").formatted_id(), "1234");
}

#[test]
fn server_mode_ignores_case() {
    let mut c = config("u", "1", "");
    assert!(!c.is_server_mode());
    c.app_mode = "SeRvEr".to_string();
    assert!(c.is_server_mode());
    c.app_mode = "servers".to_string();
    assert!(!c.is_server_mode());
}

#[test]
fn defaults() {
    assert_eq!(default_app_mode(), "client");
    assert_eq!(default_relay_port(), 9001);
    assert_eq!(default_server_bind_addr(), "0.0.0.0:9001");
}

#[test]
fn uuid_v4_format() {
    let bytes = [0xffu8; 16];
    assert_eq!(format_uuid_v4(&bytes), "ffffffff-ffff-4fff-bfff-ffffffffffff");
    let zero = [0u8; 16];
    assert_eq!(format_uuid_v4(&zero), "00000000-0000-4000-8000-000000000000");
    let u = generate_uuid_v4();
    assert_eq!(u.len(), 36);
    assert_eq!(&u[14..15], "4");
}

#[test]
fn new_identity_uses_hardware_and_host_name() {
    let c = new_identity("hw", "pc", "10.0.0.5:9001");
    assert_eq!(c.device_uuid, "hw");
    assert_eq!(c.system_id, generate_deterministic_system_id("hw-pc"));
    assert_eq!(c.name, "pc");
    assert_eq!(c.relay_addr, "10.0.0.5:9001");
    assert_eq!(c.app_mode, "client");
    assert_eq!(c.relay_port, 9001);
    assert_eq!(c.pin, "");
}

#[test]
fn reconcile_repairs_cloned_and_incomplete_configs() {
    let stored = config("other-machine", "111111111", "127.0.0.1:9001");
    let r = reconcile_config(stored, "hw", "pc", "10.0.0.5:9001");
    assert!(r.dirty);
    assert!(r.hardware_mismatch);
    assert_eq!(r.config.device_uuid, "hw");
    assert_eq!(r.config.system_id, generate_deterministic_system_id("hw-pc"));
    assert_eq!(r.config.relay_addr, "10.0.0.5:9001");
}

#[test]
fn reconcile_settles_after_one_pass() {
    let first = reconcile_config(config("", "", ""), "hw", "pc", "10.0.0.5:9001");
    assert!(first.dirty);
    let second = reconcile_config(first.config, "hw", "pc", "10.0.0.5:9001");
    assert!(!second.dirty);
    assert!(!second.hardware_mismatch);
    let fresh = reconcile_config(new_identity("hw", "pc", "10.0.0.5:9001"), "hw", "pc", "10.0.0.5:9001");
    assert!(!fresh.dirty);
}

#[test]
fn installer_prefers_previous_config_then_argument_then_file() {
    let prev = "{\n  \"server_addr\": \"203.0.113.7\"\n}";
    let args = vec!["--server-addr=198.51.100.2".to_string()];
    assert_eq!(resolve_server_addr(Some(prev), &args, Some("192.0.2.1")), "203.0.113.7");
    let local = "{\"server_addr\": \"127.0.0.1\"}";
    assert_eq!(resolve_server_addr(Some(local), &args, Some("192.0.2.1")), "198.51.100.2");
    assert_eq!(resolve_server_addr(None, &[], Some("  192.0.2.1\n")), "192.0.2.1");
    assert_eq!(resolve_server_addr(None, &[], Some("localhost:80")), "");
    assert_eq!(resolve_server_addr(None, &[], None), "");
}

#[test]
fn installer_argument_parsing() {
    let args = vec![
        "--quiet".to_string(),
        "--server-addr=".to_string(),
        "--server-addr=--server-addr=10.1.1.1".to_string(),
    ];
    assert_eq!(server_addr_from_args(&args), Some("10.1.1.1".to_string()));
    assert_eq!(server_addr_from_args(&["--server-addr=".to_string()]), None);
}

#[test]
fn installer_config_is_read_back() {
    let json = server_config_json("203.0.113.7");
    assert_eq!(
        json,
        "{\n  \"server_addr\": \"203.0.113.7\",\n  \"backend_url\": \"http://203.0.113.7/Screen%20Share/backend/api\",\n  \"relay_url\": \"127.0.0.1:9001\"\n}\n"
    );
    assert_eq!(extract_server_addr(&json), Some("203.0.113.7".to_string()));
    assert_eq!(
        server_config_backend_url(&json),
        Some("http://203.0.113.7/Screen%20Share/backend/api".to_string())
    );
    assert_eq!(install_config_json(""), server_config_json("127.0.0.1"));
}

fn utf16_le(s: &str) -> Vec<u8> {
    s.encode_utf16().flat_map(|u| u.to_le_bytes()).collect()
}

#[test]
fn machine_guid_is_read_from_registry_bytes() {
    let mut bytes = utf16_le(" 5f1c2d3e-aaaa-bbbb-cccc-0123456789ab\n\0");
    bytes.push(0x41);
    assert_eq!(
        deskstream::identity::machine_guid_from_value(&bytes),
        Some("5f1c2d3e-aaaa-bbbb-cccc-0123456789ab".to_string())
    );
    assert_eq!(deskstream::identity::machine_guid_from_value(&utf16_le("\0\0")), None);
    assert_eq!(deskstream::identity::machine_guid_from_value(&[]), None);
    // A lone high surrogate becomes the replacement character.
    assert_eq!(deskstream::identity::machine_guid_from_value(&[0x00, 0xD8, 0x41, 0x00]), Some("\u{FFFD}A".to_string()));
}

#[test]
fn permanent_uuid_prefers_the_machine_guid() {
    assert_eq!(deskstream::identity::permanent_machine_uuid(Some("guid-1".to_string())), "guid-1");
    let fresh = deskstream::identity::permanent_machine_uuid(None);
    assert_eq!(fresh.len(), 36);
    assert_eq!(fresh.as_bytes()[14], b'4');
}

#[test]
fn setup_modes_from_arguments() {
    let a = |v: &[&str]| v.iter().map(|s| s.to_string()).collect::<Vec<String>>();
    assert_eq!(deskstream::setup::setup_mode(&a(&["setup.exe", "/UNINSTALL"])), deskstream::setup::SetupMode::Uninstall);
    assert_eq!(deskstream::setup::setup_mode(&a(&["setup.exe", "/U", "/S"])), deskstream::setup::SetupMode::Uninstall);
    assert_eq!(deskstream::setup::setup_mode(&a(&["setup.exe", "/s"])), deskstream::setup::SetupMode::SilentInstall);
    assert_eq!(deskstream::setup::setup_mode(&a(&["setup.exe", "/Silent"])), deskstream::setup::SetupMode::SilentInstall);
    assert_eq!(deskstream::setup::setup_mode(&a(&["setup.exe", "/uninstal"])), deskstream::setup::SetupMode::Install);
    assert!(deskstream::text::eq_ignore_ascii_case("ÄbC", "Äbc"));
    assert!(!deskstream::text::eq_ignore_ascii_case("Ä", "ä"));
}

#[test]
fn install_plan_paths_and_commands() {
    let p = deskstream::setup::install_plan(Some("D:\\Apps"), None, Some("C:\\Users\\ann"), "E:\\setup.exe");
    assert_eq!(p.dir, "D:\\Apps\\Screen Share");
    assert_eq!(p.gui_path, "D:\\Apps\\Screen Share\\ScreenShare.exe");
    assert_eq!(p.agent_path, "D:\\Apps\\Screen Share\\desktop-agent.exe");
    assert_eq!(p.relay_path, "D:\\Apps\\Screen Share\\relay-server.exe");
    assert_eq!(p.config_path, "D:\\Apps\\Screen Share\\server-config.json");
    assert_eq!(p.run_command, "\"D:\\Apps\\Screen Share\\ScreenShare.exe\" --hidden");
    assert_eq!(p.protocol_command, "\"D:\\Apps\\Screen Share\\desktop-agent.exe\"");
    assert_eq!(p.uninstall_command, "\"E:\\setup.exe\" /uninstall");
    assert_eq!(p.start_menu_link, "C:\\ProgramData\\Microsoft\\Windows\\Start Menu\\Programs\\Screen Share.lnk");
    assert_eq!(p.desktop_link, Some("C:\\Users\\ann\\Desktop\\Screen Share.lnk".to_string()));
    let q = deskstream::setup::install_plan(None, Some("P:"), None, "s.exe");
    assert_eq!(q.dir, "C:\\Program Files\\Screen Share");
    assert!(q.start_menu_link.starts_with("P:\\Microsoft"));
    assert_eq!(q.desktop_link, None);
    let e = deskstream::setup::uninstall_entries(&p);
    assert_eq!(e.len(), 7);
    assert_eq!(e[1], ("UninstallString", p.uninstall_command.clone()));
    assert_eq!(e[3], ("InstallLocation", p.dir.clone()));
    assert_eq!(e[6], ("NoRepair", "1".to_string()));
}
