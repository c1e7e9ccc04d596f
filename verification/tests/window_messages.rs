use deskstream::tray::{tray_action, tray_menu as agent_tray_menu, wide_to_fixed, MenuEntry, TrayAction, WM_TRAYICON};
use deskstream::window::{
    autostart_command, copydata_link, environment_index, gui_command, id_to_copy, initial_identity,
    read_agent_config, should_launch_agent, status_dot_color, timer_task, tray_click, tray_menu,
    update_agent_config, GuiCommand, TimerTask, TrayClick,
};

#[test]
fn window_commands() {
    assert_eq!(gui_command(122), GuiCommand::ShowSettings);
    assert_eq!(gui_command(124), GuiCommand::OpenDashboard);
    assert_eq!(gui_command(301), GuiCommand::OpenDashboard);
    assert_eq!(gui_command(302), GuiCommand::CopySystemId);
    assert_eq!(gui_command(306), GuiCommand::RestartAgent);
    assert_eq!(gui_command(217), GuiCommand::SaveSettings);
    assert_eq!(gui_command(303), GuiCommand::ShowSettingsFromTray);
    assert_eq!(gui_command(304), GuiCommand::StartAgent);
    assert_eq!(gui_command(305), GuiCommand::StopAgent);
    assert_eq!(gui_command(307), GuiCommand::Exit);
    assert_eq!(gui_command(999), GuiCommand::Nothing);
}

#[test]
fn window_tray_timers_and_colours() {
    assert_eq!(tray_click(0x0203), TrayClick::ShowWindow);
    assert_eq!(tray_click(0x7_0205), TrayClick::ShowMenu);
    assert_eq!(tray_click(0x007B), TrayClick::ShowMenu);
    assert_eq!(tray_click(0x0202), TrayClick::Nothing);
    assert_eq!(timer_task(1), TimerTask::PollAgent);
    assert_eq!(timer_task(2), TimerTask::ClearToast);
    assert_eq!(timer_task(3), TimerTask::Nothing);
    assert_eq!(status_dot_color("online"), 0x44a82e);
    assert_eq!(status_dot_color("error"), 0x0000c0);
    assert_eq!(status_dot_color("offline"), 0x808080);
    assert_eq!(environment_index("Development"), 1);
    assert_eq!(environment_index("Production"), 0);
}

#[test]
fn window_tray_menu_follows_the_agent() {
    let off = tray_menu("offline");
    assert_eq!(off.len(), 7);
    assert_eq!(off[4], (304, "Start Agent".to_string()));
    let on = tray_menu("online");
    assert_eq!(on[4], (305, "Stop Agent".to_string()));
    assert_eq!(on[0], (300, "Open Screen Share".to_string()));
    assert_eq!(on[6], (307, "Exit".to_string()));
}

#[test]
fn window_agent_lifecycle() {
    assert!(should_launch_agent(false, 2_000_000_001));
    assert!(!should_launch_agent(false, 2_000_000_000));
    assert!(!should_launch_agent(true, 9_000_000_000));
    assert_eq!(
        read_agent_config(Some("{\"system_id\": \"847293615\", \"name\": \"PC\"}")),
        ("847293615".to_string(), "PC".to_string())
    );
    assert_eq!(read_agent_config(None), (String::new(), String::new()));
    let (id, name) = initial_identity(
        "".to_string(),
        "Host".to_string(),
        "847293615".to_string(),
        "PC".to_string(),
        "".to_string(),
    );
    assert_eq!((id.as_str(), name.as_str()), ("847293615", "PC"));
    let (_, name) = initial_identity("".to_string(), "Host".to_string(), "".to_string(), "".to_string(), "Desk".to_string());
    assert_eq!(name, "Desk");
    assert_eq!(id_to_copy("", "111222333"), "111222333");
    assert_eq!(id_to_copy("847293615", "111222333"), "847293615");
    assert_eq!(autostart_command("C:\\Screen Share\\gui.exe"), "\"C:\\Screen Share\\gui.exe\" --hidden");
    let mut cfg = "{\"name\":\"old\",\"relay_addr\":\"1.1.1.1:9001\"}".to_string();
    update_agent_config(&mut cfg, "New \"PC\"", "10.0.0.9:9001");
    assert_eq!(cfg, "{\"name\":\"New \\\"PC\\\"\",\"relay_addr\":\"10.0.0.9:9001\"}");
}

#[test]
fn window_copydata_links() {
    let bytes: Vec<u8> = "deskstream://123456".encode_utf16().flat_map(|u| u.to_le_bytes()).collect();
    assert_eq!(copydata_link(&bytes), Some("deskstream://123456".to_string()));
    assert_eq!(copydata_link(&[0x00, 0xDC]), None);
}

#[test]
fn agent_tray_messages() {
    assert_eq!(tray_action(WM_TRAYICON, 0, 0x0202), TrayAction::RestoreWindow);
    assert_eq!(tray_action(WM_TRAYICON, 0, 0x0203), TrayAction::RestoreWindow);
    assert_eq!(tray_action(WM_TRAYICON, 0, 0x0205), TrayAction::ShowMenu);
    assert_eq!(tray_action(WM_TRAYICON, 0, 0x0200), TrayAction::Nothing);
    assert_eq!(tray_action(0x0111, 201, 0), TrayAction::RestoreWindow);
    assert_eq!(tray_action(0x0111, 203, 0), TrayAction::Nothing);
    assert_eq!(tray_action(0x0111, 205, 0), TrayAction::ExitAgent);
    assert_eq!(tray_action(0x0002, 0, 0), TrayAction::EndLoop);
    assert_eq!(tray_action(0x000F, 0, 0), TrayAction::PassOn);
    let menu = agent_tray_menu();
    assert_eq!(menu.len(), 9);
    assert_eq!(menu[0], MenuEntry::Item { id: 200, label: "Open DeskStream Agent" });
    assert_eq!(menu[1], MenuEntry::Separator);
    assert_eq!(menu[8], MenuEntry::Item { id: 205, label: "Exit" });
}

#[test]
fn tooltips_are_fixed_utf16_buffers() {
    assert_eq!(wide_to_fixed("Hi", 4), vec![0x48, 0x69, 0, 0]);
    assert_eq!(wide_to_fixed("Screen", 4), vec![0x53, 0x63, 0x72, 0]);
    assert_eq!(wide_to_fixed("\u{1F600}x", 3), vec![0xD83D, 0xDE00, 0]);
    assert_eq!(wide_to_fixed("\u{1F600}", 2), vec![0xD83D, 0]);
    assert_eq!(wide_to_fixed("abc", 1), vec![0]);
}

#[test]
fn window_starts_agent_and_relay() {
    assert_eq!(deskstream::window::agent_launch_args("1.2.3.4:9001", ""), vec!["1.2.3.4:9001".to_string()]);
    assert_eq!(
        deskstream::window::agent_launch_args("1.2.3.4:9001", "http://b/api"),
        vec!["1.2.3.4:9001".to_string(), "http://b/api".to_string()]
    );
    assert!(deskstream::window::relay_listed("\"relay-server.exe\",\"4242\",\"Console\""));
    assert!(!deskstream::window::relay_listed("INFO: No tasks are running"));
    let first = |s: &str| deskstream::window::first_line(s);
    assert_eq!(first("C:\\a\\desktop-agent.exe\r\nC:\\b\\desktop-agent.exe\r\n"), Some("C:\\a\\desktop-agent.exe".to_string()));
    assert_eq!(first("only"), Some("only".to_string()));
    assert_eq!(first("cr\r"), Some("cr\r".to_string()));
    assert_eq!(first(""), None);
    for s in ["x\r\ny", "\n", "\r\n", "a\r", "abc"] {
        assert_eq!(first(s), s.lines().next().map(|l| l.to_string()));
    }
}
