//! What the Screen Share window does with its messages: which command a
//! button or tray item stands for, what its timers and tray icon ask for,
//! the tray menu it shows, and when it starts the agent again.
use vstd::prelude::*;
use crate::identity::{le_units, le_units_of, utf16_lossy};
use crate::json_text::{json_get, set_json_string_value, spec_json_get, spec_set_json_string_value};
use crate::text::{before_first, before_first_char, chars_of, find, push_str, spec_find, string_of};

verus! {

/// What a `WM_COMMAND` from the window's buttons or tray menu asks for.
#[derive(Clone, Copy, Debug, PartialEq, Eq, Structural)]
pub enum GuiCommand {
    /// Fill the settings form and show it.
    ShowSettings,
    OpenDashboard,
    CopySystemId,
    /// Stop the agent and let the next timer tick start it again at once.
    RestartAgent,
    SaveSettings,
    CancelSettings,
    OpenLogs,
    OpenConfigFolder,
    /// Bring the window back from the tray.
    ShowWindow,
    /// Fill the settings form, bring the window back and show the form.
    ShowSettingsFromTray,
    /// Let the next timer tick start the agent at once.
    StartAgent,
    StopAgent,
    Exit,
    Nothing,
}

pub open spec fn spec_gui_command(id: i32) -> GuiCommand {
    if id == 122 {
        GuiCommand::ShowSettings
    } else if id == 124 || id == 301 {
        GuiCommand::OpenDashboard
    } else if id == 123 || id == 302 {
        GuiCommand::CopySystemId
    } else if id == 125 || id == 306 {
        GuiCommand::RestartAgent
    } else if id == 217 {
        GuiCommand::SaveSettings
    } else if id == 218 {
        GuiCommand::CancelSettings
    } else if id == 215 {
        GuiCommand::OpenLogs
    } else if id == 216 {
        GuiCommand::OpenConfigFolder
    } else if id == 300 {
        GuiCommand::ShowWindow
    } else if id == 303 {
        GuiCommand::ShowSettingsFromTray
    } else if id == 304 {
        GuiCommand::StartAgent
    } else if id == 305 {
        GuiCommand::StopAgent
    } else if id == 307 {
        GuiCommand::Exit
    } else {
        GuiCommand::Nothing
    }
}

/// The command of a control or menu ID (the low word of `wparam`).
pub fn gui_command(id: i32) -> (c: GuiCommand)
    ensures
        c == spec_gui_command(id),
{
    if id == 122 {
        GuiCommand::ShowSettings
    } else if id == 124 || id == 301 {
        GuiCommand::OpenDashboard
    } else if id == 123 || id == 302 {
        GuiCommand::CopySystemId
    } else if id == 125 || id == 306 {
        GuiCommand::RestartAgent
    } else if id == 217 {
        GuiCommand::SaveSettings
    } else if id == 218 {
        GuiCommand::CancelSettings
    } else if id == 215 {
        GuiCommand::OpenLogs
    } else if id == 216 {
        GuiCommand::OpenConfigFolder
    } else if id == 300 {
        GuiCommand::ShowWindow
    } else if id == 303 {
        GuiCommand::ShowSettingsFromTray
    } else if id == 304 {
        GuiCommand::StartAgent
    } else if id == 305 {
        GuiCommand::StopAgent
    } else if id == 307 {
        GuiCommand::Exit
    } else {
        GuiCommand::Nothing
    }
}

/// What a click on the tray icon asks for.
#[derive(Clone, Copy, Debug, PartialEq, Eq, Structural)]
pub enum TrayClick {
    ShowWindow,
    ShowMenu,
    Nothing,
}

/// The tray icon's mouse message (the low word of `lparam`): a double
/// click brings the window back, a right click or a context-menu key opens
/// the menu.
pub fn tray_click(lparam: isize) -> (t: TrayClick)
    ensures
        t == (if (lparam as u32) & 0xffff == 0x0203 {
            TrayClick::ShowWindow
        } else if (lparam as u32) & 0xffff == 0x0205 || (lparam as u32) & 0xffff == 0x007B {
            TrayClick::ShowMenu
        } else {
            TrayClick::Nothing
        }),
{
    let m = (lparam as u32) & 0xffff;
    if m == 0x0203 {
        TrayClick::ShowWindow
    } else if m == 0x0205 || m == 0x007B {
        TrayClick::ShowMenu
    } else {
        TrayClick::Nothing
    }
}

/// What a timer asks for.
#[derive(Clone, Copy, Debug, PartialEq, Eq, Structural)]
pub enum TimerTask {
    /// Timer 1, every 1.5 s: poll the agent and start it if it is gone.
    PollAgent,
    /// Timer 2: clear the toast message.
    ClearToast,
    Nothing,
}

pub fn timer_task(timer_id: usize) -> (t: TimerTask)
    ensures
        t == (if timer_id == 1 {
            TimerTask::PollAgent
        } else if timer_id == 2 {
            TimerTask::ClearToast
        } else {
            TimerTask::Nothing
        }),
{
    if timer_id == 1 {
        TimerTask::PollAgent
    } else if timer_id == 2 {
        TimerTask::ClearToast
    } else {
        TimerTask::Nothing
    }
}

/// The colour (`0x00BBGGRR`) of the status dot for an agent status.
pub fn status_dot_color(status: &str) -> (c: u32)
    ensures
        c == (if status@ == "online"@ {
            0x44a82eu32
        } else if status@ == "connecting"@ {
            0x00a0e0u32
        } else if status@ == "error"@ {
            0x0000c0u32
        } else {
            0x808080u32
        }),
{
    if crate::text::text_eq(status, "online") {
        0x44a82e
    } else if crate::text::text_eq(status, "connecting") {
        0x00a0e0
    } else if crate::text::text_eq(status, "error") {
        0x0000c0
    } else {
        0x808080
    }
}

/// The entry of the environment box that shows an environment: the second
/// for `Development`, the first for anything else.
pub fn environment_index(environment: &str) -> (i: usize)
    ensures
        i == (if environment@ == "Development"@ {
            1usize
        } else {
            0usize
        }),
{
    if crate::text::text_eq(environment, "Development") {
        1
    } else {
        0
    }
}

/// The tray menu: its items in order, with `Start Agent` in place of
/// `Stop Agent` while the agent is offline.
pub open spec fn spec_tray_menu(status: Seq<char>) -> Seq<(i32, Seq<char>)> {
    seq![
        (300i32, "Open Screen Share"@),
        (301i32, "Open Dashboard"@),
        (302i32, "Copy System ID"@),
        (303i32, "Settings"@),
        if status == "offline"@ {
            (304i32, "Start Agent"@)
        } else {
            (305i32, "Stop Agent"@)
        },
        (306i32, "Restart Agent"@),
        (307i32, "Exit"@),
    ]
}

pub fn tray_menu(status: &str) -> (m: Vec<(i32, String)>)
    ensures
        m@.len() == 7,
        forall|i: int| 0 <= i < 7 ==> m@[i].0 == spec_tray_menu(status@)[i].0 && #[trigger] m@[i].1@
            == spec_tray_menu(status@)[i].1,
{
    let offline = crate::text::text_eq(status, "offline");
    let mut m: Vec<(i32, String)> = Vec::new();
    m.push((300, String::from_str("Open Screen Share")));
    m.push((301, String::from_str("Open Dashboard")));
    m.push((302, String::from_str("Copy System ID")));
    m.push((303, String::from_str("Settings")));
    if offline {
        m.push((304, String::from_str("Start Agent")));
    } else {
        m.push((305, String::from_str("Stop Agent")));
    }
    m.push((306, String::from_str("Restart Agent")));
    m.push((307, String::from_str("Exit")));
    m
}

/// Whether a timer tick starts the agent: when it did not answer the poll
/// and more than two seconds have passed since it was last started.
pub fn should_launch_agent(agent_answered: bool, since_launch_ns: u64) -> (b: bool)
    ensures
        b == (!agent_answered && since_launch_ns > 2_000_000_000),
{
    !agent_answered && since_launch_ns > 2_000_000_000
}

/// The System ID and device name read from the agent's configuration file,
/// each empty when missing (or when there is no file).
pub fn read_agent_config(contents: Option<&str>) -> (r: (String, String))
    ensures
        match contents {
            Some(c) => r.0@ == (match spec_json_get(c@, "system_id"@) {
                Some(v) => v,
                None => Seq::empty(),
            }) && r.1@ == (match spec_json_get(c@, "name"@) {
                Some(v) => v,
                None => Seq::empty(),
            }),
            None => r.0@ == Seq::<char>::empty() && r.1@ == Seq::<char>::empty(),
        },
{
    match contents {
        Some(c) => {
            let id = match json_get(c, "system_id") {
                Some(v) => v,
                None => String::new(),
            };
            let name = match json_get(c, "name") {
                Some(v) => v,
                None => String::new(),
            };
            (id, name)
        },
        None => (String::new(), String::new()),
    }
}

/// The System ID and device name the window starts with: the agent's when
/// it has them, and the device name of the window's own settings over both.
pub fn initial_identity(
    current_id: String,
    current_name: String,
    agent_id: String,
    agent_name: String,
    settings_device: String,
) -> (r: (String, String))
    ensures
        r.0@ == (if agent_id@.len() > 0 {
            agent_id@
        } else {
            current_id@
        }),
        r.1@ == (if settings_device@.len() > 0 {
            settings_device@
        } else if agent_name@.len() > 0 {
            agent_name@
        } else {
            current_name@
        }),
{
    let id = if !agent_id.as_str().is_empty() {
        agent_id
    } else {
        current_id
    };
    let name = if !settings_device.as_str().is_empty() {
        settings_device
    } else if !agent_name.as_str().is_empty() {
        agent_name
    } else {
        current_name
    };
    (id, name)
}

/// The System ID the copy button puts on the clipboard: the one shown, or
/// the agent configuration's when none is shown yet.
pub fn id_to_copy(shown: &str, from_agent_config: &str) -> (id: String)
    ensures
        id@ == (if shown@.len() > 0 {
            shown@
        } else {
            from_agent_config@
        }),
{
    if !shown.is_empty() {
        string_of(crate::text::chars_of(shown).as_slice())
    } else {
        string_of(crate::text::chars_of(from_agent_config).as_slice())
    }
}

/// The command line the Run key starts the window with.
pub fn autostart_command(exe: &str) -> (c: String)
    ensures
        c@ == "\""@ + exe@ + "\" --hidden"@,
{
    let mut out: Vec<char> = Vec::new();
    push_str(&mut out, "\"");
    push_str(&mut out, exe);
    push_str(&mut out, "\" --hidden");
    string_of(out.as_slice())
}

/// The agent configuration after the settings form is saved: its device
/// name and relay address replaced (where written as `"key":"`).
pub fn update_agent_config(contents: &mut String, name: &str, relay: &str)
    ensures
        final(contents)@ == spec_set_json_string_value(
            spec_set_json_string_value(old(contents)@, "name"@, name@),
            "relay_addr"@,
            relay@,
        ),
{
    set_json_string_value(contents, "name", name);
    set_json_string_value(contents, "relay_addr", relay);
}

/// Whether UTF-16 units are well formed: every high surrogate followed by a
/// low one, and no low surrogate alone.
pub open spec fn utf16_valid(u: Seq<u16>) -> bool
    decreases u.len(),
{
    if u.len() == 0 {
        true
    } else if u[0] < 0xD800 || u[0] > 0xDFFF {
        utf16_valid(u.skip(1))
    } else if u[0] <= 0xDBFF && u.len() >= 2 && 0xDC00 <= u[1] <= 0xDFFF {
        utf16_valid(u.skip(2))
    } else {
        false
    }
}

/// Trusted: calls `String::from_utf16`, which std documents as decoding
/// UTF-16 and failing on invalid data; on valid data the text is the one
/// its lossy counterpart gives, which then replaces nothing.
#[verifier::external_body]
fn decode_utf16_strict(units: &[u16]) -> (r: Option<String>)
    ensures
        match r {
            Some(s) => utf16_valid(units@) && s@ == utf16_lossy(units@),
            None => !utf16_valid(units@),
        },
{
    String::from_utf16(units).ok()
}

/// The link handed over by a second instance (`WM_COPYDATA`): its bytes as
/// little-endian UTF-16, when they are well formed.
pub fn copydata_link(bytes: &[u8]) -> (r: Option<String>)
    ensures
        match r {
            Some(s) => utf16_valid(le_units(bytes@)) && s@ == utf16_lossy(le_units(bytes@)),
            None => !utf16_valid(le_units(bytes@)),
        },
{
    let units = le_units_of(bytes);
    decode_utf16_strict(units.as_slice())
}

/// The arguments the window starts the agent with: the relay address, and
/// the backend URL when there is one.
pub fn agent_launch_args(relay: &str, backend: &str) -> (a: Vec<String>)
    ensures
        backend@.len() == 0 ==> a@.len() == 1 && a@[0]@ == relay@,
        backend@.len() > 0 ==> a@.len() == 2 && a@[0]@ == relay@ && a@[1]@ == backend@,
{
    let mut a: Vec<String> = Vec::new();
    a.push(string_of(chars_of(relay).as_slice()));
    if !backend.is_empty() {
        a.push(string_of(chars_of(backend).as_slice()));
    }
    a
}

/// Whether `tasklist` output lists the relay.
pub fn relay_listed(tasklist_output: &str) -> (b: bool)
    ensures
        b == (spec_find(tasklist_output@, "relay-server.exe"@) is Some),
{
    let out = chars_of(tasklist_output);
    let name = chars_of("relay-server.exe");
    find(out.as_slice(), name.as_slice()).is_some()
}

/// The first line of a text, as `str::lines` gives it (without its line
/// break or a carriage return before it); `None` for an empty text.
pub open spec fn spec_first_line(s: Seq<char>) -> Option<Seq<char>> {
    if s.len() == 0 {
        None
    } else {
        let l = before_first(s, '\n');
        if l.len() < s.len() && l.len() > 0 && l.last() == '\r' {
            Some(l.drop_last())
        } else {
            Some(l)
        }
    }
}

/// The path `where` printed first.
pub fn first_line(s: &str) -> (r: Option<String>)
    ensures
        match r {
            Some(l) => spec_first_line(s@) == Some(l@),
            None => spec_first_line(s@) is None,
        },
{
    let cs = chars_of(s);
    if cs.len() == 0 {
        return None;
    }
    let l = before_first_char(cs.as_slice(), '\n');
    if l.len() < cs.len() && l.len() > 0 && l[l.len() - 1] == '\r' {
        let mut t = l;
        t.pop();
        Some(string_of(t.as_slice()))
    } else {
        Some(string_of(l.as_slice()))
    }
}

} // verus!
