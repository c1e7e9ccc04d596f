//! The agent window's state: tabs, text fields, and what keys and clicks do.
use vstd::prelude::*;
use crate::frame::{paint, paint_ops, DrawOpView, Frame};
use crate::font::Font;
use crate::identity::{spec_formatted_id, spells_server, AgentConfig, AgentConfigView};
use crate::service::RelayStats;
use crate::keys::{key_to_char, spec_key_char, Key};
use crate::text::{
    byte_len, byte_prefix, cat, chars_of, cut_ok, dec_string, decimal, find, push_str, remove_char, spec_find,
    string_of, text_eq, trim_by, trim_chars, trimmed, trunc_bytes, without_char, Strip,
};

verus! {

/// The tabs of the agent window.
#[derive(Clone, Copy, Debug, PartialEq, Eq, Structural)]
pub enum Tab {
    Dashboard,
    RelayServer,
    Settings,
    Logs,
}

/// The agent's connection to its relay, as the window shows it.
#[derive(Clone, Copy, Debug, PartialEq, Eq, Structural)]
pub enum ConnectionStatus {
    Starting,
    Connecting,
    Authenticating,
    Online,
    Disconnected,
}

pub open spec fn spec_status_name(s: ConnectionStatus) -> Seq<char> {
    match s {
        ConnectionStatus::Starting => "STARTING"@,
        ConnectionStatus::Connecting => "CONNECTING"@,
        ConnectionStatus::Authenticating => "AUTHENTICATING"@,
        ConnectionStatus::Online => "ONLINE"@,
        ConnectionStatus::Disconnected => "DISCONNECTED"@,
    }
}

impl ConnectionStatus {
    pub fn as_str(&self) -> (s: &'static str)
        ensures
            s@ == spec_status_name(*self),
    {
        match self {
            ConnectionStatus::Starting => "STARTING",
            ConnectionStatus::Connecting => "CONNECTING",
            ConnectionStatus::Authenticating => "AUTHENTICATING",
            ConnectionStatus::Online => "ONLINE",
            ConnectionStatus::Disconnected => "DISCONNECTED",
        }
    }
}

/// The agent window. Text field 1 is the partner's System ID, 2 the partner's
/// PIN, 3 the relay address, 4 this device's PIN; 0 is none. The feedback
/// timers hold the time, in milliseconds, at which the feedback started.
pub struct UiApp {
    pub current_tab: Tab,
    pub input_partner_id: String,
    pub input_partner_pin: String,
    pub input_relay_addr: String,
    pub input_pin: String,
    pub active_field: usize,
    pub copy_feedback_timer: Option<u64>,
    pub copy_server_ip_timer: Option<u64>,
    pub save_feedback_timer: Option<u64>,
    pub connect_request: Option<(String, String)>,
    pub test_network_requested: bool,
    pub network_test_result: Option<(bool, String)>,
    pub restart_relay_requested: bool,
    pub config_updated: bool,
    pub log_scroll: usize,
    pub gpu_backend_name: String,
    pub lan_ips: Vec<String>,
    /// Whether the left button was down at the previous frame.
    pub last_mouse_down: bool,
}

/// The window's state as plain values.
pub struct UiAppView {
    pub tab: Tab,
    pub partner_id: Seq<char>,
    pub partner_pin: Seq<char>,
    pub relay_addr: Seq<char>,
    pub pin: Seq<char>,
    pub active_field: usize,
    pub copy_feedback_timer: Option<u64>,
    pub copy_server_ip_timer: Option<u64>,
    pub save_feedback_timer: Option<u64>,
    pub connect_request: Option<(Seq<char>, Seq<char>)>,
    pub test_network_requested: bool,
    pub network_test_result: Option<(bool, Seq<char>)>,
    pub restart_relay_requested: bool,
    pub config_updated: bool,
    pub log_scroll: usize,
    pub gpu_backend_name: Seq<char>,
    pub lan_ips: Seq<Seq<char>>,
    pub last_mouse_down: bool,
}

impl View for UiApp {
    type V = UiAppView;

    open spec fn view(&self) -> UiAppView {
        UiAppView {
            tab: self.current_tab,
            partner_id: self.input_partner_id@,
            partner_pin: self.input_partner_pin@,
            relay_addr: self.input_relay_addr@,
            pin: self.input_pin@,
            active_field: self.active_field,
            copy_feedback_timer: self.copy_feedback_timer,
            copy_server_ip_timer: self.copy_server_ip_timer,
            save_feedback_timer: self.save_feedback_timer,
            connect_request: match self.connect_request {
                Some(r) => Some((r.0@, r.1@)),
                None => None,
            },
            test_network_requested: self.test_network_requested,
            network_test_result: match self.network_test_result {
                Some(r) => Some((r.0, r.1@)),
                None => None,
            },
            restart_relay_requested: self.restart_relay_requested,
            config_updated: self.config_updated,
            log_scroll: self.log_scroll,
            gpu_backend_name: self.gpu_backend_name@,
            lan_ips: self.lan_ips@.map_values(|s: String| s@),
            last_mouse_down: self.last_mouse_down,
        }
    }
}

/// Whether (`mx`, `my`) lies in the rectangle, edges included.
pub open spec fn in_rect(mx: int, my: int, rx: int, ry: int, rw: int, rh: int) -> bool {
    mx >= rx && mx <= rx + rw && my >= ry && my <= ry + rh
}

pub fn is_in_rect(mx: usize, my: usize, rx: usize, ry: usize, rw: usize, rh: usize) -> (b: bool)
    requires
        rx + rw <= usize::MAX,
        ry + rh <= usize::MAX,
    ensures
        b == in_rect(mx as int, my as int, rx as int, ry as int, rw as int, rh as int),
{
    mx >= rx && mx <= rx + rw && my >= ry && my <= ry + rh
}

/// The text of field `f`.
pub open spec fn field_text(v: UiAppView, f: usize) -> Seq<char> {
    if f == 1 {
        v.partner_id
    } else if f == 2 {
        v.partner_pin
    } else if f == 3 {
        v.relay_addr
    } else {
        v.pin
    }
}

/// `v` with field `f` holding `s`.
pub open spec fn with_field(v: UiAppView, f: usize, s: Seq<char>) -> UiAppView {
    if f == 1 {
        UiAppView { partner_id: s, ..v }
    } else if f == 2 {
        UiAppView { partner_pin: s, ..v }
    } else if f == 3 {
        UiAppView { relay_addr: s, ..v }
    } else if f == 4 {
        UiAppView { pin: s, ..v }
    } else {
        v
    }
}

/// The most bytes a field takes by typing: 12 for the partner's ID, 40 for
/// the relay address, 16 for the PINs.
pub open spec fn field_limit(f: usize) -> nat {
    if f == 1 {
        12
    } else if f == 3 {
        40
    } else {
        16
    }
}

/// The field Tab moves to.
pub open spec fn next_field(f: usize) -> usize {
    if f == 1 {
        2
    } else if f == 2 {
        1
    } else if f == 3 {
        4
    } else if f == 4 {
        3
    } else {
        1
    }
}

/// The System ID to connect to: the partner field without spaces, trimmed.
pub open spec fn connect_target(v: UiAppView) -> Seq<char> {
    trim_by(without_char(v.partner_id, ' '), Strip::WhiteSpace)
}

/// Asks for a connection to the partner, when the partner field names one.
pub open spec fn spec_connect(v: UiAppView) -> UiAppView {
    if connect_target(v).len() > 0 {
        UiAppView {
            connect_request: Some((connect_target(v), trim_by(v.partner_pin, Strip::WhiteSpace))),
            ..v
        }
    } else {
        v
    }
}

/// Saves the relay address and PIN fields to the configuration.
pub open spec fn spec_save_settings(v: UiAppView, cfg: AgentConfigView, now_ms: u64) -> (
    UiAppView,
    AgentConfigView,
) {
    (
        UiAppView {
            config_updated: true,
            save_feedback_timer: Some(now_ms),
            active_field: 0,
            ..v
        },
        AgentConfigView {
            relay_addr: trim_by(v.relay_addr, Strip::WhiteSpace),
            pin: trim_by(v.pin, Strip::WhiteSpace),
            ..cfg
        },
    )
}

/// What a key press does: the new state and configuration, and whether the
/// configuration is to be saved.
pub open spec fn spec_key(v: UiAppView, cfg: AgentConfigView, key: Key, now_ms: u64) -> (
    UiAppView,
    AgentConfigView,
    bool,
) {
    let f = v.active_field;
    let in_field = 1 <= f <= 4;
    match key {
        Key::Backspace => if in_field && field_text(v, f).len() > 0 {
            (with_field(v, f, field_text(v, f).drop_last()), cfg, false)
        } else {
            (v, cfg, false)
        },
        Key::Tab => (UiAppView { active_field: next_field(f), ..v }, cfg, false),
        Key::Escape => (UiAppView { active_field: 0, ..v }, cfg, false),
        Key::Enter => if f == 1 || f == 2 {
            (spec_connect(v), cfg, false)
        } else if f == 3 || f == 4 {
            let s = spec_save_settings(v, cfg, now_ms);
            (s.0, s.1, true)
        } else {
            (v, cfg, false)
        },
        _ => match spec_key_char(key) {
            Some(c) => if in_field && byte_len(field_text(v, f)) < field_limit(f) {
                (with_field(v, f, field_text(v, f).push(c)), cfg, false)
            } else {
                (v, cfg, false)
            },
            None => (v, cfg, false),
        },
    }
}

/// What keys and clicks ask of the program besides the window's own state.
pub struct InputEffect {
    /// The configuration changed and is to be saved.
    pub save_config: bool,
    /// Text to put on the clipboard as this device's System ID; once it is
    /// there the window shows so ([`UiApp::system_id_copied`]).
    pub copy_system_id: Option<String>,
    /// Text to put on the clipboard as the relay server's address
    /// ([`UiApp::server_address_copied`]).
    pub copy_server_address: Option<String>,
}

pub struct InputEffectView {
    pub save_config: bool,
    pub copy_system_id: Option<Seq<char>>,
    pub copy_server_address: Option<Seq<char>>,
}

impl View for InputEffect {
    type V = InputEffectView;

    open spec fn view(&self) -> InputEffectView {
        InputEffectView {
            save_config: self.save_config,
            copy_system_id: match self.copy_system_id {
                Some(s) => Some(s@),
                None => None,
            },
            copy_server_address: match self.copy_server_address {
                Some(s) => Some(s@),
                None => None,
            },
        }
    }
}

pub open spec fn no_effect() -> InputEffectView {
    InputEffectView { save_config: false, copy_system_id: None, copy_server_address: None }
}

/// The mode pills in the header switch the agent between client and server.
pub open spec fn click_mode(
    v: UiAppView,
    cfg: AgentConfigView,
    e: InputEffectView,
    mx: int,
    my: int,
) -> (UiAppView, AgentConfigView, InputEffectView) {
    if in_rect(mx, my, 560, 18, 110, 32) {
        if cfg.app_mode != "client"@ {
            (
                UiAppView { config_updated: true, tab: Tab::Dashboard, ..v },
                AgentConfigView { app_mode: "client"@, ..cfg },
                InputEffectView { save_config: true, ..e },
            )
        } else {
            (v, cfg, e)
        }
    } else if in_rect(mx, my, 680, 18, 110, 32) {
        if cfg.app_mode != "server"@ {
            (
                UiAppView { config_updated: true, tab: Tab::RelayServer, ..v },
                AgentConfigView { app_mode: "server"@, ..cfg },
                InputEffectView { save_config: true, ..e },
            )
        } else {
            (v, cfg, e)
        }
    } else {
        (v, cfg, e)
    }
}

/// The tab bar selects a tab and leaves every text field.
pub open spec fn click_tabs(v: UiAppView, mx: int, my: int) -> UiAppView {
    let v1 = if in_rect(mx, my, 30, 70, 140, 36) {
        UiAppView { tab: Tab::Dashboard, active_field: 0, ..v }
    } else {
        v
    };
    let v2 = if in_rect(mx, my, 180, 70, 140, 36) {
        UiAppView { tab: Tab::RelayServer, active_field: 0, ..v1 }
    } else {
        v1
    };
    let v3 = if in_rect(mx, my, 330, 70, 140, 36) {
        UiAppView { tab: Tab::Settings, active_field: 0, ..v2 }
    } else {
        v2
    };
    if in_rect(mx, my, 480, 70, 140, 36) {
        UiAppView { tab: Tab::Logs, active_field: 0, ..v3 }
    } else {
        v3
    }
}

/// Clicks on the dashboard: copy the System ID, jump to the settings from
/// the offline banner, pick a field, or connect.
pub open spec fn click_dashboard(
    v: UiAppView,
    cfg: AgentConfigView,
    e: InputEffectView,
    mx: int,
    my: int,
) -> (UiAppView, InputEffectView) {
    if v.tab != Tab::Dashboard {
        (v, e)
    } else {
        let e1 = if in_rect(mx, my, 210, 240, 140, 34) {
            InputEffectView { copy_system_id: Some(cfg.system_id), ..e }
        } else {
            e
        };
        let v1 = if in_rect(mx, my, 50, 410, 320, 30) {
            UiAppView { tab: Tab::Settings, active_field: 3, ..v }
        } else {
            v
        };
        let v2 = if in_rect(mx, my, 440, 200, 320, 38) {
            UiAppView { active_field: 1, ..v1 }
        } else if in_rect(mx, my, 440, 275, 320, 38) {
            UiAppView { active_field: 2, ..v1 }
        } else if in_rect(mx, my, 440, 335, 320, 44) {
            spec_connect(v1)
        } else if !in_rect(mx, my, 440, 150, 340, 300) {
            UiAppView { active_field: 0, ..v1 }
        } else {
            v1
        };
        (v2, e1)
    }
}

/// The address clients are told to use: the first LAN address, port 9001.
pub open spec fn server_address(lan_ips: Seq<Seq<char>>) -> Seq<char> {
    (if lan_ips.len() > 0 {
        lan_ips[0]
    } else {
        "127.0.0.1"@
    }) + ":9001"@
}

/// Clicks on the relay server tab: copy the server address, restart the relay.
pub open spec fn click_relay(v: UiAppView, e: InputEffectView, mx: int, my: int) -> (
    UiAppView,
    InputEffectView,
) {
    if v.tab != Tab::RelayServer {
        (v, e)
    } else {
        let e1 = if in_rect(mx, my, 600, 255, 140, 32) {
            InputEffectView { copy_server_address: Some(server_address(v.lan_ips)), ..e }
        } else {
            e
        };
        let v1 = if in_rect(mx, my, 560, 160, 200, 40) {
            UiAppView { restart_relay_requested: true, ..v }
        } else {
            v
        };
        (v1, e1)
    }
}

/// Clicks on the settings tab: pick a field, save, or test the network.
pub open spec fn click_settings(
    v: UiAppView,
    cfg: AgentConfigView,
    e: InputEffectView,
    mx: int,
    my: int,
    now_ms: u64,
) -> (UiAppView, AgentConfigView, InputEffectView) {
    if v.tab != Tab::Settings {
        (v, cfg, e)
    } else if in_rect(mx, my, 50, 235, 420, 38) {
        (UiAppView { active_field: 3, ..v }, cfg, e)
    } else if in_rect(mx, my, 50, 315, 420, 38) {
        (UiAppView { active_field: 4, ..v }, cfg, e)
    } else if in_rect(mx, my, 50, 375, 200, 42) {
        let s = spec_save_settings(v, cfg, now_ms);
        (s.0, s.1, InputEffectView { save_config: true, ..e })
    } else if in_rect(mx, my, 260, 375, 180, 42) {
        (UiAppView { test_network_requested: true, ..v }, cfg, e)
    } else {
        (UiAppView { active_field: 0, ..v }, cfg, e)
    }
}

/// A click at (`mx`, `my`): the header, the tab bar, then the tab shown at
/// that point, each seeing what the ones before changed.
pub open spec fn spec_click(v: UiAppView, cfg: AgentConfigView, mx: int, my: int, now_ms: u64) -> (
    UiAppView,
    AgentConfigView,
    InputEffectView,
) {
    let m = click_mode(v, cfg, no_effect(), mx, my);
    let t = click_tabs(m.0, mx, my);
    let d = click_dashboard(t, m.1, m.2, mx, my);
    let r = click_relay(d.0, d.1, mx, my);
    click_settings(r.0, m.1, r.1, mx, my, now_ms)
}

/// What a frame's mouse state does: a press that was not held before is a
/// click; the state is remembered for the next frame.
pub open spec fn spec_mouse(
    v: UiAppView,
    cfg: AgentConfigView,
    mouse_down: bool,
    mx: int,
    my: int,
    now_ms: u64,
) -> (UiAppView, AgentConfigView, InputEffectView) {
    let v0 = UiAppView { last_mouse_down: mouse_down, ..v };
    if mouse_down && !v.last_mouse_down {
        spec_click(v0, cfg, mx, my, now_ms)
    } else {
        (v0, cfg, no_effect())
    }
}

/// Key presses in order; whether any of them asks to save the configuration.
pub open spec fn spec_keys(v: UiAppView, cfg: AgentConfigView, keys: Seq<Key>, now_ms: u64) -> (
    UiAppView,
    AgentConfigView,
    bool,
)
    decreases keys.len(),
{
    if keys.len() == 0 {
        (v, cfg, false)
    } else {
        let r = spec_keys(v, cfg, keys.drop_last(), now_ms);
        let s = spec_key(r.0, r.1, keys.last(), now_ms);
        (s.0, s.1, r.2 || s.2)
    }
}

/// One frame of input: the keys pressed, in order, then the mouse.
pub open spec fn spec_input(
    v: UiAppView,
    cfg: AgentConfigView,
    keys: Seq<Key>,
    mouse_down: bool,
    mx: int,
    my: int,
    now_ms: u64,
) -> (UiAppView, AgentConfigView, InputEffectView) {
    let k = spec_keys(v, cfg, keys, now_ms);
    let m = spec_mouse(k.0, k.1, mouse_down, mx, my, now_ms);
    (m.0, m.1, InputEffectView { save_config: k.2 || m.2.save_config, ..m.2 })
}

fn pop_last(s: &String) -> (r: String)
    ensures
        r@ == (if s@.len() > 0 {
            s@.drop_last()
        } else {
            s@
        }),
{
    let cs = chars_of(s.as_str());
    if cs.len() == 0 {
        return s.clone();
    }
    let mut out: Vec<char> = Vec::new();
    let mut i: usize = 0;
    while i + 1 < cs.len()
        invariant
            cs.len() > 0,
            i + 1 <= cs.len(),
            out@ == cs@.take(i as int),
        decreases cs.len() - i,
    {
        out.push(cs[i]);
        assert(cs@.take(i + 1) == cs@.take(i as int).push(cs@[i as int]));
        i += 1;
    }
    assert(cs@.take(i as int) == cs@.drop_last());
    string_of(out.as_slice())
}

fn pushed(s: &String, c: char) -> (r: String)
    ensures
        r@ == s@.push(c),
{
    let mut cs = chars_of(s.as_str());
    cs.push(c);
    string_of(cs.as_slice())
}

impl UiApp {
    /// The window for `config`: on the relay tab in server mode, the
    /// dashboard otherwise, with the relay address and PIN fields filled in.
    pub fn new(config: &AgentConfig, gpu_backend: &str, lan_ips: Vec<String>) -> (u: Self)
        ensures
            u@.tab == (if crate::identity::spells_server(config.app_mode@) {
                Tab::RelayServer
            } else {
                Tab::Dashboard
            }),
            u@.partner_id.len() == 0,
            u@.partner_pin.len() == 0,
            u@.relay_addr == config.relay_addr@,
            u@.pin == config.pin@,
            u@.active_field == 0,
            u@.copy_feedback_timer is None,
            u@.copy_server_ip_timer is None,
            u@.save_feedback_timer is None,
            u@.connect_request is None,
            !u@.test_network_requested,
            u@.network_test_result is None,
            !u@.restart_relay_requested,
            !u@.config_updated,
            u@.log_scroll == 0,
            u@.gpu_backend_name == gpu_backend@,
            u@.lan_ips == lan_ips@.map_values(|s: String| s@),
            !u@.last_mouse_down,
    {
        UiApp {
            current_tab: if config.is_server_mode() {
                Tab::RelayServer
            } else {
                Tab::Dashboard
            },
            input_partner_id: String::new(),
            input_partner_pin: String::new(),
            input_relay_addr: config.relay_addr.clone(),
            input_pin: config.pin.clone(),
            active_field: 0,
            copy_feedback_timer: None,
            copy_server_ip_timer: None,
            save_feedback_timer: None,
            connect_request: None,
            test_network_requested: false,
            network_test_result: None,
            restart_relay_requested: false,
            config_updated: false,
            log_scroll: 0,
            gpu_backend_name: String::from_str(gpu_backend),
            lan_ips,
            last_mouse_down: false,
        }
    }

    fn field(&self, f: usize) -> (s: &String)
        ensures
            s@ == field_text(self@, f),
    {
        if f == 1 {
            &self.input_partner_id
        } else if f == 2 {
            &self.input_partner_pin
        } else if f == 3 {
            &self.input_relay_addr
        } else {
            &self.input_pin
        }
    }

    fn set_field(&mut self, f: usize, s: String)
        ensures
            final(self)@ == with_field(old(self)@, f, s@),
    {
        if f == 1 {
            self.input_partner_id = s;
        } else if f == 2 {
            self.input_partner_pin = s;
        } else if f == 3 {
            self.input_relay_addr = s;
        } else if f == 4 {
            self.input_pin = s;
        }
    }

    fn connect(&mut self)
        ensures
            final(self)@ == spec_connect(old(self)@),
    {
        let id = chars_of(self.input_partner_id.as_str());
        let t = trim_chars(remove_char(id.as_slice(), ' ').as_slice(), Strip::WhiteSpace);
        if t.len() > 0 {
            let pin = trimmed(self.input_partner_pin.as_str());
            self.connect_request = Some((string_of(t.as_slice()), pin));
        }
    }

    fn save_settings(&mut self, config: &mut AgentConfig, now_ms: u64)
        ensures
            (final(self)@, final(config)@) == spec_save_settings(old(self)@, old(config)@, now_ms),
    {
        config.relay_addr = trimmed(self.input_relay_addr.as_str());
        config.pin = trimmed(self.input_pin.as_str());
        self.config_updated = true;
        self.save_feedback_timer = Some(now_ms);
        self.active_field = 0;
    }

    /// A key press in the window (see [`spec_key`]); returns whether the
    /// configuration is to be saved.
    pub fn handle_key(&mut self, key: Key, config: &mut AgentConfig, now_ms: u64) -> (save: bool)
        ensures
            (final(self)@, final(config)@, save) == spec_key(old(self)@, old(config)@, key, now_ms),
    {
        let f = self.active_field;
        let in_field = 1 <= f && f <= 4;
        match key {
            Key::Backspace => {
                if in_field {
                    let n = chars_of(self.field(f).as_str()).len();
                    if n > 0 {
                        let s = pop_last(self.field(f));
                        self.set_field(f, s);
                    }
                }
                false
            },
            Key::Tab => {
                self.active_field = if f == 1 {
                    2
                } else if f == 2 {
                    1
                } else if f == 3 {
                    4
                } else if f == 4 {
                    3
                } else {
                    1
                };
                false
            },
            Key::Escape => {
                self.active_field = 0;
                false
            },
            Key::Enter => {
                if f == 1 || f == 2 {
                    self.connect();
                    false
                } else if f == 3 || f == 4 {
                    self.save_settings(config, now_ms);
                    true
                } else {
                    false
                }
            },
            _ => {
                match key_to_char(key) {
                    Some(c) => {
                        if in_field {
                            let limit: usize = if f == 1 {
                                12
                            } else if f == 3 {
                                40
                            } else {
                                16
                            };
                            if self.field(f).as_str().len() < limit {
                                let s = pushed(self.field(f), c);
                                self.set_field(f, s);
                            }
                        }
                        false
                    },
                    None => false,
                }
            },
        }
    }

    fn click_mode(&mut self, config: &mut AgentConfig, e: &mut InputEffect, mx: usize, my: usize)
        ensures
            (final(self)@, final(config)@, final(e)@) == click_mode(
                old(self)@,
                old(config)@,
                old(e)@,
                mx as int,
                my as int,
            ),
    {
        if is_in_rect(mx, my, 560, 18, 110, 32) {
            if !text_eq(config.app_mode.as_str(), "client") {
                config.app_mode = String::from_str("client");
                e.save_config = true;
                self.config_updated = true;
                self.current_tab = Tab::Dashboard;
            }
        } else if is_in_rect(mx, my, 680, 18, 110, 32) {
            if !text_eq(config.app_mode.as_str(), "server") {
                config.app_mode = String::from_str("server");
                e.save_config = true;
                self.config_updated = true;
                self.current_tab = Tab::RelayServer;
            }
        }
    }

    fn click_tabs(&mut self, mx: usize, my: usize)
        ensures
            final(self)@ == click_tabs(old(self)@, mx as int, my as int),
    {
        if is_in_rect(mx, my, 30, 70, 140, 36) {
            self.current_tab = Tab::Dashboard;
            self.active_field = 0;
        }
        if is_in_rect(mx, my, 180, 70, 140, 36) {
            self.current_tab = Tab::RelayServer;
            self.active_field = 0;
        }
        if is_in_rect(mx, my, 330, 70, 140, 36) {
            self.current_tab = Tab::Settings;
            self.active_field = 0;
        }
        if is_in_rect(mx, my, 480, 70, 140, 36) {
            self.current_tab = Tab::Logs;
            self.active_field = 0;
        }
    }

    fn click_dashboard(&mut self, config: &AgentConfig, e: &mut InputEffect, mx: usize, my: usize)
        ensures
            (final(self)@, final(e)@) == click_dashboard(
                old(self)@,
                config@,
                old(e)@,
                mx as int,
                my as int,
            ),
    {
        if self.current_tab != Tab::Dashboard {
            return;
        }
        if is_in_rect(mx, my, 210, 240, 140, 34) {
            e.copy_system_id = Some(config.system_id.clone());
        }
        if is_in_rect(mx, my, 50, 410, 320, 30) {
            self.current_tab = Tab::Settings;
            self.active_field = 3;
        }
        if is_in_rect(mx, my, 440, 200, 320, 38) {
            self.active_field = 1;
        } else if is_in_rect(mx, my, 440, 275, 320, 38) {
            self.active_field = 2;
        } else if is_in_rect(mx, my, 440, 335, 320, 44) {
            self.connect();
        } else if !is_in_rect(mx, my, 440, 150, 340, 300) {
            self.active_field = 0;
        }
    }

    fn click_relay(&mut self, e: &mut InputEffect, mx: usize, my: usize)
        ensures
            (final(self)@, final(e)@) == click_relay(old(self)@, old(e)@, mx as int, my as int),
    {
        if self.current_tab != Tab::RelayServer {
            return;
        }
        if is_in_rect(mx, my, 600, 255, 140, 32) {
            let mut out: Vec<char> = Vec::new();
            if self.lan_ips.len() > 0 {
                push_str(&mut out, self.lan_ips[0].as_str());
            } else {
                push_str(&mut out, "127.0.0.1");
            }
            push_str(&mut out, ":9001");
            e.copy_server_address = Some(string_of(out.as_slice()));
        }
        if is_in_rect(mx, my, 560, 160, 200, 40) {
            self.restart_relay_requested = true;
        }
    }

    fn click_settings(
        &mut self,
        config: &mut AgentConfig,
        e: &mut InputEffect,
        mx: usize,
        my: usize,
        now_ms: u64,
    )
        ensures
            (final(self)@, final(config)@, final(e)@) == click_settings(
                old(self)@,
                old(config)@,
                old(e)@,
                mx as int,
                my as int,
                now_ms,
            ),
    {
        if self.current_tab != Tab::Settings {
            return;
        }
        if is_in_rect(mx, my, 50, 235, 420, 38) {
            self.active_field = 3;
        } else if is_in_rect(mx, my, 50, 315, 420, 38) {
            self.active_field = 4;
        } else if is_in_rect(mx, my, 50, 375, 200, 42) {
            self.save_settings(config, now_ms);
            e.save_config = true;
        } else if is_in_rect(mx, my, 260, 375, 180, 42) {
            self.test_network_requested = true;
        } else {
            self.active_field = 0;
        }
    }

    /// The mouse state of one frame, the pointer at (`mx`, `my`) (see
    /// [`spec_mouse`]).
    pub fn handle_mouse(
        &mut self,
        mouse_down: bool,
        mx: usize,
        my: usize,
        config: &mut AgentConfig,
        now_ms: u64,
    ) -> (e: InputEffect)
        ensures
            (final(self)@, final(config)@, e@) == spec_mouse(
                old(self)@,
                old(config)@,
                mouse_down,
                mx as int,
                my as int,
                now_ms,
            ),
    {
        let clicked = mouse_down && !self.last_mouse_down;
        self.last_mouse_down = mouse_down;
        let mut e = InputEffect { save_config: false, copy_system_id: None, copy_server_address: None };
        if clicked {
            self.click_mode(config, &mut e, mx, my);
            self.click_tabs(mx, my);
            self.click_dashboard(config, &mut e, mx, my);
            self.click_relay(&mut e, mx, my);
            self.click_settings(config, &mut e, mx, my, now_ms);
        }
        e
    }

    /// One frame of input (see [`spec_input`]).
    pub fn handle_input(
        &mut self,
        keys: &[Key],
        mouse_down: bool,
        mx: usize,
        my: usize,
        config: &mut AgentConfig,
        now_ms: u64,
    ) -> (e: InputEffect)
        ensures
            (final(self)@, final(config)@, e@) == spec_input(
                old(self)@,
                old(config)@,
                keys@,
                mouse_down,
                mx as int,
                my as int,
                now_ms,
            ),
    {
        let mut save = false;
        let mut i: usize = 0;
        while i < keys.len()
            invariant
                i <= keys.len(),
                (self@, config@, save) == spec_keys(old(self)@, old(config)@, keys@.take(i as int), now_ms),
            decreases keys.len() - i,
        {
            proof {
                assert(keys@.take(i + 1).drop_last() == keys@.take(i as int));
                assert(keys@.take(i + 1).last() == keys@[i as int]);
            }
            let s = self.handle_key(keys[i], config, now_ms);
            save = save || s;
            i += 1;
        }
        proof {
            assert(keys@.take(keys.len() as int) == keys@);
        }
        let mut e = self.handle_mouse(mouse_down, mx, my, config, now_ms);
        e.save_config = save || e.save_config;
        e
    }

    /// The System ID reached the clipboard at `now_ms`.
    pub fn system_id_copied(&mut self, now_ms: u64)
        ensures
            final(self)@ == (UiAppView { copy_feedback_timer: Some(now_ms), ..old(self)@ }),
    {
        self.copy_feedback_timer = Some(now_ms);
    }

    /// The server address reached the clipboard at `now_ms`.
    pub fn server_address_copied(&mut self, now_ms: u64)
        ensures
            final(self)@ == (UiAppView { copy_server_ip_timer: Some(now_ms), ..old(self)@ }),
    {
        self.copy_server_ip_timer = Some(now_ms);
    }
}




pub const WINDOW_WIDTH: usize = 820;
pub const WINDOW_HEIGHT: usize = 620;

pub const COLOR_BG: u32 = 0x0B0F19;
pub const COLOR_SURFACE: u32 = 0x151D2C;
pub const COLOR_SURFACE_ALT: u32 = 0x1E293B;
pub const COLOR_BORDER: u32 = 0x334155;
pub const COLOR_BORDER_ACTIVE: u32 = 0x3B82F6;
pub const COLOR_PRIMARY: u32 = 0x2563EB;
pub const COLOR_SUCCESS: u32 = 0x10B981;
pub const COLOR_WARNING: u32 = 0xF59E0B;
pub const COLOR_DANGER: u32 = 0xEF4444;
pub const COLOR_TEXT_MAIN: u32 = 0xF8FAFC;
pub const COLOR_TEXT_MUTED: u32 = 0x94A3B8;
pub const COLOR_TEXT_DIM: u32 = 0x64748B;
pub const COLOR_INPUT_BG: u32 = 0x0F172A;
pub const COLOR_ACCENT_CYAN: u32 = 0x06B6D4;

/// Whether feedback started at `t` is still shown at `now_ms`: less than two
/// whole seconds have passed.
pub open spec fn recent(t: Option<u64>, now_ms: u64) -> bool {
    match t {
        Some(t0) => now_ms <= t0 || now_ms - t0 < 2000,
        None => false,
    }
}

fn recent_exec(t: Option<u64>, now_ms: u64) -> (b: bool)
    ensures
        b == recent(t, now_ms),
{
    match t {
        Some(t0) => now_ms <= t0 || now_ms - t0 < 2000,
        None => false,
    }
}

/// The header badge's text.
pub open spec fn badge_text(srv: bool, running: bool, status: ConnectionStatus) -> Seq<char> {
    if srv {
        if running {
            "\u{25CF} SERVER READY (Port 9001)"@
        } else {
            "\u{25CF} SERVER STARTING..."@
        }
    } else {
        match status {
            ConnectionStatus::Starting => "\u{25CF} STARTING..."@,
            ConnectionStatus::Connecting => "\u{25CF} CONNECTING..."@,
            ConnectionStatus::Authenticating => "\u{25CF} AUTHENTICATING..."@,
            ConnectionStatus::Online => "\u{25CF} ONLINE"@,
            ConnectionStatus::Disconnected => "\u{25CF} DISCONNECTED"@,
        }
    }
}

/// The header badge's color.
pub open spec fn badge_color(srv: bool, running: bool, status: ConnectionStatus) -> u32 {
    if srv {
        if running {
            COLOR_SUCCESS
        } else {
            COLOR_WARNING
        }
    } else {
        match status {
            ConnectionStatus::Starting => 0x3B82F6u32,
            ConnectionStatus::Connecting => 0xF59E0Bu32,
            ConnectionStatus::Authenticating => 0xA855F7u32,
            ConnectionStatus::Online => COLOR_SUCCESS,
            ConnectionStatus::Disconnected => COLOR_DANGER,
        }
    }
}

fn badge(srv: bool, running: bool, status: ConnectionStatus) -> (b: (&'static str, u32))
    ensures
        b.0@ == badge_text(srv, running, status),
        b.1 == badge_color(srv, running, status),
{
    if srv {
        if running {
            ("\u{25CF} SERVER READY (Port 9001)", COLOR_SUCCESS)
        } else {
            ("\u{25CF} SERVER STARTING...", COLOR_WARNING)
        }
    } else {
        match status {
            ConnectionStatus::Starting => ("\u{25CF} STARTING...", 0x3B82F6),
            ConnectionStatus::Connecting => ("\u{25CF} CONNECTING...", 0xF59E0B),
            ConnectionStatus::Authenticating => ("\u{25CF} AUTHENTICATING...", 0xA855F7),
            ConnectionStatus::Online => ("\u{25CF} ONLINE", COLOR_SUCCESS),
            ConnectionStatus::Disconnected => ("\u{25CF} DISCONNECTED", COLOR_DANGER),
        }
    }
}

/// The dashboard's status line.
pub open spec fn dash_status_text(status: ConnectionStatus) -> Seq<char> {
    match status {
        ConnectionStatus::Starting => "Starting..."@,
        ConnectionStatus::Connecting => "Connecting to Server..."@,
        ConnectionStatus::Authenticating => "Authenticating with Relay..."@,
        ConnectionStatus::Online => "Online & Connected"@,
        ConnectionStatus::Disconnected => "DISCONNECTED"@,
    }
}

pub open spec fn dash_status_color(status: ConnectionStatus) -> u32 {
    match status {
        ConnectionStatus::Starting => 0x3B82F6u32,
        ConnectionStatus::Connecting => 0xF59E0Bu32,
        ConnectionStatus::Authenticating => 0xA855F7u32,
        ConnectionStatus::Online => COLOR_SUCCESS,
        ConnectionStatus::Disconnected => COLOR_DANGER,
    }
}

fn dash_status(status: ConnectionStatus) -> (r: (&'static str, u32))
    ensures
        r.0@ == dash_status_text(status),
        r.1 == dash_status_color(status),
{
    match status {
        ConnectionStatus::Starting => ("Starting...", 0x3B82F6),
        ConnectionStatus::Connecting => ("Connecting to Server...", 0xF59E0B),
        ConnectionStatus::Authenticating => ("Authenticating with Relay...", 0xA855F7),
        ConnectionStatus::Online => ("Online & Connected", COLOR_SUCCESS),
        ConnectionStatus::Disconnected => ("DISCONNECTED", COLOR_DANGER),
    }
}

/// The error under the offline banner: the last error cut to 36 bytes, or
/// the first 36 bytes of the standard hint when there is none.
pub open spec fn shown_error(err: Seq<char>) -> Seq<char> {
    if err.len() == 0 {
        "Cannot reach server. Click to config"@
    } else {
        trunc_bytes(err, 36)
    }
}

fn shown_error_exec(err: &str) -> (r: String)
    requires
        err@.len() > 0 ==> cut_ok(err@, 36),
    ensures
        r@ == shown_error(err@),
{
    if err.is_empty() {
        String::from_str("Cannot reach server. Click to config")
    } else {
        byte_prefix(err, 36)
    }
}

/// The address clients are told to use: the first LAN address, or the
/// loopback address when there is none.
pub open spec fn primary_ip(lan_ips: Seq<Seq<char>>) -> Seq<char> {
    if lan_ips.len() > 0 {
        lan_ips[0]
    } else {
        "127.0.0.1"@
    }
}

/// Unicode uppercase of a text, as `str::to_uppercase` computes it.
pub uninterp spec fn unicode_uppercase(s: Seq<char>) -> Seq<char>;

/// Trusted: calls `str::to_uppercase`, which std documents as the text's
/// Unicode uppercase mapping. The contract names that result.
#[verifier::external_body]
fn to_uppercase(s: &str) -> (r: String)
    ensures
        r@ == unicode_uppercase(s@),
{
    s.to_uppercase()
}

fn test_result_exec(r: &Option<(bool, String)>) -> (t: (bool, String))
    requires
        r is Some,
        cut_ok(r.unwrap().1@, 50),
    ensures
        t.0 == r.unwrap().0,
        t.1@ == trunc_bytes(r.unwrap().1@, 50),
{
    match r {
        Some(p) => (p.0, byte_prefix(p.1.as_str(), 50)),
        None => (false, String::new()),
    }
}

/// Whether `p` occurs in `s`.
pub open spec fn has_sub(s: Seq<char>, p: Seq<char>) -> bool {
    spec_find(s, p) is Some
}

fn has_sub_exec(s: &[char], p: &str) -> (b: bool)
    ensures
        b == has_sub(s@, p@),
{
    let pc = chars_of(p);
    find(s, pc.as_slice()).is_some()
}

/// The color of a log line, by the tag it carries.
pub open spec fn log_color(line: Seq<char>) -> u32 {
    if has_sub(line, "[SERVER]"@) {
        COLOR_ACCENT_CYAN
    } else if has_sub(line, "[AUTH]"@) || has_sub(line, "[SESSION]"@) {
        COLOR_SUCCESS
    } else if has_sub(line, "[H264"@) || has_sub(line, "[STREAM]"@) {
        0x38BDF8u32
    } else if has_sub(line, "ERROR"@) || has_sub(line, "FAILED"@) {
        COLOR_DANGER
    } else {
        COLOR_TEXT_MUTED
    }
}

fn log_color_exec(line: &str) -> (c: u32)
    ensures
        c == log_color(line@),
{
    let l = chars_of(line);
    if has_sub_exec(l.as_slice(), "[SERVER]") {
        COLOR_ACCENT_CYAN
    } else if has_sub_exec(l.as_slice(), "[AUTH]") || has_sub_exec(l.as_slice(), "[SESSION]") {
        COLOR_SUCCESS
    } else if has_sub_exec(l.as_slice(), "[H264") || has_sub_exec(l.as_slice(), "[STREAM]") {
        0x38BDF8
    } else if has_sub_exec(l.as_slice(), "ERROR") || has_sub_exec(l.as_slice(), "FAILED") {
        COLOR_DANGER
    } else {
        COLOR_TEXT_MUTED
    }
}

/// The log lines the window shows: the last 21.
pub open spec fn shown_logs(logs: Seq<Seq<char>>) -> Seq<Seq<char>> {
    if logs.len() > 21 {
        logs.skip(logs.len() - 21)
    } else {
        logs
    }
}

/// One text line per shown log line, 16 pixels apart, cut to 85 bytes.
pub open spec fn spec_log_lines(lines: Seq<Seq<char>>) -> Seq<DrawOpView> {
    Seq::new(
        lines.len(),
        |i: int|
            DrawOpView::Text {
                x: 65,
                y: (175 + 16 * i) as usize,
                text: trunc_bytes(lines[i], 85),
                color: log_color(lines[i]),
                scale: 1,
            },
    )
}

/// The logs tab: a terminal-like box with the latest lines.
pub open spec fn spec_logs_ops(logs: Seq<Seq<char>>) -> Seq<DrawOpView> {
    seq![
        DrawOpView::Rounded { x: 30, y: 125, w: 760, h: 430, radius: 6, color: COLOR_SURFACE },
        DrawOpView::Outline { x: 30, y: 125, w: 760, h: 430, color: COLOR_BORDER },
        DrawOpView::Text { x: 50, y: 140, text: "LIVE SYSTEM & STREAM LOGS"@, color: COLOR_TEXT_MAIN, scale: 1 },
        DrawOpView::Rounded { x: 50, y: 165, w: 720, h: 370, radius: 4, color: COLOR_INPUT_BG },
        DrawOpView::Outline { x: 50, y: 165, w: 720, h: 370, color: COLOR_BORDER },
    ] + spec_log_lines(shown_logs(logs))
}

/// Log lines as texts.
pub open spec fn log_texts(logs: Seq<String>) -> Seq<Seq<char>> {
    logs.map_values(|s: String| s@)
}

/// Whether every shown log line can be cut at 85 bytes.
pub open spec fn logs_cut_ok(logs: Seq<Seq<char>>) -> bool {
    forall|i: int| 0 <= i < shown_logs(logs).len() ==> cut_ok(#[trigger] shown_logs(logs)[i], 85)
}

/// The whole frame: header, tab bar, the current tab's content, footer.
pub open spec fn spec_frame(
    v: UiAppView,
    cfg: AgentConfigView,
    status: ConnectionStatus,
    err: Seq<char>,
    running: bool,
    stats: RelayStats,
    logs: Seq<Seq<char>>,
    now_ms: u64,
) -> Seq<DrawOpView> {
    spec_header_ops(cfg, running, status) + spec_tab_ops(v) + match v.tab {
        Tab::Dashboard => spec_dashboard_ops(v, cfg, status, err, now_ms),
        Tab::RelayServer => spec_relay_ops(v, cfg, running, stats, now_ms),
        Tab::Settings => spec_settings_ops(v, cfg, now_ms),
        Tab::Logs => spec_logs_ops(logs),
    } + spec_footer_ops(cfg)
}

/// What drawing needs of the texts it cuts by bytes: each cut falls on a
/// character boundary (where it does not, the window's code would panic).
pub open spec fn frame_cuts_ok(
    v: UiAppView,
    cfg: AgentConfigView,
    status: ConnectionStatus,
    err: Seq<char>,
    logs: Seq<Seq<char>>,
) -> bool {
    &&& v.tab == Tab::Dashboard && status == ConnectionStatus::Disconnected && err.len() > 0
        ==> cut_ok(err, 36)
    &&& v.tab == Tab::Settings ==> cut_ok(cfg.device_uuid, 16)
    &&& v.tab == Tab::Settings && v.network_test_result is Some ==> cut_ok(
        v.network_test_result.unwrap().1,
        50,
    )
    &&& v.tab == Tab::Logs ==> logs_cut_ok(logs)
}


pub open spec fn spec_header_ops_0(cfg: AgentConfigView, running: bool, status: ConnectionStatus) -> Seq<DrawOpView> {
    seq![
        DrawOpView::Clear { color: COLOR_BG },
        DrawOpView::Fill { x: 0, y: 0, w: 820, h: 60, color: COLOR_SURFACE_ALT },
        DrawOpView::Fill { x: 0, y: 59, w: 820, h: 1, color: COLOR_BORDER },
        DrawOpView::Text { x: 30, y: 20, text: "DESKSTREAM"@, color: COLOR_TEXT_MAIN, scale: 2 },
        DrawOpView::Text { x: 185, y: 26, text: "PRO 120 FPS"@, color: COLOR_ACCENT_CYAN, scale: 1 },
        DrawOpView::Rounded { x: 560, y: 16, w: 110, h: 30, radius: 4, color: (if spells_server(cfg.app_mode) { COLOR_SURFACE } else { COLOR_PRIMARY }) },
        DrawOpView::Outline { x: 560, y: 16, w: 110, h: 30, color: (if spells_server(cfg.app_mode) { COLOR_BORDER } else { COLOR_BORDER_ACTIVE }) },
        DrawOpView::Text { x: 580, y: 25, text: "Client Mode"@, color: COLOR_TEXT_MAIN, scale: 1 },
        DrawOpView::Rounded { x: 680, y: 16, w: 110, h: 30, radius: 4, color: (if spells_server(cfg.app_mode) { COLOR_PRIMARY } else { COLOR_SURFACE }) },
        DrawOpView::Outline { x: 680, y: 16, w: 110, h: 30, color: (if spells_server(cfg.app_mode) { COLOR_BORDER_ACTIVE } else { COLOR_BORDER }) },
        DrawOpView::Text { x: 700, y: 25, text: "Server Mode"@, color: COLOR_TEXT_MAIN, scale: 1 },
        DrawOpView::Rounded { x: 320, y: 18, w: 210, h: 26, radius: 13, color: COLOR_INPUT_BG },
    ]
}

pub open spec fn spec_header_ops_1(cfg: AgentConfigView, running: bool, status: ConnectionStatus) -> Seq<DrawOpView> {
    seq![
        DrawOpView::Outline { x: 320, y: 18, w: 210, h: 26, color: badge_color(spells_server(cfg.app_mode), running, status) },
        DrawOpView::Text { x: 335, y: 25, text: badge_text(spells_server(cfg.app_mode), running, status), color: badge_color(spells_server(cfg.app_mode), running, status), scale: 1 },
    ]
}

/// The header: title, mode pills and the status badge.
pub open spec fn spec_header_ops(cfg: AgentConfigView, running: bool, status: ConnectionStatus) -> Seq<DrawOpView> {
    spec_header_ops_0(cfg, running, status)
        + spec_header_ops_1(cfg, running, status)
}

pub open spec fn spec_tab_ops_0(v: UiAppView) -> Seq<DrawOpView> {
    seq![
        DrawOpView::Rounded { x: 30, y: 70, w: 140, h: 34, radius: 4, color: (if v.tab == Tab::Dashboard { COLOR_PRIMARY } else { COLOR_SURFACE }) },
        DrawOpView::Outline { x: 30, y: 70, w: 140, h: 34, color: (if v.tab == Tab::Dashboard { COLOR_BORDER_ACTIVE } else { COLOR_BORDER }) },
        DrawOpView::Text { x: 64, y: 82, text: "Dashboard"@, color: (if v.tab == Tab::Dashboard { COLOR_TEXT_MAIN } else { COLOR_TEXT_MUTED }), scale: 1 },
        DrawOpView::Rounded { x: 180, y: 70, w: 140, h: 34, radius: 4, color: (if v.tab == Tab::RelayServer { COLOR_PRIMARY } else { COLOR_SURFACE }) },
        DrawOpView::Outline { x: 180, y: 70, w: 140, h: 34, color: (if v.tab == Tab::RelayServer { COLOR_BORDER_ACTIVE } else { COLOR_BORDER }) },
        DrawOpView::Text { x: 202, y: 82, text: "Relay Server"@, color: (if v.tab == Tab::RelayServer { COLOR_TEXT_MAIN } else { COLOR_TEXT_MUTED }), scale: 1 },
        DrawOpView::Rounded { x: 330, y: 70, w: 140, h: 34, radius: 4, color: (if v.tab == Tab::Settings { COLOR_PRIMARY } else { COLOR_SURFACE }) },
        DrawOpView::Outline { x: 330, y: 70, w: 140, h: 34, color: (if v.tab == Tab::Settings { COLOR_BORDER_ACTIVE } else { COLOR_BORDER }) },
        DrawOpView::Text { x: 368, y: 82, text: "Settings"@, color: (if v.tab == Tab::Settings { COLOR_TEXT_MAIN } else { COLOR_TEXT_MUTED }), scale: 1 },
        DrawOpView::Rounded { x: 480, y: 70, w: 140, h: 34, radius: 4, color: (if v.tab == Tab::Logs { COLOR_PRIMARY } else { COLOR_SURFACE }) },
        DrawOpView::Outline { x: 480, y: 70, w: 140, h: 34, color: (if v.tab == Tab::Logs { COLOR_BORDER_ACTIVE } else { COLOR_BORDER }) },
        DrawOpView::Text { x: 514, y: 82, text: "Live Logs"@, color: (if v.tab == Tab::Logs { COLOR_TEXT_MAIN } else { COLOR_TEXT_MUTED }), scale: 1 },
    ]
}

/// The tab bar; labels centred on their 140-pixel tabs.
pub open spec fn spec_tab_ops(v: UiAppView) -> Seq<DrawOpView> {
    spec_tab_ops_0(v)
}

pub open spec fn spec_footer_ops_0(cfg: AgentConfigView) -> Seq<DrawOpView> {
    seq![
        DrawOpView::Fill { x: 0, y: 585, w: 820, h: 35, color: COLOR_SURFACE_ALT },
        DrawOpView::Fill { x: 0, y: 584, w: 820, h: 1, color: COLOR_BORDER },
        DrawOpView::Text { x: 30, y: 595, text: "DeskStream v2.0 • Ultra-Low Latency Hardware H.264 (120 FPS)"@, color: COLOR_TEXT_DIM, scale: 1 },
        DrawOpView::Text { x: 590, y: 595, text: "Relay: "@ + cfg.relay_addr, color: COLOR_TEXT_MUTED, scale: 1 },
    ]
}

/// The footer: version line and relay address.
pub open spec fn spec_footer_ops(cfg: AgentConfigView) -> Seq<DrawOpView> {
    spec_footer_ops_0(cfg)
}

pub open spec fn spec_dashboard_ops_0(v: UiAppView, cfg: AgentConfigView, status: ConnectionStatus, err: Seq<char>, now_ms: u64) -> Seq<DrawOpView> {
    seq![
        DrawOpView::Rounded { x: 30, y: 125, w: 360, h: 430, radius: 6, color: COLOR_SURFACE },
        DrawOpView::Outline { x: 30, y: 125, w: 360, h: 430, color: COLOR_BORDER },
        DrawOpView::Text { x: 50, y: 145, text: "YOUR SYSTEM ID"@, color: COLOR_TEXT_MUTED, scale: 1 },
        DrawOpView::Text { x: 50, y: 165, text: "Share this ID to allow remote access"@, color: COLOR_TEXT_DIM, scale: 1 },
        DrawOpView::Rounded { x: 50, y: 195, w: 320, h: 85, radius: 4, color: COLOR_INPUT_BG },
        DrawOpView::Outline { x: 50, y: 195, w: 320, h: 85, color: COLOR_BORDER_ACTIVE },
        DrawOpView::Text { x: 65, y: 215, text: spec_formatted_id(cfg.system_id), color: COLOR_TEXT_MAIN, scale: 2 },
        DrawOpView::Rounded { x: 270, y: 205, w: 90, h: 30, radius: 3, color: (if recent(v.copy_feedback_timer, now_ms) { COLOR_SUCCESS } else { COLOR_PRIMARY }) },
        DrawOpView::Text { x: 285, y: 214, text: (if recent(v.copy_feedback_timer, now_ms) { "Copied!"@ } else { "Copy ID"@ }), color: COLOR_TEXT_MAIN, scale: 1 },
        DrawOpView::Text { x: 50, y: 300, text: "Device Name:"@, color: COLOR_TEXT_MUTED, scale: 1 },
        DrawOpView::Text { x: 160, y: 300, text: cfg.name, color: COLOR_TEXT_MAIN, scale: 1 },
        DrawOpView::Text { x: 50, y: 328, text: "Security PIN:"@, color: COLOR_TEXT_MUTED, scale: 1 },
    ]
}

pub open spec fn spec_dashboard_ops_1(v: UiAppView, cfg: AgentConfigView, status: ConnectionStatus, err: Seq<char>, now_ms: u64) -> Seq<DrawOpView> {
    seq![
        DrawOpView::Text { x: 160, y: 328, text: (if cfg.pin.len() == 0 { "(None / Default)"@ } else { cfg.pin }), color: COLOR_TEXT_MAIN, scale: 1 },
        DrawOpView::Text { x: 50, y: 356, text: "Relay Server:"@, color: COLOR_TEXT_MUTED, scale: 1 },
        DrawOpView::Text { x: 160, y: 356, text: cfg.relay_addr, color: COLOR_ACCENT_CYAN, scale: 1 },
        DrawOpView::Text { x: 50, y: 384, text: "Status:"@, color: COLOR_TEXT_MUTED, scale: 1 },
        DrawOpView::Text { x: 160, y: 384, text: dash_status_text(status), color: dash_status_color(status), scale: 1 },
    ]
}

pub open spec fn spec_dashboard_ops_2(v: UiAppView, cfg: AgentConfigView, status: ConnectionStatus, err: Seq<char>, now_ms: u64) -> Seq<DrawOpView> {
    if status == ConnectionStatus::Disconnected {
        seq![
            DrawOpView::Rounded { x: 50, y: 412, w: 320, h: 36, radius: 4, color: 0x450A0Au32 },
            DrawOpView::Outline { x: 50, y: 412, w: 320, h: 36, color: COLOR_DANGER },
            DrawOpView::Text { x: 60, y: 418, text: "DISCONNECTED"@, color: COLOR_DANGER, scale: 1 },
            DrawOpView::Text { x: 60, y: 432, text: shown_error(err), color: COLOR_TEXT_MUTED, scale: 1 },
        ]
    } else {
        Seq::<DrawOpView>::empty()
    }
}

pub open spec fn spec_dashboard_ops_3(v: UiAppView, cfg: AgentConfigView, status: ConnectionStatus, err: Seq<char>, now_ms: u64) -> Seq<DrawOpView> {
    seq![
        DrawOpView::Rounded { x: 50, y: 455, w: 320, h: 50, radius: 4, color: COLOR_SURFACE_ALT },
        DrawOpView::Outline { x: 50, y: 455, w: 320, h: 50, color: COLOR_BORDER },
        DrawOpView::Text { x: 65, y: 465, text: "Hardware GPU Encoder:"@, color: COLOR_ACCENT_CYAN, scale: 1 },
        DrawOpView::Text { x: 65, y: 485, text: v.gpu_backend_name + " (Active)"@, color: COLOR_SUCCESS, scale: 1 },
        DrawOpView::Rounded { x: 420, y: 125, w: 370, h: 430, radius: 6, color: COLOR_SURFACE },
        DrawOpView::Outline { x: 420, y: 125, w: 370, h: 430, color: COLOR_BORDER },
        DrawOpView::Text { x: 440, y: 145, text: "CONNECT TO REMOTE DESKTOP"@, color: COLOR_TEXT_MUTED, scale: 1 },
        DrawOpView::Text { x: 440, y: 165, text: "Enter partner System ID to start remote control"@, color: COLOR_TEXT_DIM, scale: 1 },
        DrawOpView::Text { x: 440, y: 195, text: "Partner System ID:"@, color: COLOR_TEXT_MAIN, scale: 1 },
        DrawOpView::Rounded { x: 440, y: 215, w: 330, h: 40, radius: 4, color: COLOR_INPUT_BG },
        DrawOpView::Outline { x: 440, y: 215, w: 330, h: 40, color: (if v.active_field == 1 { COLOR_BORDER_ACTIVE } else { COLOR_BORDER }) },
        DrawOpView::Text { x: 455, y: 228, text: (if v.partner_id.len() == 0 { if v.active_field == 1 { ""@ } else { "e.g. 847 293 615"@ } } else { v.partner_id }), color: (if v.partner_id.len() == 0 { COLOR_TEXT_DIM } else { COLOR_TEXT_MAIN }), scale: 1 },
    ]
}

pub open spec fn spec_dashboard_ops_4(v: UiAppView, cfg: AgentConfigView, status: ConnectionStatus, err: Seq<char>, now_ms: u64) -> Seq<DrawOpView> {
    seq![
        DrawOpView::Text { x: 440, y: 275, text: "Partner PIN (Optional):"@, color: COLOR_TEXT_MAIN, scale: 1 },
        DrawOpView::Rounded { x: 440, y: 295, w: 330, h: 40, radius: 4, color: COLOR_INPUT_BG },
        DrawOpView::Outline { x: 440, y: 295, w: 330, h: 40, color: (if v.active_field == 2 { COLOR_BORDER_ACTIVE } else { COLOR_BORDER }) },
        DrawOpView::Text { x: 455, y: 308, text: (if v.partner_pin.len() == 0 { if v.active_field == 2 { ""@ } else { "Enter PIN if required"@ } } else { v.partner_pin }), color: (if v.partner_pin.len() == 0 { COLOR_TEXT_DIM } else { COLOR_TEXT_MAIN }), scale: 1 },
        DrawOpView::Rounded { x: 440, y: 355, w: 330, h: 48, radius: 4, color: COLOR_PRIMARY },
        DrawOpView::Text { x: 520, y: 370, text: "CONNECT REMOTE DESKTOP"@, color: COLOR_TEXT_MAIN, scale: 1 },
        DrawOpView::Text { x: 440, y: 430, text: "• Ultra-Low Latency 120 FPS Video"@, color: COLOR_TEXT_MUTED, scale: 1 },
        DrawOpView::Text { x: 440, y: 455, text: "• Seamless Mouse & Keyboard Control"@, color: COLOR_TEXT_MUTED, scale: 1 },
        DrawOpView::Text { x: 440, y: 480, text: "• Direct Bi-directional Clipboard Sync"@, color: COLOR_TEXT_MUTED, scale: 1 },
        DrawOpView::Text { x: 440, y: 505, text: "• Real-Time Microphone & Audio Sharing"@, color: COLOR_TEXT_MUTED, scale: 1 },
    ]
}

/// The dashboard tab: this device's ID and the connect form.
pub open spec fn spec_dashboard_ops(v: UiAppView, cfg: AgentConfigView, status: ConnectionStatus, err: Seq<char>, now_ms: u64) -> Seq<DrawOpView> {
    spec_dashboard_ops_0(v, cfg, status, err, now_ms)
        + spec_dashboard_ops_1(v, cfg, status, err, now_ms)
        + spec_dashboard_ops_2(v, cfg, status, err, now_ms)
        + spec_dashboard_ops_3(v, cfg, status, err, now_ms)
        + spec_dashboard_ops_4(v, cfg, status, err, now_ms)
}

pub open spec fn spec_relay_ops_0(v: UiAppView, cfg: AgentConfigView, running: bool, stats: RelayStats, now_ms: u64) -> Seq<DrawOpView> {
    seq![
        DrawOpView::Rounded { x: 30, y: 125, w: 760, h: 430, radius: 6, color: COLOR_SURFACE },
        DrawOpView::Outline { x: 30, y: 125, w: 760, h: 430, color: COLOR_BORDER },
        DrawOpView::Text { x: 50, y: 145, text: "CENTRALIZED RELAY SERVER (HOST MODE)"@, color: COLOR_TEXT_MAIN, scale: 2 },
        DrawOpView::Text { x: 50, y: 175, text: "Manages incoming client connections, WebSockets, and stream routing."@, color: COLOR_TEXT_MUTED, scale: 1 },
        DrawOpView::Rounded { x: 50, y: 205, w: 340, h: 130, radius: 4, color: COLOR_SURFACE_ALT },
        DrawOpView::Outline { x: 50, y: 205, w: 340, h: 130, color: COLOR_BORDER },
        DrawOpView::Text { x: 70, y: 220, text: "Relay Server Status:"@, color: COLOR_TEXT_MUTED, scale: 1 },
        DrawOpView::Text { x: 70, y: 240, text: (if running { "ACTIVE & LISTENING"@ } else { "STOPPED"@ }), color: (if running { COLOR_SUCCESS } else { COLOR_DANGER }), scale: 2 },
        DrawOpView::Text { x: 70, y: 275, text: "Binding: "@ + cfg.server_bind_addr, color: COLOR_TEXT_DIM, scale: 1 },
        DrawOpView::Text { x: 70, y: 300, text: "LAN IP: "@ + primary_ip(v.lan_ips) + ":9001"@, color: COLOR_ACCENT_CYAN, scale: 1 },
        DrawOpView::Rounded { x: 420, y: 205, w: 340, h: 130, radius: 4, color: COLOR_SURFACE_ALT },
        DrawOpView::Outline { x: 420, y: 205, w: 340, h: 130, color: COLOR_BORDER },
    ]
}

pub open spec fn spec_relay_ops_1(v: UiAppView, cfg: AgentConfigView, running: bool, stats: RelayStats, now_ms: u64) -> Seq<DrawOpView> {
    seq![
        DrawOpView::Text { x: 440, y: 225, text: "Active Connected Hosts:"@, color: COLOR_TEXT_MUTED, scale: 1 },
        DrawOpView::Text { x: 650, y: 225, text: decimal(stats.active_hosts as nat), color: COLOR_TEXT_MAIN, scale: 1 },
        DrawOpView::Text { x: 440, y: 255, text: "Active Remote Sessions:"@, color: COLOR_TEXT_MUTED, scale: 1 },
        DrawOpView::Text { x: 650, y: 255, text: decimal(stats.active_sessions as nat), color: COLOR_TEXT_MAIN, scale: 1 },
        DrawOpView::Text { x: 440, y: 285, text: "Routed Video Frames:"@, color: COLOR_TEXT_MUTED, scale: 1 },
        DrawOpView::Text { x: 650, y: 285, text: decimal(stats.total_video_frames as nat), color: COLOR_ACCENT_CYAN, scale: 1 },
        DrawOpView::Rounded { x: 600, y: 305, w: 140, h: 26, radius: 3, color: COLOR_PRIMARY },
        DrawOpView::Text { x: 610, y: 312, text: (if recent(v.copy_server_ip_timer, now_ms) { "Address Copied!"@ } else { "Copy Server Address"@ }), color: COLOR_TEXT_MAIN, scale: 1 },
        DrawOpView::Rounded { x: 50, y: 355, w: 710, h: 160, radius: 4, color: COLOR_INPUT_BG },
        DrawOpView::Outline { x: 50, y: 355, w: 710, h: 160, color: COLOR_BORDER },
        DrawOpView::Text { x: 70, y: 375, text: "HOW TO CONNECT CLIENT LAPTOPS (LAPTOP B):"@, color: COLOR_ACCENT_CYAN, scale: 1 },
        DrawOpView::Text { x: 70, y: 405, text: "1. Ensure both laptops are on the same Wi-Fi / LAN network."@, color: COLOR_TEXT_MUTED, scale: 1 },
    ]
}

pub open spec fn spec_relay_ops_2(v: UiAppView, cfg: AgentConfigView, running: bool, stats: RelayStats, now_ms: u64) -> Seq<DrawOpView> {
    seq![
        DrawOpView::Text { x: 70, y: 430, text: "2. On Laptop B, open DeskStream -> Settings tab."@, color: COLOR_TEXT_MUTED, scale: 1 },
        DrawOpView::Text { x: 70, y: 455, text: "3. Set Server Address to:  "@ + primary_ip(v.lan_ips) + ":9001  and click Save & Connect."@, color: COLOR_SUCCESS, scale: 1 },
        DrawOpView::Text { x: 70, y: 480, text: "4. Laptop B will automatically connect and show ONLINE with its unique System ID."@, color: COLOR_TEXT_MUTED, scale: 1 },
    ]
}

/// The relay server tab: listener state, counters and instructions.
pub open spec fn spec_relay_ops(v: UiAppView, cfg: AgentConfigView, running: bool, stats: RelayStats, now_ms: u64) -> Seq<DrawOpView> {
    spec_relay_ops_0(v, cfg, running, stats, now_ms)
        + spec_relay_ops_1(v, cfg, running, stats, now_ms)
        + spec_relay_ops_2(v, cfg, running, stats, now_ms)
}

pub open spec fn spec_settings_ops_0(v: UiAppView, cfg: AgentConfigView, now_ms: u64) -> Seq<DrawOpView> {
    seq![
        DrawOpView::Rounded { x: 30, y: 125, w: 760, h: 430, radius: 6, color: COLOR_SURFACE },
        DrawOpView::Outline { x: 30, y: 125, w: 760, h: 430, color: COLOR_BORDER },
        DrawOpView::Text { x: 50, y: 145, text: "APPLICATION CONFIGURATION & NETWORK SETUP"@, color: COLOR_TEXT_MAIN, scale: 2 },
        DrawOpView::Text { x: 50, y: 175, text: "Configure relay server address, test connection, and set password."@, color: COLOR_TEXT_MUTED, scale: 1 },
        DrawOpView::Text { x: 50, y: 215, text: "Relay Server Address (e.g. 192.168.x.x:9001):"@, color: COLOR_TEXT_MAIN, scale: 1 },
        DrawOpView::Rounded { x: 50, y: 235, w: 420, h: 38, radius: 4, color: COLOR_INPUT_BG },
        DrawOpView::Outline { x: 50, y: 235, w: 420, h: 38, color: (if v.active_field == 3 { COLOR_BORDER_ACTIVE } else { COLOR_BORDER }) },
        DrawOpView::Text { x: 65, y: 248, text: v.relay_addr, color: COLOR_TEXT_MAIN, scale: 1 },
        DrawOpView::Text { x: 50, y: 295, text: "Unattended Access Security PIN (Optional):"@, color: COLOR_TEXT_MAIN, scale: 1 },
        DrawOpView::Rounded { x: 50, y: 315, w: 420, h: 38, radius: 4, color: COLOR_INPUT_BG },
        DrawOpView::Outline { x: 50, y: 315, w: 420, h: 38, color: (if v.active_field == 4 { COLOR_BORDER_ACTIVE } else { COLOR_BORDER }) },
        DrawOpView::Text { x: 65, y: 328, text: (if v.pin.len() == 0 { "(Optional password for direct access)"@ } else { v.pin }), color: (if v.pin.len() == 0 { COLOR_TEXT_DIM } else { COLOR_TEXT_MAIN }), scale: 1 },
    ]
}

pub open spec fn spec_settings_ops_1(v: UiAppView, cfg: AgentConfigView, now_ms: u64) -> Seq<DrawOpView> {
    seq![
        DrawOpView::Rounded { x: 50, y: 375, w: 190, h: 42, radius: 4, color: (if recent(v.save_feedback_timer, now_ms) { COLOR_SUCCESS } else { COLOR_PRIMARY }) },
        DrawOpView::Text { x: 65, y: 390, text: (if recent(v.save_feedback_timer, now_ms) { "Saved & Connecting!"@ } else { "Save & Connect Now"@ }), color: COLOR_TEXT_MAIN, scale: 1 },
        DrawOpView::Rounded { x: 260, y: 375, w: 210, h: 42, radius: 4, color: COLOR_SURFACE_ALT },
        DrawOpView::Outline { x: 260, y: 375, w: 210, h: 42, color: COLOR_BORDER_ACTIVE },
        DrawOpView::Text { x: 275, y: 390, text: "Test Network Connection"@, color: COLOR_TEXT_MAIN, scale: 1 },
    ]
}

pub open spec fn spec_settings_ops_2(v: UiAppView, cfg: AgentConfigView, now_ms: u64) -> Seq<DrawOpView> {
    if v.network_test_result is Some {
        seq![
            DrawOpView::Rounded { x: 50, y: 435, w: 420, h: 34, radius: 4, color: (if v.network_test_result.unwrap().0 { 0x064E3Bu32 } else { 0x7F1D1Du32 }) },
            DrawOpView::Outline { x: 50, y: 435, w: 420, h: 34, color: (if v.network_test_result.unwrap().0 { COLOR_SUCCESS } else { COLOR_DANGER }) },
            DrawOpView::Text { x: 60, y: 446, text: trunc_bytes(v.network_test_result.unwrap().1, 50), color: COLOR_TEXT_MAIN, scale: 1 },
        ]
    } else {
        Seq::<DrawOpView>::empty()
    }
}

pub open spec fn spec_settings_ops_3(v: UiAppView, cfg: AgentConfigView, now_ms: u64) -> Seq<DrawOpView> {
    seq![
        DrawOpView::Rounded { x: 500, y: 215, w: 260, h: 220, radius: 4, color: COLOR_SURFACE_ALT },
        DrawOpView::Outline { x: 500, y: 215, w: 260, h: 220, color: COLOR_BORDER },
        DrawOpView::Text { x: 515, y: 230, text: "PERSISTENT IDENTITY"@, color: COLOR_ACCENT_CYAN, scale: 1 },
        DrawOpView::Text { x: 515, y: 255, text: "Hardware UUID:"@, color: COLOR_TEXT_MUTED, scale: 1 },
        DrawOpView::Text { x: 515, y: 275, text: trunc_bytes(cfg.device_uuid, 16) + "..."@, color: COLOR_TEXT_MAIN, scale: 1 },
        DrawOpView::Text { x: 515, y: 305, text: "Assigned System ID:"@, color: COLOR_TEXT_MUTED, scale: 1 },
        DrawOpView::Text { x: 515, y: 325, text: spec_formatted_id(cfg.system_id), color: COLOR_SUCCESS, scale: 1 },
        DrawOpView::Text { x: 515, y: 355, text: "Application Mode:"@, color: COLOR_TEXT_MUTED, scale: 1 },
        DrawOpView::Text { x: 515, y: 375, text: unicode_uppercase(cfg.app_mode), color: COLOR_TEXT_MAIN, scale: 1 },
        DrawOpView::Text { x: 515, y: 400, text: "Active Port:"@, color: COLOR_TEXT_MUTED, scale: 1 },
        DrawOpView::Text { x: 610, y: 400, text: "9001 (TCP)"@, color: COLOR_TEXT_MAIN, scale: 1 },
    ]
}

/// The settings tab: relay address and PIN fields, save and test buttons, identity.
pub open spec fn spec_settings_ops(v: UiAppView, cfg: AgentConfigView, now_ms: u64) -> Seq<DrawOpView> {
    spec_settings_ops_0(v, cfg, now_ms)
        + spec_settings_ops_1(v, cfg, now_ms)
        + spec_settings_ops_2(v, cfg, now_ms)
        + spec_settings_ops_3(v, cfg, now_ms)
}

impl UiApp {
    fn header_ops_0(&self, f: &mut Frame, config: &AgentConfig, running: bool, status: ConnectionStatus)
        ensures
            final(f)@ == old(f)@ + spec_header_ops_0(config@, running, status),
    {
        let ghost start = f@;
        let srv = config.is_server_mode();
        f.clear(COLOR_BG);
        f.fill(0, 0, 820, 60, COLOR_SURFACE_ALT);
        f.fill(0, 59, 820, 1, COLOR_BORDER);
        f.text(30, 20, "DESKSTREAM", COLOR_TEXT_MAIN, 2);
        f.text(185, 26, "PRO 120 FPS", COLOR_ACCENT_CYAN, 1);
        f.rounded(560, 16, 110, 30, 4, if srv { COLOR_SURFACE } else { COLOR_PRIMARY });
        f.outline(560, 16, 110, 30, if srv { COLOR_BORDER } else { COLOR_BORDER_ACTIVE });
        f.text(580, 25, "Client Mode", COLOR_TEXT_MAIN, 1);
        f.rounded(680, 16, 110, 30, 4, if srv { COLOR_PRIMARY } else { COLOR_SURFACE });
        f.outline(680, 16, 110, 30, if srv { COLOR_BORDER_ACTIVE } else { COLOR_BORDER });
        f.text(700, 25, "Server Mode", COLOR_TEXT_MAIN, 1);
        f.rounded(320, 18, 210, 26, 13, COLOR_INPUT_BG);
        assert(f@ =~= start + spec_header_ops_0(config@, running, status));
    }

    fn header_ops_1(&self, f: &mut Frame, config: &AgentConfig, running: bool, status: ConnectionStatus)
        ensures
            final(f)@ == old(f)@ + spec_header_ops_1(config@, running, status),
    {
        let ghost start = f@;
        let srv = config.is_server_mode();
        let badge = badge(srv, running, status);
        f.outline(320, 18, 210, 26, badge.1);
        f.text(335, 25, badge.0, badge.1, 1);
        assert(f@ =~= start + spec_header_ops_1(config@, running, status));
    }

    fn header_ops(&self, f: &mut Frame, config: &AgentConfig, running: bool, status: ConnectionStatus)
        ensures
            final(f)@ == old(f)@ + spec_header_ops(config@, running, status),
    {
        let ghost start = f@;
        self.header_ops_0(f, config, running, status);
        self.header_ops_1(f, config, running, status);
        assert(f@ =~= start + spec_header_ops(config@, running, status));
    }

    fn tab_ops_0(&self, f: &mut Frame)
        ensures
            final(f)@ == old(f)@ + spec_tab_ops_0(self@),
    {
        let ghost start = f@;
        f.rounded(30, 70, 140, 34, 4, if self.current_tab == Tab::Dashboard { COLOR_PRIMARY } else { COLOR_SURFACE });
        f.outline(30, 70, 140, 34, if self.current_tab == Tab::Dashboard { COLOR_BORDER_ACTIVE } else { COLOR_BORDER });
        f.text(64, 82, "Dashboard", if self.current_tab == Tab::Dashboard { COLOR_TEXT_MAIN } else { COLOR_TEXT_MUTED }, 1);
        f.rounded(180, 70, 140, 34, 4, if self.current_tab == Tab::RelayServer { COLOR_PRIMARY } else { COLOR_SURFACE });
        f.outline(180, 70, 140, 34, if self.current_tab == Tab::RelayServer { COLOR_BORDER_ACTIVE } else { COLOR_BORDER });
        f.text(202, 82, "Relay Server", if self.current_tab == Tab::RelayServer { COLOR_TEXT_MAIN } else { COLOR_TEXT_MUTED }, 1);
        f.rounded(330, 70, 140, 34, 4, if self.current_tab == Tab::Settings { COLOR_PRIMARY } else { COLOR_SURFACE });
        f.outline(330, 70, 140, 34, if self.current_tab == Tab::Settings { COLOR_BORDER_ACTIVE } else { COLOR_BORDER });
        f.text(368, 82, "Settings", if self.current_tab == Tab::Settings { COLOR_TEXT_MAIN } else { COLOR_TEXT_MUTED }, 1);
        f.rounded(480, 70, 140, 34, 4, if self.current_tab == Tab::Logs { COLOR_PRIMARY } else { COLOR_SURFACE });
        f.outline(480, 70, 140, 34, if self.current_tab == Tab::Logs { COLOR_BORDER_ACTIVE } else { COLOR_BORDER });
        f.text(514, 82, "Live Logs", if self.current_tab == Tab::Logs { COLOR_TEXT_MAIN } else { COLOR_TEXT_MUTED }, 1);
        assert(f@ =~= start + spec_tab_ops_0(self@));
    }

    fn tab_ops(&self, f: &mut Frame)
        ensures
            final(f)@ == old(f)@ + spec_tab_ops(self@),
    {
        let ghost start = f@;
        self.tab_ops_0(f);
        assert(f@ =~= start + spec_tab_ops(self@));
    }

    fn footer_ops_0(&self, f: &mut Frame, config: &AgentConfig)
        ensures
            final(f)@ == old(f)@ + spec_footer_ops_0(config@),
    {
        let ghost start = f@;
        let relay_line = cat("Relay: ", config.relay_addr.as_str());
        f.fill(0, 585, 820, 35, COLOR_SURFACE_ALT);
        f.fill(0, 584, 820, 1, COLOR_BORDER);
        f.text(30, 595, "DeskStream v2.0 • Ultra-Low Latency Hardware H.264 (120 FPS)", COLOR_TEXT_DIM, 1);
        f.text(590, 595, relay_line.as_str(), COLOR_TEXT_MUTED, 1);
        assert(f@ =~= start + spec_footer_ops_0(config@));
    }

    fn footer_ops(&self, f: &mut Frame, config: &AgentConfig)
        ensures
            final(f)@ == old(f)@ + spec_footer_ops(config@),
    {
        let ghost start = f@;
        self.footer_ops_0(f, config);
        assert(f@ =~= start + spec_footer_ops(config@));
    }

    fn dashboard_ops_0(&self, f: &mut Frame, config: &AgentConfig, status: ConnectionStatus, last_error: &str, now_ms: u64)
        requires
            status == ConnectionStatus::Disconnected && last_error@.len() > 0 ==> cut_ok(last_error@, 36),
        ensures
            final(f)@ == old(f)@ + spec_dashboard_ops_0(self@, config@, status, last_error@, now_ms),
    {
        let ghost start = f@;
        let ghost v = self@;
        let ghost cfg = config@;
        let ghost err = last_error@;
        let id_display = config.formatted_id();
        let copied = recent_exec(self.copy_feedback_timer, now_ms);
        f.rounded(30, 125, 360, 430, 6, COLOR_SURFACE);
        f.outline(30, 125, 360, 430, COLOR_BORDER);
        f.text(50, 145, "YOUR SYSTEM ID", COLOR_TEXT_MUTED, 1);
        f.text(50, 165, "Share this ID to allow remote access", COLOR_TEXT_DIM, 1);
        f.rounded(50, 195, 320, 85, 4, COLOR_INPUT_BG);
        f.outline(50, 195, 320, 85, COLOR_BORDER_ACTIVE);
        f.text(65, 215, id_display.as_str(), COLOR_TEXT_MAIN, 2);
        f.rounded(270, 205, 90, 30, 3, if copied { COLOR_SUCCESS } else { COLOR_PRIMARY });
        f.text(285, 214, if copied { "Copied!" } else { "Copy ID" }, COLOR_TEXT_MAIN, 1);
        f.text(50, 300, "Device Name:", COLOR_TEXT_MUTED, 1);
        f.text(160, 300, config.name.as_str(), COLOR_TEXT_MAIN, 1);
        f.text(50, 328, "Security PIN:", COLOR_TEXT_MUTED, 1);
        assert(f@ =~= start + spec_dashboard_ops_0(self@, config@, status, last_error@, now_ms));
    }

    fn dashboard_ops_1(&self, f: &mut Frame, config: &AgentConfig, status: ConnectionStatus, last_error: &str, now_ms: u64)
        requires
            status == ConnectionStatus::Disconnected && last_error@.len() > 0 ==> cut_ok(last_error@, 36),
        ensures
            final(f)@ == old(f)@ + spec_dashboard_ops_1(self@, config@, status, last_error@, now_ms),
    {
        let ghost start = f@;
        let ghost v = self@;
        let ghost cfg = config@;
        let ghost err = last_error@;
        let dstat = dash_status(status);
        f.text(160, 328, if config.pin.as_str().is_empty() { "(None / Default)" } else { config.pin.as_str() }, COLOR_TEXT_MAIN, 1);
        f.text(50, 356, "Relay Server:", COLOR_TEXT_MUTED, 1);
        f.text(160, 356, config.relay_addr.as_str(), COLOR_ACCENT_CYAN, 1);
        f.text(50, 384, "Status:", COLOR_TEXT_MUTED, 1);
        f.text(160, 384, dstat.0, dstat.1, 1);
        assert(f@ =~= start + spec_dashboard_ops_1(self@, config@, status, last_error@, now_ms));
    }

    fn dashboard_ops_2(&self, f: &mut Frame, config: &AgentConfig, status: ConnectionStatus, last_error: &str, now_ms: u64)
        requires
            status == ConnectionStatus::Disconnected && last_error@.len() > 0 ==> cut_ok(last_error@, 36),
        ensures
            final(f)@ == old(f)@ + spec_dashboard_ops_2(self@, config@, status, last_error@, now_ms),
    {
        let ghost start = f@;
        let ghost v = self@;
        let ghost cfg = config@;
        let ghost err = last_error@;
        if status == ConnectionStatus::Disconnected {
            let shown_err = shown_error_exec(last_error);
            f.rounded(50, 412, 320, 36, 4, 0x450A0Au32);
            f.outline(50, 412, 320, 36, COLOR_DANGER);
            f.text(60, 418, "DISCONNECTED", COLOR_DANGER, 1);
            f.text(60, 432, shown_err.as_str(), COLOR_TEXT_MUTED, 1);
        }
        assert(f@ =~= start + spec_dashboard_ops_2(self@, config@, status, last_error@, now_ms));
    }

    fn dashboard_ops_3(&self, f: &mut Frame, config: &AgentConfig, status: ConnectionStatus, last_error: &str, now_ms: u64)
        requires
            status == ConnectionStatus::Disconnected && last_error@.len() > 0 ==> cut_ok(last_error@, 36),
        ensures
            final(f)@ == old(f)@ + spec_dashboard_ops_3(self@, config@, status, last_error@, now_ms),
    {
        let ghost start = f@;
        let ghost v = self@;
        let ghost cfg = config@;
        let ghost err = last_error@;
        let gpu_line = cat(self.gpu_backend_name.as_str(), " (Active)");
        f.rounded(50, 455, 320, 50, 4, COLOR_SURFACE_ALT);
        f.outline(50, 455, 320, 50, COLOR_BORDER);
        f.text(65, 465, "Hardware GPU Encoder:", COLOR_ACCENT_CYAN, 1);
        f.text(65, 485, gpu_line.as_str(), COLOR_SUCCESS, 1);
        f.rounded(420, 125, 370, 430, 6, COLOR_SURFACE);
        f.outline(420, 125, 370, 430, COLOR_BORDER);
        f.text(440, 145, "CONNECT TO REMOTE DESKTOP", COLOR_TEXT_MUTED, 1);
        f.text(440, 165, "Enter partner System ID to start remote control", COLOR_TEXT_DIM, 1);
        f.text(440, 195, "Partner System ID:", COLOR_TEXT_MAIN, 1);
        f.rounded(440, 215, 330, 40, 4, COLOR_INPUT_BG);
        f.outline(440, 215, 330, 40, if self.active_field == 1 { COLOR_BORDER_ACTIVE } else { COLOR_BORDER });
        f.text(455, 228, if self.input_partner_id.as_str().is_empty() { if self.active_field == 1 { "" } else { "e.g. 847 293 615" } } else { self.input_partner_id.as_str() }, if self.input_partner_id.as_str().is_empty() { COLOR_TEXT_DIM } else { COLOR_TEXT_MAIN }, 1);
        assert(f@ =~= start + spec_dashboard_ops_3(self@, config@, status, last_error@, now_ms));
    }

    fn dashboard_ops_4(&self, f: &mut Frame, config: &AgentConfig, status: ConnectionStatus, last_error: &str, now_ms: u64)
        requires
            status == ConnectionStatus::Disconnected && last_error@.len() > 0 ==> cut_ok(last_error@, 36),
        ensures
            final(f)@ == old(f)@ + spec_dashboard_ops_4(self@, config@, status, last_error@, now_ms),
    {
        let ghost start = f@;
        let ghost v = self@;
        let ghost cfg = config@;
        let ghost err = last_error@;
        f.text(440, 275, "Partner PIN (Optional):", COLOR_TEXT_MAIN, 1);
        f.rounded(440, 295, 330, 40, 4, COLOR_INPUT_BG);
        f.outline(440, 295, 330, 40, if self.active_field == 2 { COLOR_BORDER_ACTIVE } else { COLOR_BORDER });
        f.text(455, 308, if self.input_partner_pin.as_str().is_empty() { if self.active_field == 2 { "" } else { "Enter PIN if required" } } else { self.input_partner_pin.as_str() }, if self.input_partner_pin.as_str().is_empty() { COLOR_TEXT_DIM } else { COLOR_TEXT_MAIN }, 1);
        f.rounded(440, 355, 330, 48, 4, COLOR_PRIMARY);
        f.text(520, 370, "CONNECT REMOTE DESKTOP", COLOR_TEXT_MAIN, 1);
        f.text(440, 430, "• Ultra-Low Latency 120 FPS Video", COLOR_TEXT_MUTED, 1);
        f.text(440, 455, "• Seamless Mouse & Keyboard Control", COLOR_TEXT_MUTED, 1);
        f.text(440, 480, "• Direct Bi-directional Clipboard Sync", COLOR_TEXT_MUTED, 1);
        f.text(440, 505, "• Real-Time Microphone & Audio Sharing", COLOR_TEXT_MUTED, 1);
        assert(f@ =~= start + spec_dashboard_ops_4(self@, config@, status, last_error@, now_ms));
    }

    fn dashboard_ops(&self, f: &mut Frame, config: &AgentConfig, status: ConnectionStatus, last_error: &str, now_ms: u64)
        requires
            status == ConnectionStatus::Disconnected && last_error@.len() > 0 ==> cut_ok(last_error@, 36),
        ensures
            final(f)@ == old(f)@ + spec_dashboard_ops(self@, config@, status, last_error@, now_ms),
    {
        let ghost start = f@;
        self.dashboard_ops_0(f, config, status, last_error, now_ms);
        self.dashboard_ops_1(f, config, status, last_error, now_ms);
        self.dashboard_ops_2(f, config, status, last_error, now_ms);
        self.dashboard_ops_3(f, config, status, last_error, now_ms);
        self.dashboard_ops_4(f, config, status, last_error, now_ms);
        assert(f@ =~= start + spec_dashboard_ops(self@, config@, status, last_error@, now_ms));
    }

    fn relay_ops_0(&self, f: &mut Frame, config: &AgentConfig, running: bool, stats: &RelayStats, now_ms: u64)
        ensures
            final(f)@ == old(f)@ + spec_relay_ops_0(self@, config@, running, *stats, now_ms),
    {
        let ghost start = f@;
        let ghost v = self@;
        let ghost cfg = config@;
        let ip = self.primary_ip_exec();
        let binding = cat("Binding: ", config.server_bind_addr.as_str());
        let lan_line = cat(cat("LAN IP: ", ip.as_str()).as_str(), ":9001");
        f.rounded(30, 125, 760, 430, 6, COLOR_SURFACE);
        f.outline(30, 125, 760, 430, COLOR_BORDER);
        f.text(50, 145, "CENTRALIZED RELAY SERVER (HOST MODE)", COLOR_TEXT_MAIN, 2);
        f.text(50, 175, "Manages incoming client connections, WebSockets, and stream routing.", COLOR_TEXT_MUTED, 1);
        f.rounded(50, 205, 340, 130, 4, COLOR_SURFACE_ALT);
        f.outline(50, 205, 340, 130, COLOR_BORDER);
        f.text(70, 220, "Relay Server Status:", COLOR_TEXT_MUTED, 1);
        f.text(70, 240, if running { "ACTIVE & LISTENING" } else { "STOPPED" }, if running { COLOR_SUCCESS } else { COLOR_DANGER }, 2);
        f.text(70, 275, binding.as_str(), COLOR_TEXT_DIM, 1);
        f.text(70, 300, lan_line.as_str(), COLOR_ACCENT_CYAN, 1);
        f.rounded(420, 205, 340, 130, 4, COLOR_SURFACE_ALT);
        f.outline(420, 205, 340, 130, COLOR_BORDER);
        assert(f@ =~= start + spec_relay_ops_0(self@, config@, running, *stats, now_ms));
    }

    fn relay_ops_1(&self, f: &mut Frame, config: &AgentConfig, running: bool, stats: &RelayStats, now_ms: u64)
        ensures
            final(f)@ == old(f)@ + spec_relay_ops_1(self@, config@, running, *stats, now_ms),
    {
        let ghost start = f@;
        let ghost v = self@;
        let ghost cfg = config@;
        let hosts = dec_string(stats.active_hosts);
        let sessions = dec_string(stats.active_sessions);
        let frames = dec_string(stats.total_video_frames);
        let copied = recent_exec(self.copy_server_ip_timer, now_ms);
        f.text(440, 225, "Active Connected Hosts:", COLOR_TEXT_MUTED, 1);
        f.text(650, 225, hosts.as_str(), COLOR_TEXT_MAIN, 1);
        f.text(440, 255, "Active Remote Sessions:", COLOR_TEXT_MUTED, 1);
        f.text(650, 255, sessions.as_str(), COLOR_TEXT_MAIN, 1);
        f.text(440, 285, "Routed Video Frames:", COLOR_TEXT_MUTED, 1);
        f.text(650, 285, frames.as_str(), COLOR_ACCENT_CYAN, 1);
        f.rounded(600, 305, 140, 26, 3, COLOR_PRIMARY);
        f.text(610, 312, if copied { "Address Copied!" } else { "Copy Server Address" }, COLOR_TEXT_MAIN, 1);
        f.rounded(50, 355, 710, 160, 4, COLOR_INPUT_BG);
        f.outline(50, 355, 710, 160, COLOR_BORDER);
        f.text(70, 375, "HOW TO CONNECT CLIENT LAPTOPS (LAPTOP B):", COLOR_ACCENT_CYAN, 1);
        f.text(70, 405, "1. Ensure both laptops are on the same Wi-Fi / LAN network.", COLOR_TEXT_MUTED, 1);
        assert(f@ =~= start + spec_relay_ops_1(self@, config@, running, *stats, now_ms));
    }

    fn relay_ops_2(&self, f: &mut Frame, config: &AgentConfig, running: bool, stats: &RelayStats, now_ms: u64)
        ensures
            final(f)@ == old(f)@ + spec_relay_ops_2(self@, config@, running, *stats, now_ms),
    {
        let ghost start = f@;
        let ghost v = self@;
        let ghost cfg = config@;
        let ip = self.primary_ip_exec();
        let step3 = cat(cat("3. Set Server Address to:  ", ip.as_str()).as_str(), ":9001  and click Save & Connect.");
        f.text(70, 430, "2. On Laptop B, open DeskStream -> Settings tab.", COLOR_TEXT_MUTED, 1);
        f.text(70, 455, step3.as_str(), COLOR_SUCCESS, 1);
        f.text(70, 480, "4. Laptop B will automatically connect and show ONLINE with its unique System ID.", COLOR_TEXT_MUTED, 1);
        assert(f@ =~= start + spec_relay_ops_2(self@, config@, running, *stats, now_ms));
    }

    fn relay_ops(&self, f: &mut Frame, config: &AgentConfig, running: bool, stats: &RelayStats, now_ms: u64)
        ensures
            final(f)@ == old(f)@ + spec_relay_ops(self@, config@, running, *stats, now_ms),
    {
        let ghost start = f@;
        self.relay_ops_0(f, config, running, stats, now_ms);
        self.relay_ops_1(f, config, running, stats, now_ms);
        self.relay_ops_2(f, config, running, stats, now_ms);
        assert(f@ =~= start + spec_relay_ops(self@, config@, running, *stats, now_ms));
    }

    fn settings_ops_0(&self, f: &mut Frame, config: &AgentConfig, now_ms: u64)
        requires
            cut_ok(config.device_uuid@, 16),
            self@.network_test_result is Some ==> cut_ok(self@.network_test_result.unwrap().1, 50),
        ensures
            final(f)@ == old(f)@ + spec_settings_ops_0(self@, config@, now_ms),
    {
        let ghost start = f@;
        let ghost v = self@;
        let ghost cfg = config@;
        f.rounded(30, 125, 760, 430, 6, COLOR_SURFACE);
        f.outline(30, 125, 760, 430, COLOR_BORDER);
        f.text(50, 145, "APPLICATION CONFIGURATION & NETWORK SETUP", COLOR_TEXT_MAIN, 2);
        f.text(50, 175, "Configure relay server address, test connection, and set password.", COLOR_TEXT_MUTED, 1);
        f.text(50, 215, "Relay Server Address (e.g. 192.168.x.x:9001):", COLOR_TEXT_MAIN, 1);
        f.rounded(50, 235, 420, 38, 4, COLOR_INPUT_BG);
        f.outline(50, 235, 420, 38, if self.active_field == 3 { COLOR_BORDER_ACTIVE } else { COLOR_BORDER });
        f.text(65, 248, self.input_relay_addr.as_str(), COLOR_TEXT_MAIN, 1);
        f.text(50, 295, "Unattended Access Security PIN (Optional):", COLOR_TEXT_MAIN, 1);
        f.rounded(50, 315, 420, 38, 4, COLOR_INPUT_BG);
        f.outline(50, 315, 420, 38, if self.active_field == 4 { COLOR_BORDER_ACTIVE } else { COLOR_BORDER });
        f.text(65, 328, if self.input_pin.as_str().is_empty() { "(Optional password for direct access)" } else { self.input_pin.as_str() }, if self.input_pin.as_str().is_empty() { COLOR_TEXT_DIM } else { COLOR_TEXT_MAIN }, 1);
        assert(f@ =~= start + spec_settings_ops_0(self@, config@, now_ms));
    }

    fn settings_ops_1(&self, f: &mut Frame, config: &AgentConfig, now_ms: u64)
        requires
            cut_ok(config.device_uuid@, 16),
            self@.network_test_result is Some ==> cut_ok(self@.network_test_result.unwrap().1, 50),
        ensures
            final(f)@ == old(f)@ + spec_settings_ops_1(self@, config@, now_ms),
    {
        let ghost start = f@;
        let ghost v = self@;
        let ghost cfg = config@;
        let saved = recent_exec(self.save_feedback_timer, now_ms);
        f.rounded(50, 375, 190, 42, 4, if saved { COLOR_SUCCESS } else { COLOR_PRIMARY });
        f.text(65, 390, if saved { "Saved & Connecting!" } else { "Save & Connect Now" }, COLOR_TEXT_MAIN, 1);
        f.rounded(260, 375, 210, 42, 4, COLOR_SURFACE_ALT);
        f.outline(260, 375, 210, 42, COLOR_BORDER_ACTIVE);
        f.text(275, 390, "Test Network Connection", COLOR_TEXT_MAIN, 1);
        assert(f@ =~= start + spec_settings_ops_1(self@, config@, now_ms));
    }

    fn settings_ops_2(&self, f: &mut Frame, config: &AgentConfig, now_ms: u64)
        requires
            cut_ok(config.device_uuid@, 16),
            self@.network_test_result is Some ==> cut_ok(self@.network_test_result.unwrap().1, 50),
        ensures
            final(f)@ == old(f)@ + spec_settings_ops_2(self@, config@, now_ms),
    {
        let ghost start = f@;
        let ghost v = self@;
        let ghost cfg = config@;
        if self.network_test_result.is_some() {
            let (ok, msg) = test_result_exec(&self.network_test_result);
            f.rounded(50, 435, 420, 34, 4, if ok { 0x064E3Bu32 } else { 0x7F1D1Du32 });
            f.outline(50, 435, 420, 34, if ok { COLOR_SUCCESS } else { COLOR_DANGER });
            f.text(60, 446, msg.as_str(), COLOR_TEXT_MAIN, 1);
        }
        assert(f@ =~= start + spec_settings_ops_2(self@, config@, now_ms));
    }

    fn settings_ops_3(&self, f: &mut Frame, config: &AgentConfig, now_ms: u64)
        requires
            cut_ok(config.device_uuid@, 16),
            self@.network_test_result is Some ==> cut_ok(self@.network_test_result.unwrap().1, 50),
        ensures
            final(f)@ == old(f)@ + spec_settings_ops_3(self@, config@, now_ms),
    {
        let ghost start = f@;
        let ghost v = self@;
        let ghost cfg = config@;
        let uuid_line = cat(byte_prefix(config.device_uuid.as_str(), 16).as_str(), "...");
        let id_display = config.formatted_id();
        let mode_upper = to_uppercase(config.app_mode.as_str());
        f.rounded(500, 215, 260, 220, 4, COLOR_SURFACE_ALT);
        f.outline(500, 215, 260, 220, COLOR_BORDER);
        f.text(515, 230, "PERSISTENT IDENTITY", COLOR_ACCENT_CYAN, 1);
        f.text(515, 255, "Hardware UUID:", COLOR_TEXT_MUTED, 1);
        f.text(515, 275, uuid_line.as_str(), COLOR_TEXT_MAIN, 1);
        f.text(515, 305, "Assigned System ID:", COLOR_TEXT_MUTED, 1);
        f.text(515, 325, id_display.as_str(), COLOR_SUCCESS, 1);
        f.text(515, 355, "Application Mode:", COLOR_TEXT_MUTED, 1);
        f.text(515, 375, mode_upper.as_str(), COLOR_TEXT_MAIN, 1);
        f.text(515, 400, "Active Port:", COLOR_TEXT_MUTED, 1);
        f.text(610, 400, "9001 (TCP)", COLOR_TEXT_MAIN, 1);
        assert(f@ =~= start + spec_settings_ops_3(self@, config@, now_ms));
    }

    fn settings_ops(&self, f: &mut Frame, config: &AgentConfig, now_ms: u64)
        requires
            cut_ok(config.device_uuid@, 16),
            self@.network_test_result is Some ==> cut_ok(self@.network_test_result.unwrap().1, 50),
        ensures
            final(f)@ == old(f)@ + spec_settings_ops(self@, config@, now_ms),
    {
        let ghost start = f@;
        self.settings_ops_0(f, config, now_ms);
        self.settings_ops_1(f, config, now_ms);
        self.settings_ops_2(f, config, now_ms);
        self.settings_ops_3(f, config, now_ms);
        assert(f@ =~= start + spec_settings_ops(self@, config@, now_ms));
    }

    fn primary_ip_exec(&self) -> (ip: String)
        ensures
            ip@ == primary_ip(self@.lan_ips),
    {
        if self.lan_ips.len() > 0 {
            self.lan_ips[0].clone()
        } else {
            String::from_str("127.0.0.1")
        }
    }

    fn logs_ops(&self, f: &mut Frame, logs: &[String])
        requires
            logs_cut_ok(log_texts(logs@)),
        ensures
            final(f)@ == old(f)@ + spec_logs_ops(log_texts(logs@)),
    {
        let ghost start = f@;
        let ghost texts = log_texts(logs@);
        f.rounded(30, 125, 760, 430, 6, COLOR_SURFACE);
        f.outline(30, 125, 760, 430, COLOR_BORDER);
        f.text(50, 140, "LIVE SYSTEM & STREAM LOGS", COLOR_TEXT_MAIN, 1);
        f.rounded(50, 165, 720, 370, 4, COLOR_INPUT_BG);
        f.outline(50, 165, 720, 370, COLOR_BORDER);
        let ghost head = f@;
        let first = if logs.len() > 21 {
            logs.len() - 21
        } else {
            0
        };
        let ghost shown = shown_logs(texts);
        proof {
            assert(shown =~= texts.subrange(first as int, texts.len() as int));
        }
        let mut i: usize = first;
        while i < logs.len()
            invariant
                first <= i <= logs.len(),
                logs.len() - first <= 21,
                texts == log_texts(logs@),
                shown == texts.subrange(first as int, texts.len() as int),
                logs_cut_ok(texts),
                shown == shown_logs(texts),
                f@ == head + spec_log_lines(shown).take(i - first),
            decreases logs.len() - i,
        {
            let k = i - first;
            proof {
                assert(shown[k as int] == logs@[i as int]@);
                assert(cut_ok(shown[k as int], 85));
            }
            let line = byte_prefix(logs[i].as_str(), 85);
            let color = log_color_exec(logs[i].as_str());
            f.text(65, 175 + k * 16, line.as_str(), color, 1);
            proof {
                assert(spec_log_lines(shown).take(k + 1) =~= spec_log_lines(shown).take(k as int).push(
                    spec_log_lines(shown)[k as int],
                ));
            }
            i = i + 1;
        }
        proof {
            assert(spec_log_lines(shown).take(logs.len() - first) =~= spec_log_lines(shown));
            assert(f@ =~= start + spec_logs_ops(texts));
        }
    }

    /// The drawing operations of one frame of the window (see [`spec_frame`]).
    pub fn build_frame(
        &self,
        config: &AgentConfig,
        conn_status: ConnectionStatus,
        last_conn_error: &str,
        relay_running: bool,
        relay_stats: &RelayStats,
        logs: &[String],
        now_ms: u64,
    ) -> (f: Frame)
        requires
            frame_cuts_ok(self@, config@, conn_status, last_conn_error@, log_texts(logs@)),
        ensures
            f@ == spec_frame(
                self@,
                config@,
                conn_status,
                last_conn_error@,
                relay_running,
                *relay_stats,
                log_texts(logs@),
                now_ms,
            ),
    {
        let mut f = Frame::new();
        self.header_ops(&mut f, config, relay_running, conn_status);
        self.tab_ops(&mut f);
        match self.current_tab {
            Tab::Dashboard => self.dashboard_ops(&mut f, config, conn_status, last_conn_error, now_ms),
            Tab::RelayServer => self.relay_ops(&mut f, config, relay_running, relay_stats, now_ms),
            Tab::Settings => self.settings_ops(&mut f, config, now_ms),
            Tab::Logs => self.logs_ops(&mut f, logs),
        }
        self.footer_ops(&mut f, config);
        proof {
            assert(f@ =~= spec_frame(
                self@,
                config@,
                conn_status,
                last_conn_error@,
                relay_running,
                *relay_stats,
                log_texts(logs@),
                now_ms,
            ));
        }
        f
    }

    /// Draws one frame of the window into `buffer` (820 x 620 pixels, row
    /// major) with `font`; `now_ms` decides which feedback messages still
    /// show, `logs` are the log lines so far.
    pub fn render(
        &self,
        font: &Font,
        buffer: &mut [u32],
        config: &AgentConfig,
        conn_status: ConnectionStatus,
        last_conn_error: &str,
        relay_running: bool,
        relay_stats: &RelayStats,
        logs: &[String],
        now_ms: u64,
    )
        requires
            font.wf(),
            WINDOW_WIDTH * WINDOW_HEIGHT <= old(buffer)@.len(),
            frame_cuts_ok(self@, config@, conn_status, last_conn_error@, log_texts(logs@)),
        ensures
            final(buffer)@ == paint_ops(
                old(buffer)@,
                font.rows(),
                spec_frame(
                    self@,
                    config@,
                    conn_status,
                    last_conn_error@,
                    relay_running,
                    *relay_stats,
                    log_texts(logs@),
                    now_ms,
                ),
                WINDOW_WIDTH as int,
                WINDOW_HEIGHT as int,
            ),
    {
        let f = self.build_frame(
            config,
            conn_status,
            last_conn_error,
            relay_running,
            relay_stats,
            logs,
            now_ms,
        );
        paint(font, buffer, WINDOW_WIDTH, WINDOW_HEIGHT, f.ops.as_slice());
    }
}

} // verus!
