//! What the Screen Share window shows and stores, apart from drawing it.
use vstd::prelude::*;
use crate::identity::{spec_formatted_id};
use crate::json_text::{escape_json, json_get, spec_escape_json, spec_json_get};
use crate::text::{lemma_filter_digits_identity, is_ascii_digit};
use crate::text::{
    chars_of, decimal, filter_ascii_digits, find, only_ascii_digits, push_chars, push_decimal,
    push_str, spec_find, string_of, strip_back, trim_end_chars, Strip,
};

verus! {

/// A System ID for the window: nine digits as `847 293 615`, any other count
/// of digits bare.
pub open spec fn spec_format_sysid(id: Seq<char>) -> Seq<char> {
    let d = only_ascii_digits(id);
    if d.len() == 9 {
        d.subrange(0, 3) + seq![' '] + d.subrange(3, 6) + seq![' '] + d.subrange(6, 9)
    } else {
        d
    }
}

pub fn format_sysid(id: &str) -> (s: String)
    ensures
        s@ == spec_format_sysid(id@),
{
    let cs = chars_of(id);
    let d = filter_ascii_digits(cs.as_slice());
    let mut out: Vec<char> = Vec::new();
    if d.len() == 9 {
        out.push(d[0]);
        out.push(d[1]);
        out.push(d[2]);
        out.push(' ');
        out.push(d[3]);
        out.push(d[4]);
        out.push(d[5]);
        out.push(' ');
        out.push(d[6]);
        out.push(d[7]);
        out.push(d[8]);
        assert(out@ =~= d@.subrange(0, 3) + seq![' '] + d@.subrange(3, 6) + seq![' '] + d@.subrange(6, 9));
    } else {
        push_chars(&mut out, d.as_slice());
    }
    string_of(out.as_slice())
}

/// The window's form of a System ID shows exactly the ID's digits, and
/// formatting it again changes nothing.
pub proof fn lemma_sysid_display_stable(id: Seq<char>)
    ensures
        only_ascii_digits(spec_format_sysid(id)) == only_ascii_digits(id),
        spec_format_sysid(spec_format_sysid(id)) == spec_format_sysid(id),
{
    broadcast use Seq::filter_distributes_over_add;

    let d = only_ascii_digits(id);
    assert forall|i: int| 0 <= i < d.len() implies is_ascii_digit(#[trigger] d[i]) by {
        id.lemma_filter_pred(|c: char| is_ascii_digit(c), i);
    }
    if d.len() == 9 {
        let (a, b, c) = (d.subrange(0, 3), d.subrange(3, 6), d.subrange(6, 9));
        assert forall|i: int| 0 <= i < 3 implies is_ascii_digit(#[trigger] a[i]) && is_ascii_digit(
            #[trigger] b[i],
        ) && is_ascii_digit(#[trigger] c[i]) by {
            assert(a[i] == d[i] && b[i] == d[i + 3] && c[i] == d[i + 6]);
        }
        lemma_filter_digits_identity(a);
        lemma_filter_digits_identity(b);
        lemma_filter_digits_identity(c);
        reveal_with_fuel(Seq::filter, 2);
        assert(only_ascii_digits(seq![' ']) =~= Seq::<char>::empty());
        assert(only_ascii_digits(a + seq![' '] + b + seq![' '] + c) == a + b + c);
        assert(a + b + c =~= d);
    } else {
        lemma_filter_digits_identity(d);
    }
}

/// "Last heartbeat" as the window shows it: a dash when the relay is down or
/// no heartbeat was seen, `Just now` within two seconds, else whole seconds.
pub open spec fn spec_format_heartbeat(relay_connected: bool, last_ms: u64, now_ms: u64) -> Seq<char> {
    if !relay_connected || last_ms == 0 {
        "\u{2014}"@
    } else {
        let diff: nat = if now_ms >= last_ms { (now_ms - last_ms) as nat } else { 0 };
        if diff < 2000 {
            "Just now"@
        } else {
            decimal(diff / 1000) + "s ago"@
        }
    }
}

pub fn format_heartbeat(relay_connected: bool, last_ms: u64, now_ms: u64) -> (s: String)
    ensures
        s@ == spec_format_heartbeat(relay_connected, last_ms, now_ms),
{
    if !relay_connected || last_ms == 0 {
        return String::from_str("\u{2014}");
    }
    let diff = if now_ms >= last_ms { now_ms - last_ms } else { 0 };
    if diff < 2000 {
        String::from_str("Just now")
    } else {
        let mut out: Vec<char> = Vec::new();
        push_decimal(&mut out, diff / 1000);
        push_str(&mut out, "s ago");
        string_of(out.as_slice())
    }
}

/// The status word in the window's header.
pub open spec fn spec_status_label(status: Seq<char>) -> Seq<char> {
    if status == "online"@ {
        "ONLINE"@
    } else if status == "connecting"@ {
        "CONNECTING"@
    } else if status == "error"@ {
        "ERROR"@
    } else {
        "OFFLINE"@
    }
}

pub fn status_label(status: &str) -> (s: String)
    ensures
        s@ == spec_status_label(status@),
{
    let st = String::from_str(status);
    if st == String::from_str("online") {
        String::from_str("ONLINE")
    } else if st == String::from_str("connecting") {
        String::from_str("CONNECTING")
    } else if st == String::from_str("error") {
        String::from_str("ERROR")
    } else {
        String::from_str("OFFLINE")
    }
}

/// The value of a decimal digit character.
pub open spec fn digit_value(c: char) -> nat {
    if '0' <= c && c <= '9' {
        (c as u32 - 48) as nat
    } else {
        0
    }
}

/// The value of a run of decimal digits.
pub open spec fn digits_value(s: Seq<char>) -> nat
    decreases s.len(),
{
    if s.len() == 0 {
        0
    } else {
        digits_value(s.drop_last()) * 10 + digit_value(s.last())
    }
}

pub open spec fn all_digits(d: Seq<char>) -> bool {
    forall|i: int| 0 <= i < d.len() ==> '0' <= #[trigger] d[i] && d[i] <= '9'
}

/// `str::parse::<u64>`: an optional `+`, then at least one digit, all digits,
/// and a value that fits.
pub open spec fn spec_parse_u64(s: Seq<char>) -> Option<u64> {
    let d = if s.len() > 0 && s[0] == '+' { s.drop_first() } else { s };
    if d.len() == 0 || !all_digits(d) || digits_value(d) > u64::MAX {
        None
    } else {
        Some(digits_value(d) as u64)
    }
}

proof fn lemma_digits_prefix_le(d: Seq<char>, k: int)
    requires
        0 <= k <= d.len(),
        forall|i: int| 0 <= i < d.len() ==> '0' <= #[trigger] d[i] && d[i] <= '9',
    ensures
        digits_value(d.take(k)) <= digits_value(d),
    decreases d.len(),
{
    if k < d.len() {
        let t = d.drop_last();
        assert forall|i: int| 0 <= i < t.len() implies '0' <= #[trigger] t[i] && t[i] <= '9' by {
            assert(t[i] == d[i]);
        }
        lemma_digits_prefix_le(t, k);
        assert(t.take(k) == d.take(k));
    } else {
        assert(d.take(k) == d);
    }
}

pub fn parse_u64(s: &str) -> (r: Option<u64>)
    ensures
        r == spec_parse_u64(s@),
{
    let cs = chars_of(s);
    let start: usize = if cs.len() > 0 && cs[0] == '+' { 1 } else { 0 };
    let ghost d = if s@.len() > 0 && s@[0] == '+' { s@.drop_first() } else { s@ };
    assert(d =~= cs@.subrange(start as int, cs@.len() as int));
    if start >= cs.len() {
        return None;
    }
    let mut v: u64 = 0;
    let mut i = start;
    assert(d.take(0) =~= Seq::<char>::empty());
    while i < cs.len()
        invariant
            start <= i <= cs@.len(),
            cs@ == s@,
            d == (if s@.len() > 0 && s@[0] == '+' { s@.drop_first() } else { s@ }),
            d == cs@.subrange(start as int, cs@.len() as int),
            forall|k: int| 0 <= k < i - start ==> '0' <= #[trigger] d[k] && d[k] <= '9',
            v as nat == digits_value(d.take(i - start)),
        decreases cs.len() - i,
    {
        let c = cs[i];
        if !('0' <= c && c <= '9') {
            assert(d[i - start] == c);
            assert(!all_digits(d));
            return None;
        }
        let dv = (c as u32 - 48) as u64;
        assert(dv == digit_value(c));
        assert(d.take(i - start + 1).drop_last() == d.take(i - start));
        assert(d.take(i - start + 1).last() == c);
        if v > (u64::MAX - dv) / 10 {
            proof {
                assert(v * 10 + dv > u64::MAX) by (nonlinear_arith)
                    requires
                        v > (u64::MAX - dv) / 10,
                        dv <= 9,
                ;
                if all_digits(d) {
                    lemma_digits_prefix_le(d, i - start + 1);
                }
            }
            return None;
        }
        v = v * 10 + dv;
        i += 1;
    }
    assert(d.take(d.len() as int) == d);
    assert(all_digits(d));
    Some(v)
}


/// The body of an HTTP response: what follows the first blank line, or the
/// whole text when there is none.
pub open spec fn spec_http_body(text: Seq<char>) -> Seq<char> {
    match spec_find(text, "\r\n\r\n"@) {
        Some(i) => text.subrange(i + 4, text.len() as int),
        None => text,
    }
}

pub fn http_body(text: &str) -> (b: String)
    ensures
        b@ == spec_http_body(text@),
{
    let cs = chars_of(text);
    let sep = chars_of("\r\n\r\n");
    proof {
        reveal_strlit("\r\n\r\n");
    }
    match find(cs.as_slice(), sep.as_slice()) {
        Some(i) => {
            assert(crate::text::occurs_at(cs@, sep@, i as int));
            assert(cs@.len() == cs.len());
            string_of(crate::text::chars_from(cs.as_slice(), i + 4).as_slice())
        },
        None => string_of(cs.as_slice()),
    }
}

/// A JSON value as text, or empty when the key is missing.
pub open spec fn json_text_or_empty(json: Seq<char>, key: Seq<char>) -> Seq<char> {
    match spec_json_get(json, key) {
        Some(v) => v,
        None => Seq::empty(),
    }
}

fn json_text_or_empty_exec(json: &str, key: &str) -> (r: String)
    ensures
        r@ == json_text_or_empty(json@, key@),
{
    match json_get(json, key) {
        Some(v) => v,
        None => String::new(),
    }
}

/// What the window learns from the agent's status endpoint.
pub struct AgentStatusView {
    pub system_id: String,
    pub status: String,
    pub backend_connected: bool,
    pub relay_connected: bool,
    pub last_heartbeat_ms: u64,
    pub device_name: String,
    pub version: String,
}

/// Reads the agent's status from the body of its status response. Missing
/// text fields are empty, missing flags false, a missing or unreadable
/// heartbeat time 0.
pub fn parse_agent_status(body: &str) -> (v: AgentStatusView)
    ensures
        v.system_id@ == json_text_or_empty(body@, "system_id"@),
        v.status@ == json_text_or_empty(body@, "status"@),
        v.backend_connected == (spec_json_get(body@, "backend_connected"@) == Some("true"@)),
        v.relay_connected == (spec_json_get(body@, "relay_connected"@) == Some("true"@)),
        v.last_heartbeat_ms == (match spec_json_get(body@, "last_heartbeat_ms"@) {
            Some(t) => match spec_parse_u64(t) {
                Some(n) => n,
                None => 0,
            },
            None => 0,
        }),
        v.device_name@ == json_text_or_empty(body@, "device_name"@),
        v.version@ == json_text_or_empty(body@, "version"@),
{
    let t = String::from_str("true");
    let backend_connected = match json_get(body, "backend_connected") {
        Some(x) => x == t,
        None => false,
    };
    let relay_connected = match json_get(body, "relay_connected") {
        Some(x) => x == t,
        None => false,
    };
    let last_heartbeat_ms = match json_get(body, "last_heartbeat_ms") {
        Some(x) => match parse_u64(x.as_str()) {
            Some(n) => n,
            None => 0,
        },
        None => 0,
    };
    AgentStatusView {
        system_id: json_text_or_empty_exec(body, "system_id"),
        status: json_text_or_empty_exec(body, "status"),
        backend_connected,
        relay_connected,
        last_heartbeat_ms,
        device_name: json_text_or_empty_exec(body, "device_name"),
        version: json_text_or_empty_exec(body, "version"),
    }
}

/// The agent state the window displays.
pub struct GuiStatus {
    pub system_id: String,
    pub device_name: String,
    pub version: String,
    pub status: String,
    pub backend_connected: bool,
    pub relay_connected: bool,
    pub last_heartbeat_ms: u64,
}

impl GuiStatus {
    /// Takes in one poll of the agent. An answer replaces the state, except
    /// that empty identity fields keep their previous value; no answer means
    /// the agent is offline.
    pub fn apply_poll(&mut self, poll: Option<AgentStatusView>)
        ensures
            match poll {
                Some(v) => {
                    &&& final(self).system_id@ == (if v.system_id@.len() == 0 {
                        old(self).system_id@
                    } else {
                        v.system_id@
                    })
                    &&& final(self).device_name@ == (if v.device_name@.len() == 0 {
                        old(self).device_name@
                    } else {
                        v.device_name@
                    })
                    &&& final(self).version@ == (if v.version@.len() == 0 {
                        old(self).version@
                    } else {
                        v.version@
                    })
                    &&& final(self).status@ == v.status@
                    &&& final(self).backend_connected == v.backend_connected
                    &&& final(self).relay_connected == v.relay_connected
                    &&& final(self).last_heartbeat_ms == v.last_heartbeat_ms
                },
                None => {
                    &&& final(self).status@ == "offline"@
                    &&& !final(self).backend_connected
                    &&& !final(self).relay_connected
                    &&& final(self).system_id == old(self).system_id
                    &&& final(self).device_name == old(self).device_name
                    &&& final(self).version == old(self).version
                    &&& final(self).last_heartbeat_ms == old(self).last_heartbeat_ms
                },
            },
    {
        match poll {
            Some(v) => {
                if !v.system_id.as_str().is_empty() {
                    self.system_id = v.system_id;
                }
                if !v.device_name.as_str().is_empty() {
                    self.device_name = v.device_name;
                }
                if !v.version.as_str().is_empty() {
                    self.version = v.version;
                }
                self.status = v.status;
                self.backend_connected = v.backend_connected;
                self.relay_connected = v.relay_connected;
                self.last_heartbeat_ms = v.last_heartbeat_ms;
            },
            None => {
                self.status = String::from_str("offline");
                self.backend_connected = false;
                self.relay_connected = false;
            },
        }
    }
}

/// Addresses written by the installer.
pub struct ServerConfig {
    pub backend_url: String,
    pub relay_url: String,
    pub server_addr: String,
}

/// Reads the installer's configuration; it counts only with both a backend
/// URL and a relay URL.
pub fn parse_server_config(contents: &str) -> (r: Option<ServerConfig>)
    ensures
        r is Some <==> (json_text_or_empty(contents@, "backend_url"@).len() != 0
            && json_text_or_empty(contents@, "relay_url"@).len() != 0),
        r matches Some(c) ==> c.backend_url@ == json_text_or_empty(contents@, "backend_url"@)
            && c.relay_url@ == json_text_or_empty(contents@, "relay_url"@) && c.server_addr@
            == json_text_or_empty(contents@, "server_addr"@),
{
    let backend = json_text_or_empty_exec(contents, "backend_url");
    let relay = json_text_or_empty_exec(contents, "relay_url");
    let server_addr = json_text_or_empty_exec(contents, "server_addr");
    if backend.as_str().is_empty() || relay.as_str().is_empty() {
        return None;
    }
    Some(ServerConfig { backend_url: backend, relay_url: relay, server_addr })
}

/// The window's own settings.
pub struct GuiConfig {
    pub backend_url: String,
    pub relay_url: String,
    pub environment: String,
    pub start_with_windows: bool,
    pub device_name: String,
}

/// A setting from the window's file, else the fallback.
pub open spec fn setting_or(file: Option<Seq<char>>, key: Seq<char>, fallback: Seq<char>) -> Seq<char> {
    match file {
        Some(f) => match spec_json_get(f, key) {
            Some(v) => v,
            None => fallback,
        },
        None => fallback,
    }
}

fn setting_or_exec(file: Option<&str>, key: &str, fallback: String) -> (r: String)
    ensures
        r@ == setting_or(
            match file {
                Some(f) => Some(f@),
                None => None,
            },
            key@,
            fallback@,
        ),
{
    match file {
        Some(f) => match json_get(f, key) {
            Some(v) => v,
            None => fallback,
        },
        None => fallback,
    }
}

/// The window's settings: built-in defaults, overridden by the installer's
/// addresses, overridden by the window's own settings file.
pub fn read_gui_config(server: Option<ServerConfig>, gui_file: Option<&str>) -> (c: GuiConfig)
    ensures
        ({
            let file = match gui_file {
                Some(f) => Some(f@),
                None => None,
            };
            let backend0 = match server {
                Some(sc) => sc.backend_url@,
                None => "http://127.0.0.1/Screen%20Share/backend/api"@,
            };
            let relay0 = match server {
                Some(sc) => sc.relay_url@,
                None => "127.0.0.1:9001"@,
            };
            &&& c.backend_url@ == setting_or(file, "backend_url"@, backend0)
            &&& c.relay_url@ == setting_or(file, "relay_url"@, relay0)
            &&& c.environment@ == setting_or(file, "environment"@, "Production"@)
            &&& c.start_with_windows == (match file {
                Some(f) => match spec_json_get(f, "start_with_windows"@) {
                    Some(v) => v == "true"@,
                    None => true,
                },
                None => true,
            })
            &&& c.device_name@ == setting_or(file, "device_name"@, Seq::empty())
        }),
{
    let (backend0, relay0) = match server {
        Some(sc) => (sc.backend_url, sc.relay_url),
        None => (
            String::from_str("http://127.0.0.1/Screen%20Share/backend/api"),
            String::from_str("127.0.0.1:9001"),
        ),
    };
    let start_with_windows = match gui_file {
        Some(f) => match json_get(f, "start_with_windows") {
            Some(v) => v == String::from_str("true"),
            None => true,
        },
        None => true,
    };
    GuiConfig {
        backend_url: setting_or_exec(gui_file, "backend_url", backend0),
        relay_url: setting_or_exec(gui_file, "relay_url", relay0),
        environment: setting_or_exec(gui_file, "environment", String::from_str("Production")),
        start_with_windows,
        device_name: setting_or_exec(gui_file, "device_name", String::new()),
    }
}

/// The text of the window's settings file.
pub open spec fn spec_gui_config_json(
    backend: Seq<char>,
    relay: Seq<char>,
    env: Seq<char>,
    start: bool,
    dev: Seq<char>,
) -> Seq<char> {
    "{\n  \"backend_url\": \""@ + spec_escape_json(backend) + "\",\n  \"relay_url\": \""@
        + spec_escape_json(relay) + "\",\n  \"environment\": \""@ + spec_escape_json(env)
        + "\",\n  \"start_with_windows\": "@ + (if start {
        "true"@
    } else {
        "false"@
    }) + ",\n  \"device_name\": \""@ + spec_escape_json(dev) + "\"\n}\n"@
}

pub fn gui_config_json(backend: &str, relay: &str, env: &str, start: bool, dev: &str) -> (s: String)
    ensures
        s@ == spec_gui_config_json(backend@, relay@, env@, start, dev@),
{
    let mut out: Vec<char> = Vec::new();
    push_str(&mut out, "{\n  \"backend_url\": \"");
    push_str(&mut out, escape_json(backend).as_str());
    push_str(&mut out, "\",\n  \"relay_url\": \"");
    push_str(&mut out, escape_json(relay).as_str());
    push_str(&mut out, "\",\n  \"environment\": \"");
    push_str(&mut out, escape_json(env).as_str());
    push_str(&mut out, "\",\n  \"start_with_windows\": ");
    push_str(&mut out, if start { "true" } else { "false" });
    push_str(&mut out, ",\n  \"device_name\": \"");
    push_str(&mut out, escape_json(dev).as_str());
    push_str(&mut out, "\"\n}\n");
    string_of(out.as_slice())
}

/// The dashboard page under the backend URL (without its trailing slashes),
/// or the local default when no backend is set.
pub fn dashboard_url(backend: &str) -> (u: String)
    ensures
        u@ == (if backend@.len() == 0 {
            "http://127.0.0.1/Screen%20Share/frontend/dashboard.php"@
        } else {
            strip_back(backend@, Strip::Slash) + "/dashboard.php"@
        }),
{
    if backend.is_empty() {
        return String::from_str("http://127.0.0.1/Screen%20Share/frontend/dashboard.php");
    }
    let cs = chars_of(backend);
    let mut out = trim_end_chars(cs.as_slice(), Strip::Slash);
    push_str(&mut out, "/dashboard.php");
    string_of(out.as_slice())
}

} // verus!
