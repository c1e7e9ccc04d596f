//! The agent's client of the web dashboard's device registry: the endpoints it
//! calls, the fields it sends, and what it keeps from the replies.
use vstd::prelude::*;
use crate::setup::has_prefix;
use crate::text::{
    before_first, before_first_char, chars_from, chars_of, push_chars, push_decimal, push_str,
    decimal, starts_with, string_of, strip_back, trim_end_chars, Strip,
};
use vstd::utf8::encode_utf8;
use crate::json_doc::{member, parse_json, parsed_json, spec_member, JsonValue};

verus! {

/// Client of the device registry for one machine.
pub struct BackendClient {
    base_url: String,
    machine_identifier: String,
    system_id: String,
}

/// The URL `path` names under `base`.
pub open spec fn endpoint(base: Seq<char>, path: Seq<char>) -> Seq<char> {
    strip_back(base, Strip::Slash) + path
}

impl BackendClient {
    /// The registry base URL, without trailing slashes.
    pub closed spec fn spec_base_url(&self) -> Seq<char> {
        self.base_url@
    }

    pub closed spec fn spec_machine_identifier(&self) -> Seq<char> {
        self.machine_identifier@
    }

    /// The System ID the client reports: the one it was made with until the
    /// registry assigns one.
    pub closed spec fn spec_system_id(&self) -> Seq<char> {
        self.system_id@
    }

    /// A client for the registry at `base_url` (trailing slashes dropped).
    pub fn new(base_url: &str, machine_identifier: &str, system_id: &str) -> (c: Self)
        ensures
            c.spec_base_url() == strip_back(base_url@, Strip::Slash),
            c.spec_machine_identifier() == machine_identifier@,
            c.spec_system_id() == system_id@,
    {
        let b = trim_end_chars(chars_of(base_url).as_slice(), Strip::Slash);
        BackendClient {
            base_url: string_of(b.as_slice()),
            machine_identifier: String::from_str(machine_identifier),
            system_id: String::from_str(system_id),
        }
    }

    pub fn base_url(&self) -> (s: &str)
        ensures
            s@ == self.spec_base_url(),
    {
        self.base_url.as_str()
    }

    pub fn machine_identifier(&self) -> (s: &str)
        ensures
            s@ == self.spec_machine_identifier(),
    {
        self.machine_identifier.as_str()
    }

    pub fn system_id(&self) -> (s: &str)
        ensures
            s@ == self.spec_system_id(),
    {
        self.system_id.as_str()
    }

    fn url(&self, path: &str) -> (u: String)
        ensures
            u@ == endpoint(self.spec_base_url(), path@),
    {
        let b = trim_end_chars(chars_of(self.base_url.as_str()).as_slice(), Strip::Slash);
        let mut out = b;
        push_str(&mut out, path);
        string_of(out.as_slice())
    }

    /// Where registration requests go.
    pub fn register_url(&self) -> (u: String)
        ensures
            u@ == endpoint(self.spec_base_url(), "/devices/register.php"@),
    {
        self.url("/devices/register.php")
    }

    /// Where heartbeats go.
    pub fn heartbeat_url(&self) -> (u: String)
        ensures
            u@ == endpoint(self.spec_base_url(), "/devices/heartbeat.php"@),
    {
        self.url("/devices/heartbeat.php")
    }

    /// Where the start of a remote session is logged.
    pub fn session_start_url(&self) -> (u: String)
        ensures
            u@ == self.spec_base_url() + "/sessions/start.php"@,
    {
        let mut out = chars_of(self.base_url.as_str());
        push_str(&mut out, "/sessions/start.php");
        string_of(out.as_slice())
    }

    /// Where the end of a remote session is logged.
    pub fn session_end_url(&self) -> (u: String)
        ensures
            u@ == self.spec_base_url() + "/sessions/end.php"@,
    {
        let mut out = chars_of(self.base_url.as_str());
        push_str(&mut out, "/sessions/end.php");
        string_of(out.as_slice())
    }

    /// The fields of a registration request: the machine, its host name and
    /// operating system, and the System ID when the client has one.
    pub fn registration_fields(&self, hostname: &str, os_info: &str) -> (f: Vec<(String, String)>)
        ensures
            field_texts(f@) == registration_field_texts(
                self.spec_machine_identifier(),
                hostname@,
                os_info@,
                self.spec_system_id(),
            ),
    {
        let mut f: Vec<(String, String)> = Vec::new();
        f.push((String::from_str("machine_identifier"), self.machine_identifier.clone()));
        f.push((String::from_str("hostname"), String::from_str(hostname)));
        f.push((String::from_str("os_info"), String::from_str(os_info)));
        let sid = chars_of(self.system_id.as_str());
        if sid.len() > 0 {
            f.push((String::from_str("system_id"), self.system_id.clone()));
        }
        proof {
            assert(field_texts(f@) =~= registration_field_texts(
                self.spec_machine_identifier(),
                hostname@,
                os_info@,
                self.spec_system_id(),
            ));
        }
        f
    }

    /// The fields of a heartbeat: the machine and its System ID.
    pub fn heartbeat_fields(&self) -> (f: Vec<(String, String)>)
        ensures
            field_texts(f@) == seq![
                ("machine_identifier"@, self.spec_machine_identifier()),
                ("system_id"@, self.spec_system_id()),
            ],
    {
        let mut f: Vec<(String, String)> = Vec::new();
        f.push((String::from_str("machine_identifier"), self.machine_identifier.clone()));
        f.push((String::from_str("system_id"), self.system_id.clone()));
        proof {
            assert(field_texts(f@) =~= seq![
                ("machine_identifier"@, self.spec_machine_identifier()),
                ("system_id"@, self.spec_system_id()),
            ]);
        }
        f
    }

    /// The fields that log the start of session `session_key`.
    pub fn session_start_fields(&self, session_key: &str) -> (f: Vec<(String, String)>)
        ensures
            field_texts(f@) == seq![
                ("device_id"@, self.spec_system_id()),
                ("session_key"@, session_key@),
            ],
    {
        let mut f: Vec<(String, String)> = Vec::new();
        f.push((String::from_str("device_id"), self.system_id.clone()));
        f.push((String::from_str("session_key"), String::from_str(session_key)));
        proof {
            assert(field_texts(f@) =~= seq![
                ("device_id"@, self.spec_system_id()),
                ("session_key"@, session_key@),
            ]);
        }
        f
    }

    /// Takes the System ID the registry assigned, if its reply named one: the
    /// client reports that ID from then on.
    pub fn record_registration(&mut self, assigned: Option<&str>) -> (r: Option<String>)
        ensures
            r matches Some(v) ==> assigned matches Some(a) && v@ == a@,
            r is None <==> assigned is None,
            final(self).spec_system_id() == (match assigned {
                Some(a) => a@,
                None => old(self).spec_system_id(),
            }),
            final(self).spec_base_url() == old(self).spec_base_url(),
            final(self).spec_machine_identifier() == old(self).spec_machine_identifier(),
    {
        match assigned {
            Some(a) => {
                self.system_id = String::from_str(a);
                Some(String::from_str(a))
            },
            None => None,
        }
    }

    /// Reads the registry's reply to a registration: when its HTTP status is
    /// a success (2xx) and its body a JSON document that assigns a System ID
    /// (the string at `system.system_id`), the client takes and returns that
    /// ID; otherwise it keeps its ID and returns `None`.
    pub fn accept_registration_reply(&mut self, status: u16, body: &str) -> (r: Option<String>)
        ensures
            r matches Some(v) ==> spec_registration_reply(status, body@) == Some(v@),
            r is None <==> spec_registration_reply(status, body@) is None,
            final(self).spec_system_id() == (match spec_registration_reply(status, body@) {
                Some(a) => a,
                None => old(self).spec_system_id(),
            }),
            final(self).spec_base_url() == old(self).spec_base_url(),
            final(self).spec_machine_identifier() == old(self).spec_machine_identifier(),
    {
        if !is_success_status(status) {
            return self.record_registration(None);
        }
        match parse_json(body) {
            Some(doc) => match assigned_system_id(&doc) {
                Some(id) => self.record_registration(Some(id.as_str())),
                None => self.record_registration(None),
            },
            None => self.record_registration(None),
        }
    }
}

/// An HTTP status in the success class, 200 to 299.
pub open spec fn spec_is_success_status(status: u16) -> bool {
    200 <= status <= 299
}

pub fn is_success_status(status: u16) -> (b: bool)
    ensures
        b == spec_is_success_status(status),
{
    200 <= status && status <= 299
}

/// The System ID a registry document assigns: the string at
/// `system.system_id`.
pub open spec fn spec_assigned_system_id(doc: JsonValue) -> Option<Seq<char>> {
    match spec_member(doc, "system"@) {
        Some(sys) => match spec_member(sys, "system_id"@) {
            Some(JsonValue::Str(s)) => Some(s@),
            _ => None,
        },
        None => None,
    }
}

/// The System ID a registration reply assigns: only a 2xx reply whose body
/// is JSON assigns one.
pub open spec fn spec_registration_reply(status: u16, body: Seq<char>) -> Option<Seq<char>> {
    if spec_is_success_status(status) {
        match parsed_json(body) {
            Some(doc) => spec_assigned_system_id(doc),
            None => None,
        }
    } else {
        None
    }
}

/// The System ID `doc` assigns, read at `system.system_id`.
pub fn assigned_system_id(doc: &JsonValue) -> (r: Option<String>)
    ensures
        match r {
            Some(s) => spec_assigned_system_id(*doc) == Some(s@),
            None => spec_assigned_system_id(*doc) is None,
        },
{
    match member(doc, "system") {
        Some(sys) => match member(sys, "system_id") {
            Some(JsonValue::Str(s)) => Some(String::from_str(s.as_str())),
            _ => None,
        },
        None => None,
    }
}

/// Request fields as pairs of texts.
pub open spec fn field_texts(f: Seq<(String, String)>) -> Seq<(Seq<char>, Seq<char>)> {
    f.map_values(|p: (String, String)| (p.0@, p.1@))
}

pub open spec fn registration_field_texts(
    machine: Seq<char>,
    hostname: Seq<char>,
    os_info: Seq<char>,
    system_id: Seq<char>,
) -> Seq<(Seq<char>, Seq<char>)> {
    let base = seq![
        ("machine_identifier"@, machine),
        ("hostname"@, hostname),
        ("os_info"@, os_info),
    ];
    if system_id.len() > 0 {
        base.push(("system_id"@, system_id))
    } else {
        base
    }
}

/// The registry the agent uses: the web server on the relay's host.
pub open spec fn spec_backend_url_for_relay(relay_addr: Seq<char>) -> Seq<char> {
    "http://"@ + before_first(relay_addr, ':') + "/Screen%20Share/backend/api"@
}

pub fn backend_url_for_relay(relay_addr: &str) -> (u: String)
    ensures
        u@ == spec_backend_url_for_relay(relay_addr@),
{
    let host = before_first_char(chars_of(relay_addr).as_slice(), ':');
    let mut out: Vec<char> = Vec::new();
    push_str(&mut out, "http://");
    push_chars(&mut out, host.as_slice());
    push_str(&mut out, "/Screen%20Share/backend/api");
    string_of(out.as_slice())
}

/// The host part of a backend URL: without `http://` or `https://`, up to
/// the first `/`.
pub open spec fn spec_backend_host(url: Seq<char>) -> Seq<char> {
    let rest = if has_prefix(url, "http://"@) {
        url.skip(7)
    } else if has_prefix(url, "https://"@) {
        url.skip(8)
    } else {
        url
    };
    before_first(rest, '/')
}

pub fn backend_host_of(url: &str) -> (h: String)
    ensures
        h@ == spec_backend_host(url@),
{
    let u = chars_of(url);
    let http = chars_of("http://");
    let https = chars_of("https://");
    proof {
        reveal_strlit("http://");
        reveal_strlit("https://");
    }
    let rest = if starts_with(u.as_slice(), http.as_slice()) {
        let r = chars_from(u.as_slice(), 7);
        assert(r@ =~= u@.skip(7));
        r
    } else if starts_with(u.as_slice(), https.as_slice()) {
        let r = chars_from(u.as_slice(), 8);
        assert(r@ =~= u@.skip(8));
        r
    } else {
        let r = chars_from(u.as_slice(), 0);
        assert(r@ =~= u@);
        r
    };
    string_of(before_first_char(rest.as_slice(), '/').as_slice())
}

/// Where the relay reports hosts: `(backend URL, host, port)`. Each setting
/// comes from its environment variable when set; otherwise the URL comes from
/// the installer's configuration or the local default, the host from the URL,
/// and the port is 80.
pub open spec fn spec_backend_config(
    env_url: Option<Seq<char>>,
    env_host: Option<Seq<char>>,
    env_port: Option<Seq<char>>,
    file_backend: Option<Seq<char>>,
) -> (Seq<char>, Seq<char>, Seq<char>) {
    let url = match env_url {
        Some(u) => u,
        None => match file_backend {
            Some(f) => f,
            None => "http://127.0.0.1/Screen%20Share/backend/api"@,
        },
    };
    let host = match env_host {
        Some(h) => h,
        None => spec_backend_host(url),
    };
    let port = match env_port {
        Some(p) => p,
        None => "80"@,
    };
    (url, host, port)
}

pub fn resolve_backend_config(
    env_url: Option<&str>,
    env_host: Option<&str>,
    env_port: Option<&str>,
    file_backend: Option<&str>,
) -> (r: (String, String, String))
    ensures
        (r.0@, r.1@, r.2@) == spec_backend_config(
            match env_url {
                Some(u) => Some(u@),
                None => None,
            },
            match env_host {
                Some(h) => Some(h@),
                None => None,
            },
            match env_port {
                Some(p) => Some(p@),
                None => None,
            },
            match file_backend {
                Some(f) => Some(f@),
                None => None,
            },
        ),
{
    let url = match env_url {
        Some(u) => String::from_str(u),
        None => match file_backend {
            Some(f) => String::from_str(f),
            None => String::from_str("http://127.0.0.1/Screen%20Share/backend/api"),
        },
    };
    let host = match env_host {
        Some(h) => String::from_str(h),
        None => backend_host_of(url.as_str()),
    };
    let port = match env_port {
        Some(p) => String::from_str(p),
        None => String::from_str("80"),
    };
    (url, host, port)
}

/// The body of the relay's heartbeat for a host.
pub open spec fn presence_body(session_id: Seq<char>) -> Seq<char> {
    "{\"system_id\":\""@ + session_id + "\"}"@
}

/// The HTTP request the relay sends to report a host as online.
pub open spec fn spec_presence_request(
    backend_url: Seq<char>,
    backend_host: Seq<char>,
    session_id: Seq<char>,
) -> Seq<char> {
    "POST "@ + endpoint(backend_url, "/devices/heartbeat.php"@) + " HTTP/1.1\r\nHost: "@
        + backend_host + "\r\nContent-Type: application/json\r\nContent-Length: "@ + decimal(
        (encode_utf8(presence_body(session_id)).len() as usize) as nat,
    ) + "\r\nConnection: close\r\n\r\n"@ + presence_body(session_id)
}

pub fn presence_request(backend_url: &str, backend_host: &str, session_id: &str) -> (r: String)
    ensures
        r@ == spec_presence_request(backend_url@, backend_host@, session_id@),
{
    let mut body_chars: Vec<char> = Vec::new();
    push_str(&mut body_chars, "{\"system_id\":\"");
    push_str(&mut body_chars, session_id);
    push_str(&mut body_chars, "\"}");
    let body = string_of(body_chars.as_slice());
    let url = trim_end_chars(chars_of(backend_url).as_slice(), Strip::Slash);
    let mut out: Vec<char> = Vec::new();
    push_str(&mut out, "POST ");
    push_chars(&mut out, url.as_slice());
    push_str(&mut out, "/devices/heartbeat.php");
    push_str(&mut out, " HTTP/1.1\r\nHost: ");
    push_str(&mut out, backend_host);
    push_str(&mut out, "\r\nContent-Type: application/json\r\nContent-Length: ");
    push_decimal(&mut out, body.as_str().len() as u64);
    push_str(&mut out, "\r\nConnection: close\r\n\r\n");
    push_str(&mut out, body.as_str());
    proof {
        assert(out@ =~= spec_presence_request(backend_url@, backend_host@, session_id@));
    }
    string_of(out.as_slice())
}

} // verus!
