//! The installer: what it is asked to do, the server address it chooses,
//! the configuration it writes and where it puts everything.
use vstd::prelude::*;
use crate::json_text::{extract_server_addr, lemma_scan_stops, spec_quoted_after};
use crate::text::{lemma_first_occurrence, occurs_at, spec_find};
use crate::text::{
    chars_from, chars_of, eq_ignore_ascii_case, matches_at, push_str, spec_eq_ignore_ascii_case,
    string_of, trim_by, trim_chars, Strip,
};

verus! {

/// Whether `s` begins with `p`.
pub open spec fn has_prefix(s: Seq<char>, p: Seq<char>) -> bool {
    p.len() <= s.len() && s.take(p.len() as int) == p
}

/// `s` with every leading repetition of `p` removed, as `trim_start_matches`.
pub open spec fn strip_prefixes(s: Seq<char>, p: Seq<char>) -> Seq<char>
    decreases s.len(),
{
    if p.len() > 0 && has_prefix(s, p) {
        strip_prefixes(s.skip(p.len() as int), p)
    } else {
        s
    }
}

/// An address the installer accepts from a file: not empty and not a
/// loopback address.
pub open spec fn usable_server_addr(a: Seq<char>) -> bool {
    a.len() > 0 && !has_prefix(a, "127.0.0.1"@) && !has_prefix(a, "localhost"@)
}

/// The flag that names the server address on the installer's command line.
pub open spec fn server_addr_flag() -> Seq<char> {
    "--server-addr="@
}

/// The value of the first `--server-addr=` argument whose value is not empty.
pub open spec fn arg_server_addr(args: Seq<Seq<char>>) -> Option<Seq<char>>
    decreases args.len(),
{
    if args.len() == 0 {
        None
    } else if has_prefix(args[0], server_addr_flag()) && strip_prefixes(
        args[0],
        server_addr_flag(),
    ).len() > 0 {
        Some(strip_prefixes(args[0], server_addr_flag()))
    } else {
        arg_server_addr(args.drop_first())
    }
}

/// The arguments as character sequences.
pub open spec fn arg_texts(args: Seq<String>) -> Seq<Seq<char>> {
    args.map_values(|s: String| s@)
}

/// Where the installer takes the server address from, in order: the
/// `server-config.json` a previous install left (when it names a usable
/// address), a `--server-addr=` argument, the `server-addr.txt` next to the
/// installer (trimmed, when usable). Empty when none of them gives one.
pub open spec fn spec_resolve_server_addr(
    existing_config: Option<Seq<char>>,
    args: Seq<Seq<char>>,
    addr_file: Option<Seq<char>>,
) -> Seq<char> {
    let from_config = match existing_config {
        Some(c) => spec_quoted_after(c, "\"server_addr\":"@),
        None => None,
    };
    if from_config is Some && usable_server_addr(from_config.unwrap()) {
        from_config.unwrap()
    } else if arg_server_addr(args) is Some {
        arg_server_addr(args).unwrap()
    } else if addr_file is Some && usable_server_addr(trim_by(addr_file.unwrap(), Strip::WhiteSpace)) {
        trim_by(addr_file.unwrap(), Strip::WhiteSpace)
    } else {
        Seq::empty()
    }
}

fn has_prefix_exec(v: &[char], p: &[char]) -> (b: bool)
    ensures
        b == has_prefix(v@, p@),
{
    let b = matches_at(v, p, 0);
    proof {
        if p@.len() <= v@.len() {
            assert(v@.subrange(0, p@.len() as int) == v@.take(p@.len() as int));
        }
    }
    b
}

/// Removes every leading repetition of `p` from `v`.
pub fn strip_prefixes_exec(v: &[char], p: &[char]) -> (r: Vec<char>)
    ensures
        r@ == strip_prefixes(v@, p@),
{
    if p.len() == 0 {
        return chars_from(v, 0);
    }
    let mut start: usize = 0;
    assert(v@.subrange(0, v.len() as int) == v@);
    while start <= v.len() && matches_at(v, p, start)
        invariant
            p.len() > 0,
            start <= v.len(),
            strip_prefixes(v@, p@) == strip_prefixes(v@.subrange(start as int, v.len() as int), p@),
        decreases v.len() - start,
    {
        proof {
            let t = v@.subrange(start as int, v.len() as int);
            assert(t.take(p@.len() as int) == v@.subrange(start as int, start + p@.len()));
            assert(has_prefix(t, p@));
            assert(t.skip(p@.len() as int) == v@.subrange(start + p@.len(), v.len() as int));
        }
        start = start + p.len();
    }
    proof {
        let t = v@.subrange(start as int, v.len() as int);
        if has_prefix(t, p@) {
            assert(t.take(p@.len() as int) == v@.subrange(start as int, start + p@.len()));
            assert(false);
        }
    }
    chars_from(v, start)
}

fn usable_server_addr_exec(a: &[char]) -> (b: bool)
    ensures
        b == usable_server_addr(a@),
{
    let loopback = chars_of("127.0.0.1");
    let local = chars_of("localhost");
    a.len() > 0 && !has_prefix_exec(a, loopback.as_slice()) && !has_prefix_exec(
        a,
        local.as_slice(),
    )
}

/// The installer's `--server-addr=` argument, if one with a value was given.
pub fn server_addr_from_args(args: &[String]) -> (r: Option<String>)
    ensures
        r matches Some(v) ==> arg_server_addr(arg_texts(args@)) == Some(v@),
        r is None ==> arg_server_addr(arg_texts(args@)) is None,
{
    let flag = chars_of("--server-addr=");
    let ghost all = arg_texts(args@);
    let mut i: usize = 0;
    assert(all.skip(0) == all);
    while i < args.len()
        invariant
            i <= args.len(),
            flag@ == server_addr_flag(),
            all == arg_texts(args@),
            arg_server_addr(all) == arg_server_addr(all.skip(i as int)),
        decreases args.len() - i,
    {
        let a = chars_of(args[i].as_str());
        proof {
            let rest = all.skip(i as int);
            assert(rest[0] == a@);
            assert(rest.drop_first() == all.skip(i + 1));
        }
        if has_prefix_exec(a.as_slice(), flag.as_slice()) {
            let v = strip_prefixes_exec(a.as_slice(), flag.as_slice());
            if v.len() > 0 {
                return Some(string_of(v.as_slice()));
            }
        }
        i += 1;
    }
    proof {
        assert(all.skip(i as int).len() == 0);
    }
    None
}

/// The server address the installer records: see [`spec_resolve_server_addr`].
/// `existing_config` is the text of a previous install's `server-config.json`,
/// `args` the arguments after the program name, `addr_file` the text of the
/// `server-addr.txt` beside the installer.
pub fn resolve_server_addr(
    existing_config: Option<&str>,
    args: &[String],
    addr_file: Option<&str>,
) -> (r: String)
    ensures
        r@ == spec_resolve_server_addr(
            match existing_config {
                Some(c) => Some(c@),
                None => None,
            },
            arg_texts(args@),
            match addr_file {
                Some(f) => Some(f@),
                None => None,
            },
        ),
{
    if let Some(contents) = existing_config {
        if let Some(addr) = extract_server_addr(contents) {
            let a = chars_of(addr.as_str());
            if usable_server_addr_exec(a.as_slice()) {
                return addr;
            }
        }
    }
    if let Some(v) = server_addr_from_args(args) {
        return v;
    }
    if let Some(text) = addr_file {
        let t = trim_chars(chars_of(text).as_slice(), Strip::WhiteSpace);
        if usable_server_addr_exec(t.as_slice()) {
            return string_of(t.as_slice());
        }
    }
    String::new()
}

/// The `server-config.json` the installer writes for `server_addr`.
pub open spec fn spec_server_config_json(server_addr: Seq<char>) -> Seq<char> {
    "{\n  \"server_addr\": \""@ + server_addr + "\",\n  \"backend_url\": \"http://"@ + server_addr
        + "/Screen%20Share/backend/api\",\n  \"relay_url\": \"127.0.0.1:9001\"\n}\n"@
}

pub fn server_config_json(server_addr: &str) -> (s: String)
    ensures
        s@ == spec_server_config_json(server_addr@),
{
    let mut out: Vec<char> = Vec::new();
    push_str(&mut out, "{\n  \"server_addr\": \"");
    push_str(&mut out, server_addr);
    push_str(&mut out, "\",\n  \"backend_url\": \"http://");
    push_str(&mut out, server_addr);
    push_str(&mut out, "/Screen%20Share/backend/api\",\n  \"relay_url\": \"127.0.0.1:9001\"\n}\n");
    string_of(out.as_slice())
}

/// The written configuration, piece by piece.
proof fn lemma_config_layout(addr: Seq<char>)
    ensures
        ({
            let c = spec_server_config_json(addr);
            let n = addr.len() as int;
            let p1 = "{\n  \"server_addr\": \""@;
            let p2 = "\",\n  \"backend_url\": \"http://"@;
            let p3 = "/Screen%20Share/backend/api\",\n  \"relay_url\": \"127.0.0.1:9001\"\n}\n"@;
            &&& p1.len() == 20
            &&& p2.len() == 28
            &&& c.len() == 48 + 2 * n + p3.len()
            &&& forall|i: int| 0 <= i < 20 ==> c[i] == #[trigger] p1[i]
            &&& forall|i: int| 0 <= i < n ==> c[20 + i] == #[trigger] addr[i]
            &&& forall|i: int| 0 <= i < 28 ==> c[20 + n + i] == #[trigger] p2[i]
            &&& forall|i: int| 0 <= i < n ==> #[trigger] c[48 + n + i] == addr[i]
            &&& forall|i: int| 0 <= i < p3.len() ==> c[48 + 2 * n + i] == #[trigger] p3[i]
        }),
{
    let p1 = "{\n  \"server_addr\": \""@;
    let p2 = "\",\n  \"backend_url\": \"http://"@;
    let p3 = "/Screen%20Share/backend/api\",\n  \"relay_url\": \"127.0.0.1:9001\"\n}\n"@;
    reveal_strlit("{\n  \"server_addr\": \"");
    reveal_strlit("\",\n  \"backend_url\": \"http://");
    let n = addr.len() as int;
    let c = spec_server_config_json(addr);
    assert(c == p1 + addr + p2 + addr + p3);
}

/// What an install writes is what is read back from it: for an address
/// without a double quote, the `server_addr` read from the written
/// `server-config.json` is that address.
pub proof fn lemma_server_addr_reads_back(addr: Seq<char>)
    requires
        forall|i: int| 0 <= i < addr.len() ==> addr[i] != '"',
    ensures
        spec_quoted_after(spec_server_config_json(addr), "\"server_addr\":"@) == Some(addr),
{
    let p1 = "{\n  \"server_addr\": \""@;
    let p2 = "\",\n  \"backend_url\": \"http://"@;
    let k1 = "\"server_addr\":"@;
    reveal_strlit("{\n  \"server_addr\": \"");
    reveal_strlit("\",\n  \"backend_url\": \"http://");
    reveal_strlit("\"server_addr\":");
    lemma_config_layout(addr);
    let n = addr.len() as int;
    let c = spec_server_config_json(addr);
    assert(k1.len() == 14);
    assert(c.subrange(4, 18) =~= k1) by {
        assert forall|i: int| 0 <= i < 14 implies c.subrange(4, 18)[i] == k1[i] by {
            assert(c[4 + i] == p1[4 + i]);
        }
    }
    assert forall|j: int| 0 <= j < 4 implies !occurs_at(c, k1, j) by {
        assert(c.subrange(j, j + 14)[0] == c[j]);
        assert(c[j] == p1[j]);
    }
    lemma_first_occurrence(c, k1, 4);
    let after = c.subrange(18, c.len() as int);
    assert(after[0] == p1[18] && after[1] == p1[19]);
    assert(after[2 + n] == p2[0]) by {
        assert(c[20 + n + 0] == p2[0]);
    }
    lemma_scan_stops(after, 0, 1, '"');
    assert forall|i: int| 2 <= i < 2 + n implies after[i] != '"' by {
        assert(c[20 + (i - 2)] == addr[i - 2]);
    }
    lemma_scan_stops(after, 2, 2 + n, '"');
    assert(after.subrange(2, 2 + n) =~= addr) by {
        assert forall|i: int| 0 <= i < n implies after.subrange(2, 2 + n)[i] == addr[i] by {
            assert(c[20 + i] == addr[i]);
        }
    }
}

/// The `backend_url` key first occurs right after the address.
#[verifier::rlimit(60)]
proof fn lemma_backend_key_position(addr: Seq<char>)
    requires
        forall|i: int| 0 <= i < addr.len() ==> addr[i] != '"',
    ensures
        spec_find(spec_server_config_json(addr), "\"backend_url\":"@) == Some(25 + addr.len() as int),
{
    let p1 = "{\n  \"server_addr\": \""@;
    let p2 = "\",\n  \"backend_url\": \"http://"@;
    let k2 = "\"backend_url\":"@;
    reveal_strlit("{\n  \"server_addr\": \"");
    reveal_strlit("\",\n  \"backend_url\": \"http://");
    reveal_strlit("\"backend_url\":");
    lemma_config_layout(addr);
    let n = addr.len() as int;
    let c = spec_server_config_json(addr);
    let p = 25 + n;
    assert(k2.len() == 14);
    assert(c.subrange(p, p + 14) =~= k2) by {
        assert forall|i: int| 0 <= i < 14 implies c.subrange(p, p + 14)[i] == k2[i] by {
            assert(c[20 + n + (5 + i)] == p2[5 + i]);
        }
    }
    assert forall|j: int| 0 <= j < p implies !occurs_at(c, k2, j) by {
        if occurs_at(c, k2, j) {
            let w = c.subrange(j, j + 14);
            assert(w[0] == c[j] && w[1] == c[j + 1]);
            if j < 19 {
                assert(c[j + 1] == p1[j + 1]);
            } else if j == 19 {
                if n >= 12 {
                    assert(w[12] == c[31int]);
                    assert(c[20int + 11] == addr[11]);
                } else {
                    assert(w[n + 2] == c[21 + n]);
                    assert(c[20 + n + 1] == p2[1]);
                }
            } else if j < 20 + n {
                assert(c[20 + (j - 20)] == addr[j - 20]);
            } else {
                assert(c[20 + n + (j - 20 - n)] == p2[j - 20 - n]);
                assert(c[20 + n + (j - 19 - n)] == p2[j - 19 - n]);
            }
        }
    }
    lemma_first_occurrence(c, k2, p);
}

/// The `backend_url` read back from a written `server-config.json` is the
/// backend API under the address it was written for.
#[verifier::rlimit(60)]
pub proof fn lemma_backend_url_reads_back(addr: Seq<char>)
    requires
        forall|i: int| 0 <= i < addr.len() ==> addr[i] != '"',
    ensures
        spec_quoted_after(spec_server_config_json(addr), "\"backend_url\":"@) == Some(
            "http://"@ + addr + "/Screen%20Share/backend/api"@,
        ),
{
    let p2 = "\",\n  \"backend_url\": \"http://"@;
    let p3 = "/Screen%20Share/backend/api\",\n  \"relay_url\": \"127.0.0.1:9001\"\n}\n"@;
    let k2 = "\"backend_url\":"@;
    let want = "http://"@ + addr + "/Screen%20Share/backend/api"@;
    reveal_strlit("\",\n  \"backend_url\": \"http://");
    reveal_strlit("/Screen%20Share/backend/api\",\n  \"relay_url\": \"127.0.0.1:9001\"\n}\n");
    reveal_strlit("\"backend_url\":");
    reveal_strlit("/Screen%20Share/backend/api");
    reveal_strlit("http://");
    lemma_config_layout(addr);
    lemma_backend_key_position(addr);
    let n = addr.len() as int;
    let c = spec_server_config_json(addr);
    let p = 25 + n;
    let after = c.subrange(p + 14, c.len() as int);
    assert(after[0] == p2[19] && after[1] == p2[20]) by {
        assert(c[20 + n + 19] == p2[19]);
        assert(c[20 + n + 20] == p2[20]);
    }
    lemma_scan_stops(after, 0, 1, '"');
    assert(after[36 + n] == p3[27]) by {
        assert(c[48 + 2 * n + 27] == p3[27]);
    }
    assert(want.len() == 34 + n);
    assert forall|i: int| 2 <= i < 36 + n implies after[i] != '"' && after[i] == want[i - 2] by {
        if i < 9 {
            assert(c[20 + n + (i + 19)] == p2[i + 19]);
        } else if i < 9 + n {
            assert(c[48 + n + (i - 9)] == addr[i - 9]);
        } else {
            assert(c[48 + 2 * n + (i - 9 - n)] == p3[i - 9 - n]);
        }
    }
    lemma_scan_stops(after, 2, 36 + n, '"');
    assert(after.subrange(2, 36 + n) =~= want);
}

/// The configuration an install writes: for the resolved address, or for the
/// local machine when none was resolved.
pub fn install_config_json(resolved_addr: &str) -> (s: String)
    ensures
        s@ == spec_server_config_json(
            if resolved_addr@.len() == 0 {
                "127.0.0.1"@
            } else {
                resolved_addr@
            },
        ),
{
    let a = chars_of(resolved_addr);
    if a.len() == 0 {
        server_config_json("127.0.0.1")
    } else {
        server_config_json(resolved_addr)
    }
}

/// What the installer was started to do.
#[derive(Clone, Copy, Debug, PartialEq, Eq, Structural)]
pub enum SetupMode {
    Uninstall,
    /// Install without showing a window.
    SilentInstall,
    Install,
}

/// Whether some argument is one of two flags, ignoring ASCII case.
pub open spec fn has_flag(args: Seq<Seq<char>>, a: Seq<char>, b: Seq<char>) -> bool {
    exists|i: int|
        0 <= i < args.len() && (spec_eq_ignore_ascii_case(#[trigger] args[i], a)
            || spec_eq_ignore_ascii_case(args[i], b))
}

fn any_flag(args: &[String], a: &str, b: &str) -> (r: bool)
    ensures
        r == has_flag(arg_texts(args@), a@, b@),
{
    let mut i: usize = 0;
    while i < args.len()
        invariant
            i <= args.len(),
            forall|j: int|
                0 <= j < i ==> !(spec_eq_ignore_ascii_case(#[trigger] arg_texts(args@)[j], a@)
                    || spec_eq_ignore_ascii_case(arg_texts(args@)[j], b@)),
        decreases args.len() - i,
    {
        let t = args[i].as_str();
        assert(arg_texts(args@)[i as int] == t@);
        if eq_ignore_ascii_case(t, a) || eq_ignore_ascii_case(t, b) {
            return true;
        }
        i += 1;
    }
    false
}

/// Uninstall when any argument is `/uninstall` or `/u`, else install
/// silently when one is `/S` or `/silent`, else install with a window.
pub fn setup_mode(args: &[String]) -> (m: SetupMode)
    ensures
        m == (if has_flag(arg_texts(args@), "/uninstall"@, "/u"@) {
            SetupMode::Uninstall
        } else if has_flag(arg_texts(args@), "/S"@, "/silent"@) {
            SetupMode::SilentInstall
        } else {
            SetupMode::Install
        }),
{
    if any_flag(args, "/uninstall", "/u") {
        SetupMode::Uninstall
    } else if any_flag(args, "/S", "/silent") {
        SetupMode::SilentInstall
    } else {
        SetupMode::Install
    }
}

/// Where an install puts things and what it records.
pub struct InstallPlan {
    pub dir: String,
    pub gui_path: String,
    pub agent_path: String,
    pub relay_path: String,
    pub config_path: String,
    /// The `ScreenShare` value of the Run key.
    pub run_command: String,
    /// The command of the `deskstream://` protocol.
    pub protocol_command: String,
    pub uninstall_command: String,
    pub start_menu_link: String,
    pub desktop_link: Option<String>,
}

fn joined(a: &str, b: &str) -> (s: String)
    ensures
        s@ == a@ + b@,
{
    let mut out: Vec<char> = Vec::new();
    push_str(&mut out, a);
    push_str(&mut out, b);
    string_of(out.as_slice())
}

fn quoted(a: &str) -> (s: String)
    ensures
        s@ == "\""@ + a@ + "\""@,
{
    let mut out: Vec<char> = Vec::new();
    push_str(&mut out, "\"");
    push_str(&mut out, a);
    push_str(&mut out, "\"");
    string_of(out.as_slice())
}

/// The install directory under Program Files (or its usual place).
pub open spec fn spec_install_dir(program_files: Option<Seq<char>>) -> Seq<char> {
    let base = match program_files {
        Some(p) => p,
        None => "C:\\Program Files"@,
    };
    base + "\\Screen Share"@
}

/// The plan of an install from the `ProgramFiles`, `ProgramData` and
/// `USERPROFILE` settings of the machine and the installer's own path.
pub fn install_plan(
    program_files: Option<&str>,
    program_data: Option<&str>,
    user_profile: Option<&str>,
    setup_exe: &str,
) -> (p: InstallPlan)
    ensures
        ({
            let dir = spec_install_dir(
                match program_files {
                    Some(s) => Some(s@),
                    None => None,
                },
            );
            let gui = dir + "\\ScreenShare.exe"@;
            let agent = dir + "\\desktop-agent.exe"@;
            &&& p.dir@ == dir
            &&& p.gui_path@ == gui
            &&& p.agent_path@ == agent
            &&& p.relay_path@ == dir + "\\relay-server.exe"@
            &&& p.config_path@ == dir + "\\server-config.json"@
            &&& p.run_command@ == "\""@ + gui + "\""@ + " --hidden"@
            &&& p.protocol_command@ == "\""@ + agent + "\""@
            &&& p.uninstall_command@ == "\""@ + setup_exe@ + "\""@ + " /uninstall"@
            &&& p.start_menu_link@ == (match program_data {
                Some(d) => d@,
                None => "C:\\ProgramData"@,
            }) + "\\Microsoft\\Windows\\Start Menu\\Programs\\Screen Share.lnk"@
            &&& match user_profile {
                Some(u) => p.desktop_link matches Some(l) && l@ == u@ + "\\Desktop\\Screen Share.lnk"@,
                None => p.desktop_link is None,
            }
        }),
{
    let dir = joined(
        match program_files {
            Some(s) => s,
            None => "C:\\Program Files",
        },
        "\\Screen Share",
    );
    let gui_path = joined(dir.as_str(), "\\ScreenShare.exe");
    let agent_path = joined(dir.as_str(), "\\desktop-agent.exe");
    let relay_path = joined(dir.as_str(), "\\relay-server.exe");
    let config_path = joined(dir.as_str(), "\\server-config.json");
    let run_command = joined(quoted(gui_path.as_str()).as_str(), " --hidden");
    let protocol_command = quoted(agent_path.as_str());
    let uninstall_command = joined(quoted(setup_exe).as_str(), " /uninstall");
    let start_menu_link = joined(
        match program_data {
            Some(d) => d,
            None => "C:\\ProgramData",
        },
        "\\Microsoft\\Windows\\Start Menu\\Programs\\Screen Share.lnk",
    );
    let desktop_link = match user_profile {
        Some(u) => Some(joined(u, "\\Desktop\\Screen Share.lnk")),
        None => None,
    };
    InstallPlan {
        dir,
        gui_path,
        agent_path,
        relay_path,
        config_path,
        run_command,
        protocol_command,
        uninstall_command,
        start_menu_link,
        desktop_link,
    }
}

/// The values an install records under its uninstall key, in order.
pub fn uninstall_entries(plan: &InstallPlan) -> (e: Vec<(&'static str, String)>)
    ensures
        e@.len() == 7,
        e@[0].0@ == "DisplayName"@ && e@[0].1@ == "Screen Share"@,
        e@[1].0@ == "UninstallString"@ && e@[1].1@ == plan.uninstall_command@,
        e@[2].0@ == "DisplayIcon"@ && e@[2].1@ == plan.gui_path@,
        e@[3].0@ == "InstallLocation"@ && e@[3].1@ == plan.dir@,
        e@[4].0@ == "Publisher"@ && e@[4].1@ == "Screen Share"@,
        e@[5].0@ == "NoModify"@ && e@[5].1@ == "1"@,
        e@[6].0@ == "NoRepair"@ && e@[6].1@ == "1"@,
{
    let mut e: Vec<(&'static str, String)> = Vec::new();
    e.push(("DisplayName", String::from_str("Screen Share")));
    e.push(("UninstallString", plan.uninstall_command.clone()));
    e.push(("DisplayIcon", plan.gui_path.clone()));
    e.push(("InstallLocation", plan.dir.clone()));
    e.push(("Publisher", String::from_str("Screen Share")));
    e.push(("NoModify", String::from_str("1")));
    e.push(("NoRepair", String::from_str("1")));
    e
}

} // verus!
