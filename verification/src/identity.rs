//! Device identity: the persisted agent configuration, the 9-digit System ID
//! derived from the hardware UUID, and its display form.
use vstd::prelude::*;
use vstd::string::StringSliceAdditionalSpecFns;
use crate::text::{
    chars_of, decimal, filter_ascii_digits, is_ascii_digit, lemma_decimal_digits, only_ascii_digits,
    push_chars, push_decimal, push_str, string_of, trim_by, trim_chars, Strip,
};
use crate::wire::{be_read, be_value, lemma_be_value_bound, lemma_pow256_values};

verus! {

/// The persisted configuration of a desktop agent.
pub struct AgentConfig {
    pub device_uuid: String,
    pub system_id: String,
    pub name: String,
    pub relay_addr: String,
    /// `"client"` or `"server"`.
    pub app_mode: String,
    pub relay_port: u16,
    pub server_bind_addr: String,
    pub pin: String,
}

/// The mode a configuration without one runs in.
pub fn default_app_mode() -> (s: String)
    ensures
        s@ == "client"@,
{
    String::from_str("client")
}

/// The relay port a configuration without one uses.
pub fn default_relay_port() -> (p: u16)
    ensures
        p == 9001,
{
    9001
}

/// The address the embedded relay binds to by default.
pub fn default_server_bind_addr() -> (s: String)
    ensures
        s@ == "0.0.0.0:9001"@,
{
    String::from_str("0.0.0.0:9001")
}

/// ASCII lowercase of one character.
pub open spec fn ascii_lower(c: char) -> char {
    if 'A' <= c && c <= 'Z' {
        ((c as u32) + 32) as char
    } else {
        c
    }
}

/// Whether `s` spells `server` in any mix of letter case.
pub open spec fn spells_server(s: Seq<char>) -> bool {
    s.len() == 6 && ascii_lower(s[0]) == 's' && ascii_lower(s[1]) == 'e' && ascii_lower(s[2])
        == 'r' && ascii_lower(s[3]) == 'v' && ascii_lower(s[4]) == 'e' && ascii_lower(s[5]) == 'r'
}

fn ascii_lower_exec(c: char) -> (r: char)
    ensures
        r == ascii_lower(c),
{
    if 'A' <= c && c <= 'Z' {
        ((c as u8) + 32) as char
    } else {
        c
    }
}

/// The digits of a System ID grouped in threes: `847 293 615`.
pub open spec fn spec_formatted_id(system_id: Seq<char>) -> Seq<char> {
    let d = only_ascii_digits(system_id);
    if d.len() == 9 {
        d.subrange(0, 3) + seq![' '] + d.subrange(3, 6) + seq![' '] + d.subrange(6, 9)
    } else if d.len() == 6 {
        d.subrange(0, 3) + seq![' '] + d.subrange(3, 6)
    } else if d.len() == 0 {
        "Connecting..."@
    } else {
        d
    }
}

impl AgentConfig {
    /// Whether the agent runs as the relay server (`app_mode` is `server`,
    /// ignoring case).
    pub fn is_server_mode(&self) -> (b: bool)
        ensures
            b == spells_server(self.app_mode@),
    {
        let m = chars_of(self.app_mode.as_str());
        m.len() == 6 && ascii_lower_exec(m[0]) == 's' && ascii_lower_exec(m[1]) == 'e'
            && ascii_lower_exec(m[2]) == 'r' && ascii_lower_exec(m[3]) == 'v' && ascii_lower_exec(
            m[4],
        ) == 'e' && ascii_lower_exec(m[5]) == 'r'
    }

    /// The System ID for display: nine digits as `847 293 615`, six as
    /// `847 293`, none as `Connecting...`, any other count as the bare digits.
    pub fn formatted_id(&self) -> (s: String)
        ensures
            s@ == spec_formatted_id(self.system_id@),
    {
        let cs = chars_of(self.system_id.as_str());
        let d = filter_ascii_digits(cs.as_slice());
        let mut out: Vec<char> = Vec::new();
        if d.len() == 9 {
            out.push(d[0]);
            out.push(d[1]);
            out.push(d[2]);
            out.push(' ');
            out.push(d[3]);
            out.push(d[4]);
            out.push(d[5]);
            out.push(' ');
            out.push(d[6]);
            out.push(d[7]);
            out.push(d[8]);
            assert(out@ =~= d@.subrange(0, 3) + seq![' '] + d@.subrange(3, 6) + seq![' '] + d@.subrange(6, 9));
        } else if d.len() == 6 {
            out.push(d[0]);
            out.push(d[1]);
            out.push(d[2]);
            out.push(' ');
            out.push(d[3]);
            out.push(d[4]);
            out.push(d[5]);
            assert(out@ =~= d@.subrange(0, 3) + seq![' '] + d@.subrange(3, 6));
        } else if d.len() == 0 {
            push_str(&mut out, "Connecting...");
        } else {
            push_chars(&mut out, d.as_slice());
        }
        string_of(out.as_slice())
    }
}

/// The SHA-256 digest of a byte sequence.
pub uninterp spec fn sha256_digest(data: Seq<u8>) -> Seq<u8>;

/// SHA-256 of `data`.
///
/// Trusted: calls `sha2::Sha256::digest` (the `Digest` trait's one-shot
/// hash). The contract claims only that the 32 bytes it returns are a fixed
/// function of the input bytes, named `sha256_digest`.
#[verifier::external_body]
pub(crate) fn sha256(data: &[u8]) -> (h: [u8; 32])
    ensures
        h@ == sha256_digest(data@),
{
    <sha2::Sha256 as sha2::Digest>::digest(data).into()
}

/// The hash a viewer sends to prove it knows a host's PIN: SHA-256 of the
/// PIN's UTF-8 bytes.
pub fn pin_auth_hash(pin: &str) -> (h: [u8; 32])
    ensures
        h@ == sha256_digest(pin.spec_bytes()),
{
    sha256(pin.as_bytes())
}

/// The 9-digit System ID for a digest: its first four bytes, big-endian,
/// reduced into 100000000..=999999999.
pub open spec fn id_number(digest: Seq<u8>) -> nat {
    be_value(digest.take(4)) % 900000000 + 100000000
}

/// Decimal System ID derived from a SHA-256 digest.
pub fn system_id_from_digest(digest: &[u8]) -> (s: String)
    requires
        digest@.len() == 32,
    ensures
        s@ == decimal(id_number(digest@)),
{
    let n = be_read(digest, 4);
    proof {
        lemma_be_value_bound(digest@.take(4));
        lemma_pow256_values();
    }
    let id = n % 900_000_000 + 100_000_000;
    let mut out: Vec<char> = Vec::new();
    push_decimal(&mut out, id);
    assert(out@ =~= decimal(id as nat));
    string_of(out.as_slice())
}

/// The deterministic 9-digit System ID of a device: SHA-256 of the UTF-8
/// bytes of `device_uuid`, read as described by `id_number`.
pub fn generate_deterministic_system_id(device_uuid: &str) -> (s: String)
    ensures
        s@ == decimal(id_number(sha256_digest(device_uuid.spec_bytes()))),
{
    let h = sha256(device_uuid.as_bytes());
    system_id_from_digest(&h)
}

/// Every generated System ID is nine decimal digits, the first not zero, so
/// it always displays as three groups of three.
pub proof fn lemma_system_id_shape(digest: Seq<u8>)
    ensures
        decimal(id_number(digest)).len() == 9,
        forall|i: int| 0 <= i < 9 ==> is_ascii_digit(#[trigger] decimal(id_number(digest))[i]),
        decimal(id_number(digest))[0] != '0',
        only_ascii_digits(decimal(id_number(digest))) == decimal(id_number(digest)),
{
    let n = id_number(digest);
    assert(100000000 <= n < 1000000000);
    lemma_decimal_digits(n);
}


/// A generated System ID displays as three groups of three digits.
pub proof fn lemma_generated_id_display(digest: Seq<u8>)
    ensures
        spec_formatted_id(decimal(id_number(digest))) == decimal(id_number(digest)).subrange(0, 3)
            + seq![' '] + decimal(id_number(digest)).subrange(3, 6) + seq![' '] + decimal(
            id_number(digest),
        ).subrange(6, 9),
{
    lemma_system_id_shape(digest);
}

/// Lowercase hexadecimal digit of `n < 16`.
pub open spec fn hex_digit(n: nat) -> char {
    if n < 10 {
        ((n + 48) as u32) as char
    } else {
        ((n + 87) as u32) as char
    }
}

/// Two lowercase hex digits per byte.
pub open spec fn hex_bytes(s: Seq<u8>) -> Seq<char>
    decreases s.len(),
{
    if s.len() == 0 {
        Seq::empty()
    } else {
        hex_bytes(s.drop_last()) + seq![hex_digit(s.last() as nat / 16), hex_digit(s.last() as nat % 16)]
    }
}

/// Sets the RFC 4122 version (4) and variant bits of 16 random bytes.
pub open spec fn with_uuid_v4_bits(b: Seq<u8>) -> Seq<u8> {
    b.update(6, (b[6] & 0x0f) | 0x40).update(8, (b[8] & 0x3f) | 0x80)
}

/// `8-4-4-4-12` hex groups of 16 bytes.
pub open spec fn uuid_text(b: Seq<u8>) -> Seq<char> {
    hex_bytes(b.subrange(0, 4)) + seq!['-'] + hex_bytes(b.subrange(4, 6)) + seq!['-'] + hex_bytes(
        b.subrange(6, 8),
    ) + seq!['-'] + hex_bytes(b.subrange(8, 10)) + seq!['-'] + hex_bytes(b.subrange(10, 16))
}

fn push_hex(out: &mut Vec<char>, b: &[u8], from: usize, to: usize)
    requires
        from <= to <= b@.len(),
    ensures
        final(out)@ == old(out)@ + hex_bytes(b@.subrange(from as int, to as int)),
{
    let mut i = from;
    assert(b@.subrange(from as int, from as int) =~= Seq::<u8>::empty());
    while i < to
        invariant
            from <= i <= to <= b@.len(),
            out@ == old(out)@ + hex_bytes(b@.subrange(from as int, i as int)),
        decreases to - i,
    {
        let x = b[i];
        let hi = x / 16;
        let lo = x % 16;
        let ch = if hi < 10 { (hi + 48) as char } else { (hi + 87) as char };
        let cl = if lo < 10 { (lo + 48) as char } else { (lo + 87) as char };
        out.push(ch);
        out.push(cl);
        proof {
            let t = b@.subrange(from as int, i + 1);
            assert(t.drop_last() == b@.subrange(from as int, i as int));
            assert(t.last() == x);
        }
        i += 1;
    }
}

/// Formats 16 random bytes as an RFC 4122 version 4 UUID string.
pub fn format_uuid_v4(bytes: &[u8]) -> (s: String)
    requires
        bytes@.len() == 16,
    ensures
        s@ == uuid_text(with_uuid_v4_bits(bytes@)),
{
    let mut b: Vec<u8> = Vec::new();
    crate::wire::push_all(&mut b, bytes);
    let b6 = (b[6] & 0x0f) | 0x40;
    let b8 = (b[8] & 0x3f) | 0x80;
    b.set(6, b6);
    b.set(8, b8);
    assert(b@ == with_uuid_v4_bits(bytes@));
    let mut out: Vec<char> = Vec::new();
    push_hex(&mut out, b.as_slice(), 0, 4);
    out.push('-');
    push_hex(&mut out, b.as_slice(), 4, 6);
    out.push('-');
    push_hex(&mut out, b.as_slice(), 6, 8);
    out.push('-');
    push_hex(&mut out, b.as_slice(), 8, 10);
    out.push('-');
    push_hex(&mut out, b.as_slice(), 10, 16);
    string_of(out.as_slice())
}

/// Sixteen random bytes.
///
/// Trusted: calls `rand::random`, drawing from the thread-local generator.
/// Nothing is claimed of the bytes: they depend on chance.
#[verifier::external_body]
fn random_16_bytes() -> [u8; 16] {
    rand::random()
}

/// A fresh random UUID (version 4), used when the machine has no hardware GUID.
pub fn generate_uuid_v4() -> (s: String)
    ensures
        exists|b: Seq<u8>| b.len() == 16 && s@ == uuid_text(with_uuid_v4_bits(b)),
{
    let b = random_16_bytes();
    let s = format_uuid_v4(&b);
    assert(b@.len() == 16);
    s
}


/// UTF-16 decoding that replaces each unpaired surrogate by U+FFFD, as
/// `String::from_utf16_lossy` does.
pub open spec fn utf16_lossy(u: Seq<u16>) -> Seq<char>
    decreases u.len(),
{
    if u.len() == 0 {
        Seq::empty()
    } else if u[0] < 0xD800 || u[0] > 0xDFFF {
        seq![(u[0] as u32) as char] + utf16_lossy(u.skip(1))
    } else if u[0] <= 0xDBFF && u.len() >= 2 && 0xDC00 <= u[1] <= 0xDFFF {
        seq![((u[0] - 0xD800) * 1024 + (u[1] - 0xDC00) + 0x10000) as char] + utf16_lossy(u.skip(2))
    } else {
        seq!['\u{FFFD}'] + utf16_lossy(u.skip(1))
    }
}

/// Trusted: calls `String::from_utf16_lossy`, which std documents as decoding
/// UTF-16 and putting U+FFFD in place of invalid data (each unpaired
/// surrogate, as `char::decode_utf16` reports them one by one).
#[verifier::external_body]
pub(crate) fn decode_utf16_lossy(units: &[u16]) -> (s: String)
    ensures
        s@ == utf16_lossy(units@),
{
    String::from_utf16_lossy(units)
}

/// The little-endian 16-bit units of a byte buffer; a trailing odd byte is
/// not part of any unit.
pub open spec fn le_units(bytes: Seq<u8>) -> Seq<u16> {
    Seq::new(bytes.len() / 2, |i: int| (bytes[2 * i] + 256 * bytes[2 * i + 1]) as u16)
}

/// The machine GUID read from the registry's `MachineGuid` value bytes: the
/// UTF-16 text without surrounding NULs and white space, when any is left.
pub open spec fn spec_machine_guid(value: Seq<u8>) -> Option<Seq<char>> {
    let t = trim_by(trim_by(utf16_lossy(le_units(value)), Strip::Nul), Strip::WhiteSpace);
    if t.len() == 0 {
        None
    } else {
        Some(t)
    }
}

/// The little-endian 16-bit units of a byte buffer.
pub(crate) fn le_units_of(value: &[u8]) -> (units: Vec<u16>)
    ensures
        units@ == le_units(value@),
{
    let n = value.len() / 2;
    let mut units: Vec<u16> = Vec::new();
    let mut i: usize = 0;
    while i < n
        invariant
            i <= n,
            n == value@.len() / 2,
            units@ == le_units(value@).take(i as int),
        decreases n - i,
    {
        assert(2 * i + 1 < value.len());
        let lo = value[2 * i] as u16;
        let hi = value[2 * i + 1] as u16;
        units.push(lo + 256 * hi);
        proof {
            assert(units@ =~= le_units(value@).take(i + 1));
        }
        i += 1;
    }
    assert(units@ =~= le_units(value@));
    units
}

pub fn machine_guid_from_value(value: &[u8]) -> (r: Option<String>)
    ensures
        match r {
            Some(g) => spec_machine_guid(value@) == Some(g@),
            None => spec_machine_guid(value@) is None,
        },
{
    let units = le_units_of(value);
    let text = decode_utf16_lossy(units.as_slice());
    let no_nul = trim_chars(chars_of(text.as_str()).as_slice(), Strip::Nul);
    let t = trim_chars(no_nul.as_slice(), Strip::WhiteSpace);
    if t.len() == 0 {
        None
    } else {
        Some(string_of(t.as_slice()))
    }
}

/// The permanent UUID of this machine: its registry GUID when there is one,
/// otherwise a fresh random version 4 UUID.
pub fn permanent_machine_uuid(machine_guid: Option<String>) -> (s: String)
    ensures
        match machine_guid {
            Some(g) => s@ == g@,
            None => exists|b: Seq<u8>| b.len() == 16 && s@ == uuid_text(with_uuid_v4_bits(b)),
        },
{
    match machine_guid {
        Some(g) => g,
        None => generate_uuid_v4(),
    }
}

/// The configuration as plain values.
pub struct AgentConfigView {
    pub device_uuid: Seq<char>,
    pub system_id: Seq<char>,
    pub name: Seq<char>,
    pub relay_addr: Seq<char>,
    pub app_mode: Seq<char>,
    pub relay_port: u16,
    pub server_bind_addr: Seq<char>,
    pub pin: Seq<char>,
}

impl View for AgentConfig {
    type V = AgentConfigView;

    open spec fn view(&self) -> AgentConfigView {
        AgentConfigView {
            device_uuid: self.device_uuid@,
            system_id: self.system_id@,
            name: self.name@,
            relay_addr: self.relay_addr@,
            app_mode: self.app_mode@,
            relay_port: self.relay_port,
            server_bind_addr: self.server_bind_addr@,
            pin: self.pin@,
        }
    }
}

/// The System ID this machine derives from its hardware UUID and host name.
pub open spec fn hardware_system_id(hardware_uuid: Seq<char>, hostname: Seq<char>) -> Seq<char> {
    decimal(id_number(sha256_digest(vstd::utf8::encode_utf8(hardware_uuid + "-"@ + hostname))))
}

/// The identity of a machine seen for the first time.
pub open spec fn spec_new_identity(
    hardware_uuid: Seq<char>,
    hostname: Seq<char>,
    default_relay: Seq<char>,
) -> AgentConfigView {
    AgentConfigView {
        device_uuid: hardware_uuid,
        system_id: hardware_system_id(hardware_uuid, hostname),
        name: hostname,
        relay_addr: default_relay,
        app_mode: "client"@,
        relay_port: 9001,
        server_bind_addr: "0.0.0.0:9001"@,
        pin: Seq::empty(),
    }
}

/// Whether a stored configuration belongs to other hardware (it was cloned or
/// overwritten): it names a device UUID that is not this machine's.
pub open spec fn spec_hardware_mismatch(c: AgentConfigView, hardware_uuid: Seq<char>) -> bool {
    c.device_uuid.len() != 0 && c.device_uuid != hardware_uuid
}

/// A stored relay address that must be replaced by the default.
pub open spec fn stale_relay(relay: Seq<char>) -> bool {
    relay.len() == 0 || relay == "127.0.0.1:9001"@
}

/// The stored configuration after repair: bound to this hardware, with a
/// System ID, a usable relay address and defaults for missing settings.
pub open spec fn spec_reconcile(
    c: AgentConfigView,
    hardware_uuid: Seq<char>,
    hostname: Seq<char>,
    default_relay: Seq<char>,
) -> AgentConfigView {
    AgentConfigView {
        device_uuid: hardware_uuid,
        system_id: if spec_hardware_mismatch(c, hardware_uuid) || c.system_id.len() == 0 {
            hardware_system_id(hardware_uuid, hostname)
        } else {
            c.system_id
        },
        name: c.name,
        relay_addr: if stale_relay(c.relay_addr) {
            default_relay
        } else {
            c.relay_addr
        },
        app_mode: if c.app_mode.len() == 0 {
            "client"@
        } else {
            c.app_mode
        },
        relay_port: if c.relay_port == 0 {
            9001
        } else {
            c.relay_port
        },
        server_bind_addr: if c.server_bind_addr.len() == 0 {
            "0.0.0.0:9001"@
        } else {
            c.server_bind_addr
        },
        pin: c.pin,
    }
}

/// Whether repair changed anything, so that the file must be written back.
pub open spec fn spec_reconcile_dirty(c: AgentConfigView, hardware_uuid: Seq<char>) -> bool {
    spec_hardware_mismatch(c, hardware_uuid) || c.device_uuid.len() == 0 || c.system_id.len() == 0
        || stale_relay(c.relay_addr) || c.app_mode.len() == 0 || c.relay_port == 0
        || c.server_bind_addr.len() == 0
}

/// The result of repairing a stored configuration.
pub struct Reconciled {
    pub config: AgentConfig,
    /// Something changed and the configuration must be saved.
    pub dirty: bool,
    /// The stored device UUID was another machine's.
    pub hardware_mismatch: bool,
}

fn derive_system_id(hardware_uuid: &str, hostname: &str) -> (s: String)
    ensures
        s@ == hardware_system_id(hardware_uuid@, hostname@),
{
    let mut seed: Vec<char> = Vec::new();
    push_str(&mut seed, hardware_uuid);
    push_str(&mut seed, "-");
    push_str(&mut seed, hostname);
    let seed_text = string_of(seed.as_slice());
    generate_deterministic_system_id(seed_text.as_str())
}

/// The configuration written for a machine seen for the first time.
pub fn new_identity(hardware_uuid: &str, hostname: &str, default_relay: &str) -> (c: AgentConfig)
    ensures
        c@ == spec_new_identity(hardware_uuid@, hostname@, default_relay@),
{
    AgentConfig {
        device_uuid: String::from_str(hardware_uuid),
        system_id: derive_system_id(hardware_uuid, hostname),
        name: String::from_str(hostname),
        relay_addr: String::from_str(default_relay),
        app_mode: default_app_mode(),
        relay_port: default_relay_port(),
        server_bind_addr: default_server_bind_addr(),
        pin: String::new(),
    }
}

/// Repairs a configuration read from disk so that it describes this machine.
pub fn reconcile_config(
    stored: AgentConfig,
    hardware_uuid: &str,
    hostname: &str,
    default_relay: &str,
) -> (r: Reconciled)
    ensures
        r.config@ == spec_reconcile(stored@, hardware_uuid@, hostname@, default_relay@),
        r.dirty == spec_reconcile_dirty(stored@, hardware_uuid@),
        r.hardware_mismatch == spec_hardware_mismatch(stored@, hardware_uuid@),
{
    let hw = String::from_str(hardware_uuid);
    let uuid_empty = stored.device_uuid.as_str().is_empty();
    let mismatch = !uuid_empty && stored.device_uuid != hw;
    let system_id_empty = stored.system_id.as_str().is_empty();
    let local_relay = String::from_str("127.0.0.1:9001");
    let relay_stale = stored.relay_addr.as_str().is_empty() || stored.relay_addr == local_relay;
    let mode_empty = stored.app_mode.as_str().is_empty();
    let bind_empty = stored.server_bind_addr.as_str().is_empty();
    let dirty = mismatch || uuid_empty || system_id_empty || relay_stale || mode_empty
        || stored.relay_port == 0 || bind_empty;
    let system_id = if mismatch || system_id_empty {
        derive_system_id(hardware_uuid, hostname)
    } else {
        stored.system_id
    };
    let relay_addr = if relay_stale {
        String::from_str(default_relay)
    } else {
        stored.relay_addr
    };
    let app_mode = if mode_empty {
        default_app_mode()
    } else {
        stored.app_mode
    };
    let relay_port = if stored.relay_port == 0 {
        default_relay_port()
    } else {
        stored.relay_port
    };
    let server_bind_addr = if bind_empty {
        default_server_bind_addr()
    } else {
        stored.server_bind_addr
    };
    Reconciled {
        config: AgentConfig {
            device_uuid: hw,
            system_id,
            name: stored.name,
            relay_addr,
            app_mode,
            relay_port,
            server_bind_addr,
            pin: stored.pin,
        },
        dirty,
        hardware_mismatch: mismatch,
    }
}

/// Repair settles in one pass: a repaired configuration, repaired again on the
/// same machine, is left as it is and needs no saving. (A default relay that
/// is itself empty or `127.0.0.1:9001`, or an empty hardware UUID, would be
/// replaced again and again.)
pub proof fn lemma_reconcile_settles(
    c: AgentConfigView,
    hardware_uuid: Seq<char>,
    hostname: Seq<char>,
    default_relay: Seq<char>,
)
    requires
        hardware_uuid.len() != 0,
        !stale_relay(default_relay),
    ensures
        !spec_reconcile_dirty(spec_reconcile(c, hardware_uuid, hostname, default_relay), hardware_uuid),
        spec_reconcile(spec_reconcile(c, hardware_uuid, hostname, default_relay), hardware_uuid, hostname, default_relay)
            == spec_reconcile(c, hardware_uuid, hostname, default_relay),
{
    let r = spec_reconcile(c, hardware_uuid, hostname, default_relay);
    lemma_system_id_shape(sha256_digest(vstd::utf8::encode_utf8(hardware_uuid + "-"@ + hostname)));
    assert(r.system_id.len() != 0);
    reveal_strlit("client");
    reveal_strlit("0.0.0.0:9001");
    assert(r.app_mode.len() != 0);
    assert(r.server_bind_addr.len() != 0);
}

/// A freshly created identity needs no repair on the machine that made it.
pub proof fn lemma_new_identity_is_settled(
    hardware_uuid: Seq<char>,
    hostname: Seq<char>,
    default_relay: Seq<char>,
)
    requires
        hardware_uuid.len() != 0,
        !stale_relay(default_relay),
    ensures
        !spec_reconcile_dirty(spec_new_identity(hardware_uuid, hostname, default_relay), hardware_uuid),
        spec_reconcile(spec_new_identity(hardware_uuid, hostname, default_relay), hardware_uuid, hostname, default_relay)
            == spec_new_identity(hardware_uuid, hostname, default_relay),
{
    lemma_system_id_shape(sha256_digest(vstd::utf8::encode_utf8(hardware_uuid + "-"@ + hostname)));
    reveal_strlit("client");
    reveal_strlit("0.0.0.0:9001");
}

} // verus!
