//! Routing decisions of the relay server: what a new connection is, how
//! sessions are identified, and how host packets are framed for viewers.
use vstd::prelude::*;
use vstd::utf8::{decode_utf8, valid_utf8};
use crate::text::{trim_by, trim_chars, utf8_chars, string_of, Strip};
use crate::wire::{
    be_bytes, be_value, be_read, copy_range, lemma_be_roundtrip, lemma_be_value_bound,
    lemma_pow256_values, push_all,
};
use crate::protocol::{
    AUDIO, CLIPBOARD, legacy_video_frame_bytes, lemma_legacy_video_frame_roundtrip, lemma_video_frame_roundtrip,
    spec_video_header, video_frame_bytes, VideoHeader, MAX_VIDEO_PAYLOAD, VIDEO_FRAME,
    VIDEO_FRAME_LEGACY,
};

verus! {

/// What a freshly accepted connection is, judged from its first bytes.
#[derive(Clone, Copy, Debug, PartialEq, Eq, Structural)]
pub enum ConnectionKind {
    /// `GET /health`: answered with `200 OK` and closed.
    HealthCheck,
    /// Type byte 1: a host agent registering.
    Host,
    /// Type byte 2: a native viewer.
    TcpViewer,
    /// An HTTP upgrade: a browser viewer over WebSocket.
    WebSocketViewer,
    /// Anything else: closed.
    Unknown,
}

/// The bytes of `GET /health`.
pub open spec fn health_probe() -> Seq<u8> {
    seq![71u8, 69u8, 84u8, 32u8, 47u8, 104u8, 101u8, 97u8, 108u8, 116u8, 104u8]
}

pub open spec fn spec_classify_connection(peek: Seq<u8>) -> ConnectionKind {
    if peek.subrange(0, 11) == health_probe() {
        ConnectionKind::HealthCheck
    } else if peek[0] == 1 {
        ConnectionKind::Host
    } else if peek[0] == 2 {
        ConnectionKind::TcpViewer
    } else if peek[0] == 71 {
        ConnectionKind::WebSocketViewer
    } else {
        ConnectionKind::Unknown
    }
}

/// Classifies a connection from the 14 bytes the relay server peeks at.
pub fn classify_connection(peek: &[u8]) -> (k: ConnectionKind)
    requires
        peek@.len() == 14,
    ensures
        k == spec_classify_connection(peek@),
{
    let probe: [u8; 11] = [71, 69, 84, 32, 47, 104, 101, 97, 108, 116, 104];
    let mut is_probe = true;
    let mut i: usize = 0;
    assert(peek@.subrange(0, 0) =~= health_probe().subrange(0, 0));
    assert(probe@ =~= health_probe());
    while i < 11
        invariant
            i <= 11,
            peek@.len() == 14,
            probe@ == health_probe(),
            is_probe == (peek@.subrange(0, i as int) == health_probe().subrange(0, i as int)),
        decreases 11 - i,
    {
        proof {
            if is_probe {
                if peek@[i as int] != probe@[i as int] {
                    assert(peek@.subrange(0, i + 1)[i as int] != health_probe().subrange(0, i + 1)[i as int]);
                } else {
                    assert(peek@.subrange(0, i + 1) =~= health_probe().subrange(0, i + 1));
                }
            } else {
                if peek@.subrange(0, i + 1) == health_probe().subrange(0, i + 1) {
                    assert(peek@.subrange(0, i as int) =~= health_probe().subrange(0, i as int));
                }
            }
        }
        is_probe = is_probe && peek[i] == probe[i];
        i += 1;
    }
    assert(health_probe().subrange(0, 11) == health_probe());
    if is_probe {
        ConnectionKind::HealthCheck
    } else if peek[0] == 1 {
        ConnectionKind::Host
    } else if peek[0] == 2 {
        ConnectionKind::TcpViewer
    } else if peek[0] == 71 {
        ConnectionKind::WebSocketViewer
    } else {
        ConnectionKind::Unknown
    }
}

/// The embedded relay's rule: bytes starting `GET` or `HTTP` are a WebSocket
/// upgrade; otherwise the first byte is the connection type.
pub open spec fn spec_classify_embedded(peek: Seq<u8>) -> ConnectionKind {
    if (peek.len() >= 3 && peek.subrange(0, 3) == seq![71u8, 69u8, 84u8]) || (peek.len() >= 4
        && peek.subrange(0, 4) == seq![72u8, 84u8, 84u8, 80u8]) {
        ConnectionKind::WebSocketViewer
    } else if peek[0] == 1 {
        ConnectionKind::Host
    } else if peek[0] == 2 {
        ConnectionKind::TcpViewer
    } else {
        ConnectionKind::Unknown
    }
}

/// Classifies a connection accepted by the relay embedded in the desktop agent.
pub fn classify_embedded_connection(peek: &[u8]) -> (k: ConnectionKind)
    requires
        peek@.len() >= 1,
    ensures
        k == spec_classify_embedded(peek@),
{
    let is_get = peek.len() >= 3 && peek[0] == 71 && peek[1] == 69 && peek[2] == 84;
    let is_http = peek.len() >= 4 && peek[0] == 72 && peek[1] == 84 && peek[2] == 84 && peek[3]
        == 80;
    proof {
        if peek@.len() >= 3 {
            assert(is_get == (peek@.subrange(0, 3) =~= seq![71u8, 69u8, 84u8]));
        }
        if peek@.len() >= 4 {
            assert(is_http == (peek@.subrange(0, 4) =~= seq![72u8, 84u8, 84u8, 80u8]));
        }
    }
    if is_get || is_http {
        ConnectionKind::WebSocketViewer
    } else if peek[0] == 1 {
        ConnectionKind::Host
    } else if peek[0] == 2 {
        ConnectionKind::TcpViewer
    } else {
        ConnectionKind::Unknown
    }
}

/// Bytes that may form a host identifier: ASCII letters, digits and `-`.
pub open spec fn is_id_byte(b: u8) -> bool {
    (48 <= b && b <= 57) || (65 <= b && b <= 90) || (97 <= b && b <= 122) || b == 45
}

/// The number of leading identifier bytes of `s`.
pub open spec fn id_run(s: Seq<u8>) -> nat
    decreases s.len(),
{
    if s.len() > 0 && is_id_byte(s[0]) {
        1 + id_run(s.drop_first())
    } else {
        0
    }
}

/// How many bytes the embedded relay takes as the host's identifier from the
/// bytes it peeked after the type byte: the run of identifier bytes, or, when
/// there is none, 9 if at least 9 bytes were seen and 6 otherwise.
pub open spec fn spec_host_id_len(peeked: Seq<u8>) -> nat {
    if id_run(peeked) > 0 {
        id_run(peeked)
    } else if peeked.len() >= 9 {
        9
    } else {
        6
    }
}

pub fn host_id_len(peeked: &[u8]) -> (n: usize)
    ensures
        n == spec_host_id_len(peeked@),
{
    let mut k: usize = 0;
    assert(peeked@.subrange(0, peeked@.len() as int) == peeked@);
    while k < peeked.len() && (is_id_byte_exec(peeked[k]))
        invariant
            k <= peeked.len(),
            id_run(peeked@) == k + id_run(peeked@.subrange(k as int, peeked@.len() as int)),
        decreases peeked.len() - k,
    {
        assert(peeked@.subrange(k as int, peeked@.len() as int).drop_first() == peeked@.subrange(
            k + 1,
            peeked@.len() as int,
        ));
        k += 1;
    }
    if k == 0 {
        if peeked.len() >= 9 {
            9
        } else {
            6
        }
    } else {
        k
    }
}

fn is_id_byte_exec(b: u8) -> (r: bool)
    ensures
        r == is_id_byte(b),
{
    (48 <= b && b <= 57) || (65 <= b && b <= 90) || (97 <= b && b <= 122) || b == 45
}

/// A native viewer's request is `[id][32-byte hash]`; from the `n >= 32` bytes
/// peeked the identifier is all but the last 32, or 9 bytes when only the hash
/// is visible.
pub fn tcp_viewer_id_len(n: usize) -> (len: usize)
    requires
        n >= 32,
    ensures
        len == (if n > 32 { n - 32 } else { 9 }),
{
    if n > 32 {
        n - 32
    } else {
        9
    }
}

/// A session identifier as the relay reads it from raw bytes: UTF-8 with
/// surrounding white space removed.
pub open spec fn spec_session_id(bytes: Seq<u8>) -> Option<Seq<char>> {
    if valid_utf8(bytes) {
        Some(trim_by(decode_utf8(bytes), Strip::WhiteSpace))
    } else {
        None
    }
}

pub fn decode_session_id(bytes: &[u8]) -> (r: Option<String>)
    ensures
        r is Some <==> spec_session_id(bytes@) is Some,
        r matches Some(s) ==> Some(s@) == spec_session_id(bytes@),
{
    match utf8_chars(bytes) {
        Some(v) => {
            let t = trim_chars(v.as_slice(), Strip::WhiteSpace);
            Some(string_of(t.as_slice()))
        },
        None => None,
    }
}

/// A browser viewer's identifier: UTF-8, NUL padding and white space removed.
pub open spec fn spec_ws_session_id(bytes: Seq<u8>) -> Option<Seq<char>> {
    if valid_utf8(bytes) {
        Some(trim_by(trim_by(decode_utf8(bytes), Strip::Nul), Strip::WhiteSpace))
    } else {
        None
    }
}

/// What a viewer asked for: the host's identifier and the PIN hash.
pub struct ViewerRequest {
    pub session_id: String,
    pub auth_hash: Vec<u8>,
}

/// Why a browser viewer's first message was refused.
#[derive(Clone, Copy, Debug, PartialEq, Eq, Structural)]
pub enum ViewerRejection {
    /// Too short or not a connect request (type 2): answered with `[3]`.
    Malformed,
    /// The identifier is not UTF-8: the socket is closed with a policy error.
    InvalidId,
}

/// Where the identifier of a `[2][id][hash]` message ends: the last 32
/// bytes are the hash when there are at least 32 after the type byte.
pub open spec fn ws_id_end(msg: Seq<u8>) -> int {
    if msg.len() - 1 >= 32 {
        msg.len() - 32
    } else {
        msg.len() as int
    }
}

/// The hash of a `[2][id][hash]` message: the last 32 bytes, or 32 zero bytes
/// when the message is too short to hold one.
pub open spec fn ws_hash(msg: Seq<u8>) -> Seq<u8> {
    if msg.len() - 1 >= 32 {
        msg.subrange(msg.len() - 32, msg.len() as int)
    } else {
        Seq::new(32, |i: int| 0u8)
    }
}

/// Reads the first binary message of a browser viewer.
pub fn parse_ws_viewer_request(msg: &[u8]) -> (r: Result<ViewerRequest, ViewerRejection>)
    ensures
        (msg@.len() < 2 || msg@[0] != 2) ==> r == Err::<ViewerRequest, ViewerRejection>(
            ViewerRejection::Malformed,
        ),
        (msg@.len() >= 2 && msg@[0] == 2) ==> match spec_ws_session_id(
            msg@.subrange(1, ws_id_end(msg@)),
        ) {
            None => r == Err::<ViewerRequest, ViewerRejection>(ViewerRejection::InvalidId),
            Some(id) => r matches Ok(req) && req.session_id@ == id && req.auth_hash@ == ws_hash(
                msg@,
            ),
        },
{
    if msg.len() < 2 || msg[0] != 2 {
        return Err(ViewerRejection::Malformed);
    }
    let id_end = if msg.len() - 1 >= 32 {
        msg.len() - 32
    } else {
        msg.len()
    };
    let id_bytes = copy_range(msg, 1, id_end);
    let chars = match utf8_chars(id_bytes.as_slice()) {
        Some(v) => v,
        None => {
            return Err(ViewerRejection::InvalidId);
        },
    };
    let no_nul = trim_chars(chars.as_slice(), Strip::Nul);
    let id = trim_chars(no_nul.as_slice(), Strip::WhiteSpace);
    let mut hash: Vec<u8> = Vec::new();
    if msg.len() - 1 >= 32 {
        let h = copy_range(msg, msg.len() - 32, msg.len());
        push_all(&mut hash, h.as_slice());
    } else {
        let mut i: usize = 0;
        while i < 32
            invariant
                i <= 32,
                hash@ == Seq::new(i as nat, |j: int| 0u8),
            decreases 32 - i,
        {
            hash.push(0);
            assert(hash@ =~= Seq::new((i + 1) as nat, |j: int| 0u8));
            i += 1;
        }
    }
    Ok(ViewerRequest { session_id: string_of(id.as_slice()), auth_hash: hash })
}

/// What a host's reply to an authentication request means to the relay.
#[derive(Clone, Copy, Debug, PartialEq, Eq, Structural)]
pub enum AuthReply {
    /// `0x01`: the host accepts the viewer.
    Approved,
    /// `0x00`: the host refuses.
    Rejected,
    /// `0x0E`: a heartbeat crossed the request; its 8 bytes are echoed and
    /// the relay keeps waiting.
    Heartbeat,
    /// Any other byte: the request fails.
    Unexpected,
}

pub fn classify_auth_reply(b: u8) -> (r: AuthReply)
    ensures
        r == (if b == 1 {
            AuthReply::Approved
        } else if b == 0 {
            AuthReply::Rejected
        } else if b == 14 {
            AuthReply::Heartbeat
        } else {
            AuthReply::Unexpected
        }),
{
    if b == 1 {
        AuthReply::Approved
    } else if b == 0 {
        AuthReply::Rejected
    } else if b == 14 {
        AuthReply::Heartbeat
    } else {
        AuthReply::Unexpected
    }
}

/// How a native viewer reads the relay's one-byte answer to its request.
#[derive(Clone, Copy, Debug, PartialEq, Eq, Structural)]
pub enum ViewerAck {
    Approved,
    Rejected,
    HostNotFound,
}

pub fn classify_viewer_ack(b: u8) -> (r: ViewerAck)
    ensures
        r == (if b == 1 {
            ViewerAck::Approved
        } else if b == 2 {
            ViewerAck::Rejected
        } else {
            ViewerAck::HostNotFound
        }),
{
    if b == 1 {
        ViewerAck::Approved
    } else if b == 2 {
        ViewerAck::Rejected
    } else {
        ViewerAck::HostNotFound
    }
}


/// How the relay forwards a packet a host sends during a browser session.
#[derive(Clone, Copy, Debug, PartialEq, Eq, Structural)]
pub enum HostFrameRule {
    /// A header of this many bytes follows the type byte.
    Header(usize),
    /// Type 99: the host ends the session.
    EndSession,
    /// Unknown type: the byte is dropped and reading goes on.
    Ignore,
}

pub open spec fn spec_host_frame_rule(t: u8) -> HostFrameRule {
    if t == 13 {
        HostFrameRule::Header(20)
    } else if t == 15 {
        HostFrameRule::Header(12)
    } else if t == 17 {
        HostFrameRule::Header(10)
    } else if t == 14 {
        HostFrameRule::Header(8)
    } else if t == 12 {
        HostFrameRule::Header(4)
    } else if t == 16 {
        HostFrameRule::Header(2)
    } else if t == 20 {
        HostFrameRule::Header(18)
    } else if t == 21 {
        HostFrameRule::Header(16)
    } else if t == 22 {
        HostFrameRule::Header(48)
    } else if t == 23 {
        HostFrameRule::Header(8)
    } else if t == 24 {
        HostFrameRule::Header(12)
    } else if t == 99 {
        HostFrameRule::EndSession
    } else {
        HostFrameRule::Ignore
    }
}

/// The header length that follows each host packet type.
pub fn host_frame_rule(t: u8) -> (r: HostFrameRule)
    ensures
        r == spec_host_frame_rule(t),
{
    if t == 13 {
        HostFrameRule::Header(20)
    } else if t == 15 {
        HostFrameRule::Header(12)
    } else if t == 17 {
        HostFrameRule::Header(10)
    } else if t == 14 {
        HostFrameRule::Header(8)
    } else if t == 12 {
        HostFrameRule::Header(4)
    } else if t == 16 {
        HostFrameRule::Header(2)
    } else if t == 20 {
        HostFrameRule::Header(18)
    } else if t == 21 {
        HostFrameRule::Header(16)
    } else if t == 22 {
        HostFrameRule::Header(48)
    } else if t == 23 {
        HostFrameRule::Header(8)
    } else if t == 24 {
        HostFrameRule::Header(12)
    } else if t == 99 {
        HostFrameRule::EndSession
    } else {
        HostFrameRule::Ignore
    }
}

/// Largest payload the relay forwards for audio and file chunks (10 MiB).
pub const MAX_FORWARD_SMALL: u64 = 10485760;
/// Largest name or message the relay forwards in file and notice packets.
pub const MAX_FORWARD_NAME: u64 = 4096;
/// Largest frame width the relay forwards.
pub const MAX_FRAME_WIDTH: u64 = 7680;
/// Largest frame height the relay forwards.
pub const MAX_FRAME_HEIGHT: u64 = 4320;

/// The big-endian field `h[from..to]`.
pub open spec fn field(h: Seq<u8>, from: int, to: int) -> nat {
    be_value(h.subrange(from, to))
}

/// The payload length announced by a host packet's header, or `None` when the
/// header is out of bounds and the relay ends the session.
pub open spec fn spec_host_payload_len(t: u8, h: Seq<u8>) -> Option<nat> {
    if t == 13 || t == 15 {
        let w = field(h, 0, 4);
        let ht = field(h, 4, 8);
        let p = field(h, 8, 12);
        if w == 0 || w > MAX_FRAME_WIDTH || ht == 0 || ht > MAX_FRAME_HEIGHT || p
            > MAX_VIDEO_PAYLOAD {
            None
        } else {
            Some(p)
        }
    } else if t == 17 {
        if field(h, 0, 4) > MAX_FORWARD_SMALL { None } else { Some(field(h, 0, 4)) }
    } else if t == 12 {
        if field(h, 0, 4) > MAX_VIDEO_PAYLOAD as nat { None } else { Some(field(h, 0, 4)) }
    } else if t == 16 {
        Some(field(h, 0, 2))
    } else if t == 20 {
        if field(h, 16, 18) > MAX_FORWARD_NAME { None } else { Some(field(h, 16, 18)) }
    } else if t == 21 {
        if field(h, 12, 16) > MAX_FORWARD_SMALL { None } else { Some(field(h, 12, 16)) }
    } else if t == 24 {
        if field(h, 10, 12) > MAX_FORWARD_NAME { None } else { Some(field(h, 10, 12)) }
    } else {
        Some(0)
    }
}

/// A video frame that an agent builds within the relay's bounds reaches the
/// viewer byte for byte: the relay reads its 20-byte header, finds the
/// frame's payload length there, and puts the same packet back together.
pub proof fn lemma_video_frame_forwarded(width: u32, height: u32, timestamp: u64, data: Seq<u8>)
    requires
        0 < width <= MAX_FRAME_WIDTH,
        0 < height <= MAX_FRAME_HEIGHT,
        data.len() <= MAX_VIDEO_PAYLOAD,
    ensures
        ({
            let p = video_frame_bytes(width, height, timestamp, data);
            &&& spec_host_frame_rule(p[0]) == HostFrameRule::Header(20)
            &&& spec_host_payload_len(p[0], p.subrange(1, 21)) == Some(data.len())
            &&& seq![p[0]] + p.subrange(1, 21) + p.subrange(21, 21 + data.len() as int) == p
        }),
{
    lemma_video_frame_roundtrip(width, height, timestamp, data);
    let p = video_frame_bytes(width, height, timestamp, data);
    let h = p.subrange(1, 21);
    assert(spec_video_header(VIDEO_FRAME, h) == (VideoHeader {
        width,
        height,
        payload_len: data.len() as u32,
        timestamp: Some(timestamp),
    }));
    lemma_be_value_bound(h.subrange(0, 4));
    lemma_be_value_bound(h.subrange(4, 8));
    lemma_be_value_bound(h.subrange(8, 12));
    lemma_pow256_values();
    assert(p[0] == VIDEO_FRAME);
    assert(seq![p[0]] + h + p.subrange(21, 21 + data.len() as int) =~= p);
}

/// The same for a legacy type 15 frame, whose header is 12 bytes.
pub proof fn lemma_legacy_video_frame_forwarded(width: u32, height: u32, data: Seq<u8>)
    requires
        0 < width <= MAX_FRAME_WIDTH,
        0 < height <= MAX_FRAME_HEIGHT,
        data.len() <= MAX_VIDEO_PAYLOAD,
    ensures
        ({
            let p = legacy_video_frame_bytes(width, height, data);
            &&& spec_host_frame_rule(p[0]) == HostFrameRule::Header(12)
            &&& spec_host_payload_len(p[0], p.subrange(1, 13)) == Some(data.len())
            &&& seq![p[0]] + p.subrange(1, 13) + p.subrange(13, 13 + data.len() as int) == p
        }),
{
    lemma_legacy_video_frame_roundtrip(width, height, data);
    let p = legacy_video_frame_bytes(width, height, data);
    let h = p.subrange(1, 13);
    assert(spec_video_header(VIDEO_FRAME_LEGACY, h) == (VideoHeader {
        width,
        height,
        payload_len: data.len() as u32,
        timestamp: None,
    }));
    lemma_be_value_bound(h.subrange(0, 4));
    lemma_be_value_bound(h.subrange(4, 8));
    lemma_be_value_bound(h.subrange(8, 12));
    lemma_pow256_values();
    assert(p[0] == VIDEO_FRAME_LEGACY);
    assert(seq![p[0]] + h + p.subrange(13, 13 + data.len() as int) =~= p);
}

/// Audio an agent sends within the relay's limit reaches the viewer byte for
/// byte: a 10-byte header whose first field is the samples' length.
pub proof fn lemma_audio_forwarded(sample_rate: u32, channels: u16, samples: Seq<u8>)
    requires
        samples.len() <= MAX_FORWARD_SMALL,
    ensures
        ({
            let p = seq![AUDIO] + be_bytes(samples.len(), 4) + be_bytes(sample_rate as nat, 4)
                + be_bytes(channels as nat, 2) + samples;
            &&& spec_host_frame_rule(p[0]) == HostFrameRule::Header(10)
            &&& spec_host_payload_len(p[0], p.subrange(1, 11)) == Some(samples.len())
            &&& seq![p[0]] + p.subrange(1, 11) + p.subrange(11, 11 + samples.len() as int) == p
        }),
{
    lemma_pow256_values();
    lemma_be_roundtrip(samples.len(), 4);
    lemma_be_roundtrip(sample_rate as nat, 4);
    lemma_be_roundtrip(channels as nat, 2);
    let p = seq![AUDIO] + be_bytes(samples.len(), 4) + be_bytes(sample_rate as nat, 4) + be_bytes(
        channels as nat,
        2,
    ) + samples;
    let h = p.subrange(1, 11);
    assert(h.subrange(0, 4) =~= be_bytes(samples.len(), 4));
    assert(seq![p[0]] + h + p.subrange(11, 11 + samples.len() as int) =~= p);
}

/// Clipboard text an agent sends within the relay's limit reaches the viewer
/// byte for byte.
pub proof fn lemma_clipboard_forwarded(text: Seq<u8>)
    requires
        text.len() <= MAX_VIDEO_PAYLOAD,
    ensures
        ({
            let p = seq![CLIPBOARD] + be_bytes(text.len(), 4) + text;
            &&& spec_host_frame_rule(p[0]) == HostFrameRule::Header(4)
            &&& spec_host_payload_len(p[0], p.subrange(1, 5)) == Some(text.len())
            &&& seq![p[0]] + p.subrange(1, 5) + p.subrange(5, 5 + text.len() as int) == p
        }),
{
    lemma_pow256_values();
    lemma_be_roundtrip(text.len(), 4);
    let p = seq![CLIPBOARD] + be_bytes(text.len(), 4) + text;
    let h = p.subrange(1, 5);
    assert(h.subrange(0, 4) =~= be_bytes(text.len(), 4));
    assert(seq![p[0]] + h + p.subrange(5, 5 + text.len() as int) =~= p);
}

fn read_field(h: &[u8], from: usize, to: usize) -> (v: u64)
    requires
        from <= to <= h@.len(),
        to - from <= 8,
    ensures
        v as nat == field(h@, from as int, to as int),
{
    let f = copy_range(h, from, to);
    assert(f@.take((to - from) as int) == f@);
    be_read(f.as_slice(), to - from)
}

/// The payload length that follows a host packet's header.
pub fn host_payload_len(t: u8, header: &[u8]) -> (r: Option<u64>)
    requires
        spec_host_frame_rule(t) matches HostFrameRule::Header(n) && header@.len() == n,
    ensures
        r matches Some(n) ==> spec_host_payload_len(t, header@) == Some(n as nat),
        r is None ==> spec_host_payload_len(t, header@) is None,
{
    if t == 13 || t == 15 {
        let w = read_field(header, 0, 4);
        let ht = read_field(header, 4, 8);
        let p = read_field(header, 8, 12);
        if w == 0 || w > MAX_FRAME_WIDTH || ht == 0 || ht > MAX_FRAME_HEIGHT || p
            > MAX_VIDEO_PAYLOAD as u64 {
            None
        } else {
            Some(p)
        }
    } else if t == 17 {
        let p = read_field(header, 0, 4);
        if p > MAX_FORWARD_SMALL { None } else { Some(p) }
    } else if t == 12 {
        let p = read_field(header, 0, 4);
        if p > MAX_VIDEO_PAYLOAD as u64 { None } else { Some(p) }
    } else if t == 16 {
        Some(read_field(header, 0, 2))
    } else if t == 20 {
        let p = read_field(header, 16, 18);
        if p > MAX_FORWARD_NAME { None } else { Some(p) }
    } else if t == 21 {
        let p = read_field(header, 12, 16);
        if p > MAX_FORWARD_SMALL { None } else { Some(p) }
    } else if t == 24 {
        let p = read_field(header, 10, 12);
        if p > MAX_FORWARD_NAME { None } else { Some(p) }
    } else {
        Some(0)
    }
}

/// Video frames travel in a bounded queue that may drop under load; all
/// other host packets travel in the control queue.
pub fn is_video_lane(t: u8) -> (v: bool)
    ensures
        v == (t == VIDEO_FRAME || t == VIDEO_FRAME_LEGACY),
{
    t == VIDEO_FRAME || t == VIDEO_FRAME_LEGACY
}

/// The message forwarded to a browser viewer: the packet exactly as the host
/// sent it, `[type][header][payload]`.
pub fn assemble_host_frame(t: u8, header: &[u8], payload: &[u8]) -> (m: Vec<u8>)
    ensures
        m@ == seq![t] + header@ + payload@,
{
    let mut m: Vec<u8> = Vec::new();
    m.push(t);
    push_all(&mut m, header);
    push_all(&mut m, payload);
    m
}

/// What the relay tells a browser viewer when a bridged session closes.
#[derive(Clone, Copy, Debug, PartialEq, Eq, Structural)]
pub enum SessionClose {
    /// The host side failed or ended the session: close code 1011, "Host disconnected".
    HostDisconnected,
    /// The viewer ended it: close code 1000, "Viewer disconnected"; the host's
    /// connection stays registered.
    ViewerDisconnected,
}

/// Who ended a bridged session: the host when the session was still active
/// as the host side stopped, the viewer otherwise.
pub fn session_close(active_when_host_stopped: bool) -> (c: SessionClose)
    ensures
        c == (if active_when_host_stopped {
            SessionClose::HostDisconnected
        } else {
            SessionClose::ViewerDisconnected
        }),
{
    if active_when_host_stopped {
        SessionClose::HostDisconnected
    } else {
        SessionClose::ViewerDisconnected
    }
}

impl SessionClose {
    /// The WebSocket close code.
    pub fn code(&self) -> (c: u16)
        ensures
            c == (match *self {
                SessionClose::HostDisconnected => 1011u16,
                SessionClose::ViewerDisconnected => 1000u16,
            }),
    {
        match self {
            SessionClose::HostDisconnected => 1011,
            SessionClose::ViewerDisconnected => 1000,
        }
    }

    /// The close reason.
    pub fn reason(&self) -> (r: &'static str)
        ensures
            r@ == (match *self {
                SessionClose::HostDisconnected => "Host disconnected"@,
                SessionClose::ViewerDisconnected => "Viewer disconnected"@,
            }),
    {
        match self {
            SessionClose::HostDisconnected => "Host disconnected",
            SessionClose::ViewerDisconnected => "Viewer disconnected",
        }
    }
}

/// The messages a browser viewer gets first once its host approves: the
/// approval (1), then "stream active" (2).
pub fn session_opening() -> (m: Vec<Vec<u8>>)
    ensures
        m@.len() == 2,
        m@[0]@ == seq![1u8],
        m@[1]@ == seq![2u8],
{
    let mut m: Vec<Vec<u8>> = Vec::new();
    m.push(vec![1u8]);
    m.push(vec![2u8]);
    m
}

/// One idle round of the browser writer (20 ms without anything to send):
/// the idle time grows, and at 100 ms a ping is sent and the count restarts.
/// Returns whether to ping and the new idle time.
pub fn writer_idle_tick(idle_ms: u32) -> (r: (bool, u32))
    requires
        idle_ms < 100,
    ensures
        r.0 == (idle_ms + 20 >= 100),
        r.1 == (if idle_ms + 20 >= 100 {
            0
        } else {
            idle_ms + 20
        }),
{
    let idle = idle_ms + 20;
    if idle >= 100 {
        (true, 0)
    } else {
        (false, idle)
    }
}

/// What a connection to the agent's built-in relay asks for, from its
/// 7-byte handshake `[action][6-byte session ID]`.
#[derive(Clone, Debug, PartialEq, Eq)]
pub enum PairRequest {
    /// Action 1: an agent waits for a viewer under this ID.
    AgentWaits(String),
    /// Action 2: a viewer asks for the agent under this ID.
    ViewerAsks(String),
    /// Any other action, which the relay ignores.
    Other,
}

/// The request of a handshake, or `None` when the ID is not UTF-8 (the
/// connection is dropped).
pub fn pair_request(handshake: &[u8]) -> (r: Option<PairRequest>)
    requires
        handshake@.len() == 7,
    ensures
        ({
            let id = handshake@.subrange(1, 7);
            match r {
                None => !valid_utf8(id),
                Some(PairRequest::AgentWaits(s)) => valid_utf8(id) && handshake@[0] == 1 && s@
                    == decode_utf8(id),
                Some(PairRequest::ViewerAsks(s)) => valid_utf8(id) && handshake@[0] == 2 && s@
                    == decode_utf8(id),
                Some(PairRequest::Other) => valid_utf8(id) && handshake@[0] != 1 && handshake@[0]
                    != 2,
            }
        }),
{
    let id_bytes = copy_range(handshake, 1, 7);
    let id = match utf8_chars(id_bytes.as_slice()) {
        Some(v) => string_of(v.as_slice()),
        None => {
            return None;
        },
    };
    if handshake[0] == 1 {
        Some(PairRequest::AgentWaits(id))
    } else if handshake[0] == 2 {
        Some(PairRequest::ViewerAsks(id))
    } else {
        Some(PairRequest::Other)
    }
}

/// The byte the built-in relay sends a waiting agent when a viewer asks.
pub const PAIR_REQUEST: u8 = 3;
/// The byte a viewer gets when no agent waits under its ID.
pub const PAIR_OFFLINE: u8 = 0;

/// What the built-in relay tells the viewer after the agent's answer: 1
/// when the agent answered 1, else 2 (also when no answer could be read).
pub fn pair_verdict(agent_answer: Option<u8>) -> (v: u8)
    ensures
        v == (if agent_answer == Some(1u8) {
            1u8
        } else {
            2u8
        }),
{
    match agent_answer {
        Some(1) => 1,
        _ => 2,
    }
}

} // verus!
