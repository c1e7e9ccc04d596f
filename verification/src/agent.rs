//! Decisions of the host agent's relay loop: reconnection pacing, what each
//! relay and viewer message asks for, file reception, and video pacing.
use vstd::prelude::*;
use crate::text::{chars_of, filter_ascii_digits, matches_at, only_ascii_digits, string_of};
use crate::protocol::{CHAT, CLIPBOARD, FILE_CHUNK, FILE_META};
use crate::wire::{
    be_bytes, be_read, be_value, copy_range, lemma_be_roundtrip, lemma_be_value_bound,
    lemma_pow256_values,
};

verus! {

/// The wait before the next reconnection attempt: 1, 2, 5, then 10 seconds.
pub open spec fn spec_next_backoff(secs: u64) -> u64 {
    if secs == 1 {
        2
    } else if secs == 2 {
        5
    } else {
        10
    }
}

pub fn next_backoff(secs: u64) -> (n: u64)
    ensures
        n == spec_next_backoff(secs),
{
    match secs {
        1 => 2,
        2 => 5,
        5 => 10,
        _ => 10,
    }
}

/// However long the agent has waited, three more failed attempts bring the
/// wait to its ceiling of 10 seconds, where it stays.
pub proof fn lemma_backoff_settles(secs: u64)
    ensures
        spec_next_backoff(spec_next_backoff(spec_next_backoff(secs))) == 10,
        spec_next_backoff(10) == 10,
        spec_next_backoff(secs) <= 10,
{
}

/// The agent's System ID as it announces it: nine digits grouped in threes,
/// otherwise the bare digits.
pub open spec fn spec_agent_display_id(system_id: Seq<char>) -> Seq<char> {
    let d = only_ascii_digits(system_id);
    if d.len() == 9 {
        d.subrange(0, 3) + seq![' '] + d.subrange(3, 6) + seq![' '] + d.subrange(6, 9)
    } else {
        d
    }
}

pub fn agent_display_id(system_id: &str) -> (s: String)
    ensures
        s@ == spec_agent_display_id(system_id@),
{
    let d = filter_ascii_digits(chars_of(system_id).as_slice());
    if d.len() == 9 {
        let mut out: Vec<char> = Vec::new();
        out.push(d[0]);
        out.push(d[1]);
        out.push(d[2]);
        out.push(' ');
        out.push(d[3]);
        out.push(d[4]);
        out.push(d[5]);
        out.push(' ');
        out.push(d[6]);
        out.push(d[7]);
        out.push(d[8]);
        assert(out@ =~= d@.subrange(0, 3) + seq![' '] + d@.subrange(3, 6) + seq![' '] + d@.subrange(6, 9));
        string_of(out.as_slice())
    } else {
        string_of(d.as_slice())
    }
}

/// The System ID the agent announces: the one the backend assigned at
/// registration, or else its configured one.
pub fn agent_system_id(assigned: Option<String>, configured: &str) -> (s: String)
    ensures
        s@ == match assigned {
            Some(a) => a@,
            None => configured@,
        },
{
    match assigned {
        Some(a) => a,
        None => string_of(chars_of(configured).as_slice()),
    }
}

/// Whether the relay acknowledged the agent's registration: it answers 1.
pub fn registration_acknowledged(ack: u8) -> (b: bool)
    ensures
        b == (ack == 1),
{
    ack == 1
}

/// What a message from the relay asks of an idle agent.
#[derive(Clone, Copy, Debug, PartialEq, Eq, Structural)]
pub enum RelayMessage {
    /// Type 14: the relay answers a heartbeat; an 8-byte timestamp follows.
    HeartbeatAck,
    /// Type 3: a viewer asks for a session; a 32-byte PIN hash follows and the
    /// agent answers with its approval byte.
    SessionRequest,
    /// Type 99: the last session is over.
    SessionEnded,
    /// Anything else, which the agent ignores.
    Ignored,
}

pub open spec fn spec_relay_message(t: u8) -> RelayMessage {
    if t == 14 {
        RelayMessage::HeartbeatAck
    } else if t == 3 {
        RelayMessage::SessionRequest
    } else if t == 99 {
        RelayMessage::SessionEnded
    } else {
        RelayMessage::Ignored
    }
}

pub fn classify_relay_message(t: u8) -> (m: RelayMessage)
    ensures
        m == spec_relay_message(t),
{
    if t == 14 {
        RelayMessage::HeartbeatAck
    } else if t == 3 {
        RelayMessage::SessionRequest
    } else if t == 99 {
        RelayMessage::SessionEnded
    } else {
        RelayMessage::Ignored
    }
}

/// The byte an agent answers a session request with: approved.
pub const SESSION_APPROVED: u8 = 1;

/// What a packet from the viewer carries during a session.
#[derive(Clone, Copy, Debug, PartialEq, Eq, Structural)]
pub enum SessionPacket {
    /// Types 0 to 10: an input event in the next 8 bytes.
    Input,
    /// Type 12: a 4-byte length, then clipboard text.
    Clipboard,
    /// Type 14: an 8-byte timestamp to measure the round trip.
    Heartbeat,
    /// Type 16: 3 bytes (sender, 2-byte length), then chat text.
    Chat,
    /// Type 20: 10 bytes (2-byte name length, 8-byte size), then the name.
    FileMeta,
    /// Type 21: a 4-byte length, then file data.
    FileChunk,
    /// Type 99: the viewer left.
    Disconnect,
    /// Anything else, which the agent skips.
    Ignored,
}

pub open spec fn spec_session_packet(t: u8) -> SessionPacket {
    if t <= 10 {
        SessionPacket::Input
    } else if t == 12 {
        SessionPacket::Clipboard
    } else if t == 14 {
        SessionPacket::Heartbeat
    } else if t == 16 {
        SessionPacket::Chat
    } else if t == 20 {
        SessionPacket::FileMeta
    } else if t == 21 {
        SessionPacket::FileChunk
    } else if t == 99 {
        SessionPacket::Disconnect
    } else {
        SessionPacket::Ignored
    }
}

pub fn classify_session_packet(t: u8) -> (p: SessionPacket)
    ensures
        p == spec_session_packet(t),
{
    if t <= 10 {
        SessionPacket::Input
    } else if t == 12 {
        SessionPacket::Clipboard
    } else if t == 14 {
        SessionPacket::Heartbeat
    } else if t == 16 {
        SessionPacket::Chat
    } else if t == 20 {
        SessionPacket::FileMeta
    } else if t == 21 {
        SessionPacket::FileChunk
    } else if t == 99 {
        SessionPacket::Disconnect
    } else {
        SessionPacket::Ignored
    }
}

/// How many fixed bytes follow the type byte of a session packet.
pub open spec fn spec_fixed_len(p: SessionPacket) -> nat {
    match p {
        SessionPacket::Input => 8,
        SessionPacket::Clipboard => 4,
        SessionPacket::Heartbeat => 8,
        SessionPacket::Chat => 3,
        SessionPacket::FileMeta => 10,
        SessionPacket::FileChunk => 4,
        _ => 0,
    }
}

pub fn fixed_len(p: SessionPacket) -> (n: usize)
    ensures
        n == spec_fixed_len(p),
{
    match p {
        SessionPacket::Input => 8,
        SessionPacket::Clipboard => 4,
        SessionPacket::Heartbeat => 8,
        SessionPacket::Chat => 3,
        SessionPacket::FileMeta => 10,
        SessionPacket::FileChunk => 4,
        _ => 0,
    }
}

/// Largest clipboard text the agent takes from a viewer (10 MiB).
pub const MAX_SESSION_CLIPBOARD: u32 = 10485760;

/// Largest file chunk the agent takes from a viewer (100 MiB).
pub const MAX_FILE_CHUNK: u32 = 104857600;

/// The length a variable-size session packet announces, when the agent
/// accepts it; `None` ends the session.
pub fn session_body_len(p: SessionPacket, fixed: &[u8]) -> (r: Option<u64>)
    requires
        fixed@.len() == spec_fixed_len(p),
        p == SessionPacket::Clipboard || p == SessionPacket::FileChunk || p == SessionPacket::Chat,
    ensures
        p == SessionPacket::Clipboard ==> r == (if be_value(fixed@) <= MAX_SESSION_CLIPBOARD {
            Some(be_value(fixed@) as u64)
        } else {
            None::<u64>
        }),
        p == SessionPacket::FileChunk ==> r == (if be_value(fixed@) <= MAX_FILE_CHUNK {
            Some(be_value(fixed@) as u64)
        } else {
            None::<u64>
        }),
        p == SessionPacket::Chat ==> r == Some(be_value(fixed@.subrange(1, 3)) as u64),
{
    proof {
        lemma_pow256_values();
    }
    if p == SessionPacket::Chat {
        let len_bytes = copy_range(fixed, 1, 3);
        proof {
            lemma_be_value_bound(len_bytes@);
            assert(len_bytes@.take(2) == len_bytes@);
        }
        return Some(be_read(len_bytes.as_slice(), 2));
    }
    proof {
        lemma_be_value_bound(fixed@);
        assert(fixed@.take(4) == fixed@);
    }
    let n = be_read(fixed, 4);
    let limit: u64 = if p == SessionPacket::Clipboard {
        MAX_SESSION_CLIPBOARD as u64
    } else {
        MAX_FILE_CHUNK as u64
    };
    if n <= limit {
        Some(n)
    } else {
        None
    }
}

/// A chat message a viewer sends is read whole by the agent: the type names
/// a chat, the length in its fixed bytes is the text's, and the text follows.
pub proof fn lemma_chat_read_whole(sender: u8, text: Seq<u8>)
    requires
        text.len() <= u16::MAX,
    ensures
        ({
            let p = seq![CHAT, sender] + be_bytes(text.len(), 2) + text;
            &&& spec_session_packet(p[0]) == SessionPacket::Chat
            &&& be_value(p.subrange(1, 4).subrange(1, 3)) == text.len()
            &&& p.subrange(4, 4 + text.len() as int) == text
        }),
{
    lemma_pow256_values();
    lemma_be_roundtrip(text.len(), 2);
    let p = seq![CHAT, sender] + be_bytes(text.len(), 2) + text;
    assert(p.subrange(1, 4).subrange(1, 3) =~= be_bytes(text.len(), 2));
    assert(p.subrange(4, 4 + text.len() as int) =~= text);
}

/// Clipboard text a viewer sends within the agent's limit is read whole.
pub proof fn lemma_clipboard_read_whole(text: Seq<u8>)
    requires
        text.len() <= MAX_SESSION_CLIPBOARD,
    ensures
        ({
            let p = seq![CLIPBOARD] + be_bytes(text.len(), 4) + text;
            &&& spec_session_packet(p[0]) == SessionPacket::Clipboard
            &&& be_value(p.subrange(1, 5)) == text.len()
            &&& p.subrange(5, 5 + text.len() as int) == text
        }),
{
    lemma_pow256_values();
    lemma_be_roundtrip(text.len(), 4);
    let p = seq![CLIPBOARD] + be_bytes(text.len(), 4) + text;
    assert(p.subrange(1, 5) =~= be_bytes(text.len(), 4));
    assert(p.subrange(5, 5 + text.len() as int) =~= text);
}

/// A file chunk a viewer sends within the agent's limit is read whole.
pub proof fn lemma_file_chunk_read_whole(data: Seq<u8>)
    requires
        data.len() <= MAX_FILE_CHUNK,
    ensures
        ({
            let p = seq![FILE_CHUNK] + be_bytes(data.len(), 4) + data;
            &&& spec_session_packet(p[0]) == SessionPacket::FileChunk
            &&& be_value(p.subrange(1, 5)) == data.len()
            &&& p.subrange(5, 5 + data.len() as int) == data
        }),
{
    lemma_pow256_values();
    lemma_be_roundtrip(data.len(), 4);
    let p = seq![FILE_CHUNK] + be_bytes(data.len(), 4) + data;
    assert(p.subrange(1, 5) =~= be_bytes(data.len(), 4));
    assert(p.subrange(5, 5 + data.len() as int) =~= data);
}

/// The announcement of a file transfer gives the agent the name's length,
/// the file's size and the name.
pub proof fn lemma_file_meta_read_whole(name: Seq<u8>, size: u64)
    requires
        name.len() <= u16::MAX,
    ensures
        ({
            let p = seq![FILE_META] + be_bytes(name.len(), 2) + be_bytes(size as nat, 8) + name;
            &&& spec_session_packet(p[0]) == SessionPacket::FileMeta
            &&& be_value(p.subrange(1, 11).subrange(0, 2)) == name.len()
            &&& be_value(p.subrange(1, 11).subrange(2, 10)) == size
            &&& p.subrange(11, 11 + name.len() as int) == name
        }),
{
    lemma_pow256_values();
    lemma_be_roundtrip(name.len(), 2);
    lemma_be_roundtrip(size as nat, 8);
    let p = seq![FILE_META] + be_bytes(name.len(), 2) + be_bytes(size as nat, 8) + name;
    assert(p.subrange(1, 11).subrange(0, 2) =~= be_bytes(name.len(), 2));
    assert(p.subrange(1, 11).subrange(2, 10) =~= be_bytes(size as nat, 8));
    assert(p.subrange(11, 11 + name.len() as int) =~= name);
}

/// A captured BGRA screen as RGBA: red and blue swapped, alpha opaque.
pub open spec fn spec_bgra_to_rgba(src: Seq<u8>) -> Seq<u8> {
    Seq::new(
        (src.len() / 4 * 4) as nat,
        |i: int|
            {
                let p = i / 4 * 4;
                let c = i % 4;
                if c == 0 {
                    src[p + 2]
                } else if c == 1 {
                    src[p + 1]
                } else if c == 2 {
                    src[p]
                } else {
                    255u8
                }
            },
    )
}

pub fn bgra_to_rgba(src: &[u8]) -> (out: Vec<u8>)
    ensures
        out@ == spec_bgra_to_rgba(src@),
{
    let n = src.len() / 4;
    let mut out: Vec<u8> = Vec::new();
    let mut k: usize = 0;
    while k < n
        invariant
            k <= n,
            n == src@.len() / 4,
            out@.len() == 4 * k,
            forall|i: int| 0 <= i < 4 * k ==> out@[i] == #[trigger] spec_bgra_to_rgba(src@)[i],
        decreases n - k,
    {
        assert(4 * k + 3 < src.len());
        let b = 4 * k;
        out.push(src[b + 2]);
        out.push(src[b + 1]);
        out.push(src[b]);
        out.push(255);
        proof {
            assert forall|i: int| 4 * k <= i < 4 * k + 4 implies out@[i] == #[trigger] spec_bgra_to_rgba(
                src@,
            )[i] by {
                assert(i / 4 == k && i % 4 == i - 4 * k);
            }
        }
        k += 1;
    }
    assert(out@ =~= spec_bgra_to_rgba(src@));
    out
}

/// The announced name length and total size of a file transfer.
pub fn parse_file_meta(fixed: &[u8]) -> (r: (u64, u64))
    requires
        fixed@.len() == 10,
    ensures
        r.0 == be_value(fixed@.subrange(0, 2)),
        r.1 == be_value(fixed@.subrange(2, 10)),
{
    let name = copy_range(fixed, 0, 2);
    let size = copy_range(fixed, 2, 10);
    proof {
        lemma_pow256_values();
        lemma_be_value_bound(name@);
        lemma_be_value_bound(size@);
        assert(name@.take(2) == name@);
        assert(size@.take(8) == size@);
    }
    (be_read(name.as_slice(), 2), be_read(size.as_slice(), 8))
}

/// The file a viewer is sending, as far as the agent has received it.
pub struct FileReceiver {
    /// Whether a file is open for the incoming chunks.
    pub open: bool,
    /// The size the viewer announced.
    pub total: u64,
    /// Bytes written since the file was opened.
    pub received: u64,
}

impl FileReceiver {
    /// No transfer under way.
    pub fn new() -> (f: Self)
        ensures
            !f.open,
            f.total == 0,
            f.received == 0,
    {
        FileReceiver { open: false, total: 0, received: 0 }
    }

    /// A viewer announced a file of `total` bytes; `created` tells whether the
    /// agent could create it. A file that could not be created takes no chunks.
    pub fn begin(&mut self, total: u64, created: bool)
        ensures
            final(self).total == total,
            final(self).open == created,
            final(self).received == (if created {
                0
            } else {
                old(self).received
            }),
    {
        self.total = total;
        self.open = created;
        if created {
            self.received = 0;
        }
    }

    /// Whether a chunk that arrives now is written.
    pub fn accepts_chunk(&self) -> (b: bool)
        ensures
            b == self.open,
    {
        self.open
    }

    /// A chunk of `len` bytes was written (`written`) or failed to write. A
    /// failed write closes the file; the file is complete, and closed, once
    /// the bytes received reach the announced size. Returns whether the file
    /// was closed.
    pub fn chunk_written(&mut self, len: u64, written: bool) -> (closed: bool)
        requires
            old(self).open,
            written ==> old(self).received + len <= u64::MAX,
        ensures
            final(self).total == old(self).total,
            !written ==> !final(self).open && final(self).received == old(self).received,
            written ==> final(self).received == old(self).received + len,
            written ==> final(self).open == (final(self).received < final(self).total),
            closed == !final(self).open,
    {
        if !written {
            self.open = false;
            return true;
        }
        self.received = self.received + len;
        if self.received >= self.total {
            self.open = false;
        }
        !self.open
    }
}

/// Frames per second the agent streams at.
pub const TARGET_FPS: u64 = 120;

/// Whether the encoder is asked for a keyframe: on the first frame, until one
/// was produced, and then once a second.
pub open spec fn spec_keyframe_requested(frame_number: u64, has_keyframe: bool) -> bool {
    frame_number == 0 || !has_keyframe || frame_number % TARGET_FPS == 0
}

pub fn keyframe_requested(frame_number: u64, has_keyframe: bool) -> (b: bool)
    ensures
        b == spec_keyframe_requested(frame_number, has_keyframe),
{
    frame_number == 0 || !has_keyframe || frame_number % TARGET_FPS == 0
}

/// The presentation time of a frame, in microseconds.
pub fn presentation_time_us(frame_number: u64) -> (t: u64)
    requires
        frame_number * 8333 <= u64::MAX,
    ensures
        t == frame_number * 8333,
{
    frame_number * (1000000 / TARGET_FPS)
}

/// The first frame of a session waits for room in the send queue; later
/// frames are dropped when the queue is full.
pub fn waits_for_queue(frame_number: u64) -> (b: bool)
    ensures
        b == (frame_number == 1),
{
    frame_number == 1
}

fn same_chars(a: &[char], b: &[char]) -> (r: bool)
    ensures
        r == (a@ == b@),
{
    if a.len() != b.len() {
        return false;
    }
    let m = matches_at(a, b, 0);
    proof {
        if m {
            assert(a@.subrange(0, b@.len() as int) == a@);
        } else {
            assert(a@.subrange(0, b@.len() as int) == a@);
        }
    }
    m
}

/// Whether the local clipboard holds new text to send: not empty and not the
/// text last sent or received.
pub fn clipboard_changed(last: &str, text: &str) -> (b: bool)
    ensures
        b == (text@ != last@ && text@.len() > 0),
{
    let l = chars_of(last);
    let t = chars_of(text);
    t.len() > 0 && !same_chars(t.as_slice(), l.as_slice())
}

} // verus!
