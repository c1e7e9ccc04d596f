//! The native viewer's own bookkeeping: which host ID it was asked for, the
//! chat it keeps, the frame rate it shows, and the chat and file commands
//! typed at its console.
use vstd::prelude::*;
use vstd::string::StringSliceAdditionalSpecFns;
use crate::protocol::{chat_packet, file_meta_packet, CHAT, FILE_META};
use crate::text::{
    chars_of, find, is_ascii_digit, push_chars, push_str, remove_char, spec_find, string_of,
    trim_by, trim_chars, without_char, Strip,
};
use crate::text::byte_len;
use crate::wire::{be_bytes, be_value};

verus! {

/// `s` with every occurrence of `pat` removed, scanning left to right, as
/// `replace(pat, "")`.
pub open spec fn remove_all(s: Seq<char>, pat: Seq<char>) -> Seq<char>
    decreases s.len(),
{
    if pat.len() == 0 {
        s
    } else {
        match spec_find(s, pat) {
            Some(i) => if 0 <= i && i + pat.len() <= s.len() {
                s.take(i) + remove_all(s.skip(i + pat.len()), pat)
            } else {
                s
            },
            None => s,
        }
    }
}

fn remove_all_exec(s: &[char], pat: &[char]) -> (r: Vec<char>)
    ensures
        r@ == remove_all(s@, pat@),
    decreases s@.len(),
{
    if pat.len() == 0 {
        return crate::text::chars_from(s, 0);
    }
    match find(s, pat) {
        Some(i) => {
            assert(crate::text::occurs_at(s@, pat@, i as int));
            assert(s@.len() == s.len());
            let mut out = crate::text::chars_range(s, 0, i);
            let rest = crate::text::chars_from(s, i + pat.len());
            assert(rest@ == s@.skip(i + pat@.len()));
            let tail = remove_all_exec(rest.as_slice(), pat);
            push_chars(&mut out, tail.as_slice());
            assert(out@ =~= s@.take(i as int) + remove_all(s@.skip(i + pat@.len()), pat@));
            out
        },
        None => crate::text::chars_from(s, 0),
    }
}

/// The host ID in a viewer's command-line argument: trimmed, with any
/// `screenshare://`, `-` and `/` removed.
pub open spec fn spec_target_from_arg(arg: Seq<char>) -> Seq<char> {
    without_char(
        without_char(remove_all(trim_by(arg, Strip::WhiteSpace), "screenshare://"@), '-'),
        '/',
    )
}

pub fn target_id_from_arg(arg: &str) -> (id: String)
    ensures
        id@ == spec_target_from_arg(arg@),
{
    let t = trim_chars(chars_of(arg).as_slice(), Strip::WhiteSpace);
    let scheme = chars_of("screenshare://");
    let no_scheme = remove_all_exec(t.as_slice(), scheme.as_slice());
    let no_dash = remove_char(no_scheme.as_slice(), '-');
    string_of(remove_char(no_dash.as_slice(), '/').as_slice())
}

/// The host ID typed at the viewer's prompt: trimmed, `-` removed.
pub fn target_id_from_line(line: &str) -> (id: String)
    ensures
        id@ == without_char(trim_by(line@, Strip::WhiteSpace), '-'),
{
    let t = trim_chars(chars_of(line).as_slice(), Strip::WhiteSpace);
    string_of(remove_char(t.as_slice(), '-').as_slice())
}

/// The viewer connects only to IDs of exactly six bytes, all ASCII digits.
pub open spec fn spec_valid_target(id: &str) -> bool {
    byte_len(id@) == 6 && forall|i: int| 0 <= i < id@.len() ==> is_ascii_digit(#[trigger] id@[i])
}

pub fn valid_target_id(id: &str) -> (b: bool)
    ensures
        b == spec_valid_target(id),
{
    if id.len() != 6 {
        return false;
    }
    let cs = chars_of(id);
    let mut i: usize = 0;
    while i < cs.len()
        invariant
            i <= cs.len(),
            cs@ == id@,
            forall|j: int| 0 <= j < i ==> is_ascii_digit(#[trigger] cs@[j]),
        decreases cs.len() - i,
    {
        if !('0' <= cs[i] && cs[i] <= '9') {
            return false;
        }
        i += 1;
    }
    true
}

/// How many chat lines the viewer keeps.
pub const CHAT_HISTORY: usize = 100;

/// The last `n` items of `s`, or all of them.
pub open spec fn keep_last<T>(s: Seq<T>, n: nat) -> Seq<T> {
    if s.len() > n {
        s.skip(s.len() - n)
    } else {
        s
    }
}

/// The chat lines of a session, oldest first, at most [`CHAT_HISTORY`].
pub struct ChatLog {
    lines: Vec<String>,
}

impl View for ChatLog {
    type V = Seq<Seq<char>>;

    closed spec fn view(&self) -> Seq<Seq<char>> {
        self.lines@.map_values(|s: String| s@)
    }
}

/// The line a chat message is shown as: `HOST: ...` for sender 0, `YOU: ...`
/// for any other.
pub open spec fn spec_chat_line(sender: u8, text: Seq<char>) -> Seq<char> {
    (if sender == 0 {
        "HOST"@
    } else {
        "YOU"@
    }) + ": "@ + text
}

pub fn chat_line(sender: u8, text: &str) -> (l: String)
    ensures
        l@ == spec_chat_line(sender, text@),
{
    let mut out: Vec<char> = Vec::new();
    push_str(&mut out, if sender == 0 {
        "HOST"
    } else {
        "YOU"
    });
    push_str(&mut out, ": ");
    push_str(&mut out, text);
    string_of(out.as_slice())
}

impl ChatLog {
    pub fn new() -> (c: Self)
        ensures
            c@ == Seq::<Seq<char>>::empty(),
    {
        let c = ChatLog { lines: Vec::new() };
        assert(c@ =~= Seq::<Seq<char>>::empty());
        c
    }

    /// Adds a line, dropping the oldest beyond [`CHAT_HISTORY`].
    pub fn push(&mut self, line: String)
        ensures
            final(self)@ == keep_last(old(self)@.push(line@), CHAT_HISTORY as nat),
    {
        let ghost pushed = self@.push(line@);
        self.lines.push(line);
        assert(self@ =~= pushed);
        if self.lines.len() > CHAT_HISTORY {
            let remove = self.lines.len() - CHAT_HISTORY;
            let mut kept: Vec<String> = Vec::new();
            let mut i = remove;
            while i < self.lines.len()
                invariant
                    remove <= i <= self.lines.len(),
                    self.lines@.len() > CHAT_HISTORY,
                    remove == self.lines@.len() - CHAT_HISTORY,
                    self@ == pushed,
                    kept@.map_values(|s: String| s@) == pushed.subrange(remove as int, i as int),
                decreases self.lines.len() - i,
            {
                let ghost before = kept@;
                kept.push(self.lines[i].clone());
                proof {
                    assert(pushed[i as int] == self.lines@[i as int]@);
                    assert(kept@ == before.push(self.lines@[i as int]));
                    assert(kept@.map_values(|s: String| s@) =~= before.map_values(|s: String| s@).push(
                        self.lines@[i as int]@,
                    ));
                    assert(pushed.subrange(remove as int, i + 1) =~= pushed.subrange(remove as int, i as int).push(
                        pushed[i as int],
                    ));
                }
                i += 1;
            }
            self.lines = kept;
            assert(self@ =~= keep_last(pushed, CHAT_HISTORY as nat));
        }
    }

    /// The lines, oldest first.
    pub fn lines(&self) -> (l: &[String])
        ensures
            l@.map_values(|s: String| s@) == self@,
    {
        self.lines.as_slice()
    }
}

/// The chat keeps at most [`CHAT_HISTORY`] lines, and always the latest one.
pub proof fn lemma_chat_bounded(log: Seq<Seq<char>>, line: Seq<char>)
    ensures
        keep_last(log.push(line), CHAT_HISTORY as nat).len() <= CHAT_HISTORY,
        keep_last(log.push(line), CHAT_HISTORY as nat).last() == line,
{
}

/// The chat message typed at the viewer's prompt, as the packet sent to the
/// host (sender 1): the trimmed line, when it is not empty and fits a
/// 16-bit length.
pub fn outgoing_chat(line: &str) -> (r: Option<(Vec<u8>, String)>)
    ensures
        ({
            let msg = trim_by(line@, Strip::WhiteSpace);
            let bytes = vstd::utf8::encode_utf8(msg);
            match r {
                Some((p, shown)) => msg.len() > 0 && bytes.len() <= u16::MAX && p@ == seq![
                    CHAT,
                    1u8,
                ] + be_bytes(bytes.len(), 2) + bytes && shown@ == spec_chat_line(1, msg),
                None => msg.len() == 0 || bytes.len() > u16::MAX,
            }
        }),
{
    let msg = string_of(trim_chars(chars_of(line).as_slice(), Strip::WhiteSpace).as_slice());
    let bytes = msg.as_str().as_bytes();
    if msg.as_str().is_empty() || bytes.len() > 65535 {
        return None;
    }
    Some((chat_packet(1, bytes), chat_line(1, msg.as_str())))
}

/// The file path typed at the viewer's prompt: trimmed, then stripped of
/// surrounding double quotes; `None` when nothing is left.
pub fn file_path_from_line(line: &str) -> (r: Option<String>)
    ensures
        ({
            let p = trim_by(trim_by(line@, Strip::WhiteSpace), Strip::Quote);
            match r {
                Some(s) => p.len() > 0 && s@ == p,
                None => p.len() == 0,
            }
        }),
{
    let t = trim_chars(chars_of(line).as_slice(), Strip::WhiteSpace);
    let p = trim_chars(t.as_slice(), Strip::Quote);
    if p.len() == 0 {
        None
    } else {
        Some(string_of(p.as_slice()))
    }
}

/// The packet that announces a file the viewer sends: its name's UTF-8
/// bytes and its size, when the name fits the 16-bit length.
pub fn file_announcement(file_name: &str, size: u64) -> (r: Option<Vec<u8>>)
    ensures
        ({
            let name = vstd::utf8::encode_utf8(file_name@);
            match r {
                Some(p) => name.len() <= u16::MAX && p@ == seq![FILE_META] + be_bytes(name.len(), 2)
                    + be_bytes(size as nat, 8) + name,
                None => name.len() > u16::MAX,
            }
        }),
{
    let name = file_name.as_bytes();
    if name.len() > 65535 {
        return None;
    }
    Some(file_meta_packet(name, size))
}

/// The host ID the agent's own viewer connects to: spaces removed, then
/// trimmed.
pub fn clean_target_id(id: &str) -> (c: String)
    ensures
        c@ == trim_by(without_char(id@, ' '), Strip::WhiteSpace),
{
    let no_spaces = remove_char(chars_of(id).as_slice(), ' ');
    string_of(trim_chars(no_spaces.as_slice(), Strip::WhiteSpace).as_slice())
}

/// The relay's answer to the agent's viewer: status 2 lets it in.
pub fn viewer_admitted(status: u8) -> (b: bool)
    ensures
        b == (status == 2),
{
    status == 2
}

/// The header bytes that follow a packet's type byte for the agent's viewer:
/// 20 for a type 13 frame (with its timestamp), 12 for any other packet,
/// legacy type 15 frames among them.
pub fn remote_header_len(packet_type: u8) -> (n: usize)
    ensures
        n == (if packet_type == 13 {
            20usize
        } else {
            12usize
        }),
{
    if packet_type == 13 {
        20
    } else {
        12
    }
}

/// The payload length in a packet's header (`[width][height][length]`, then
/// the timestamp of a type 13 frame), or `None` beyond 50 MiB, which ends the
/// session.
pub fn remote_payload_len(packet_type: u8, header: &[u8]) -> (r: Option<u32>)
    requires
        header@.len() == (if packet_type == 13 {
            20int
        } else {
            12int
        }),
    ensures
        match r {
            Some(n) => n == be_value(header@.subrange(8, 12)) && n <= 52428800,
            None => be_value(header@.subrange(8, 12)) > 52428800,
        },
{
    let len_bytes = crate::wire::copy_range(header, 8, 12);
    proof {
        crate::wire::lemma_pow256_values();
        crate::wire::lemma_be_value_bound(len_bytes@);
        assert(len_bytes@.take(4) == len_bytes@);
    }
    let n = crate::wire::be_read(len_bytes.as_slice(), 4);
    if n > 52428800 {
        None
    } else {
        Some(n as u32)
    }
}

/// Whether the agent's viewer decodes a packet of this type: video frames,
/// of either format.
pub fn is_frame_packet(packet_type: u8) -> (b: bool)
    ensures
        b == (packet_type == 13 || packet_type == 15),
{
    packet_type == 13 || packet_type == 15
}

/// The input packet type a mouse button change sends: `down` when it was
/// just pressed, `up` when it was just released, none when unchanged.
pub fn button_change(was_down: bool, is_down: bool, down: u8, up: u8) -> (r: Option<u8>)
    ensures
        r == (if is_down && !was_down {
            Some(down)
        } else if !is_down && was_down {
            Some(up)
        } else {
            None::<u8>
        }),
{
    if is_down && !was_down {
        Some(down)
    } else if !is_down && was_down {
        Some(up)
    } else {
        None
    }
}

/// The window size the agent's viewer opens for a frame: at most 1600 by
/// 900.
pub fn viewer_window_size(width: usize, height: usize) -> (r: (usize, usize))
    ensures
        r.0 == (if width < 1600 {
            width
        } else {
            1600
        }),
        r.1 == (if height < 900 {
            height
        } else {
            900
        }),
{
    (if width < 1600 {
        width
    } else {
        1600
    }, if height < 900 {
        height
    } else {
        900
    })
}

/// The frame rate the viewer shows: frames counted since the last second
/// started, and the count of the last full second.
pub struct FpsMeter {
    pub count: u32,
    pub shown: u32,
    pub since_ms: u64,
}

impl FpsMeter {
    pub fn new(now_ms: u64) -> (m: Self)
        ensures
            m.count == 0,
            m.shown == 0,
            m.since_ms == now_ms,
    {
        FpsMeter { count: 0, shown: 0, since_ms: now_ms }
    }

    /// A frame was shown at `now_ms`; once a second has passed the count
    /// becomes the shown rate and counting starts again.
    pub fn frame(&mut self, now_ms: u64)
        requires
            old(self).count < u32::MAX,
        ensures
            ({
                let n = old(self).count + 1;
                let elapsed = now_ms >= old(self).since_ms && now_ms - old(self).since_ms >= 1000;
                &&& final(self).count == (if elapsed { 0 } else { n })
                &&& final(self).shown == (if elapsed { n } else { old(self).shown as int })
                &&& final(self).since_ms == (if elapsed { now_ms } else { old(self).since_ms })
            }),
    {
        self.count = self.count + 1;
        if now_ms >= self.since_ms && now_ms - self.since_ms >= 1000 {
            self.shown = self.count;
            self.count = 0;
            self.since_ms = now_ms;
        }
    }
}

} // verus!
