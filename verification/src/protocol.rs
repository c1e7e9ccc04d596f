//! Packet formats exchanged between viewers, the relay and host agents.
use vstd::prelude::*;
use vstd::string::StringSliceAdditionalSpecFns;
use crate::wire::{
    be_bytes, be_read, be_value, copy_range, push_all, lemma_be_bytes_len, lemma_be_roundtrip,
    lemma_be_value_bound, lemma_pow256_values, push_be,
};

verus! {

pub const MOUSE_MOVE: u8 = 0;
pub const MOUSE_DOWN_LEFT: u8 = 1;
pub const MOUSE_UP_LEFT: u8 = 2;
pub const MOUSE_DOWN_RIGHT: u8 = 3;
pub const MOUSE_UP_RIGHT: u8 = 4;
pub const KEY_DOWN: u8 = 5;
pub const KEY_UP: u8 = 6;
pub const MOUSE_DOWN_MIDDLE: u8 = 7;
pub const MOUSE_UP_MIDDLE: u8 = 8;
pub const MOUSE_WHEEL: u8 = 9;
pub const MONITOR_SWITCH: u8 = 10;
pub const CLIPBOARD: u8 = 12;
pub const VIDEO_FRAME: u8 = 13;
pub const HEARTBEAT: u8 = 14;
pub const VIDEO_FRAME_LEGACY: u8 = 15;
pub const CHAT: u8 = 16;
pub const AUDIO: u8 = 17;
pub const FILE_META: u8 = 20;
pub const FILE_CHUNK: u8 = 21;
pub const VIEWER_DISCONNECTED: u8 = 99;

/// Largest video payload a receiver accepts (50 MiB).
pub const MAX_VIDEO_PAYLOAD: u32 = 52428800;
/// Largest audio payload the viewer accepts (1 MiB).
pub const MAX_AUDIO_PACKET: u32 = 1048576;
/// Largest clipboard text the viewer accepts (16 MiB).
pub const MAX_CLIPBOARD_SIZE: u32 = 16777216;

#[derive(Clone, Copy, Debug, PartialEq, Eq, Structural)]
pub enum MouseButton {
    Left,
    Right,
    Middle,
}

/// A remote-control event as carried by a 9-byte input packet.
#[derive(Clone, Copy, Debug, PartialEq, Eq, Structural)]
pub enum InputEvent {
    MouseMove { x: u16, y: u16 },
    MouseDown { button: MouseButton, x: u16, y: u16 },
    MouseUp { button: MouseButton, x: u16, y: u16 },
    KeyDown { code: u16 },
    KeyUp { code: u16 },
    Wheel { scroll: i16 },
    MonitorSwitch { index: u16 },
}

/// `[type][a: u16 BE][b: u16 BE][4 reserved zero bytes]`
pub open spec fn input_packet_bytes(packet_type: u8, a: u16, b: u16) -> Seq<u8> {
    seq![packet_type] + be_bytes(a as nat, 2) + be_bytes(b as nat, 2) + seq![0u8, 0u8, 0u8, 0u8]
}

/// A keyboard or monitor packet: the code in value A, value B reserved (0).
pub open spec fn key_packet_bytes(packet_type: u8, code: u16) -> Seq<u8> {
    input_packet_bytes(packet_type, code, 0)
}

/// Builds a 9-byte pointer input packet.
pub fn make_input_packet(packet_type: u8, a: u16, b: u16) -> (p: Vec<u8>)
    ensures
        p@ == input_packet_bytes(packet_type, a, b),
        p@.len() == 9,
{
    let mut p: Vec<u8> = Vec::with_capacity(9);
    p.push(packet_type);
    push_be(&mut p, a as u64, 2);
    push_be(&mut p, b as u64, 2);
    p.push(0);
    p.push(0);
    p.push(0);
    p.push(0);
    proof {
        lemma_be_bytes_len(a as nat, 2);
        lemma_be_bytes_len(b as nat, 2);
        assert(p@ =~= input_packet_bytes(packet_type, a, b));
    }
    p
}

/// Builds a 9-byte keyboard packet: the virtual key in value A.
pub fn make_key_packet(packet_type: u8, code: u16) -> (p: Vec<u8>)
    ensures
        p@ == key_packet_bytes(packet_type, code),
        p@.len() == 9,
{
    make_input_packet(packet_type, code, 0)
}

/// The packet type a viewer sends for a pointer button transition.
pub open spec fn button_packet_type(button: MouseButton, down: bool) -> u8 {
    match button {
        MouseButton::Left => if down { MOUSE_DOWN_LEFT } else { MOUSE_UP_LEFT },
        MouseButton::Right => if down { MOUSE_DOWN_RIGHT } else { MOUSE_UP_RIGHT },
        MouseButton::Middle => if down { MOUSE_DOWN_MIDDLE } else { MOUSE_UP_MIDDLE },
    }
}

/// The wire form of an input event, as a viewer sends it.
pub open spec fn input_event_bytes(ev: InputEvent) -> Seq<u8> {
    match ev {
        InputEvent::MouseMove { x, y } => input_packet_bytes(MOUSE_MOVE, x, y),
        InputEvent::MouseDown { button, x, y } => input_packet_bytes(
            button_packet_type(button, true),
            x,
            y,
        ),
        InputEvent::MouseUp { button, x, y } => input_packet_bytes(
            button_packet_type(button, false),
            x,
            y,
        ),
        InputEvent::KeyDown { code } => key_packet_bytes(KEY_DOWN, code),
        InputEvent::KeyUp { code } => key_packet_bytes(KEY_UP, code),
        InputEvent::Wheel { scroll } => input_packet_bytes(MOUSE_WHEEL, 0, scroll as u16),
        InputEvent::MonitorSwitch { index } => key_packet_bytes(MONITOR_SWITCH, index),
    }
}

/// Encodes an input event as the 9-byte packet a viewer sends.
pub fn encode_input_event(ev: InputEvent) -> (p: Vec<u8>)
    ensures
        p@ == input_event_bytes(ev),
        p@.len() == 9,
{
    match ev {
        InputEvent::MouseMove { x, y } => make_input_packet(MOUSE_MOVE, x, y),
        InputEvent::MouseDown { button, x, y } => {
            let t = match button {
                MouseButton::Left => MOUSE_DOWN_LEFT,
                MouseButton::Right => MOUSE_DOWN_RIGHT,
                MouseButton::Middle => MOUSE_DOWN_MIDDLE,
            };
            make_input_packet(t, x, y)
        },
        InputEvent::MouseUp { button, x, y } => {
            let t = match button {
                MouseButton::Left => MOUSE_UP_LEFT,
                MouseButton::Right => MOUSE_UP_RIGHT,
                MouseButton::Middle => MOUSE_UP_MIDDLE,
            };
            make_input_packet(t, x, y)
        },
        InputEvent::KeyDown { code } => make_key_packet(KEY_DOWN, code),
        InputEvent::KeyUp { code } => make_key_packet(KEY_UP, code),
        InputEvent::Wheel { scroll } => make_input_packet(MOUSE_WHEEL, 0, scroll as u16),
        InputEvent::MonitorSwitch { index } => make_key_packet(MONITOR_SWITCH, index),
    }
}

/// How a host agent reads the 8 data bytes that follow an input packet's type.
pub open spec fn spec_decode_input(packet_type: u8, d: Seq<u8>) -> Option<InputEvent> {
    let a = be_value(d.subrange(0, 2)) as u16;
    let b = be_value(d.subrange(2, 4)) as u16;
    if packet_type == MONITOR_SWITCH {
        Some(InputEvent::MonitorSwitch { index: a })
    } else if packet_type == MOUSE_WHEEL {
        Some(InputEvent::Wheel { scroll: b as i16 })
    } else if packet_type == KEY_DOWN {
        Some(InputEvent::KeyDown { code: a })
    } else if packet_type == KEY_UP {
        Some(InputEvent::KeyUp { code: a })
    } else if packet_type == MOUSE_MOVE {
        Some(InputEvent::MouseMove { x: a, y: b })
    } else if packet_type == MOUSE_DOWN_LEFT {
        Some(InputEvent::MouseDown { button: MouseButton::Left, x: a, y: b })
    } else if packet_type == MOUSE_UP_LEFT {
        Some(InputEvent::MouseUp { button: MouseButton::Left, x: a, y: b })
    } else if packet_type == MOUSE_DOWN_RIGHT {
        Some(InputEvent::MouseDown { button: MouseButton::Right, x: a, y: b })
    } else if packet_type == MOUSE_UP_RIGHT {
        Some(InputEvent::MouseUp { button: MouseButton::Right, x: a, y: b })
    } else if packet_type == MOUSE_DOWN_MIDDLE {
        Some(InputEvent::MouseDown { button: MouseButton::Middle, x: a, y: b })
    } else if packet_type == MOUSE_UP_MIDDLE {
        Some(InputEvent::MouseUp { button: MouseButton::Middle, x: a, y: b })
    } else {
        None
    }
}

/// Decodes the input event of a packet whose type byte is `packet_type` and
/// whose following eight bytes are `data`; `None` for types outside 0..=10.
pub fn decode_input_event(packet_type: u8, data: &[u8]) -> (r: Option<InputEvent>)
    requires
        data@.len() == 8,
    ensures
        r == spec_decode_input(packet_type, data@),
{
    let a = be_read(data, 2) as u16;
    let b_slice = copy_range(data, 2, 4);
    let b = be_read(b_slice.as_slice(), 2) as u16;
    proof {
        assert(data@.take(2) == data@.subrange(0, 2));
        assert(b_slice@.take(2) == data@.subrange(2, 4));
        lemma_be_value_bound(data@.subrange(0, 2));
        lemma_be_value_bound(data@.subrange(2, 4));
        lemma_pow256_values();
    }
    if packet_type == MONITOR_SWITCH {
        Some(InputEvent::MonitorSwitch { index: a })
    } else if packet_type == MOUSE_WHEEL {
        Some(InputEvent::Wheel { scroll: b as i16 })
    } else if packet_type == KEY_DOWN {
        Some(InputEvent::KeyDown { code: a })
    } else if packet_type == KEY_UP {
        Some(InputEvent::KeyUp { code: a })
    } else if packet_type == MOUSE_MOVE {
        Some(InputEvent::MouseMove { x: a, y: b })
    } else if packet_type == MOUSE_DOWN_LEFT {
        Some(InputEvent::MouseDown { button: MouseButton::Left, x: a, y: b })
    } else if packet_type == MOUSE_UP_LEFT {
        Some(InputEvent::MouseUp { button: MouseButton::Left, x: a, y: b })
    } else if packet_type == MOUSE_DOWN_RIGHT {
        Some(InputEvent::MouseDown { button: MouseButton::Right, x: a, y: b })
    } else if packet_type == MOUSE_UP_RIGHT {
        Some(InputEvent::MouseUp { button: MouseButton::Right, x: a, y: b })
    } else if packet_type == MOUSE_DOWN_MIDDLE {
        Some(InputEvent::MouseDown { button: MouseButton::Middle, x: a, y: b })
    } else if packet_type == MOUSE_UP_MIDDLE {
        Some(InputEvent::MouseUp { button: MouseButton::Middle, x: a, y: b })
    } else {
        None
    }
}

/// Two bytes read as a big-endian 16-bit value.
proof fn lemma_be_pair(s: Seq<u8>)
    requires
        s.len() == 2,
    ensures
        be_value(s) == s[0] * 256 + s[1],
{
    reveal_with_fuel(be_value, 3);
    assert(s.drop_last().drop_last() =~= Seq::<u8>::empty());
    assert(s.drop_last().last() == s[0]);
    assert(be_value(s.drop_last()) == be_value(s.drop_last().drop_last()) * 256 + s[0]);
}

/// What each input packet type means, as the protocol table gives it: with
/// value A the first two data bytes and value B the next two (big-endian),
/// 0 moves the pointer to (A, B); 1/2, 3/4 and 7/8 press/release the left,
/// right and middle buttons at (A, B); 5/6 press/release the key A; 9 scrolls
/// by B as a signed value; 10 switches to monitor A; other types mean nothing.
pub proof fn lemma_input_packet_types(d: Seq<u8>)
    requires
        d.len() == 8,
    ensures
        ({
            let a = (d[0] * 256 + d[1]) as u16;
            let b = (d[2] * 256 + d[3]) as u16;
            &&& spec_decode_input(0, d) == Some(InputEvent::MouseMove { x: a, y: b })
            &&& spec_decode_input(1, d) == Some(
                InputEvent::MouseDown { button: MouseButton::Left, x: a, y: b },
            )
            &&& spec_decode_input(2, d) == Some(
                InputEvent::MouseUp { button: MouseButton::Left, x: a, y: b },
            )
            &&& spec_decode_input(3, d) == Some(
                InputEvent::MouseDown { button: MouseButton::Right, x: a, y: b },
            )
            &&& spec_decode_input(4, d) == Some(
                InputEvent::MouseUp { button: MouseButton::Right, x: a, y: b },
            )
            &&& spec_decode_input(5, d) == Some(InputEvent::KeyDown { code: a })
            &&& spec_decode_input(6, d) == Some(InputEvent::KeyUp { code: a })
            &&& spec_decode_input(7, d) == Some(
                InputEvent::MouseDown { button: MouseButton::Middle, x: a, y: b },
            )
            &&& spec_decode_input(8, d) == Some(
                InputEvent::MouseUp { button: MouseButton::Middle, x: a, y: b },
            )
            &&& spec_decode_input(9, d) == Some(InputEvent::Wheel { scroll: b as i16 })
            &&& spec_decode_input(10, d) == Some(InputEvent::MonitorSwitch { index: a })
            &&& forall|t: u8| t > 10 ==> #[trigger] spec_decode_input(t, d) is None
        }),
{
    lemma_be_pair(d.subrange(0, 2));
    lemma_be_pair(d.subrange(2, 4));
}

/// The nine bytes a viewer sends for each event: its type (0 move, 1/2
/// left, 3/4 right, 7/8 middle press/release, 5/6 key down/up, 9 wheel, 10
/// monitor switch), value A and value B big-endian, then four zero bytes.
pub proof fn lemma_input_event_wire_bytes(ev: InputEvent)
    ensures
        match ev {
            InputEvent::MouseMove { x, y } => input_event_bytes(ev) == seq![
                0u8, (x / 256) as u8, (x % 256) as u8, (y / 256) as u8, (y % 256) as u8, 0u8, 0u8, 0u8, 0u8,
            ],
            InputEvent::MouseDown { button, x, y } => input_event_bytes(ev) == seq![
                match button {
                    MouseButton::Left => 1u8,
                    MouseButton::Right => 3u8,
                    MouseButton::Middle => 7u8,
                },
                (x / 256) as u8, (x % 256) as u8, (y / 256) as u8, (y % 256) as u8, 0u8, 0u8, 0u8, 0u8,
            ],
            InputEvent::MouseUp { button, x, y } => input_event_bytes(ev) == seq![
                match button {
                    MouseButton::Left => 2u8,
                    MouseButton::Right => 4u8,
                    MouseButton::Middle => 8u8,
                },
                (x / 256) as u8, (x % 256) as u8, (y / 256) as u8, (y % 256) as u8, 0u8, 0u8, 0u8, 0u8,
            ],
            InputEvent::KeyDown { code } => input_event_bytes(ev) == seq![
                5u8, (code / 256) as u8, (code % 256) as u8, 0u8, 0u8, 0u8, 0u8, 0u8, 0u8,
            ],
            InputEvent::KeyUp { code } => input_event_bytes(ev) == seq![
                6u8, (code / 256) as u8, (code % 256) as u8, 0u8, 0u8, 0u8, 0u8, 0u8, 0u8,
            ],
            InputEvent::Wheel { scroll } => input_event_bytes(ev) == seq![
                9u8, 0u8, 0u8, ((scroll as u16) / 256) as u8, ((scroll as u16) % 256) as u8, 0u8, 0u8, 0u8, 0u8,
            ],
            InputEvent::MonitorSwitch { index } => input_event_bytes(ev) == seq![
                10u8, (index / 256) as u8, (index % 256) as u8, 0u8, 0u8, 0u8, 0u8, 0u8, 0u8,
            ],
        },
{
    reveal_with_fuel(be_bytes, 3);
    match ev {
        InputEvent::MouseMove { x, y } => {
            assert(input_event_bytes(ev) =~= seq![
                0u8, (x / 256) as u8, (x % 256) as u8, (y / 256) as u8, (y % 256) as u8, 0u8, 0u8, 0u8, 0u8,
            ]);
        },
        InputEvent::MouseDown { button, x, y } => {
            assert(input_event_bytes(ev) =~= seq![
                button_packet_type(button, true),
                (x / 256) as u8, (x % 256) as u8, (y / 256) as u8, (y % 256) as u8, 0u8, 0u8, 0u8, 0u8,
            ]);
        },
        InputEvent::MouseUp { button, x, y } => {
            assert(input_event_bytes(ev) =~= seq![
                button_packet_type(button, false),
                (x / 256) as u8, (x % 256) as u8, (y / 256) as u8, (y % 256) as u8, 0u8, 0u8, 0u8, 0u8,
            ]);
        },
        InputEvent::KeyDown { code } => {
            assert(input_event_bytes(ev) =~= seq![
                5u8, (code / 256) as u8, (code % 256) as u8, 0u8, 0u8, 0u8, 0u8, 0u8, 0u8,
            ]);
        },
        InputEvent::KeyUp { code } => {
            assert(input_event_bytes(ev) =~= seq![
                6u8, (code / 256) as u8, (code % 256) as u8, 0u8, 0u8, 0u8, 0u8, 0u8, 0u8,
            ]);
        },
        InputEvent::Wheel { scroll } => {
            assert(input_event_bytes(ev) =~= seq![
                9u8, 0u8, 0u8, ((scroll as u16) / 256) as u8, ((scroll as u16) % 256) as u8, 0u8, 0u8, 0u8, 0u8,
            ]);
        },
        InputEvent::MonitorSwitch { index } => {
            assert(input_event_bytes(ev) =~= seq![
                10u8, (index / 256) as u8, (index % 256) as u8, 0u8, 0u8, 0u8, 0u8, 0u8, 0u8,
            ]);
        },
    }
}

/// A host agent decodes every input event that a viewer encodes back to the
/// same event: the type byte selects the event and the eight bytes after it
/// carry its fields.
pub proof fn lemma_input_event_roundtrip(ev: InputEvent)
    ensures
        spec_decode_input(input_event_bytes(ev)[0], input_event_bytes(ev).subrange(1, 9))
            == Some(ev),
{
    match ev {
        InputEvent::MouseMove { x, y } => lemma_input_packet_fields(MOUSE_MOVE, x, y),
        InputEvent::MouseDown { button, x, y } => lemma_input_packet_fields(
            button_packet_type(button, true),
            x,
            y,
        ),
        InputEvent::MouseUp { button, x, y } => lemma_input_packet_fields(
            button_packet_type(button, false),
            x,
            y,
        ),
        InputEvent::KeyDown { code } => lemma_input_packet_fields(KEY_DOWN, code, 0),
        InputEvent::KeyUp { code } => lemma_input_packet_fields(KEY_UP, code, 0),
        InputEvent::Wheel { scroll } => {
            lemma_input_packet_fields(MOUSE_WHEEL, 0, scroll as u16);
            assert(((scroll as u16) as i16) == scroll) by (bit_vector);
        },
        InputEvent::MonitorSwitch { index } => lemma_input_packet_fields(MONITOR_SWITCH, index, 0),
    }
}

proof fn lemma_input_packet_fields(t: u8, a: u16, b: u16)
    ensures
        input_packet_bytes(t, a, b)[0] == t,
        input_packet_bytes(t, a, b).len() == 9,
        be_value(input_packet_bytes(t, a, b).subrange(1, 9).subrange(0, 2)) == a,
        be_value(input_packet_bytes(t, a, b).subrange(1, 9).subrange(2, 4)) == b,
{
    lemma_pow256_values();
    lemma_be_roundtrip(a as nat, 2);
    lemma_be_roundtrip(b as nat, 2);
    let p = input_packet_bytes(t, a, b);
    let d = p.subrange(1, 9);
    assert(d.subrange(0, 2) =~= be_bytes(a as nat, 2));
    assert(d.subrange(2, 4) =~= be_bytes(b as nat, 2));
}


/// `[14][timestamp: u64 BE]`, the keep-alive sent by agents and echoed back.
pub open spec fn heartbeat_bytes(timestamp: u64) -> Seq<u8> {
    seq![HEARTBEAT] + be_bytes(timestamp as nat, 8)
}

/// Builds a heartbeat packet carrying a millisecond timestamp.
pub fn heartbeat_packet(timestamp: u64) -> (p: Vec<u8>)
    ensures
        p@ == heartbeat_bytes(timestamp),
{
    let mut p: Vec<u8> = Vec::with_capacity(9);
    p.push(HEARTBEAT);
    push_be(&mut p, timestamp, 8);
    assert(p@ =~= heartbeat_bytes(timestamp));
    p
}

/// The timestamp carried by the eight bytes after a heartbeat's type byte.
pub fn heartbeat_timestamp(payload: &[u8]) -> (t: u64)
    requires
        payload@.len() == 8,
    ensures
        t as nat == be_value(payload@),
{
    assert(payload@.take(8) == payload@);
    be_read(payload, 8)
}

/// A heartbeat read back gives the timestamp it was built with.
pub proof fn lemma_heartbeat_roundtrip(timestamp: u64)
    ensures
        heartbeat_bytes(timestamp).len() == 9,
        heartbeat_bytes(timestamp)[0] == HEARTBEAT,
        be_value(heartbeat_bytes(timestamp).subrange(1, 9)) == timestamp,
{
    lemma_pow256_values();
    lemma_be_roundtrip(timestamp as nat, 8);
    assert(heartbeat_bytes(timestamp).subrange(1, 9) =~= be_bytes(timestamp as nat, 8));
}

/// Round-trip time of a heartbeat echo: `None` when the clock went backwards.
pub fn round_trip_ms(now: u64, sent: u64) -> (r: Option<u64>)
    ensures
        r == (if now >= sent { Some((now - sent) as u64) } else { None::<u64> }),
{
    if now >= sent {
        Some(now - sent)
    } else {
        None
    }
}

/// `[1][system id bytes]`, the registration an agent sends to the relay.
pub fn registration_packet(system_id: &str) -> (p: Vec<u8>)
    ensures
        p@ == seq![1u8] + system_id.spec_bytes(),
{
    let mut p: Vec<u8> = Vec::new();
    p.push(1u8);
    push_all(&mut p, system_id.as_bytes());
    p
}

/// `[2][target id bytes][32-byte PIN hash]`, the request a viewer sends to the relay.
pub fn viewer_handshake_packet(target_id: &str, auth_hash: &[u8]) -> (p: Vec<u8>)
    requires
        auth_hash@.len() == 32,
    ensures
        p@ == seq![2u8] + target_id.spec_bytes() + auth_hash@,
{
    let mut p: Vec<u8> = Vec::new();
    p.push(2u8);
    push_all(&mut p, target_id.as_bytes());
    push_all(&mut p, auth_hash);
    p
}

/// `[3][32-byte PIN hash]`, the authentication request the relay forwards to a host.
pub fn auth_request_packet(auth_hash: &[u8]) -> (p: Vec<u8>)
    requires
        auth_hash@.len() == 32,
    ensures
        p@ == seq![3u8] + auth_hash@,
        p@.len() == 33,
{
    let mut p: Vec<u8> = Vec::with_capacity(33);
    p.push(3u8);
    push_all(&mut p, auth_hash);
    p
}

/// `[12][len: u32 BE][UTF-8 text]`
pub fn clipboard_packet(text: &[u8]) -> (p: Vec<u8>)
    requires
        text@.len() <= u32::MAX,
    ensures
        p@ == seq![CLIPBOARD] + be_bytes(text@.len(), 4) + text@,
{
    let mut p: Vec<u8> = Vec::new();
    p.push(CLIPBOARD);
    push_be(&mut p, text.len() as u64, 4);
    push_all(&mut p, text);
    p
}

/// `[16][sender][len: u16 BE][UTF-8 text]`; sender 0 is the host, 1 the viewer.
pub fn chat_packet(sender: u8, text: &[u8]) -> (p: Vec<u8>)
    requires
        text@.len() <= u16::MAX,
    ensures
        p@ == seq![CHAT, sender] + be_bytes(text@.len(), 2) + text@,
{
    let mut p: Vec<u8> = Vec::new();
    p.push(CHAT);
    p.push(sender);
    push_be(&mut p, text.len() as u64, 2);
    push_all(&mut p, text);
    assert(p@ =~= seq![CHAT, sender] + be_bytes(text@.len(), 2) + text@);
    p
}

/// `[20][name len: u16 BE][file size: u64 BE][name]`, announcing a file transfer.
pub fn file_meta_packet(name: &[u8], size: u64) -> (p: Vec<u8>)
    requires
        name@.len() <= u16::MAX,
    ensures
        p@ == seq![FILE_META] + be_bytes(name@.len(), 2) + be_bytes(size as nat, 8) + name@,
{
    let mut p: Vec<u8> = Vec::new();
    p.push(FILE_META);
    push_be(&mut p, name.len() as u64, 2);
    push_be(&mut p, size, 8);
    push_all(&mut p, name);
    p
}

/// `[21][len: u32 BE][bytes]`, one piece of a file transfer.
pub fn file_chunk_packet(data: &[u8]) -> (p: Vec<u8>)
    requires
        data@.len() <= u32::MAX,
    ensures
        p@ == seq![FILE_CHUNK] + be_bytes(data@.len(), 4) + data@,
{
    let mut p: Vec<u8> = Vec::new();
    p.push(FILE_CHUNK);
    push_be(&mut p, data.len() as u64, 4);
    push_all(&mut p, data);
    p
}

/// `[17][len: u32 BE][sample rate: u32 BE][channels: u16 BE][f32 LE samples]`
pub fn audio_packet(sample_rate: u32, channels: u16, samples: &[u8]) -> (p: Vec<u8>)
    requires
        samples@.len() <= u32::MAX,
    ensures
        p@ == seq![AUDIO] + be_bytes(samples@.len(), 4) + be_bytes(sample_rate as nat, 4)
            + be_bytes(channels as nat, 2) + samples@,
{
    let mut p: Vec<u8> = Vec::new();
    p.push(AUDIO);
    push_be(&mut p, samples.len() as u64, 4);
    push_be(&mut p, sample_rate as u64, 4);
    push_be(&mut p, channels as u64, 2);
    push_all(&mut p, samples);
    p
}

/// The header of a video frame.
#[derive(Clone, Copy, Debug, PartialEq, Eq, Structural)]
pub struct VideoHeader {
    pub width: u32,
    pub height: u32,
    pub payload_len: u32,
    /// Present in type 13 frames, absent from legacy type 15 frames.
    pub timestamp: Option<u64>,
}

/// Bytes of header after the type byte: 20 for type 13, 12 for legacy type 15.
pub open spec fn video_header_len(packet_type: u8) -> nat {
    if packet_type == VIDEO_FRAME {
        20
    } else {
        12
    }
}

/// `[13][width][height][size][timestamp: u64][H.264]`, all big-endian.
pub open spec fn video_frame_bytes(width: u32, height: u32, timestamp: u64, data: Seq<u8>) -> Seq<u8> {
    seq![VIDEO_FRAME] + be_bytes(width as nat, 4) + be_bytes(height as nat, 4) + be_bytes(
        data.len(),
        4,
    ) + be_bytes(timestamp as nat, 8) + data
}

/// `[15][width][height][size][H.264]`, all big-endian.
pub open spec fn legacy_video_frame_bytes(width: u32, height: u32, data: Seq<u8>) -> Seq<u8> {
    seq![VIDEO_FRAME_LEGACY] + be_bytes(width as nat, 4) + be_bytes(height as nat, 4) + be_bytes(
        data.len(),
        4,
    ) + data
}

/// Builds a type 13 video frame packet.
pub fn video_frame_packet(width: u32, height: u32, timestamp: u64, data: &[u8]) -> (p: Vec<u8>)
    requires
        data@.len() <= u32::MAX,
    ensures
        p@ == video_frame_bytes(width, height, timestamp, data@),
{
    let mut p: Vec<u8> = Vec::new();
    p.push(VIDEO_FRAME);
    push_be(&mut p, width as u64, 4);
    push_be(&mut p, height as u64, 4);
    push_be(&mut p, data.len() as u64, 4);
    push_be(&mut p, timestamp, 8);
    push_all(&mut p, data);
    p
}

/// Builds a legacy type 15 video frame packet.
pub fn legacy_video_frame_packet(width: u32, height: u32, data: &[u8]) -> (p: Vec<u8>)
    requires
        data@.len() <= u32::MAX,
    ensures
        p@ == legacy_video_frame_bytes(width, height, data@),
{
    let mut p: Vec<u8> = Vec::new();
    p.push(VIDEO_FRAME_LEGACY);
    push_be(&mut p, width as u64, 4);
    push_be(&mut p, height as u64, 4);
    push_be(&mut p, data.len() as u64, 4);
    push_all(&mut p, data);
    p
}

pub open spec fn spec_video_header(packet_type: u8, h: Seq<u8>) -> VideoHeader {
    VideoHeader {
        width: be_value(h.subrange(0, 4)) as u32,
        height: be_value(h.subrange(4, 8)) as u32,
        payload_len: be_value(h.subrange(8, 12)) as u32,
        timestamp: if packet_type == VIDEO_FRAME {
            Some(be_value(h.subrange(12, 20)) as u64)
        } else {
            None
        },
    }
}

/// Reads a video header that follows a type 13 or type 15 byte.
pub fn parse_video_header(packet_type: u8, header: &[u8]) -> (h: VideoHeader)
    requires
        packet_type == VIDEO_FRAME || packet_type == VIDEO_FRAME_LEGACY,
        header@.len() == video_header_len(packet_type),
    ensures
        h == spec_video_header(packet_type, header@),
{
    let w = copy_range(header, 0, 4);
    let hh = copy_range(header, 4, 8);
    let s = copy_range(header, 8, 12);
    let width = be_read(w.as_slice(), 4);
    let height = be_read(hh.as_slice(), 4);
    let size = be_read(s.as_slice(), 4);
    proof {
        assert(w@.take(4) == w@);
        assert(hh@.take(4) == hh@);
        assert(s@.take(4) == s@);
        lemma_be_value_bound(w@);
        lemma_be_value_bound(hh@);
        lemma_be_value_bound(s@);
        lemma_pow256_values();
    }
    let timestamp = if packet_type == VIDEO_FRAME {
        let t = copy_range(header, 12, 20);
        assert(t@.take(8) == t@);
        Some(be_read(t.as_slice(), 8))
    } else {
        None
    };
    VideoHeader { width: width as u32, height: height as u32, payload_len: size as u32, timestamp }
}

/// A viewer decodes a frame only when its dimensions and size are non-zero and
/// the size is at most `MAX_VIDEO_PAYLOAD`.
pub open spec fn spec_video_header_acceptable(h: VideoHeader) -> bool {
    h.width != 0 && h.height != 0 && h.payload_len != 0 && h.payload_len <= MAX_VIDEO_PAYLOAD
}

pub fn video_header_acceptable(h: &VideoHeader) -> (ok: bool)
    ensures
        ok == spec_video_header_acceptable(*h),
{
    h.width != 0 && h.height != 0 && h.payload_len != 0 && h.payload_len <= MAX_VIDEO_PAYLOAD
}

/// A type 13 frame read back gives its width, height, size and timestamp.
pub proof fn lemma_video_frame_roundtrip(width: u32, height: u32, timestamp: u64, data: Seq<u8>)
    requires
        data.len() <= u32::MAX,
    ensures
        video_frame_bytes(width, height, timestamp, data).len() == 21 + data.len(),
        video_frame_bytes(width, height, timestamp, data).subrange(21, 21 + data.len() as int) == data,
        spec_video_header(VIDEO_FRAME, video_frame_bytes(width, height, timestamp, data).subrange(1, 21))
            == (VideoHeader {
            width,
            height,
            payload_len: data.len() as u32,
            timestamp: Some(timestamp),
        }),
{
    lemma_pow256_values();
    lemma_be_roundtrip(width as nat, 4);
    lemma_be_roundtrip(height as nat, 4);
    lemma_be_roundtrip(data.len(), 4);
    lemma_be_roundtrip(timestamp as nat, 8);
    let p = video_frame_bytes(width, height, timestamp, data);
    let h = p.subrange(1, 21);
    assert(h.subrange(0, 4) =~= be_bytes(width as nat, 4));
    assert(h.subrange(4, 8) =~= be_bytes(height as nat, 4));
    assert(h.subrange(8, 12) =~= be_bytes(data.len(), 4));
    assert(h.subrange(12, 20) =~= be_bytes(timestamp as nat, 8));
    assert(p.subrange(21, 21 + data.len() as int) =~= data);
}

/// A legacy type 15 frame read back gives its width, height and size, and no
/// timestamp.
pub proof fn lemma_legacy_video_frame_roundtrip(width: u32, height: u32, data: Seq<u8>)
    requires
        data.len() <= u32::MAX,
    ensures
        legacy_video_frame_bytes(width, height, data).len() == 13 + data.len(),
        legacy_video_frame_bytes(width, height, data).subrange(13, 13 + data.len() as int) == data,
        spec_video_header(VIDEO_FRAME_LEGACY, legacy_video_frame_bytes(width, height, data).subrange(1, 13))
            == (VideoHeader { width, height, payload_len: data.len() as u32, timestamp: None }),
{
    lemma_pow256_values();
    lemma_be_roundtrip(width as nat, 4);
    lemma_be_roundtrip(height as nat, 4);
    lemma_be_roundtrip(data.len(), 4);
    let p = legacy_video_frame_bytes(width, height, data);
    let h = p.subrange(1, 13);
    assert(h.subrange(0, 4) =~= be_bytes(width as nat, 4));
    assert(h.subrange(4, 8) =~= be_bytes(height as nat, 4));
    assert(h.subrange(8, 12) =~= be_bytes(data.len(), 4));
    assert(p.subrange(13, 13 + data.len() as int) =~= data);
}

/// The viewer plays an audio packet only when its sample bytes are a non-empty
/// whole number of `f32` samples of at most `MAX_AUDIO_PACKET` bytes, and rate
/// and channel count are non-zero.
pub fn audio_header_acceptable(byte_len: u32, sample_rate: u32, channels: u16) -> (ok: bool)
    ensures
        ok == (byte_len != 0 && byte_len <= MAX_AUDIO_PACKET && byte_len % 4 == 0 && sample_rate
            != 0 && channels != 0),
{
    !(byte_len == 0 || byte_len > MAX_AUDIO_PACKET || byte_len % 4 != 0 || sample_rate == 0
        || channels == 0)
}

} // verus!
