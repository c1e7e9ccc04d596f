//! Keys: what a viewer sends for a key it sees, what the agent's text fields
//! type for one, and which key the agent presses for a received code.
use vstd::prelude::*;
use crate::protocol::{
    encode_input_event, input_event_bytes, lemma_input_event_roundtrip, spec_decode_input,
    InputEvent, MONITOR_SWITCH,
};

verus! {

/// A key of the viewer's or the agent's window. Left and right modifier keys
/// are not told apart: nothing here treats them differently.
#[derive(Clone, Copy, Debug, PartialEq, Eq, Structural)]
pub enum Key {
    /// The letter keys, `Letter(0)` for A to `Letter(25)` for Z.
    Letter(u8),
    /// The digit keys of the main row, `Digit(0)` to `Digit(9)`.
    Digit(u8),
    /// The digit keys of the number pad.
    NumPad(u8),
    NumPadDot,
    NumPadMinus,
    Period,
    Minus,
    Space,
    Enter,
    Backspace,
    Tab,
    Escape,
    Shift,
    Ctrl,
    Alt,
    Left,
    Up,
    Right,
    Down,
    Delete,
    /// The function keys, `Function(1)` for F1 to `Function(12)` for F12.
    Function(u8),
    /// Any other key.
    Other,
}

/// The monitor a viewer's function key selects: F1, F2 and F3 pick the
/// first three monitors.
pub open spec fn spec_monitor_hotkey(k: Key) -> Option<u16> {
    match k {
        Key::Function(n) => if 1 <= n <= 3 {
            Some((n - 1) as u16)
        } else {
            None
        },
        _ => None,
    }
}

/// The packet a viewer sends for a monitor hotkey: a monitor switch (type 10)
/// carrying the monitor index, which the agent decodes back to that switch.
pub fn monitor_hotkey_packet(k: Key) -> (r: Option<Vec<u8>>)
    ensures
        r is None <==> spec_monitor_hotkey(k) is None,
        r matches Some(p) ==> spec_monitor_hotkey(k) matches Some(i) && p@ == input_event_bytes(
            InputEvent::MonitorSwitch { index: i },
        ) && p@[0] == MONITOR_SWITCH && spec_decode_input(p@[0], p@.subrange(1, 9)) == Some(
            InputEvent::MonitorSwitch { index: i },
        ),
{
    match k {
        Key::Function(n) => if 1 <= n && n <= 3 {
            let ev = InputEvent::MonitorSwitch { index: (n - 1) as u16 };
            proof {
                lemma_input_event_roundtrip(ev);
            }
            Some(encode_input_event(ev))
        } else {
            None
        },
        _ => None,
    }
}

/// The virtual-key code a viewer sends for a key, when it sends one.
pub open spec fn spec_key_code(k: Key) -> Option<u32> {
    match k {
        Key::Letter(i) => if i < 26 {
            Some((65 + i) as u32)
        } else {
            None
        },
        Key::Digit(d) => if d < 10 {
            Some((48 + d) as u32)
        } else {
            None
        },
        Key::Space => Some(32),
        Key::Enter => Some(13),
        Key::Backspace => Some(8),
        Key::Tab => Some(9),
        Key::Shift => Some(16),
        Key::Ctrl => Some(17),
        Key::Alt => Some(18),
        Key::Left => Some(37),
        Key::Up => Some(38),
        Key::Right => Some(39),
        Key::Down => Some(40),
        Key::Delete => Some(46),
        Key::Escape => Some(27),
        _ => None,
    }
}

pub fn key_to_agent_code(k: Key) -> (r: Option<u32>)
    ensures
        r == spec_key_code(k),
{
    match k {
        Key::Letter(i) => if i < 26 {
            Some((65 + i) as u32)
        } else {
            None
        },
        Key::Digit(d) => if d < 10 {
            Some((48 + d) as u32)
        } else {
            None
        },
        Key::Space => Some(32),
        Key::Enter => Some(13),
        Key::Backspace => Some(8),
        Key::Tab => Some(9),
        Key::Shift => Some(16),
        Key::Ctrl => Some(17),
        Key::Alt => Some(18),
        Key::Left => Some(37),
        Key::Up => Some(38),
        Key::Right => Some(39),
        Key::Down => Some(40),
        Key::Delete => Some(46),
        Key::Escape => Some(27),
        _ => None,
    }
}

/// The 16-bit code the agent window's built-in viewer sends: the same codes,
/// without Delete and Escape.
pub fn legacy_key_code(k: Key) -> (r: Option<u16>)
    ensures
        r matches Some(c) ==> spec_key_code(k) == Some(c as u32) && k != Key::Delete && k
            != Key::Escape,
        r is None <==> (spec_key_code(k) is None || k == Key::Delete || k == Key::Escape),
{
    if k == Key::Delete || k == Key::Escape {
        return None;
    }
    match key_to_agent_code(k) {
        Some(c) => Some(c as u16),
        None => None,
    }
}

/// The character a key types into the agent window's text fields.
pub open spec fn spec_key_char(k: Key) -> Option<char> {
    match k {
        Key::Digit(d) => if d < 10 {
            Some(((48 + d) as u32) as char)
        } else {
            None
        },
        Key::NumPad(d) => if d < 10 {
            Some(((48 + d) as u32) as char)
        } else {
            None
        },
        Key::Letter(i) => if i < 26 {
            Some(((97 + i) as u32) as char)
        } else {
            None
        },
        Key::Period | Key::NumPadDot => Some('.'),
        Key::Minus | Key::NumPadMinus => Some('-'),
        Key::Space => Some(' '),
        _ => None,
    }
}

/// The character each key types in the agent window's fields: a digit key
/// (main row or number pad) its digit, a letter key its lower case letter,
/// `.` and `-` from either row, and space; no other key types one.
pub proof fn lemma_key_chars(k: Key)
    ensures
        k matches Key::Digit(d) ==> spec_key_char(k) == (if d < 10 {
            Some(('0' as u8 + d) as char)
        } else {
            None
        }),
        k matches Key::NumPad(d) ==> spec_key_char(k) == (if d < 10 {
            Some(('0' as u8 + d) as char)
        } else {
            None
        }),
        k matches Key::Letter(i) ==> spec_key_char(k) == (if i < 26 {
            Some(('a' as u8 + i) as char)
        } else {
            None
        }),
        spec_key_char(Key::Period) == Some('.'),
        spec_key_char(Key::NumPadDot) == Some('.'),
        spec_key_char(Key::Minus) == Some('-'),
        spec_key_char(Key::NumPadMinus) == Some('-'),
        spec_key_char(Key::Space) == Some(' '),
        (k is Enter || k is Backspace || k is Tab || k is Escape || k is Shift || k is Ctrl
            || k is Alt || k is Left || k is Up || k is Right || k is Down || k is Delete
            || k is Function || k is Other) ==> spec_key_char(k) is None,
{
}

pub fn key_to_char(k: Key) -> (r: Option<char>)
    ensures
        r == spec_key_char(k),
{
    match k {
        Key::Digit(d) => if d < 10 {
            Some((48 + d) as char)
        } else {
            None
        },
        Key::NumPad(d) => if d < 10 {
            Some((48 + d) as char)
        } else {
            None
        },
        Key::Letter(i) => if i < 26 {
            Some((97 + i) as char)
        } else {
            None
        },
        Key::Period | Key::NumPadDot => Some('.'),
        Key::Minus | Key::NumPadMinus => Some('-'),
        Key::Space => Some(' '),
        _ => None,
    }
}

/// A key the agent presses on its own machine.
#[derive(Clone, Copy, Debug, PartialEq, Eq, Structural)]
pub enum AgentKey {
    /// A key that types this character.
    Unicode(char),
    Space,
    Return,
    Backspace,
    Tab,
    Shift,
    Control,
    Alt,
    LeftArrow,
    UpArrow,
    RightArrow,
    DownArrow,
    Delete,
}

/// The key the agent presses for a received virtual-key code: letters as
/// their lowercase character, digits as theirs.
pub open spec fn spec_agent_key(code: u32) -> Option<AgentKey> {
    if 65 <= code <= 90 {
        Some(AgentKey::Unicode(((code + 32) as u32) as char))
    } else if 48 <= code <= 57 {
        Some(AgentKey::Unicode((code as u32) as char))
    } else if code == 32 {
        Some(AgentKey::Space)
    } else if code == 13 {
        Some(AgentKey::Return)
    } else if code == 8 {
        Some(AgentKey::Backspace)
    } else if code == 9 {
        Some(AgentKey::Tab)
    } else if code == 16 {
        Some(AgentKey::Shift)
    } else if code == 17 {
        Some(AgentKey::Control)
    } else if code == 18 {
        Some(AgentKey::Alt)
    } else if code == 37 {
        Some(AgentKey::LeftArrow)
    } else if code == 38 {
        Some(AgentKey::UpArrow)
    } else if code == 39 {
        Some(AgentKey::RightArrow)
    } else if code == 40 {
        Some(AgentKey::DownArrow)
    } else if code == 46 {
        Some(AgentKey::Delete)
    } else {
        None
    }
}

pub fn map_key_code(code: u32) -> (r: Option<AgentKey>)
    ensures
        r == spec_agent_key(code),
{
    if 65 <= code && code <= 90 {
        Some(AgentKey::Unicode(((code + 32) as u8) as char))
    } else if 48 <= code && code <= 57 {
        Some(AgentKey::Unicode((code as u8) as char))
    } else if code == 32 {
        Some(AgentKey::Space)
    } else if code == 13 {
        Some(AgentKey::Return)
    } else if code == 8 {
        Some(AgentKey::Backspace)
    } else if code == 9 {
        Some(AgentKey::Tab)
    } else if code == 16 {
        Some(AgentKey::Shift)
    } else if code == 17 {
        Some(AgentKey::Control)
    } else if code == 18 {
        Some(AgentKey::Alt)
    } else if code == 37 {
        Some(AgentKey::LeftArrow)
    } else if code == 38 {
        Some(AgentKey::UpArrow)
    } else if code == 39 {
        Some(AgentKey::RightArrow)
    } else if code == 40 {
        Some(AgentKey::DownArrow)
    } else if code == 46 {
        Some(AgentKey::Delete)
    } else {
        None
    }
}

/// Every key a viewer sends a code for, except Escape, is pressed again on
/// the agent: letters as their lowercase character, digits as themselves.
pub proof fn lemma_sent_keys_are_pressed(k: Key)
    requires
        spec_key_code(k) is Some,
        k != Key::Escape,
    ensures
        spec_agent_key(spec_key_code(k).unwrap()) is Some,
        k matches Key::Letter(i) ==> spec_agent_key(spec_key_code(k).unwrap()) == Some(
            AgentKey::Unicode(spec_key_char(k).unwrap()),
        ),
        k matches Key::Digit(d) ==> spec_agent_key(spec_key_code(k).unwrap()) == Some(
            AgentKey::Unicode(spec_key_char(k).unwrap()),
        ),
{
}

/// The Windows virtual-key code a viewer sends for each key is that very
/// key's: A-Z 65-90, the main-row digits 48-57, Space 32, Enter 13,
/// Backspace 8, Tab 9, Shift 16, Ctrl 17, Alt 18, Left 37, Up 38, Right 39,
/// Down 40, Delete 46, Escape 27; no other key sends one.
pub proof fn lemma_virtual_key_codes(k: Key)
    ensures
        spec_key_code(Key::Space) == Some(32u32),
        spec_key_code(Key::Enter) == Some(13u32),
        spec_key_code(Key::Backspace) == Some(8u32),
        spec_key_code(Key::Tab) == Some(9u32),
        spec_key_code(Key::Shift) == Some(16u32),
        spec_key_code(Key::Ctrl) == Some(17u32),
        spec_key_code(Key::Alt) == Some(18u32),
        spec_key_code(Key::Left) == Some(37u32),
        spec_key_code(Key::Up) == Some(38u32),
        spec_key_code(Key::Right) == Some(39u32),
        spec_key_code(Key::Down) == Some(40u32),
        spec_key_code(Key::Delete) == Some(46u32),
        spec_key_code(Key::Escape) == Some(27u32),
        k matches Key::Letter(i) ==> spec_key_code(k) == (if i < 26 {
            Some((65 + i) as u32)
        } else {
            None
        }),
        k matches Key::Digit(d) ==> spec_key_code(k) == (if d < 10 {
            Some((48 + d) as u32)
        } else {
            None
        }),
        (k is NumPad || k is NumPadDot || k is NumPadMinus || k is Period || k is Minus
            || k is Function || k is Other) ==> spec_key_code(k) is None,
{
}

/// The key the agent presses for each received code is the key that code
/// names: 65-90 the letters a-z, 48-57 the digits, 32 Space, 13 Return,
/// 8 Backspace, 9 Tab, 16 Shift, 17 Control, 18 Alt, 37 Left, 38 Up,
/// 39 Right, 40 Down, 46 Delete; any other code presses nothing.
pub proof fn lemma_agent_key_codes(code: u32)
    ensures
        spec_agent_key(32) == Some(AgentKey::Space),
        spec_agent_key(13) == Some(AgentKey::Return),
        spec_agent_key(8) == Some(AgentKey::Backspace),
        spec_agent_key(9) == Some(AgentKey::Tab),
        spec_agent_key(16) == Some(AgentKey::Shift),
        spec_agent_key(17) == Some(AgentKey::Control),
        spec_agent_key(18) == Some(AgentKey::Alt),
        spec_agent_key(37) == Some(AgentKey::LeftArrow),
        spec_agent_key(38) == Some(AgentKey::UpArrow),
        spec_agent_key(39) == Some(AgentKey::RightArrow),
        spec_agent_key(40) == Some(AgentKey::DownArrow),
        spec_agent_key(46) == Some(AgentKey::Delete),
        65 <= code <= 90 ==> spec_agent_key(code) == Some(AgentKey::Unicode((code + 32) as char)),
        48 <= code <= 57 ==> spec_agent_key(code) == Some(AgentKey::Unicode(code as char)),
        !(65 <= code <= 90 || 48 <= code <= 57 || code == 32 || code == 13 || code == 8 || code
            == 9 || code == 16 || code == 17 || code == 18 || (37 <= code <= 40) || code == 46)
            ==> spec_agent_key(code) is None,
{
}

/// The agent presses the key the viewer's user pressed: the arrows as the
/// same arrows, Delete as Delete, the editing and modifier keys as
/// themselves.
pub proof fn lemma_agent_presses_the_same_key()
    ensures
        spec_agent_key(spec_key_code(Key::Left).unwrap()) == Some(AgentKey::LeftArrow),
        spec_agent_key(spec_key_code(Key::Up).unwrap()) == Some(AgentKey::UpArrow),
        spec_agent_key(spec_key_code(Key::Right).unwrap()) == Some(AgentKey::RightArrow),
        spec_agent_key(spec_key_code(Key::Down).unwrap()) == Some(AgentKey::DownArrow),
        spec_agent_key(spec_key_code(Key::Delete).unwrap()) == Some(AgentKey::Delete),
        spec_agent_key(spec_key_code(Key::Space).unwrap()) == Some(AgentKey::Space),
        spec_agent_key(spec_key_code(Key::Enter).unwrap()) == Some(AgentKey::Return),
        spec_agent_key(spec_key_code(Key::Backspace).unwrap()) == Some(AgentKey::Backspace),
        spec_agent_key(spec_key_code(Key::Tab).unwrap()) == Some(AgentKey::Tab),
        spec_agent_key(spec_key_code(Key::Shift).unwrap()) == Some(AgentKey::Shift),
        spec_agent_key(spec_key_code(Key::Ctrl).unwrap()) == Some(AgentKey::Control),
        spec_agent_key(spec_key_code(Key::Alt).unwrap()) == Some(AgentKey::Alt),
{
}

/// Windows' `KEYEVENTF_EXTENDEDKEY` flag.
pub const KEYEVENTF_EXTENDEDKEY: u32 = 1;

/// Windows' `KEYEVENTF_KEYUP` flag.
pub const KEYEVENTF_KEYUP: u32 = 2;

/// Whether Windows takes a virtual key as an extended key: the navigation
/// block (33 to 46), the Windows and menu keys (91 to 93), Num Lock and
/// Scroll Lock (144, 145).
pub open spec fn is_extended_key(vk: u32) -> bool {
    (33 <= vk <= 46) || (91 <= vk <= 93) || vk == 144 || vk == 145
}

/// The flags the agent injects a key press or release with.
pub fn key_event_flags(vk: u32, is_up: bool) -> (f: u32)
    ensures
        f == (if is_up {
            KEYEVENTF_KEYUP
        } else {
            0
        }) + (if is_extended_key(vk) {
            KEYEVENTF_EXTENDEDKEY
        } else {
            0
        }),
{
    let mut flags: u32 = if is_up {
        KEYEVENTF_KEYUP
    } else {
        0
    };
    if (33 <= vk && vk <= 46) || (91 <= vk && vk <= 93) || vk == 144 || vk == 145 {
        flags = flags + KEYEVENTF_EXTENDEDKEY;
    }
    flags
}

} // verus!
