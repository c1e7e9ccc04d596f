//! The desktop agent's tray icon: what its window messages ask for, the
//! menu it shows, and the fixed-size UTF-16 texts it hands to Windows.
use vstd::prelude::*;
use crate::text::{chars_of, lemma_utf16_prefix, utf16_of, utf16_units};

verus! {

/// The message the tray icon sends its window (`WM_USER + 1`).
pub const WM_TRAYICON: u32 = 0x0401;

/// What the agent's tray window does with a message.
#[derive(Clone, Copy, Debug, PartialEq, Eq, Structural)]
pub enum TrayAction {
    /// Restore the agent's main window and bring it to the front.
    RestoreWindow,
    /// Show the context menu at the cursor.
    ShowMenu,
    /// Tell the agent to quit, then end the message loop.
    ExitAgent,
    /// End the message loop (the window is being destroyed).
    EndLoop,
    /// Handled, with nothing to do.
    Nothing,
    /// Not the tray's message: the default window procedure handles it.
    PassOn,
}

/// The menu items and what each asks for; ending a remote session from the
/// tray does nothing yet.
pub open spec fn spec_tray_command(cmd: usize) -> TrayAction {
    if cmd == 200 || cmd == 201 || cmd == 202 || cmd == 204 {
        TrayAction::RestoreWindow
    } else if cmd == 205 {
        TrayAction::ExitAgent
    } else {
        TrayAction::Nothing
    }
}

pub open spec fn spec_tray_action(msg: u32, wparam: usize, lparam: isize) -> TrayAction {
    if msg == WM_TRAYICON {
        let event = (lparam & 0xFFFF) as u32;
        if event == 0x0203 || event == 0x0202 {
            TrayAction::RestoreWindow
        } else if event == 0x0205 {
            TrayAction::ShowMenu
        } else {
            TrayAction::Nothing
        }
    } else if msg == 0x0111 {
        spec_tray_command(wparam & 0xFFFF)
    } else if msg == 0x0002 {
        TrayAction::EndLoop
    } else {
        TrayAction::PassOn
    }
}

/// The action for a message to the tray window: a left click or double
/// click on the icon restores the main window, a right click opens the
/// menu; the menu's commands (`WM_COMMAND`) restore the window or exit;
/// `WM_DESTROY` ends the loop.
pub fn tray_action(msg: u32, wparam: usize, lparam: isize) -> (a: TrayAction)
    ensures
        a == spec_tray_action(msg, wparam, lparam),
{
    if msg == WM_TRAYICON {
        let event = (lparam & 0xFFFF) as u32;
        if event == 0x0203 || event == 0x0202 {
            TrayAction::RestoreWindow
        } else if event == 0x0205 {
            TrayAction::ShowMenu
        } else {
            TrayAction::Nothing
        }
    } else if msg == 0x0111 {
        let cmd = wparam & 0xFFFF;
        if cmd == 200 || cmd == 201 || cmd == 202 || cmd == 204 {
            TrayAction::RestoreWindow
        } else if cmd == 205 {
            TrayAction::ExitAgent
        } else {
            TrayAction::Nothing
        }
    } else if msg == 0x0002 {
        TrayAction::EndLoop
    } else {
        TrayAction::PassOn
    }
}

/// An entry of the tray menu.
#[derive(Clone, Copy, Debug, PartialEq, Eq)]
pub enum MenuEntry {
    Item { id: usize, label: &'static str },
    Separator,
}

/// The tray menu, top to bottom.
pub fn tray_menu() -> (m: Vec<MenuEntry>)
    ensures
        m@ == seq![
            MenuEntry::Item { id: 200, label: "Open DeskStream Agent" },
            MenuEntry::Separator,
            MenuEntry::Item { id: 201, label: "Settings" },
            MenuEntry::Item { id: 202, label: "View Logs" },
            MenuEntry::Separator,
            MenuEntry::Item { id: 203, label: "End Remote Session" },
            MenuEntry::Item { id: 204, label: "Restart Agent" },
            MenuEntry::Separator,
            MenuEntry::Item { id: 205, label: "Exit" },
        ],
{
    let mut m: Vec<MenuEntry> = Vec::new();
    m.push(MenuEntry::Item { id: 200, label: "Open DeskStream Agent" });
    m.push(MenuEntry::Separator);
    m.push(MenuEntry::Item { id: 201, label: "Settings" });
    m.push(MenuEntry::Item { id: 202, label: "View Logs" });
    m.push(MenuEntry::Separator);
    m.push(MenuEntry::Item { id: 203, label: "End Remote Session" });
    m.push(MenuEntry::Item { id: 204, label: "Restart Agent" });
    m.push(MenuEntry::Separator);
    m.push(MenuEntry::Item { id: 205, label: "Exit" });
    assert(m@ =~= seq![
        MenuEntry::Item { id: 200, label: "Open DeskStream Agent" },
        MenuEntry::Separator,
        MenuEntry::Item { id: 201, label: "Settings" },
        MenuEntry::Item { id: 202, label: "View Logs" },
        MenuEntry::Separator,
        MenuEntry::Item { id: 203, label: "End Remote Session" },
        MenuEntry::Item { id: 204, label: "Restart Agent" },
        MenuEntry::Separator,
        MenuEntry::Item { id: 205, label: "Exit" },
    ]);
    m
}

/// A text as a fixed buffer of `n` UTF-16 units, as the icon's tooltip
/// takes it: as many of its units as fit before a final NUL, then NULs.
pub open spec fn spec_wide_fixed(s: Seq<char>, n: nat) -> Seq<u16> {
    let units = utf16_of(s);
    let k = if units.len() < n - 1 {
        units.len()
    } else {
        (n - 1) as nat
    };
    Seq::new(n, |i: int| if i < k {
        units[i]
    } else {
        0u16
    })
}

pub fn wide_to_fixed(s: &str, n: usize) -> (w: Vec<u16>)
    requires
        n >= 1,
    ensures
        w@ == spec_wide_fixed(s@, n as nat),
{
    let cs = chars_of(s);
    let mut units: Vec<u16> = Vec::new();
    let mut i: usize = 0;
    while i < cs.len() && units.len() < n - 1
        invariant
            i <= cs.len(),
            cs@ == s@,
            n >= 1,
            units@ == utf16_of(cs@.take(i as int)),
        decreases cs.len() - i,
    {
        let c = cs[i];
        let v = c as u32;
        proof {
            vstd::utf8::char_is_scalar(c);
            assert(cs@.take(i + 1).drop_last() =~= cs@.take(i as int));
        }
        if v < 0x10000 {
            units.push(v as u16);
        } else {
            let x = v - 0x10000;
            units.push((0xD800 + x / 1024) as u16);
            units.push((0xDC00 + x % 1024) as u16);
        }
        proof {
            assert(units@ =~= utf16_of(cs@.take(i as int)) + utf16_units(c));
        }
        i += 1;
    }
    proof {
        lemma_utf16_prefix(cs@, i as int);
        if i == cs.len() {
            assert(cs@.take(i as int) =~= cs@);
        }
    }
    let k = if units.len() < n - 1 {
        units.len()
    } else {
        n - 1
    };
    let mut w: Vec<u16> = Vec::new();
    let mut j: usize = 0;
    while j < n
        invariant
            j <= n,
            k <= units@.len(),
            k <= n - 1,
            forall|t: int| 0 <= t < j ==> w@[t] == (if t < k {
                units@[t]
            } else {
                0u16
            }),
            w@.len() == j,
        decreases n - j,
    {
        if j < k {
            w.push(units[j]);
        } else {
            w.push(0);
        }
        j += 1;
    }
    proof {
        let full = utf16_of(s@);
        assert(k == (if full.len() < n - 1 {
            full.len()
        } else {
            (n - 1) as nat
        }));
        assert forall|t: int| 0 <= t < k implies units@[t] == full[t] by {
            assert(utf16_of(cs@.take(i as int))[t] == full[t]);
        }
    }
    assert(w@ =~= spec_wide_fixed(s@, n as nat));
    w
}

} // verus!
