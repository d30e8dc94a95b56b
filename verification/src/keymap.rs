//! Firmware key codes to key events: the simple text input protocol reports either
//! a printable UCS-2 character or a scan code for a special key.

use vstd::prelude::*;
use crate::input::{Key, KeyEvent, Modifiers};
use crate::keyboard_layout::{char_from_u32, is_scalar};

verus! {

/// A key as the firmware reports it.
#[derive(Debug, Clone, Copy, PartialEq, Eq, Structural)]
pub enum RawKey {
    /// A printable character (one UCS-2 code unit).
    Printable(u16),
    /// A special key, by scan code.
    Special(u16),
}

pub const SCAN_UP: u16 = 0x01;
pub const SCAN_DOWN: u16 = 0x02;
pub const SCAN_RIGHT: u16 = 0x03;
pub const SCAN_LEFT: u16 = 0x04;
pub const SCAN_HOME: u16 = 0x05;
pub const SCAN_END: u16 = 0x06;
pub const SCAN_INSERT: u16 = 0x07;
pub const SCAN_DELETE: u16 = 0x08;
pub const SCAN_PAGE_UP: u16 = 0x09;
pub const SCAN_PAGE_DOWN: u16 = 0x0A;
/// F1; F2 to F12 follow in order.
pub const SCAN_FUNCTION_1: u16 = 0x0B;
pub const SCAN_FUNCTION_10: u16 = 0x14;
pub const SCAN_FUNCTION_12: u16 = 0x16;
pub const SCAN_ESCAPE: u16 = 0x17;

/// The navigation and editing key of scan code `code`: arrows, Home, End, Delete,
/// Page Up/Down and Escape.
pub open spec fn nav_key(code: u16) -> Option<Key> {
    if code == SCAN_LEFT {
        Some(Key::Left)
    } else if code == SCAN_RIGHT {
        Some(Key::Right)
    } else if code == SCAN_UP {
        Some(Key::Up)
    } else if code == SCAN_DOWN {
        Some(Key::Down)
    } else if code == SCAN_HOME {
        Some(Key::Home)
    } else if code == SCAN_END {
        Some(Key::End)
    } else if code == SCAN_DELETE {
        Some(Key::Delete)
    } else if code == SCAN_PAGE_UP {
        Some(Key::PageUp)
    } else if code == SCAN_PAGE_DOWN {
        Some(Key::PageDown)
    } else if code == SCAN_ESCAPE {
        Some(Key::Escape)
    } else {
        None
    }
}

/// Scan code to navigation key (see [`nav_key`]).
pub fn nav_key_of(code: u16) -> (r: Option<Key>)
    ensures
        r == nav_key(code),
{
    if code == SCAN_LEFT {
        Some(Key::Left)
    } else if code == SCAN_RIGHT {
        Some(Key::Right)
    } else if code == SCAN_UP {
        Some(Key::Up)
    } else if code == SCAN_DOWN {
        Some(Key::Down)
    } else if code == SCAN_HOME {
        Some(Key::Home)
    } else if code == SCAN_END {
        Some(Key::End)
    } else if code == SCAN_DELETE {
        Some(Key::Delete)
    } else if code == SCAN_PAGE_UP {
        Some(Key::PageUp)
    } else if code == SCAN_PAGE_DOWN {
        Some(Key::PageDown)
    } else if code == SCAN_ESCAPE {
        Some(Key::Escape)
    } else {
        None
    }
}

/// The event for printable code unit `u`: CR and LF are Enter, HT is Tab, BS is
/// Backspace, the control codes 1–26 are Ctrl + the letter `a`–`z`, anything else
/// is that character (`None` for a code unit that is no character).
pub open spec fn printable_event(u: u16) -> Option<KeyEvent> {
    if !is_scalar(u as int) {
        None
    } else if u == 13 || u == 10 {
        Some(KeyEvent { key: Key::Enter, modifiers: Modifiers::none_spec() })
    } else if u == 9 {
        Some(KeyEvent { key: Key::Tab, modifiers: Modifiers::none_spec() })
    } else if u == 8 {
        Some(KeyEvent { key: Key::Backspace, modifiers: Modifiers::none_spec() })
    } else if 1 <= u <= 26 {
        Some(KeyEvent {
            key: Key::Character((0x60 + u) as char),
            modifiers: Modifiers { ctrl: true, shift: false, alt: false },
        })
    } else {
        Some(KeyEvent { key: Key::Character(u as char), modifiers: Modifiers::none_spec() })
    }
}

/// Key event for a printable code unit (see [`printable_event`]).
pub fn printable_key_event(u: u16) -> (r: Option<KeyEvent>)
    ensures
        r == printable_event(u),
{
    let c = match char_from_u32(u as u32) {
        Some(c) => c,
        None => {
            return None;
        },
    };
    if c == '\r' || c == '\n' {
        return Some(KeyEvent::new(Key::Enter));
    }
    if c == '\t' {
        return Some(KeyEvent::new(Key::Tab));
    }
    if c == '\u{8}' {
        return Some(KeyEvent::new(Key::Backspace));
    }
    let v = u as u32;
    if 1 <= v && v <= 26 {
        let lc = match char_from_u32(0x60 + v) {
            Some(lc) => lc,
            None => {
                return None;
            },
        };
        return Some(KeyEvent::with_modifiers(Key::Character(lc), Modifiers { ctrl: true, shift: false, alt: false }));
    }
    Some(KeyEvent::new(Key::Character(c)))
}

} // verus!
