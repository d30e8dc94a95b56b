//! Virtual keys and small keyboard → widget adapters.
//!
//! The menubar adapter reads only the key of an event; modifiers are ignored
//! there. Enter activation is debounced by [`KeyboardInput`]: one physical
//! press yields one activation until release.

use vstd::prelude::*;
use crate::menu::{next_index, prev_index, MenuBar};

verus! {

/// Logical keys for widgets.
#[derive(Debug, Clone, Copy, PartialEq, Eq, Structural)]
pub enum Key {
    Left,
    Right,
    Up,
    Down,
    Enter,
    Escape,
    Tab,
    Backspace,
    Delete,
    Home,
    End,
    PageUp,
    PageDown,
    /// Unicode from firmware text input.
    Character(char),
    /// Opaque scan / vendor code.
    Other(u16),
    /// Function key: `n` in 1..=12 for F1..=F12.
    Function(u8),
}

/// Shift / Ctrl / Alt as reported by the firmware (or set by the app itself).
#[derive(Debug, Clone, Copy, PartialEq, Eq, Structural)]
pub struct Modifiers {
    pub shift: bool,
    pub ctrl: bool,
    pub alt: bool,
}

impl Default for Modifiers {
    fn default() -> (r: Self)
        ensures
            r == Modifiers::none_spec(),
    {
        Modifiers::none()
    }
}

impl Modifiers {
    /// No modifier held.
    pub open spec fn none_spec() -> Modifiers {
        Modifiers { shift: false, ctrl: false, alt: false }
    }

    /// No modifier held.
    pub fn none() -> (r: Self)
        ensures
            r == Self::none_spec(),
    {
        Modifiers { shift: false, ctrl: false, alt: false }
    }
}

/// One physical key event: the key plus the modifiers held.
#[derive(Debug, Clone, Copy, PartialEq, Eq, Structural)]
pub struct KeyEvent {
    pub key: Key,
    pub modifiers: Modifiers,
}

impl KeyEvent {
    pub fn new(key: Key) -> (r: Self)
        ensures
            r.key == key,
            r.modifiers == Modifiers::none_spec(),
    {
        KeyEvent { key, modifiers: Modifiers::none() }
    }

    pub fn with_modifiers(key: Key, modifiers: Modifiers) -> (r: Self)
        ensures
            r.key == key,
            r.modifiers == modifiers,
    {
        KeyEvent { key, modifiers }
    }
}

/// Debounces **Enter**: one activation per physical press.
#[derive(Debug)]
pub struct KeyboardInput {
    enter_armed: bool,
}

impl Default for KeyboardInput {
    fn default() -> (r: Self)
        ensures
            !r.armed(),
    {
        KeyboardInput { enter_armed: false }
    }
}

impl KeyboardInput {
    /// Whether an Enter press has been seen and not yet released.
    pub closed spec fn armed(self) -> bool {
        self.enter_armed
    }

    /// `true` when this key-down should count as a fresh **Enter** (edge), `false` on
    /// auto-repeat; a release (`down == false`) re-arms and returns `false`.
    pub fn enter_edge_on_key_down(&mut self, down: bool) -> (r: bool)
        ensures
            r == (down && !old(self).armed()),
            final(self).armed() == down,
    {
        if down {
            if self.enter_armed {
                false
            } else {
                self.enter_armed = true;
                true
            }
        } else {
            self.enter_armed = false;
            false
        }
    }

    /// Same as [`Self::enter_edge_on_key_down`].
    pub fn on_enter_edge(&mut self, down: bool) -> (r: bool)
        ensures
            r == (down && !old(self).armed()),
            final(self).armed() == down,
    {
        self.enter_edge_on_key_down(down)
    }
}

/// What one key does to a menu bar: the focus after it (as in `MenuBar::nav_*`).
pub open spec fn menu_focus_after(len: nat, focused: nat, key: Key) -> nat {
    match key {
        Key::Left => prev_index(focused, len),
        Key::Right => next_index(focused, len),
        _ => focused,
    }
}

/// Apply one key to a top-level [`MenuBar`]. Returns `Some(index)` when Enter activates.
pub fn apply_key_to_menu(bar: &mut MenuBar<'_>, key: Key, gate: &mut KeyboardInput) -> (r: Option<usize>)
    ensures
        final(bar).labels_spec() == old(bar).labels_spec(),
        final(bar).focused_spec() == menu_focus_after(
            old(bar).labels_spec().len(),
            old(bar).focused_spec(),
            key,
        ),
        final(gate).armed() == (old(gate).armed() || key == Key::Enter),
        r == if key == Key::Enter && !old(gate).armed() && old(bar).labels_spec().len() > 0 {
            Some(old(bar).focused_spec() as usize)
        } else {
            None::<usize>
        },
{
    apply_key_event_to_menu(bar, &KeyEvent::new(key), gate)
}

/// Same as [`apply_key_to_menu`], using only the event's key (modifiers ignored).
pub fn apply_key_event_to_menu(bar: &mut MenuBar<'_>, ev: &KeyEvent, gate: &mut KeyboardInput) -> (r: Option<usize>)
    ensures
        final(bar).labels_spec() == old(bar).labels_spec(),
        final(bar).focused_spec() == menu_focus_after(
            old(bar).labels_spec().len(),
            old(bar).focused_spec(),
            ev.key,
        ),
        final(gate).armed() == (old(gate).armed() || ev.key == Key::Enter),
        r == if ev.key == Key::Enter && !old(gate).armed() && old(bar).labels_spec().len() > 0 {
            Some(old(bar).focused_spec() as usize)
        } else {
            None::<usize>
        },
{
    match ev.key {
        Key::Left => {
            bar.nav_prev();
            None
        },
        Key::Right => {
            bar.nav_next();
            None
        },
        Key::Enter => {
            if gate.on_enter_edge(true) {
                bar.activate_focused()
            } else {
                None
            }
        },
        _ => None,
    }
}

/// On key up: Enter going up lets the next Enter press activate.
pub fn key_up(_bar: &mut MenuBar<'_>, key: Key, gate: &mut KeyboardInput)
    ensures
        *final(_bar) == *old(_bar),
        final(gate).armed() == (old(gate).armed() && key != Key::Enter),
{
    if key == Key::Enter {
        gate.on_enter_edge(false);
    }
}

/// Same as [`key_up`] for a whole event.
pub fn key_event_up(_bar: &mut MenuBar<'_>, ev: &KeyEvent, gate: &mut KeyboardInput)
    ensures
        *final(_bar) == *old(_bar),
        final(gate).armed() == (old(gate).armed() && ev.key != Key::Enter),
{
    key_up(_bar, ev.key, gate);
}

} // verus!
