//! Keyboard layout picker: dialog state over the firmware's layouts, and the parsing of
//! the layout descriptor data the firmware hands out (UTF-16LE strings inside a
//! keyboard layout record).

use vstd::prelude::*;
use uefi_raw::Guid;

verus! {

/// The firmware's GUID type, carried through the picker unchanged.
#[verifier::external_type_specification]
#[verifier::external_body]
pub struct ExGuid(Guid);

/// A keyboard layout known to the firmware.
#[derive(Debug)]
pub struct KeyboardLayout {
    /// Identifier of the layout.
    pub guid: Guid,
    /// Human-readable name (e.g. "Danish", "US English").
    pub descriptor: String,
}

/// Name of a layout from a table of well-known GUIDs. No GUID is known: names come
/// from the firmware's descriptors, so this always answers `None`.
pub fn get_known_layout_name(_guid: &Guid) -> (r: Option<&'static str>)
    ensures
        r is None,
{
    None
}

/// Which zone of the layout dialog has keyboard focus.
#[derive(Debug, Clone, Copy, PartialEq, Eq, Structural)]
pub enum KeyboardLayoutPickerFocus {
    /// The list of layouts.
    List,
    /// The OK button.
    OkButton,
    /// The Cancel button.
    CancelButton,
}

impl KeyboardLayoutPickerFocus {
    /// Advance focus (Tab): List → OK → Cancel → List.
    pub fn next(self) -> (r: Self)
        ensures
            r == match self {
                KeyboardLayoutPickerFocus::List => KeyboardLayoutPickerFocus::OkButton,
                KeyboardLayoutPickerFocus::OkButton => KeyboardLayoutPickerFocus::CancelButton,
                KeyboardLayoutPickerFocus::CancelButton => KeyboardLayoutPickerFocus::List,
            },
    {
        match self {
            KeyboardLayoutPickerFocus::List => KeyboardLayoutPickerFocus::OkButton,
            KeyboardLayoutPickerFocus::OkButton => KeyboardLayoutPickerFocus::CancelButton,
            KeyboardLayoutPickerFocus::CancelButton => KeyboardLayoutPickerFocus::List,
        }
    }

    /// Retreat focus (Shift+Tab): the reverse of [`Self::next`].
    pub fn prev(self) -> (r: Self)
        ensures
            r == match self {
                KeyboardLayoutPickerFocus::List => KeyboardLayoutPickerFocus::CancelButton,
                KeyboardLayoutPickerFocus::OkButton => KeyboardLayoutPickerFocus::List,
                KeyboardLayoutPickerFocus::CancelButton => KeyboardLayoutPickerFocus::OkButton,
            },
    {
        match self {
            KeyboardLayoutPickerFocus::List => KeyboardLayoutPickerFocus::CancelButton,
            KeyboardLayoutPickerFocus::OkButton => KeyboardLayoutPickerFocus::List,
            KeyboardLayoutPickerFocus::CancelButton => KeyboardLayoutPickerFocus::OkButton,
        }
    }
}

/// Going back undoes going forward, and going forward undoes going back.
pub proof fn lemma_picker_focus_inverse(f: KeyboardLayoutPickerFocus)
    ensures
        picker_prev(picker_next(f)) == f,
        picker_next(picker_prev(f)) == f,
{
}

/// Tab order of the dialog's zones.
pub open spec fn picker_next(f: KeyboardLayoutPickerFocus) -> KeyboardLayoutPickerFocus {
    match f {
        KeyboardLayoutPickerFocus::List => KeyboardLayoutPickerFocus::OkButton,
        KeyboardLayoutPickerFocus::OkButton => KeyboardLayoutPickerFocus::CancelButton,
        KeyboardLayoutPickerFocus::CancelButton => KeyboardLayoutPickerFocus::List,
    }
}

/// Reverse Tab order of the dialog's zones.
pub open spec fn picker_prev(f: KeyboardLayoutPickerFocus) -> KeyboardLayoutPickerFocus {
    match f {
        KeyboardLayoutPickerFocus::List => KeyboardLayoutPickerFocus::CancelButton,
        KeyboardLayoutPickerFocus::OkButton => KeyboardLayoutPickerFocus::List,
        KeyboardLayoutPickerFocus::CancelButton => KeyboardLayoutPickerFocus::OkButton,
    }
}

/// State of the keyboard layout dialog.
#[derive(Debug)]
pub struct KeyboardLayoutPickerState {
    /// Available layouts.
    pub layouts: Vec<KeyboardLayout>,
    /// Index of the selected layout.
    pub selected: usize,
    /// Scroll position of the list.
    pub scroll_top: usize,
    /// Zone with keyboard focus.
    pub focus: KeyboardLayoutPickerFocus,
}

impl KeyboardLayoutPickerState {
    /// A dialog over `layouts`: first one selected, list focused.
    pub fn new(layouts: Vec<KeyboardLayout>) -> (r: Self)
        ensures
            r.layouts == layouts,
            r.selected == 0,
            r.scroll_top == 0,
            r.focus == KeyboardLayoutPickerFocus::List,
    {
        KeyboardLayoutPickerState { layouts, selected: 0, scroll_top: 0, focus: KeyboardLayoutPickerFocus::List }
    }

    /// Replace the list with a fresh enumeration: first entry selected, scrolled to the
    /// top, focus kept.
    pub fn reload_with(&mut self, layouts: Vec<KeyboardLayout>)
        ensures
            final(self).layouts == layouts,
            final(self).selected == 0,
            final(self).scroll_top == 0,
            final(self).focus == old(self).focus,
    {
        self.layouts = layouts;
        self.selected = 0;
        self.scroll_top = 0;
    }

    /// The selected layout, if the index names one.
    pub fn selected_layout(&self) -> (r: Option<&KeyboardLayout>)
        ensures
            r == if self.selected < self.layouts@.len() { Some(&self.layouts@[self.selected as int]) } else { None },
    {
        if self.selected < self.layouts.len() {
            Some(&self.layouts[self.selected])
        } else {
            None
        }
    }

    /// Whether the list has focus.
    pub fn list_focused(&self) -> (r: bool)
        ensures
            r == (self.focus == KeyboardLayoutPickerFocus::List),
    {
        self.focus == KeyboardLayoutPickerFocus::List
    }

    /// Whether the OK button has focus.
    pub fn ok_focused(&self) -> (r: bool)
        ensures
            r == (self.focus == KeyboardLayoutPickerFocus::OkButton),
    {
        self.focus == KeyboardLayoutPickerFocus::OkButton
    }

    /// Whether the Cancel button has focus.
    pub fn cancel_focused(&self) -> (r: bool)
        ensures
            r == (self.focus == KeyboardLayoutPickerFocus::CancelButton),
    {
        self.focus == KeyboardLayoutPickerFocus::CancelButton
    }

    /// Number of layouts.
    pub fn len(&self) -> (r: usize)
        ensures
            r == self.layouts@.len(),
    {
        self.layouts.len()
    }

    /// Whether there are no layouts.
    pub fn is_empty(&self) -> (r: bool)
        ensures
            r == (self.layouts@.len() == 0),
    {
        self.layouts.len() == 0
    }
}

impl Default for KeyboardLayoutPickerState {
    fn default() -> (r: Self)
        ensures
            r.layouts@.len() == 0,
            r.selected == 0,
            r.scroll_top == 0,
            r.focus == KeyboardLayoutPickerFocus::List,
    {
        KeyboardLayoutPickerState::new(Vec::new())
    }
}

// ── Descriptor strings ──────────────────────────────────────────────────────

/// Whether `u` is a Unicode scalar value (not a surrogate, at most U+10FFFF).
pub open spec fn is_scalar(u: int) -> bool {
    0 <= u <= 0x10FFFF && !(0xD800 <= u <= 0xDFFF)
}

/// `char::from_u32`: the character with code `u`, or `None` when `u` is a surrogate
/// or above U+10FFFF.
#[verifier::external_body]
pub(crate) fn char_from_u32(u: u32) -> (r: Option<char>)
    ensures
        r == if is_scalar(u as int) { Some(u as char) } else { None::<char> },
{
    core::char::from_u32(u)
}

/// Whether the character with code `u` is kept in a descriptor: every character but
/// the non-ASCII control codes U+0080–U+009F.
pub open spec fn kept_code(u: int) -> bool {
    !(0x80 <= u <= 0x9F)
}

/// Little-endian 16-bit code unit at byte `i`.
pub open spec fn unit_at(data: Seq<u8>, i: int) -> int {
    data[i] + 256 * data[i + 1]
}

/// Reading a NUL-terminated UTF-16LE string from byte `i` of `data`: its characters
/// (code units that are not scalar values, and the non-ASCII control codes, are
/// skipped) and the byte offset where reading stopped (just past the NUL, or at the
/// last complete code unit when there is none).
pub open spec fn utf16_from(data: Seq<u8>, i: int) -> (Seq<char>, int)
    decreases data.len() - i,
{
    if i < 0 || i + 1 >= data.len() {
        (Seq::empty(), i)
    } else {
        let u = unit_at(data, i);
        if u == 0 {
            (Seq::empty(), i + 2)
        } else {
            let rest = utf16_from(data, i + 2);
            (if is_scalar(u) && kept_code(u) { seq![u as char] + rest.0 } else { rest.0 }, rest.1)
        }
    }
}

/// Read a NUL-terminated UTF-16LE string starting at byte `start` (see [`utf16_from`]).
fn read_utf16le_at(data: &[u8], start: usize) -> (r: (Vec<char>, usize))
    ensures
        r.0@ == utf16_from(data@, start as int).0,
        r.1 == utf16_from(data@, start as int).1,
{
    let mut chars: Vec<char> = Vec::new();
    let mut i = start;
    let n = data.len();
    while i < n && n - i > 1
        invariant
            n == data@.len(),
            start <= i,
            chars@ + utf16_from(data@, i as int).0 == utf16_from(data@, start as int).0,
            utf16_from(data@, i as int).1 == utf16_from(data@, start as int).1,
        decreases n - i,
    {
        let lo = data[i] as u16;
        let hi = data[i + 1] as u16;
        let code: u32 = (lo as u32) + 256 * (hi as u32);
        if code == 0 {
            i = i + 2;
            assert(utf16_from(data@, (i - 2) as int).0 =~= Seq::<char>::empty());
            assert(chars@ + Seq::<char>::empty() =~= chars@);
            return (chars, i);
        }
        let ghost before = chars@;
        match char_from_u32(code) {
            Some(c) => {
                if !(0x80 <= code && code <= 0x9f) {
                    chars.push(c);
                    assert(before.push(c) + utf16_from(data@, i + 2).0 =~= before + (seq![c] + utf16_from(data@, i + 2).0));
                }
            },
            None => {},
        }
        i = i + 2;
    }
    assert(utf16_from(data@, i as int).0 =~= Seq::<char>::empty());
    assert(chars@ + Seq::<char>::empty() =~= chars@);
    (chars, i)
}

/// Read a NUL-terminated UTF-16LE string: its text and the number of bytes consumed
/// (see [`utf16_from`]).
pub fn read_utf16le_string(data: &[u8]) -> (r: (String, usize))
    ensures
        r.0@ == utf16_from(data@, 0).0,
        r.1 == utf16_from(data@, 0).1,
{
    let (cs, n) = read_utf16le_at(data, 0);
    (crate::text::string_from_chars(cs.as_slice()), n)
}

/// Offset of the descriptor string in a keyboard layout record: the little-endian
/// `u32` at bytes 18..22.
pub open spec fn descriptor_offset(buf: Seq<u8>) -> int {
    buf[18] + 256 * buf[19] + 65536 * buf[20] + 16777216 * buf[21]
}

/// The descriptor string of a keyboard layout record: `None` when the record is
/// shorter than 24 bytes, the offset lies outside it, or the string is empty.
pub open spec fn layout_descriptor(buf: Seq<u8>) -> Option<Seq<char>> {
    if buf.len() < 24 {
        None
    } else {
        let off = descriptor_offset(buf);
        if off >= buf.len() {
            None
        } else {
            let s = utf16_from(buf, off).0;
            if s.len() == 0 { None } else { Some(s) }
        }
    }
}

/// Parse the descriptor string out of a keyboard layout record (see [`layout_descriptor`]).
pub fn parse_layout_descriptor(buf: &[u8]) -> (r: Option<String>)
    ensures
        match layout_descriptor(buf@) {
            Some(s) => r is Some && r->0@ == s,
            None => r is None,
        },
{
    if buf.len() < 24 {
        return None;
    }
    let off: u64 = buf[18] as u64 + 256 * (buf[19] as u64) + 65536 * (buf[20] as u64) + 16777216 * (buf[21] as u64);
    if off >= buf.len() as u64 {
        return None;
    }
    let (cs, _) = read_utf16le_at(buf, off as usize);
    if cs.len() == 0 {
        None
    } else {
        Some(crate::text::string_from_chars(cs.as_slice()))
    }
}

/// Lowercase hexadecimal digit of `d` (0..16).
pub open spec fn hex_digit(d: int) -> char {
    if d < 10 { (('0' as int) + d) as char } else { (('a' as int) + d - 10) as char }
}

/// Two lowercase hexadecimal digits of byte `b`.
pub open spec fn hex_byte(b: u8) -> Seq<char> {
    seq![hex_digit(b as int / 16), hex_digit(b as int % 16)]
}

/// Name of a layout without a descriptor: `Layout 0x` and the first four GUID bytes
/// read as a little-endian `u32`, in eight lowercase hexadecimal digits.
pub open spec fn fallback_name(g: Seq<u8>) -> Seq<char> {
    "Layout 0x"@ + hex_byte(g[3]) + hex_byte(g[2]) + hex_byte(g[1]) + hex_byte(g[0])
}

fn hex_digit_exec(d: u8) -> (r: char)
    requires
        d < 16,
    ensures
        r == hex_digit(d as int),
{
    if d < 10 { (48 + d) as char } else { (87 + d) as char }
}

/// The name shown for a layout: its descriptor when there is a non-empty one, else
/// [`fallback_name`] of its GUID bytes.
pub fn layout_display_name(descriptor: Option<String>, guid_bytes: &[u8; 16]) -> (r: String)
    ensures
        r@ == match descriptor {
            Some(d) => if d@.len() > 0 { d@ } else { fallback_name(guid_bytes@) },
            None => fallback_name(guid_bytes@),
        },
{
    if let Some(d) = descriptor {
        let cs = crate::text::chars_of(d.as_str());
        if cs.len() > 0 {
            return d;
        }
    }
    let mut out: Vec<char> = Vec::new();
    let prefix = crate::text::chars_of("Layout 0x");
    let mut i: usize = 0;
    while i < prefix.len()
        invariant
            i <= prefix@.len(),
            out@ == prefix@.take(i as int),
        decreases prefix@.len() - i,
    {
        out.push(prefix[i]);
        i = i + 1;
        assert(out@ =~= prefix@.take(i as int));
    }
    assert(prefix@.take(prefix@.len() as int) =~= prefix@);
    let mut k: usize = 4;
    while k > 0
        invariant
            k <= 4,
            guid_bytes@.len() == 16,
            out@ == prefix@ + (if k <= 3 { hex_byte(guid_bytes@[3]) } else { Seq::empty() })
                + (if k <= 2 { hex_byte(guid_bytes@[2]) } else { Seq::empty() })
                + (if k <= 1 { hex_byte(guid_bytes@[1]) } else { Seq::empty() })
                + (if k <= 0 { hex_byte(guid_bytes@[0]) } else { Seq::empty() }),
        decreases k,
    {
        let ghost before = out@;
        let b = guid_bytes[k - 1];
        out.push(hex_digit_exec(b / 16));
        out.push(hex_digit_exec(b % 16));
        assert(out@ =~= before + hex_byte(b));
        k = k - 1;
        assert(out@ =~= prefix@ + (if k <= 3 { hex_byte(guid_bytes@[3]) } else { Seq::empty() })
                + (if k <= 2 { hex_byte(guid_bytes@[2]) } else { Seq::empty() })
                + (if k <= 1 { hex_byte(guid_bytes@[1]) } else { Seq::empty() })
                + (if k <= 0 { hex_byte(guid_bytes@[0]) } else { Seq::empty() }));
    }
    crate::text::string_from_chars(out.as_slice())
}

/// The GUID bytes stored in a settings variable: exactly 16 bytes, or nothing.
pub fn guid_bytes_from_raw(raw: &[u8]) -> (r: Option<[u8; 16]>)
    ensures
        match r {
            Some(b) => raw@.len() == 16 && b@ == raw@,
            None => raw@.len() != 16,
        },
{
    if raw.len() != 16 {
        return None;
    }
    let mut b = [0u8; 16];
    let mut i: usize = 0;
    while i < 16
        invariant
            raw@.len() == 16,
            i <= 16,
            b@.len() == 16,
            forall|j: int| 0 <= j < i ==> b@[j] == raw@[j],
        decreases 16 - i,
    {
        b.set(i, raw[i]);
        i = i + 1;
    }
    assert(b@ =~= raw@);
    Some(b)
}

} // verus!
