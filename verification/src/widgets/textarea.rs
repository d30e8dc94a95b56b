//! Multiline text buffer with scroll, caret and selection (UTF-8 aware).
//!
//! The caret is a byte offset into the UTF-8 text; editing operations first move it
//! back to the nearest char boundary. Selection modes:
//! - **Stream** (Shift + navigation keys): the contiguous range between an anchor
//!   offset and the caret.
//! - **Block / column** (Alt+Shift + navigation keys): the rectangle in
//!   (line, column) space between an anchor and the caret's line and column.

use vstd::prelude::*;
use crate::input::{Key, KeyEvent, Modifiers};
use crate::widgets::scrollbar::{ScrollAxis, ScrollbarState};
use crate::text::{
    byte_len, byte_at, char_width, char_len_utf8, chars_of, floor_index, floor_scan, byte_offset,
    string_from_chars, split_on, split_to_strings, strings_model, join_with, join_strings,
    lemma_byte_len_encode, lemma_floor_index_props, lemma_byte_at_mono, lemma_byte_at_step,
    lemma_byte_len_concat, lemma_byte_len_ge_len, lemma_floor_index_char,
};

verus! {

// ── Lines and columns over characters ───────────────────────────────────────

/// Number of newlines in `s`.
pub open spec fn nl_count(s: Seq<char>) -> nat
    decreases s.len(),
{
    if s.len() == 0 { 0 } else { nl_count(s.drop_last()) + if s.last() == '\n' { 1nat } else { 0nat } }
}

/// Index just after the last newline of `s` (0 when there is none).
pub open spec fn last_line_start(s: Seq<char>) -> int
    decreases s.len(),
{
    if s.len() == 0 { 0 } else if s.last() == '\n' { s.len() as int } else { last_line_start(s.drop_last()) }
}

/// Line (0-based) of character index `c`.
pub open spec fn line_of(t: Seq<char>, c: int) -> nat {
    nl_count(t.take(c))
}

/// Column (characters since the line start) of character index `c`.
pub open spec fn col_of(t: Seq<char>, c: int) -> int {
    c - last_line_start(t.take(c))
}

/// Index where line `l` starts: just after the `l`-th newline, or the end of the text
/// when it has fewer newlines.
pub open spec fn line_start_idx(s: Seq<char>, l: nat) -> int
    decreases s.len(),
{
    if l == 0 || s.len() == 0 {
        0
    } else if nl_count(s) < l {
        s.len() as int
    } else if nl_count(s.drop_last()) >= l {
        line_start_idx(s.drop_last(), l)
    } else {
        s.len() as int
    }
}

/// Index where line `l` ends (its newline, or the end of the text).
pub open spec fn line_end_idx(s: Seq<char>, l: nat) -> int {
    if nl_count(s) > l { line_start_idx(s, l + 1) - 1 } else { s.len() as int }
}

/// Number of characters of line `l` (0 past the last line).
pub open spec fn line_len(s: Seq<char>, l: nat) -> int {
    line_end_idx(s, l) - line_start_idx(s, l)
}

/// Character index of column `col` of line `l`, the column capped at the line length.
pub open spec fn index_at_line_col(s: Seq<char>, l: nat, col: int) -> int {
    line_start_idx(s, l) + if col < line_len(s, l) { col } else { line_len(s, l) }
}

proof fn lemma_nl_count_le(s: Seq<char>)
    ensures
        nl_count(s) <= s.len(),
    decreases s.len(),
{
    if s.len() > 0 {
        lemma_nl_count_le(s.drop_last());
    }
}

proof fn lemma_line_start_bounds(s: Seq<char>, l: nat)
    ensures
        0 <= line_start_idx(s, l) <= s.len(),
        l > 0 && nl_count(s) >= l ==> line_start_idx(s, l) >= 1 && s[line_start_idx(s, l) - 1] == '\n',
    decreases s.len(),
{
    if l == 0 || s.len() == 0 {
    } else if nl_count(s) < l {
    } else if nl_count(s.drop_last()) >= l {
        lemma_line_start_bounds(s.drop_last(), l);
    } else {
    }
}

proof fn lemma_line_start_mono(s: Seq<char>, l: nat)
    requires
        nl_count(s) > l,
    ensures
        line_start_idx(s, l) < line_start_idx(s, l + 1),
    decreases s.len(),
{
    let t = s.drop_last();
    lemma_line_start_bounds(t, l);
    if nl_count(t) >= l + 1 {
        if l > 0 {
            lemma_line_start_mono(t, l);
        } else {
            lemma_line_start_mono(t, l);
        }
    }
}

/// Line and column of character index `c` of `cs`.
fn line_col_at(cs: &[char], c: usize) -> (r: (usize, usize))
    requires
        c <= cs@.len(),
    ensures
        r.0 == line_of(cs@, c as int),
        r.1 == col_of(cs@, c as int),
{
    let mut i: usize = 0;
    let mut line: usize = 0;
    let mut start: usize = 0;
    assert(cs@.take(0) =~= Seq::<char>::empty());
    while i < c
        invariant
            i <= c <= cs@.len(),
            line == nl_count(cs@.take(i as int)),
            start == last_line_start(cs@.take(i as int)),
            line <= i,
            start <= i,
        decreases c - i,
    {
        assert(cs@.take(i + 1).drop_last() =~= cs@.take(i as int));
        assert(cs@.take(i + 1).last() == cs@[i as int]);
        if cs[i] == '\n' {
            line = line + 1;
            start = i + 1;
        }
        i = i + 1;
    }
    (line, c - start)
}

/// Index where line `l` of `cs` starts.
fn line_start_at(cs: &[char], l: usize) -> (r: usize)
    ensures
        r == line_start_idx(cs@, l as nat),
{
    if l == 0 {
        return 0;
    }
    let mut i: usize = 0;
    let mut count: usize = 0;
    let mut res: usize = 0;
    assert(cs@.take(0) =~= Seq::<char>::empty());
    while i < cs.len()
        invariant
            l > 0,
            i <= cs@.len(),
            count == nl_count(cs@.take(i as int)),
            count <= i,
            res == line_start_idx(cs@.take(i as int), l as nat),
        decreases cs@.len() - i,
    {
        let ghost t = cs@.take(i + 1);
        assert(t.drop_last() =~= cs@.take(i as int));
        assert(t.last() == cs@[i as int]);
        if count < l {
            res = i + 1;
        }
        if cs[i] == '\n' {
            count = count + 1;
        }
        i = i + 1;
    }
    assert(cs@.take(cs@.len() as int) =~= cs@);
    res
}

/// Number of newlines in `cs`.
fn count_newlines(cs: &[char]) -> (r: usize)
    ensures
        r == nl_count(cs@),
{
    let mut i: usize = 0;
    let mut count: usize = 0;
    assert(cs@.take(0) =~= Seq::<char>::empty());
    while i < cs.len()
        invariant
            i <= cs@.len(),
            count == nl_count(cs@.take(i as int)),
            count <= i,
        decreases cs@.len() - i,
    {
        assert(cs@.take(i + 1).drop_last() =~= cs@.take(i as int));
        if cs[i] == '\n' {
            count = count + 1;
        }
        i = i + 1;
    }
    assert(cs@.take(cs@.len() as int) =~= cs@);
    count
}

/// Length of line `l` of `cs`.
fn line_length_at(cs: &[char], l: usize) -> (r: usize)
    ensures
        r == line_len(cs@, l as nat),
{
    proof {
        lemma_line_start_bounds(cs@, l as nat);
        lemma_line_start_bounds(cs@, (l + 1) as nat);
    }
    let start = line_start_at(cs, l);
    let n = count_newlines(cs);
    if n > l {
        proof {
            assert(l + 1 <= nl_count(cs@));
        }
        let next = line_start_at(cs, l + 1);
        proof { lemma_line_start_mono(cs@, l as nat); }
        next - 1 - start
    } else {
        cs.len() - start
    }
}

// ── The text area ───────────────────────────────────────────────────────────

/// Actions the app may react to.
#[derive(Debug, Clone, PartialEq, Eq, Structural)]
pub enum TextAreaAction {
    /// Text, caret or selection changed.
    Edited,
}

/// The selection of a text area.
#[derive(Debug, Clone, Copy, PartialEq, Eq, Structural)]
pub enum SelectionState {
    /// No selection.
    Empty,
    /// Contiguous range between `anchor` (a byte offset) and the caret.
    Stream { anchor: usize },
    /// Rectangle in line × column space; the other corner is the caret.
    Block { anchor_line: usize, anchor_col: usize },
}

#[derive(Debug, Clone)]
pub struct TextArea {
    pub text: String,
    /// Byte offset into `text`.
    cursor: usize,
    sel: SelectionState,
    /// First visible line (0-based) for vertical scrolling.
    pub scroll_top_line: usize,
    preferred_column: Option<usize>,
}

/// The abstract state of a text area.
pub struct TextModel {
    pub text: Seq<char>,
    /// Caret as a byte offset.
    pub cursor: usize,
    pub sel: SelectionState,
    pub scroll_top_line: usize,
    /// Column that vertical moves aim for.
    pub preferred_column: Option<usize>,
}

impl View for TextArea {
    type V = TextModel;

    closed spec fn view(&self) -> TextModel {
        TextModel {
            text: self.text@,
            cursor: self.cursor,
            sel: self.sel,
            scroll_top_line: self.scroll_top_line,
            preferred_column: self.preferred_column,
        }
    }
}

/// Character index of the caret (its byte offset moved back to a char boundary).
pub open spec fn caret(m: TextModel) -> int {
    floor_index(m.text, m.cursor as int)
}

/// Byte offset of character index `k`.
pub open spec fn at(m: TextModel, k: int) -> usize {
    byte_at(m.text, k) as usize
}

/// Character range `[lo, hi)` of a stream selection from `anchor` to `cursor` (bytes),
/// both moved back to char boundaries; `None` when it is empty.
pub open spec fn stream_range(t: Seq<char>, anchor: int, cursor: int) -> Option<(int, int)> {
    let lo = if anchor < cursor { anchor } else { cursor };
    let hi = if anchor < cursor { cursor } else { anchor };
    if lo == hi {
        None
    } else {
        let fl = floor_index(t, lo);
        let fh = floor_index(t, hi);
        if fl >= fh { None } else { Some((fl, fh)) }
    }
}

/// The caret's line and column.
pub open spec fn caret_line_col(m: TextModel) -> (int, int) {
    (line_of(m.text, caret(m)) as int, col_of(m.text, caret(m)))
}

/// Byte length of a string.
fn str_bytes(s: &str) -> (r: usize)
    ensures
        r == byte_len(s@),
{
    proof { lemma_byte_len_encode(s@); }
    s.as_bytes().len()
}

/// Stream range in character indices.
fn stream_range_chars(cs: &[char], anchor: usize, cursor: usize) -> (r: Option<(usize, usize)>)
    ensures
        match stream_range(cs@, anchor as int, cursor as int) {
            Some((a, b)) => r == Some((a as usize, b as usize)),
            None => r is None,
        },
{
    let lo = if anchor < cursor { anchor } else { cursor };
    let hi = if anchor < cursor { cursor } else { anchor };
    if lo == hi {
        return None;
    }
    let (fl, _) = floor_scan(cs, lo);
    let (fh, _) = floor_scan(cs, hi);
    if fl >= fh {
        None
    } else {
        Some((fl, fh))
    }
}

impl Default for TextArea {
    fn default() -> (r: Self)
        ensures
            r@ == (TextModel { text: Seq::empty(), cursor: 0, sel: SelectionState::Empty, scroll_top_line: 0, preferred_column: None }),
    {
        TextArea::new()
    }
}

impl TextArea {
    pub fn new() -> (r: Self)
        ensures
            r@ == (TextModel { text: Seq::empty(), cursor: 0, sel: SelectionState::Empty, scroll_top_line: 0, preferred_column: None }),
    {
        TextArea { text: String::new(), cursor: 0, sel: SelectionState::Empty, scroll_top_line: 0, preferred_column: None }
    }

    /// A text area holding `s`, caret at the end.
    pub fn from_str(s: &str) -> (r: Self)
        ensures
            r@ == (TextModel { text: s@, cursor: byte_len(s@) as usize, sel: SelectionState::Empty, scroll_top_line: 0, preferred_column: None }),
    {
        let cs = chars_of(s);
        TextArea {
            text: string_from_chars(cs.as_slice()),
            cursor: str_bytes(s),
            sel: SelectionState::Empty,
            scroll_top_line: 0,
            preferred_column: None,
        }
    }

    /// Byte offset of the caret.
    pub fn cursor(&self) -> (r: usize)
        ensures
            r == self@.cursor,
    {
        self.cursor
    }

    /// Put the caret at `byte` (moved back to a char boundary, at most the end) and
    /// drop the selection.
    pub fn set_cursor(&mut self, byte: usize)
        ensures
            final(self)@ == (TextModel {
                cursor: at(old(self)@, floor_index(old(self)@.text, byte as int)),
                sel: SelectionState::Empty,
                ..old(self)@
            }),
    {
        let cs = chars_of(self.text.as_str());
        let (_k, off) = floor_scan(cs.as_slice(), byte);
        self.cursor = off;
        self.sel = SelectionState::Empty;
    }

    pub fn clear_selection(&mut self)
        ensures
            final(self)@ == (TextModel { sel: SelectionState::Empty, ..old(self)@ }),
    {
        self.sel = SelectionState::Empty;
    }

    /// Whether the selection is a column block.
    pub fn is_block_selection(&self) -> (r: bool)
        ensures
            r == (self@.sel is Block),
    {
        match self.sel {
            SelectionState::Block { .. } => true,
            _ => false,
        }
    }

    /// Select the whole text (caret at the end).
    pub fn select_all(&mut self)
        ensures
            final(self)@ == (TextModel {
                sel: SelectionState::Stream { anchor: 0 },
                cursor: byte_len(old(self)@.text) as usize,
                preferred_column: None,
                ..old(self)@
            }),
    {
        self.sel = SelectionState::Stream { anchor: 0 };
        self.cursor = str_bytes(self.text.as_str());
        self.preferred_column = None;
    }

    /// Half-open byte range `[lo, hi)` of a non-empty **stream** selection.
    pub fn selection_range_bytes(&self) -> (r: Option<(usize, usize)>)
        ensures
            r == match self@.sel {
                SelectionState::Stream { anchor } => match stream_range(self@.text, anchor as int, self@.cursor as int) {
                    Some((a, b)) => Some((at(self@, a), at(self@, b))),
                    None => None,
                },
                _ => None,
            },
    {
        match self.sel {
            SelectionState::Stream { anchor } => {
                let cs = chars_of(self.text.as_str());
                proof { lemma_byte_len_encode(cs@); }
                let _len = str_bytes(self.text.as_str());
                match stream_range_chars(cs.as_slice(), anchor, self.cursor) {
                    Some((a, b)) => {
                        proof { lemma_floor_index_props(cs@, anchor as int); lemma_floor_index_props(cs@, self.cursor as int); }
                        Some((byte_offset(cs.as_slice(), a), byte_offset(cs.as_slice(), b)))
                    },
                    None => None,
                }
            },
            _ => None,
        }
    }

    /// The lines of the text, split on '\n' (a trailing newline gives a final empty line).
    pub fn lines(&self) -> (r: Vec<String>)
        ensures
            strings_model(r@) == split_on(self@.text, '\n'),
    {
        let cs = chars_of(self.text.as_str());
        split_to_strings(cs.as_slice(), '\n')
    }

    /// Number of lines.
    pub fn line_count(&self) -> (r: usize)
        ensures
            r == split_on(self@.text, '\n').len(),
    {
        let ls = self.lines();
        proof { assert(strings_model(ls@).len() == ls@.len()); }
        ls.len()
    }

    /// First visible line.
    pub fn scroll_top(&self) -> (r: usize)
        ensures
            r == self@.scroll_top_line,
    {
        self.scroll_top_line
    }

    /// Make line `top` the first visible line.
    pub fn set_scroll_top(&mut self, top: usize)
        ensures
            final(self)@ == (TextModel { scroll_top_line: top, ..old(self)@ }),
    {
        self.scroll_top_line = top;
    }

    /// Byte offset of column `col` (capped at the line's length) of line `line`, or
    /// `None` past the last line.
    pub fn byte_at_line_col(&self, line: usize, col: usize) -> (r: Option<usize>)
        ensures
            r == if line < split_on(self@.text, '\n').len() {
                Some(at(self@, index_at_line_col(self@.text, line as nat, col as int)))
            } else {
                None::<usize>
            },
    {
        let n = self.line_count();
        if line >= n {
            return None;
        }
        let cs = chars_of(self.text.as_str());
        proof {
            lemma_byte_len_encode(cs@);
            lemma_line_start_bounds(cs@, line as nat);
            lemma_line_start_bounds(cs@, (line + 1) as nat);
        }
        let _len = str_bytes(self.text.as_str());
        let start = line_start_at(cs.as_slice(), line);
        let len = line_length_at(cs.as_slice(), line);
        let k = start + if col < len { col } else { len };
        Some(byte_offset(cs.as_slice(), k))
    }

    /// Scroll so the caret's line is visible in a window of `visible_lines` (at least 1).
    pub fn scroll_to_cursor(&mut self, visible_lines: usize)
        requires
            old(self)@.scroll_top_line + (if visible_lines < 1 { 1 } else { visible_lines as int }) <= usize::MAX,
        ensures
            final(self)@ == (TextModel {
                scroll_top_line: {
                    let cl = line_of(old(self)@.text, caret(old(self)@)) as int;
                    let vr = if visible_lines < 1 { 1 } else { visible_lines as int };
                    let top = old(self)@.scroll_top_line as int;
                    (if cl < top { cl } else if cl >= top + vr { cl + 1 - vr } else { top }) as usize
                },
                ..old(self)@
            }),
    {
        let cs = chars_of(self.text.as_str());
        let (c, _) = floor_scan(cs.as_slice(), self.cursor);
        proof { lemma_floor_index_props(cs@, self.cursor as int); }
        let (cur_line, _) = line_col_at(cs.as_slice(), c);
        let vr = if visible_lines < 1 { 1 } else { visible_lines };
        if cur_line < self.scroll_top_line {
            self.scroll_top_line = cur_line;
        } else if cur_line >= self.scroll_top_line + vr {
            self.scroll_top_line = cur_line - vr + 1;
        }
    }
}

/// Caret (byte offset) and aimed-for column after one navigation key.
pub open spec fn nav_result(m: TextModel, key: Key) -> (usize, Option<usize>) {
    let t = m.text;
    let c = caret(m);
    let pref = m.preferred_column;
    match key {
        Key::Left => if c == 0 { (at(m, c), pref) } else { (at(m, c - 1), Some(col_of(t, c - 1) as usize)) },
        Key::Right => if c >= t.len() { (at(m, c), pref) } else { (at(m, c + 1), Some(col_of(t, c + 1) as usize)) },
        Key::Up | Key::Down | Key::PageUp | Key::PageDown => {
            let delta: int = match key { Key::Up => -1, Key::Down => 1, Key::PageUp => -10, _ => 10 };
            let li = line_of(t, c) as int;
            let col: int = match pref { Some(p) => p as int, None => col_of(t, c) };
            let last = nl_count(t) as int;
            let nl = if li + delta < 0 { 0 } else if li + delta > last { last } else { li + delta };
            if nl == li {
                (m.cursor, pref)
            } else {
                (at(m, index_at_line_col(t, nl as nat, col)), Some(col as usize))
            }
        },
        Key::Home => (at(m, line_start_idx(t, line_of(t, c))), Some(0usize)),
        Key::End => {
            let li = line_of(t, c);
            (at(m, line_start_idx(t, li) + line_len(t, li)), Some(line_len(t, li) as usize))
        },
        _ => (m.cursor, pref),
    }
}

/// Whether `key` moves the caret.
pub open spec fn is_nav_key(key: Key) -> bool {
    key == Key::Left || key == Key::Right || key == Key::Up || key == Key::Down
        || key == Key::Home || key == Key::End || key == Key::PageUp || key == Key::PageDown
}

proof fn lemma_col_le(t: Seq<char>, c: int)
    requires
        0 <= c <= t.len(),
    ensures
        0 <= col_of(t, c) <= c,
        line_of(t, c) <= c,
{
    lemma_last_line_start_bounds(t.take(c));
    lemma_nl_count_le(t.take(c));
}

proof fn lemma_last_line_start_bounds(s: Seq<char>)
    ensures
        0 <= last_line_start(s) <= s.len(),
    decreases s.len(),
{
    if s.len() > 0 {
        lemma_last_line_start_bounds(s.drop_last());
    }
}

proof fn lemma_line_len_bounds(s: Seq<char>, l: nat)
    ensures
        0 <= line_start_idx(s, l) <= line_end_idx(s, l) <= s.len(),
{
    lemma_line_start_bounds(s, l);
    lemma_line_start_bounds(s, l + 1);
    if nl_count(s) > l {
        lemma_line_start_mono(s, l);
    }
}

/// The model after one navigation key: caret and aimed-for column from [`nav_result`].
pub open spec fn navigated(m: TextModel, key: Key) -> TextModel {
    TextModel { cursor: nav_result(m, key).0, preferred_column: nav_result(m, key).1, ..m }
}

impl TextArea {
    /// Move the caret for one navigation key (see [`nav_result`]); the selection is kept.
    fn apply_navigation(&mut self, key: Key)
        ensures
            final(self)@ == navigated(old(self)@, key),
    {
        match key {
            Key::Left | Key::Right => self.nav_horizontal(key),
            Key::Up | Key::Down | Key::PageUp | Key::PageDown => self.nav_vertical(key),
            Key::Home | Key::End => self.nav_line_edge(key),
            _ => {},
        }
    }

    /// Left / Right: one character, updating the aimed-for column.
    fn nav_horizontal(&mut self, key: Key)
        requires
            key == Key::Left || key == Key::Right,
        ensures
            final(self)@ == navigated(old(self)@, key),
    {
        let cs = chars_of(self.text.as_str());
        let _len = str_bytes(self.text.as_str());
        proof { lemma_byte_len_encode(cs@); }
        let (c, cb) = floor_scan(cs.as_slice(), self.cursor);
        proof { lemma_floor_index_props(cs@, self.cursor as int); }
        if key == Key::Left {
            if c == 0 {
                self.cursor = cb;
            } else {
                self.cursor = byte_offset(cs.as_slice(), c - 1);
                let (_l, col) = line_col_at(cs.as_slice(), c - 1);
                self.preferred_column = Some(col);
            }
        } else {
            if c >= cs.len() {
                self.cursor = cb;
            } else {
                self.cursor = byte_offset(cs.as_slice(), c + 1);
                let (_l, col) = line_col_at(cs.as_slice(), c + 1);
                self.preferred_column = Some(col);
            }
        }
    }

    /// Up / Down / PageUp / PageDown: move by lines, keeping the aimed-for column.
    #[verifier::spinoff_prover]
    fn nav_vertical(&mut self, key: Key)
        requires
            key == Key::Up || key == Key::Down || key == Key::PageUp || key == Key::PageDown,
        ensures
            final(self)@ == navigated(old(self)@, key),
    {
        let cs = chars_of(self.text.as_str());
        let _len = str_bytes(self.text.as_str());
        proof { lemma_byte_len_encode(cs@); }
        let (c, _cb) = floor_scan(cs.as_slice(), self.cursor);
        proof {
            lemma_floor_index_props(cs@, self.cursor as int);
            lemma_col_le(cs@, c as int);
        }
        let (li, ccol) = line_col_at(cs.as_slice(), c);
        let col = match self.preferred_column {
            Some(p) => p,
            None => ccol,
        };
        let last = count_newlines(cs.as_slice());
        proof { lemma_nl_count_le(cs@); }
        let nl: usize = if key == Key::Up {
            if li < 1 { 0 } else if li - 1 > last { last } else { li - 1 }
        } else if key == Key::PageUp {
            if li < 10 { 0 } else if li - 10 > last { last } else { li - 10 }
        } else if key == Key::Down {
            if li > last || last - li < 1 { last } else { li + 1 }
        } else {
            if li > last || last - li < 10 { last } else { li + 10 }
        };
        if nl == li {
            return;
        }
        let start = line_start_at(cs.as_slice(), nl);
        let llen = line_length_at(cs.as_slice(), nl);
        proof { lemma_line_len_bounds(cs@, nl as nat); }
        let total = cs.len();
        assert(start + llen <= total);
        let idx = start + if col < llen { col } else { llen };
        self.cursor = byte_offset(cs.as_slice(), idx);
        self.preferred_column = Some(col);
    }

    /// Home / End: start or end of the caret's line.
    fn nav_line_edge(&mut self, key: Key)
        requires
            key == Key::Home || key == Key::End,
        ensures
            final(self)@ == navigated(old(self)@, key),
    {
        let cs = chars_of(self.text.as_str());
        let _len = str_bytes(self.text.as_str());
        proof { lemma_byte_len_encode(cs@); }
        let (c, _cb) = floor_scan(cs.as_slice(), self.cursor);
        proof {
            lemma_floor_index_props(cs@, self.cursor as int);
            lemma_col_le(cs@, c as int);
        }
        let (li, _) = line_col_at(cs.as_slice(), c);
        let start = line_start_at(cs.as_slice(), li);
        proof { lemma_line_len_bounds(cs@, li as nat); }
        if key == Key::Home {
            self.cursor = byte_offset(cs.as_slice(), start);
            self.preferred_column = Some(0);
        } else {
            let llen = line_length_at(cs.as_slice(), li);
            self.cursor = byte_offset(cs.as_slice(), start + llen);
            self.preferred_column = Some(llen);
        }
    }
}

/// Characters `[a, b)` replaced by `ins`; the caret goes just after the inserted text.
pub open spec fn spliced(m: TextModel, a: int, b: int, ins: Seq<char>) -> TextModel {
    TextModel {
        text: m.text.take(a) + ins + m.text.skip(b),
        cursor: (byte_at(m.text, a) + byte_len(ins)) as usize,
        ..m
    }
}

/// Insert `s` at the caret (moved to a char boundary); the caret moves past it.
pub open spec fn inserted_str(m: TextModel, s: Seq<char>) -> TextModel {
    spliced(m, caret(m), caret(m), s)
}

/// Insert `ch` at the caret; the caret moves past it.
pub open spec fn inserted(m: TextModel, ch: char) -> TextModel {
    inserted_str(m, seq![ch])
}

/// Remove characters `[a, b)`; the caret goes to `a` and the selection is dropped.
pub open spec fn removed(m: TextModel, a: int, b: int) -> TextModel {
    TextModel { text: m.text.take(a) + m.text.skip(b), cursor: at(m, a), sel: SelectionState::Empty, ..m }
}

/// Backspace without a selection: the caret moves to a char boundary, then the
/// character before it (if any) is removed.
pub open spec fn backspaced(m: TextModel) -> (TextModel, bool) {
    let c = caret(m);
    if c == 0 {
        (TextModel { cursor: at(m, c), ..m }, false)
    } else {
        (TextModel { text: m.text.take(c - 1) + m.text.skip(c), cursor: at(m, c - 1), ..m }, true)
    }
}

/// Delete without a selection: the caret moves to a char boundary, then the
/// character after it (if any) is removed.
pub open spec fn deleted_forward(m: TextModel) -> (TextModel, bool) {
    let c = caret(m);
    if c >= m.text.len() {
        (TextModel { cursor: at(m, c), ..m }, false)
    } else {
        (TextModel { text: m.text.take(c) + m.text.skip(c + 1), cursor: at(m, c), ..m }, true)
    }
}

/// `line` without its columns `[col_lo, col_hi)` (both capped at its length).
pub open spec fn cut_line(line: Seq<char>, col_lo: int, col_hi: int) -> Seq<char> {
    let len = line.len() as int;
    let st = if col_lo < len { col_lo } else { len };
    let en = if col_hi < len { col_hi } else { len };
    if st >= en { line } else { line.take(st) + line.skip(en) }
}

/// The lines with the block's columns cut from lines `lo..=hi`.
pub open spec fn cut_lines(lines: Seq<Seq<char>>, lo: int, hi: int, col_lo: int, col_hi: int) -> Seq<Seq<char>> {
    Seq::new(lines.len(), |i: int| if lo <= i <= hi { cut_line(lines[i], col_lo, col_hi) } else { lines[i] })
}

/// Line range and half-open column range of a block selection anchored at `(al, ac)`.
pub open spec fn block_bounds(m: TextModel, al: int, ac: int) -> (int, int, int, int) {
    let (cl, cc) = caret_line_col(m);
    (
        if al < cl { al } else { cl },
        if al < cl { cl } else { al },
        if ac < cc { ac } else { cc },
        (if ac < cc { cc } else { ac }) + 1,
    )
}

/// The text after removing a block selection anchored at `(al, ac)`; the caret goes to
/// the block's top-left corner and the selection is dropped.
pub open spec fn block_deleted(m: TextModel, al: int, ac: int) -> TextModel {
    let (lo, hi, col_lo, col_hi) = block_bounds(m, al, ac);
    let lines = split_on(m.text, '\n');
    let t2 = join_with(cut_lines(lines, lo, hi, col_lo, col_hi), '\n');
    let old_len = if lo < lines.len() { lines[lo].len() as int } else { 0 };
    let col = if col_lo < old_len { col_lo } else { old_len };
    let idx = index_at_line_col(t2, lo as nat, col);
    TextModel {
        text: t2,
        cursor: byte_at(t2, idx) as usize,
        sel: SelectionState::Empty,
        preferred_column: Some(col_of(t2, idx) as usize),
        ..m
    }
}

/// Anchors of a block selection stay in the range of `usize` arithmetic.
pub open spec fn block_ok(m: TextModel) -> bool {
    &&& m.sel matches SelectionState::Block { anchor_col, .. } ==> anchor_col < usize::MAX
    &&& m.text.len() < usize::MAX
}

/// `cs` with characters `[a, b)` replaced by `ins`.
fn splice_chars(cs: &[char], a: usize, b: usize, ins: &[char]) -> (r: Vec<char>)
    requires
        a <= b <= cs@.len(),
    ensures
        r@ == cs@.take(a as int) + ins@ + cs@.skip(b as int),
{
    let mut out: Vec<char> = Vec::new();
    let mut j: usize = 0;
    while j < a
        invariant
            j <= a <= b <= cs@.len(),
            out@ == cs@.take(j as int),
        decreases a - j,
    {
        out.push(cs[j]);
        j = j + 1;
        assert(out@ =~= cs@.take(j as int));
    }
    let mut k: usize = 0;
    while k < ins.len()
        invariant
            k <= ins@.len(),
            a <= b <= cs@.len(),
            out@ == cs@.take(a as int) + ins@.take(k as int),
        decreases ins@.len() - k,
    {
        out.push(ins[k]);
        k = k + 1;
        assert(out@ =~= cs@.take(a as int) + ins@.take(k as int));
    }
    assert(ins@.take(ins@.len() as int) =~= ins@);
    assert(cs@.subrange(b as int, b as int) =~= Seq::<char>::empty());
    assert(out@ =~= cs@.take(a as int) + ins@ + cs@.subrange(b as int, b as int));
    let mut j: usize = b;
    while j < cs.len()
        invariant
            b <= j <= cs@.len(),
            out@ == cs@.take(a as int) + ins@ + cs@.subrange(b as int, j as int),
        decreases cs@.len() - j,
    {
        out.push(cs[j]);
        j = j + 1;
        assert(out@ =~= cs@.take(a as int) + ins@ + cs@.subrange(b as int, j as int));
    }
    assert(cs@.subrange(b as int, cs@.len() as int) =~= cs@.skip(b as int));
    out
}

fn cut_line_exec(line: &String, col_lo: usize, col_hi: usize) -> (r: String)
    ensures
        r@ == cut_line(line@, col_lo as int, col_hi as int),
{
    let cs = chars_of(line.as_str());
    let len = cs.len();
    let st = if col_lo < len { col_lo } else { len };
    let en = if col_hi < len { col_hi } else { len };
    if st >= en {
        return line.clone();
    }
    let mut out: Vec<char> = Vec::new();
    let mut j: usize = 0;
    while j < len
        invariant
            len == cs@.len(),
            st < en <= len,
            j <= len,
            out@ == (if j <= st { cs@.take(j as int) } else if j <= en { cs@.take(st as int) } else {
                cs@.take(st as int) + cs@.subrange(en as int, j as int)
            }),
        decreases len - j,
    {
        if j < st || j >= en {
            out.push(cs[j]);
        }
        j = j + 1;
        assert(out@ =~= (if j <= st { cs@.take(j as int) } else if j <= en { cs@.take(st as int) } else {
            cs@.take(st as int) + cs@.subrange(en as int, j as int)
        }));
    }
    assert(cs@.subrange(en as int, len as int) =~= cs@.skip(en as int));
    string_from_chars(out.as_slice())
}

impl TextArea {
    /// Replace characters `[a, b)` with `ins`; the caret goes just after it.
    fn splice(&mut self, a: usize, b: usize, ins: &[char])
        requires
            a <= b <= old(self)@.text.len(),
        ensures
            final(self)@ == spliced(old(self)@, a as int, b as int, ins@),
    {
        let cs = chars_of(self.text.as_str());
        let _len = str_bytes(self.text.as_str());
        proof { lemma_byte_len_encode(cs@); }
        let ab = byte_offset(cs.as_slice(), a);
        let v = splice_chars(cs.as_slice(), a, b, ins);
        self.text = string_from_chars(v.as_slice());
        let _nb = str_bytes(self.text.as_str());
        proof {
            lemma_byte_len_concat(cs@.take(a as int) + ins@, cs@.skip(b as int));
            lemma_byte_len_concat(cs@.take(a as int), ins@);
            lemma_byte_len_ge_len(cs@.skip(b as int));
            lemma_byte_len_ge_len(cs@.take(a as int));
            assert(ins@.take(ins@.len() as int) =~= ins@);
        }
        let ib = byte_offset(ins, ins.len());
        self.cursor = ab + ib;
    }

    /// Insert `ins` at the caret (moved to a char boundary first).
    fn insert_chars_at_caret(&mut self, ins: &[char])
        ensures
            final(self)@ == inserted_str(old(self)@, ins@),
    {
        let cs = chars_of(self.text.as_str());
        proof { lemma_floor_index_props(cs@, self.cursor as int); }
        let (c, _cb) = floor_scan(cs.as_slice(), self.cursor);
        self.splice(c, c, ins);
    }

    /// Insert `ch` at the caret (moved to a char boundary first).
    fn insert_char(&mut self, ch: char)
        ensures
            final(self)@ == inserted(old(self)@, ch),
    {
        let one: Vec<char> = vec![ch];
        assert(one@ =~= seq![ch]);
        self.insert_chars_at_caret(one.as_slice());
    }

    /// Remove characters `[a, b)` and put the caret at `a`.
    fn remove_chars(&mut self, a: usize, b: usize)
        requires
            a <= b <= old(self)@.text.len(),
        ensures
            final(self)@ == removed(old(self)@, a as int, b as int),
    {
        let cs = chars_of(self.text.as_str());
        let _len = str_bytes(self.text.as_str());
        proof { lemma_byte_len_encode(cs@); }
        let ab = byte_offset(cs.as_slice(), a);
        let mut out: Vec<char> = Vec::new();
        let mut j: usize = 0;
        while j < cs.len()
            invariant
                a <= b <= cs@.len(),
                j <= cs@.len(),
                out@ == (if j <= a { cs@.take(j as int) } else if j <= b { cs@.take(a as int) } else {
                    cs@.take(a as int) + cs@.subrange(b as int, j as int)
                }),
            decreases cs@.len() - j,
        {
            if j < a || j >= b {
                out.push(cs[j]);
            }
            j = j + 1;
            assert(out@ =~= (if j <= a { cs@.take(j as int) } else if j <= b { cs@.take(a as int) } else {
                cs@.take(a as int) + cs@.subrange(b as int, j as int)
            }));
        }
        assert(cs@.subrange(b as int, cs@.len() as int) =~= cs@.skip(b as int));
        if b == cs.len() {
            assert(cs@.take(a as int) + cs@.skip(b as int) =~= cs@.take(a as int));
        }
        self.text = string_from_chars(out.as_slice());
        self.cursor = ab;
        self.sel = SelectionState::Empty;
    }

    /// Backspace without a selection.
    fn backspace(&mut self) -> (r: bool)
        ensures
            (final(self)@, r) == backspaced(old(self)@),
    {
        let cs = chars_of(self.text.as_str());
        let _len = str_bytes(self.text.as_str());
        proof { lemma_byte_len_encode(cs@); lemma_floor_index_props(cs@, self.cursor as int); }
        let (c, cb) = floor_scan(cs.as_slice(), self.cursor);
        if c == 0 {
            self.cursor = cb;
            return false;
        }
        let prev = byte_offset(cs.as_slice(), c - 1);
        let mut v = cs;
        v.remove(c - 1);
        assert(v@ =~= self.text@.take(c - 1) + self.text@.skip(c as int));
        self.text = string_from_chars(v.as_slice());
        self.cursor = prev;
        true
    }

    /// Delete forward without a selection.
    fn delete(&mut self) -> (r: bool)
        ensures
            (final(self)@, r) == deleted_forward(old(self)@),
    {
        let cs = chars_of(self.text.as_str());
        proof { lemma_floor_index_props(cs@, self.cursor as int); }
        let (c, cb) = floor_scan(cs.as_slice(), self.cursor);
        self.cursor = cb;
        if c >= cs.len() {
            return false;
        }
        let mut v = cs;
        v.remove(c);
        assert(v@ =~= old(self).text@.take(c as int) + old(self).text@.skip(c + 1));
        self.text = string_from_chars(v.as_slice());
        true
    }

    /// Caret line and column (the caret first moved to a char boundary).
    pub fn cursor_line_col(&self) -> (r: (usize, usize))
        ensures
            (r.0 as int, r.1 as int) == caret_line_col(self@),
            r.0 <= self@.text.len(),
            r.1 <= self@.text.len(),
    {
        let cs = chars_of(self.text.as_str());
        proof { lemma_floor_index_props(cs@, self.cursor as int); }
        let (c, _) = floor_scan(cs.as_slice(), self.cursor);
        proof { lemma_col_le(cs@, c as int); }
        line_col_at(cs.as_slice(), c)
    }

    /// Remove the block selection, if there is one; returns whether there was.
    fn delete_block_selection(&mut self) -> (r: bool)
        requires
            block_ok(old(self)@),
        ensures
            match old(self)@.sel {
                SelectionState::Block { anchor_line, anchor_col } =>
                    r && final(self)@ == block_deleted(old(self)@, anchor_line as int, anchor_col as int),
                _ => !r && final(self)@ == old(self)@,
            },
    {
        let (al, ac) = match self.sel {
            SelectionState::Block { anchor_line, anchor_col } => (anchor_line, anchor_col),
            _ => {
                return false;
            },
        };
        let (cl, cc) = self.cursor_line_col();
        let line_lo = if al < cl { al } else { cl };
        let line_hi = if al < cl { cl } else { al };
        let col_lo = if ac < cc { ac } else { cc };
        let col_hi = (if ac < cc { cc } else { ac }) + 1;
        let cs = chars_of(self.text.as_str());
        let lines = split_to_strings(cs.as_slice(), '\n');
        let ghost lm = strings_model(lines@);
        let mut new_lines: Vec<String> = Vec::new();
        let mut i: usize = 0;
        while i < lines.len()
            invariant
                i <= lines@.len(),
                lm == strings_model(lines@),
                strings_model(new_lines@) == cut_lines(lm, line_lo as int, line_hi as int, col_lo as int, col_hi as int).take(i as int),
            decreases lines@.len() - i,
        {
            let ghost before = strings_model(new_lines@);
            let piece = if i < line_lo || i > line_hi {
                lines[i].clone()
            } else {
                cut_line_exec(&lines[i], col_lo, col_hi)
            };
            new_lines.push(piece);
            assert(strings_model(new_lines@) =~= before.push(piece@));
            assert(strings_model(new_lines@) =~= cut_lines(lm, line_lo as int, line_hi as int, col_lo as int, col_hi as int).take(i + 1));
            i = i + 1;
        }
        let ghost cut = cut_lines(lm, line_lo as int, line_hi as int, col_lo as int, col_hi as int);
        assert(cut.take(cut.len() as int) =~= cut);
        let old_len = if line_lo < lines.len() { chars_of(lines[line_lo].as_str()).len() } else { 0 };
        let col = if col_lo < old_len { col_lo } else { old_len };
        self.text = join_strings(new_lines.as_slice(), '\n');
        let cs2 = chars_of(self.text.as_str());
        let _len2 = str_bytes(self.text.as_str());
        proof { lemma_byte_len_encode(cs2@); lemma_line_len_bounds(cs2@, line_lo as nat); }
        let start = line_start_at(cs2.as_slice(), line_lo);
        let llen = line_length_at(cs2.as_slice(), line_lo);
        let n2 = cs2.len();
        assert(start + llen <= n2);
        let idx = start + if col < llen { col } else { llen };
        self.cursor = byte_offset(cs2.as_slice(), idx);
        self.sel = SelectionState::Empty;
        let (_l, pcol) = line_col_at(cs2.as_slice(), idx);
        self.preferred_column = Some(pcol);
        true
    }
}

/// The model once the selection is removed for typing over it: a block is cut out,
/// a non-empty stream range is removed; otherwise nothing changes.
pub open spec fn selection_cleared(m: TextModel) -> TextModel {
    match m.sel {
        SelectionState::Block { anchor_line, anchor_col } => block_deleted(m, anchor_line as int, anchor_col as int),
        SelectionState::Stream { anchor } => match stream_range(m.text, anchor as int, m.cursor as int) {
            Some((a, b)) => removed(m, a, b),
            None => m,
        },
        SelectionState::Empty => m,
    }
}

/// Typing `ch`: the selection is removed, then `ch` is inserted at the caret.
pub open spec fn typed(m: TextModel, ch: char) -> TextModel {
    inserted(selection_cleared(m), ch)
}

/// Backspace: removes the selection if there is one, else the character before the
/// caret; the flag says whether text was removed.
pub open spec fn erased_back(m: TextModel) -> (TextModel, bool) {
    match m.sel {
        SelectionState::Block { anchor_line, anchor_col } => (block_deleted(m, anchor_line as int, anchor_col as int), true),
        SelectionState::Stream { anchor } => match stream_range(m.text, anchor as int, m.cursor as int) {
            Some((a, b)) => (removed(m, a, b), true),
            None => (m, false),
        },
        SelectionState::Empty => backspaced(m),
    }
}

/// Delete: removes the selection if there is one, else the character after the caret.
pub open spec fn erased_forward(m: TextModel) -> (TextModel, bool) {
    match m.sel {
        SelectionState::Block { anchor_line, anchor_col } => (block_deleted(m, anchor_line as int, anchor_col as int), true),
        SelectionState::Stream { anchor } => match stream_range(m.text, anchor as int, m.cursor as int) {
            Some((a, b)) => (removed(m, a, b), true),
            None => (m, false),
        },
        SelectionState::Empty => deleted_forward(m),
    }
}

/// Pasting `s`: it replaces the selection, or is inserted at the caret when there is none.
pub open spec fn pasted(m: TextModel, s: Seq<char>) -> TextModel {
    match m.sel {
        SelectionState::Block { anchor_line, anchor_col } => inserted_str(block_deleted(m, anchor_line as int, anchor_col as int), s),
        SelectionState::Stream { anchor } => match stream_range(m.text, anchor as int, m.cursor as int) {
            Some((a, b)) => TextModel { sel: SelectionState::Empty, ..spliced(m, a, b, s) },
            None => inserted_str(m, s),
        },
        SelectionState::Empty => inserted_str(m, s),
    }
}

/// Whether `k` is the letter A (either case).
pub open spec fn is_letter_a(k: Key) -> bool {
    k == Key::Character('a') || k == Key::Character('A')
}

/// The model and the reported action after one key event.
pub open spec fn key_event_result(m: TextModel, ev: KeyEvent) -> (TextModel, Option<TextAreaAction>) {
    let md = ev.modifiers;
    let k = ev.key;
    if md.ctrl && is_letter_a(k) {
        (
            TextModel { sel: SelectionState::Stream { anchor: 0 }, cursor: byte_len(m.text) as usize, preferred_column: None, ..m },
            Some(TextAreaAction::Edited),
        )
    } else if is_nav_key(k) {
        let m1 = if md.shift && md.alt {
            if m.sel is Block {
                m
            } else {
                TextModel {
                    sel: SelectionState::Block {
                        anchor_line: caret_line_col(m).0 as usize,
                        anchor_col: caret_line_col(m).1 as usize,
                    },
                    ..m
                }
            }
        } else if md.shift {
            if m.sel is Stream { m } else { TextModel { sel: SelectionState::Stream { anchor: m.cursor }, ..m } }
        } else {
            TextModel { sel: SelectionState::Empty, ..m }
        };
        (navigated(m1, k), Some(TextAreaAction::Edited))
    } else {
        match k {
            Key::Character(c) => if md.ctrl { (m, None) } else { (typed(m, c), Some(TextAreaAction::Edited)) },
            Key::Enter => (typed(m, '\n'), Some(TextAreaAction::Edited)),
            Key::Backspace => (erased_back(m).0, if erased_back(m).1 { Some(TextAreaAction::Edited) } else { None }),
            Key::Delete => (erased_forward(m).0, if erased_forward(m).1 { Some(TextAreaAction::Edited) } else { None }),
            _ => (m, None),
        }
    }
}

impl TextArea {
    /// Character range of a non-empty stream selection.
    fn stream_chars(&self) -> (r: Option<(usize, usize)>)
        ensures
            match self@.sel {
                SelectionState::Stream { anchor } => match stream_range(self@.text, anchor as int, self@.cursor as int) {
                    Some((a, b)) => r == Some((a as usize, b as usize)) && 0 <= a <= b <= self@.text.len(),
                    None => r is None,
                },
                _ => r is None,
            },
    {
        match self.sel {
            SelectionState::Stream { anchor } => {
                let cs = chars_of(self.text.as_str());
                proof {
                    lemma_floor_index_props(cs@, anchor as int);
                    lemma_floor_index_props(cs@, self.cursor as int);
                }
                stream_range_chars(cs.as_slice(), anchor, self.cursor)
            },
            _ => None,
        }
    }

    /// Remove the selection before typing over it (see [`selection_cleared`]).
    fn clear_selection_for_edit(&mut self)
        requires
            block_ok(old(self)@),
        ensures
            final(self)@ == selection_cleared(old(self)@),
    {
        match self.sel {
            SelectionState::Block { .. } => {
                let _ = self.delete_block_selection();
            },
            SelectionState::Stream { .. } => {
                match self.stream_chars() {
                    Some((a, b)) => self.remove_chars(a, b),
                    None => {},
                }
            },
            SelectionState::Empty => {},
        }
    }

    /// Type `ch` over the selection (or at the caret).
    fn replace_selection_or_insert(&mut self, ch: char)
        requires
            block_ok(old(self)@),
        ensures
            final(self)@ == typed(old(self)@, ch),
    {
        self.clear_selection_for_edit();
        self.insert_char(ch);
    }

    /// Backspace: the selection, or the character before the caret.
    fn delete_selection_or_backspace(&mut self) -> (r: bool)
        requires
            block_ok(old(self)@),
        ensures
            (final(self)@, r) == erased_back(old(self)@),
    {
        match self.sel {
            SelectionState::Block { .. } => self.delete_block_selection(),
            SelectionState::Stream { .. } => {
                match self.stream_chars() {
                    Some((a, b)) => {
                        self.remove_chars(a, b);
                        true
                    },
                    None => false,
                }
            },
            SelectionState::Empty => self.backspace(),
        }
    }

    /// Delete: the selection, or the character after the caret.
    fn delete_selection_or_delete_forward(&mut self) -> (r: bool)
        requires
            block_ok(old(self)@),
        ensures
            (final(self)@, r) == erased_forward(old(self)@),
    {
        match self.sel {
            SelectionState::Block { .. } => self.delete_block_selection(),
            SelectionState::Stream { .. } => {
                match self.stream_chars() {
                    Some((a, b)) => {
                        self.remove_chars(a, b);
                        true
                    },
                    None => false,
                }
            },
            SelectionState::Empty => self.delete(),
        }
    }

    /// Replace the selection with `s`, or insert it at the caret when there is none.
    pub fn replace_selection_with_str(&mut self, s: &str) -> (r: Option<TextAreaAction>)
        requires
            block_ok(old(self)@),
        ensures
            final(self)@ == pasted(old(self)@, s@),
            r == Some(TextAreaAction::Edited),
    {
        let ins = chars_of(s);
        match self.sel {
            SelectionState::Block { .. } => {
                let _ = self.delete_block_selection();
                self.insert_chars_at_caret(ins.as_slice());
            },
            SelectionState::Stream { .. } => {
                match self.stream_chars() {
                    Some((a, b)) => {
                        self.splice(a, b, ins.as_slice());
                        self.sel = SelectionState::Empty;
                    },
                    None => self.insert_chars_at_caret(ins.as_slice()),
                }
            },
            SelectionState::Empty => self.insert_chars_at_caret(ins.as_slice()),
        }
        Some(TextAreaAction::Edited)
    }

    /// Whether something is selected: a stream anchor away from the caret, or a block
    /// anchor away from the caret's line and column.
    pub fn has_selection(&self) -> (r: bool)
        ensures
            r == match self@.sel {
                SelectionState::Empty => false,
                SelectionState::Stream { anchor } => anchor != self@.cursor,
                SelectionState::Block { anchor_line, anchor_col } =>
                    anchor_line != caret_line_col(self@).0 || anchor_col != caret_line_col(self@).1,
            },
    {
        match self.sel {
            SelectionState::Empty => false,
            SelectionState::Stream { anchor } => anchor != self.cursor,
            SelectionState::Block { anchor_line, anchor_col } => {
                let (cl, cc) = self.cursor_line_col();
                anchor_line != cl || anchor_col != cc
            },
        }
    }

    /// Whether [`Self::apply_key_event`] can take the next key: the text and a block
    /// selection's anchor column leave room to count one further (see [`block_ok`]).
    pub fn keys_ready(&self) -> (r: bool)
        ensures
            r == block_ok(self@),
    {
        proof {
            crate::text::lemma_byte_len_encode(self.text@);
            crate::text::lemma_byte_len_ge_len(self.text@);
        }
        let bytes = self.text.as_str().as_bytes().len();
        let anchor_fits = match self.sel {
            SelectionState::Block { anchor_col, .. } => anchor_col < usize::MAX,
            _ => true,
        };
        if bytes < usize::MAX {
            anchor_fits
        } else {
            anchor_fits && crate::text::chars_of(self.text.as_str()).len() < usize::MAX
        }
    }

    /// Apply one key event (see [`key_event_result`]).
    pub fn apply_key_event(&mut self, ev: &KeyEvent) -> (r: Option<TextAreaAction>)
        requires
            block_ok(old(self)@),
        ensures
            (final(self)@, r) == key_event_result(old(self)@, *ev),
    {
        let md = ev.modifiers;
        let k = ev.key;
        if md.ctrl && (k == Key::Character('a') || k == Key::Character('A')) {
            self.select_all();
            return Some(TextAreaAction::Edited);
        }
        match k {
            Key::Left | Key::Right | Key::Up | Key::Down | Key::Home | Key::End | Key::PageUp | Key::PageDown => {
                if md.shift && md.alt {
                    if !self.is_block_selection() {
                        let (l, c) = self.cursor_line_col();
                        self.sel = SelectionState::Block { anchor_line: l, anchor_col: c };
                    }
                } else if md.shift {
                    match self.sel {
                        SelectionState::Stream { .. } => {},
                        _ => {
                            self.sel = SelectionState::Stream { anchor: self.cursor };
                        },
                    }
                } else {
                    self.sel = SelectionState::Empty;
                }
                self.apply_navigation(k);
                Some(TextAreaAction::Edited)
            },
            Key::Character(c) => {
                if md.ctrl {
                    None
                } else {
                    self.replace_selection_or_insert(c);
                    Some(TextAreaAction::Edited)
                }
            },
            Key::Enter => {
                self.replace_selection_or_insert('\n');
                Some(TextAreaAction::Edited)
            },
            Key::Backspace => {
                if self.delete_selection_or_backspace() { Some(TextAreaAction::Edited) } else { None }
            },
            Key::Delete => {
                if self.delete_selection_or_delete_forward() { Some(TextAreaAction::Edited) } else { None }
            },
            _ => None,
        }
    }

    /// Apply a key with no modifier held.
    pub fn apply_key(&mut self, key: Key) -> (r: Option<TextAreaAction>)
        requires
            block_ok(old(self)@),
        ensures
            (final(self)@, r) == key_event_result(old(self)@, KeyEvent { key, modifiers: Modifiers::none_spec() }),
    {
        let ev = KeyEvent::new(key);
        self.apply_key_event(&ev)
    }
}

/// Columns `[x, y)` of line `l` covered by the character range `[a, b)`, if any.
pub open spec fn stream_highlight(t: Seq<char>, a: int, b: int, l: nat) -> Option<(int, int)> {
    let s = line_start_idx(t, l);
    let e = s + line_len(t, l);
    let x = if a < s { s } else if a > e { e } else { a };
    let y = if b > e { e } else if b < s { s } else { b };
    if x >= y { None } else { Some((x - s, y - s)) }
}

/// Columns `[st, en)` of a line of `len` characters inside the half-open column range
/// `[col_lo, col_hi)` (both capped at `len`; `en` never below `st`).
pub open spec fn clip_cols(len: int, col_lo: int, col_hi: int) -> (int, int) {
    let st = if col_lo < len { col_lo } else { len };
    let en0 = if col_hi < len { col_hi } else { len };
    (st, if en0 < st { st } else { en0 })
}

/// Highlighted columns of line `l`, for a stream or a block selection.
pub open spec fn highlight(m: TextModel, l: nat) -> Option<(int, int)> {
    match m.sel {
        SelectionState::Empty => None,
        SelectionState::Stream { anchor } => match stream_range(m.text, anchor as int, m.cursor as int) {
            Some((a, b)) => if l > nl_count(m.text) { None } else { stream_highlight(m.text, a, b, l) },
            None => None,
        },
        SelectionState::Block { anchor_line, anchor_col } => {
            let (lo, hi, col_lo, col_hi) = block_bounds(m, anchor_line as int, anchor_col as int);
            let (st, en) = clip_cols(line_len(m.text, l), col_lo, col_hi);
            if l < lo || l > hi || st >= en { None } else { Some((st, en)) }
        },
    }
}

/// The characters of line `l` inside the block's columns.
pub open spec fn block_segment(t: Seq<char>, l: nat, col_lo: int, col_hi: int) -> Seq<char> {
    let (st, en) = clip_cols(line_len(t, l), col_lo, col_hi);
    t.subrange(line_start_idx(t, l) + st, line_start_idx(t, l) + en)
}

/// One segment per line of a block selection anchored at `(al, ac)`.
pub open spec fn block_segments(m: TextModel, al: int, ac: int) -> Seq<Seq<char>> {
    let (lo, hi, col_lo, col_hi) = block_bounds(m, al, ac);
    Seq::new((hi - lo + 1) as nat, |i: int| block_segment(m.text, (lo + i) as nat, col_lo, col_hi))
}

/// The selected characters: the stream range, or the block's segments joined with
/// newlines; `None` when that is empty.
pub open spec fn selection_text(m: TextModel) -> Option<Seq<char>> {
    match m.sel {
        SelectionState::Empty => None,
        SelectionState::Stream { anchor } => match stream_range(m.text, anchor as int, m.cursor as int) {
            Some((a, b)) => Some(m.text.subrange(a, b)),
            None => None,
        },
        SelectionState::Block { anchor_line, anchor_col } => {
            let j = join_with(block_segments(m, anchor_line as int, anchor_col as int), '\n');
            if j.len() == 0 { None } else { Some(j) }
        },
    }
}

/// Append `cs[a..b]` to `out`.
fn push_range(out: &mut Vec<char>, cs: &[char], a: usize, b: usize)
    requires
        a <= b <= cs@.len(),
    ensures
        final(out)@ == old(out)@ + cs@.subrange(a as int, b as int),
{
    let mut j: usize = a;
    while j < b
        invariant
            a <= j <= b <= cs@.len(),
            out@ == old(out)@ + cs@.subrange(a as int, j as int),
        decreases b - j,
    {
        out.push(cs[j]);
        j = j + 1;
        assert(out@ =~= old(out)@ + cs@.subrange(a as int, j as int));
    }
}

/// Columns of a line of `len` characters inside `[col_lo, col_hi)` (see [`clip_cols`]).
fn clip_cols_exec(len: usize, col_lo: usize, col_hi: usize) -> (r: (usize, usize))
    ensures
        (r.0 as int, r.1 as int) == clip_cols(len as int, col_lo as int, col_hi as int),
        r.0 <= r.1 <= len,
{
    let st = if col_lo < len { col_lo } else { len };
    let en0 = if col_hi < len { col_hi } else { len };
    (st, if en0 < st { st } else { en0 })
}

impl TextArea {
    /// Columns `[start, end)` of line `line_idx` to highlight (stream or block selection).
    pub fn selection_highlight_on_line(&self, line_idx: usize) -> (r: Option<(usize, usize)>)
        requires
            block_ok(self@),
        ensures
            r == match highlight(self@, line_idx as nat) {
                Some((x, y)) => Some((x as usize, y as usize)),
                None => None,
            },
    {
        match self.sel {
            SelectionState::Empty => None,
            SelectionState::Stream { .. } => {
                let (a, b) = match self.stream_chars() {
                    Some(p) => p,
                    None => {
                        return None;
                    },
                };
                let cs = chars_of(self.text.as_str());
                let n = count_newlines(cs.as_slice());
                if line_idx > n {
                    return None;
                }
                let st = line_start_at(cs.as_slice(), line_idx);
                let llen = line_length_at(cs.as_slice(), line_idx);
                proof { lemma_line_len_bounds(cs@, line_idx as nat); }
                let total = cs.len();
                assert(st + llen <= total);
                let e = st + llen;
                let x = if a < st { st } else if a > e { e } else { a };
                let y = if b > e { e } else if b < st { st } else { b };
                if x >= y {
                    None
                } else {
                    Some((x - st, y - st))
                }
            },
            SelectionState::Block { anchor_line, anchor_col } => {
                let (cl, cc) = self.cursor_line_col();
                let line_lo = if anchor_line < cl { anchor_line } else { cl };
                let line_hi = if anchor_line < cl { cl } else { anchor_line };
                let col_lo = if anchor_col < cc { anchor_col } else { cc };
                let col_hi = (if anchor_col < cc { cc } else { anchor_col }) + 1;
                let cs = chars_of(self.text.as_str());
                let llen = line_length_at(cs.as_slice(), line_idx);
                proof { lemma_line_len_bounds(cs@, line_idx as nat); }
                let (st, en) = clip_cols_exec(llen, col_lo, col_hi);
                if line_idx < line_lo || line_idx > line_hi || st >= en {
                    None
                } else {
                    Some((st, en))
                }
            },
        }
    }

    /// The selected text (see [`selection_text`]), for copying.
    pub fn selected_text(&self) -> (r: Option<String>)
        requires
            block_ok(self@),
        ensures
            match selection_text(self@) {
                Some(t) => r is Some && r->0@ == t,
                None => r is None,
            },
    {
        match self.sel {
            SelectionState::Empty => None,
            SelectionState::Stream { .. } => {
                match self.stream_chars() {
                    Some((a, b)) => {
                        let cs = chars_of(self.text.as_str());
                        let mut out: Vec<char> = Vec::new();
                        push_range(&mut out, cs.as_slice(), a, b);
                        assert(out@ =~= cs@.subrange(a as int, b as int));
                        Some(string_from_chars(out.as_slice()))
                    },
                    None => None,
                }
            },
            SelectionState::Block { anchor_line, anchor_col } => {
                let (cl, cc) = self.cursor_line_col();
                let line_lo = if anchor_line < cl { anchor_line } else { cl };
                let line_hi = if anchor_line < cl { cl } else { anchor_line };
                let col_lo = if anchor_col < cc { anchor_col } else { cc };
                let col_hi = (if anchor_col < cc { cc } else { anchor_col }) + 1;
                let cs = chars_of(self.text.as_str());
                let ghost segs = block_segments(self@, anchor_line as int, anchor_col as int);
                let mut out: Vec<char> = Vec::new();
                let mut li = line_lo;
                assert(segs.take(0) =~= Seq::<Seq<char>>::empty());
                loop
                    invariant_except_break
                        line_lo <= li <= line_hi,
                        out@ == join_with(segs.take(li - line_lo), '\n'),
                    invariant
                        cs@ == self@.text,
                        segs == block_segments(self@, anchor_line as int, anchor_col as int),
                        segs.len() == line_hi - line_lo + 1,
                        (line_lo as int, line_hi as int, col_lo as int, col_hi as int)
                            == block_bounds(self@, anchor_line as int, anchor_col as int),
                    ensures
                        out@ == join_with(segs, '\n'),
                    decreases line_hi - li,
                {
                    let k: Ghost<int> = Ghost(li - line_lo);
                    assert(segs.take(k@ + 1).drop_last() =~= segs.take(k@));
                    assert(segs.take(k@ + 1).last() == segs[k@]);
                    let st0 = line_start_at(cs.as_slice(), li);
                    let llen = line_length_at(cs.as_slice(), li);
                    proof { lemma_line_len_bounds(cs@, li as nat); }
                    let total = cs.len();
                    assert(st0 + llen <= total);
                    let (st, en) = clip_cols_exec(llen, col_lo, col_hi);
                    if li > line_lo {
                        out.push('\n');
                    }
                    push_range(&mut out, cs.as_slice(), st0 + st, st0 + en);
                    if li == line_lo {
                        assert(out@ =~= segs.take(1)[0]);
                    }
                    if li == line_hi {
                        assert(segs.take(k@ + 1) =~= segs);
                        break;
                    }
                    li = li + 1;
                }
                if out.len() == 0 {
                    None
                } else {
                    Some(string_from_chars(out.as_slice()))
                }
            },
        }
    }
}

// ── Soft wrapping ───────────────────────────────────────────────────────────

/// `s` without its leading spaces.
pub open spec fn trim_spaces(s: Seq<char>) -> Seq<char>
    decreases s.len(),
{
    if s.len() > 0 && s[0] == ' ' { trim_spaces(s.drop_first()) } else { s }
}

/// Index of the last space among the first `n` characters of `s`, or -1.
pub open spec fn last_space_before(s: Seq<char>, n: int) -> int
    decreases n,
{
    if n <= 0 { -1 } else if s[n - 1] == ' ' { n - 1 } else { last_space_before(s, n - 1) }
}

/// Where a row longer than `cols` breaks: at its last space within the first `cols`
/// characters, or after `cols` characters when there is none.
pub open spec fn wrap_break(s: Seq<char>, cols: int) -> int {
    let i = last_space_before(s, cols);
    if i < 0 { cols } else { i }
}

/// Trimming never lengthens, and shortens a piece that starts with a space.
pub proof fn lemma_trim_spaces_len(s: Seq<char>)
    ensures
        trim_spaces(s).len() <= s.len(),
        s.len() > 0 && s[0] == ' ' ==> trim_spaces(s).len() < s.len(),
    decreases s.len(),
{
    if s.len() > 0 && s[0] == ' ' {
        lemma_trim_spaces_len(s.drop_first());
    }
}

/// The last space found before `n` lies in `[-1, n)` and is a space.
pub proof fn lemma_last_space_bounds(s: Seq<char>, n: int)
    ensures
        -1 <= last_space_before(s, n) < (if n < 0 { 0 } else { n }),
        last_space_before(s, n) >= 0 ==> s[last_space_before(s, n)] == ' ',
    decreases n,
{
    if n > 0 && s[n - 1] != ' ' {
        lemma_last_space_bounds(s, n - 1);
    }
}

/// Display rows of a non-empty piece of a line, `cols` characters wide: break at the
/// last space that fits (hard break when none does) and drop the spaces that start
/// the next row.
pub open spec fn wrap_rows(rem: Seq<char>, cols: nat) -> Seq<Seq<char>>
    decreases rem.len(),
{
    if rem.len() == 0 {
        Seq::empty()
    } else if rem.len() <= cols || cols == 0 {
        seq![rem]
    } else {
        let k = wrap_break(rem, cols as int);
        proof {
            lemma_last_space_bounds(rem, cols as int);
            lemma_trim_spaces_len(rem.skip(k));
        }
        seq![rem.take(k)] + wrap_rows(trim_spaces(rem.skip(k)), cols)
    }
}

/// Display rows of one logical line (an empty line gives one empty row).
pub open spec fn line_rows(line: Seq<char>, cols: nat) -> Seq<Seq<char>> {
    if line.len() == 0 { seq![line] } else { wrap_rows(line, cols) }
}

/// Display rows of the logical lines, in order.
pub open spec fn rows_of_lines(lines: Seq<Seq<char>>, cols: nat) -> Seq<Seq<char>>
    decreases lines.len(),
{
    if lines.len() == 0 { Seq::empty() } else { rows_of_lines(lines.drop_last(), cols) + line_rows(lines.last(), cols) }
}

/// Soft-wrapped display rows of `t` for a viewport `cols` characters wide; with
/// `cols == 0` the logical lines themselves.
pub open spec fn wrapped(t: Seq<char>, cols: nat) -> Seq<Seq<char>> {
    if cols == 0 {
        split_on(t, '\n')
    } else {
        let rows = rows_of_lines(split_on(t, '\n'), cols);
        if rows.len() == 0 { seq![Seq::empty()] } else { rows }
    }
}

/// A string of `cs[a..b]`.
fn string_of_range(cs: &[char], a: usize, b: usize) -> (r: String)
    requires
        a <= b <= cs@.len(),
    ensures
        r@ == cs@.subrange(a as int, b as int),
{
    let mut out: Vec<char> = Vec::new();
    push_range(&mut out, cs, a, b);
    assert(out@ =~= cs@.subrange(a as int, b as int));
    string_from_chars(out.as_slice())
}

/// Append the display rows of one non-empty logical line to `out`.
fn push_wrapped_rows(out: &mut Vec<String>, line: &[char], cols: usize)
    requires
        cols > 0,
        line@.len() > 0,
    ensures
        strings_model(final(out)@) == strings_model(old(out)@) + wrap_rows(line@, cols as nat),
{
    let len = line.len();
    let mut start: usize = 0;
    assert(line@.skip(0) =~= line@);
    while start < len
        invariant
            cols > 0,
            len == line@.len(),
            start <= len,
            strings_model(out@) + wrap_rows(line@.skip(start as int), cols as nat)
                == strings_model(old(out)@) + wrap_rows(line@, cols as nat),
        decreases len - start,
    {
        let ghost rem = line@.skip(start as int);
        let ghost before = strings_model(out@);
        if len - start <= cols {
            let piece = string_of_range(line, start, len);
            out.push(piece);
            assert(piece@ =~= rem);
            assert(strings_model(out@) =~= before.push(rem));
            assert(line@.skip(len as int) =~= Seq::<char>::empty());
            assert(before + seq![rem] =~= before.push(rem));
            start = len;
        } else {
            let mut i: usize = 0;
            let mut last: usize = 0;
            let mut found = false;
            while i < cols
                invariant
                    i <= cols < rem.len(),
                    rem == line@.skip(start as int),
                    start + cols < len == line@.len(),
                    last_space_before(rem, i as int) == (if found { last as int } else { -1 }),
                decreases cols - i,
            {
                if line[start + i] == ' ' {
                    last = i;
                    found = true;
                }
                i = i + 1;
            }
            let k = if found { last } else { cols };
            proof { lemma_last_space_bounds(rem, cols as int); }
            let piece = string_of_range(line, start, start + k);
            out.push(piece);
            assert(piece@ =~= rem.take(k as int));
            assert(strings_model(out@) =~= before.push(rem.take(k as int)));
            let mut j: usize = start + k;
            assert(line@.skip(j as int) =~= rem.skip(k as int));
            while j < len && line[j] == ' '
                invariant
                    start + k <= j <= len == line@.len(),
                    trim_spaces(line@.skip(j as int)) == trim_spaces(rem.skip(k as int)),
                decreases len - j,
            {
                assert(line@.skip(j as int).drop_first() =~= line@.skip(j + 1));
                j = j + 1;
            }
            proof {
                if k == 0 {
                    assert(rem[0] == ' ');
                    assert(line@[start as int] == rem[0]);
                }
            }
            assert(trim_spaces(line@.skip(j as int)) == line@.skip(j as int));
            assert(seq![rem.take(k as int)] + wrap_rows(trim_spaces(rem.skip(k as int)), cols as nat)
                == wrap_rows(rem, cols as nat));
            assert(strings_model(out@) + wrap_rows(line@.skip(j as int), cols as nat)
                =~= before + wrap_rows(rem, cols as nat));
            start = j;
        }
    }
    assert(line@.skip(len as int) =~= Seq::<char>::empty());
    assert(strings_model(out@) + Seq::<Seq<char>>::empty() =~= strings_model(out@));
}

impl TextArea {
    /// Soft-wrapped display rows for a viewport `cols` characters wide (see [`wrapped`]).
    pub fn wrapped_lines(&self, cols: usize) -> (r: Vec<String>)
        ensures
            strings_model(r@) == wrapped(self@.text, cols as nat),
    {
        if cols == 0 {
            return self.lines();
        }
        let cs = chars_of(self.text.as_str());
        let lines = split_to_strings(cs.as_slice(), '\n');
        let ghost lm = strings_model(lines@);
        let mut out: Vec<String> = Vec::new();
        let mut i: usize = 0;
        assert(lm.take(0) =~= Seq::<Seq<char>>::empty());
        while i < lines.len()
            invariant
                cols > 0,
                i <= lines@.len(),
                lm == strings_model(lines@),
                strings_model(out@) == rows_of_lines(lm.take(i as int), cols as nat),
            decreases lines@.len() - i,
        {
            assert(lm.take(i + 1).drop_last() =~= lm.take(i as int));
            assert(lm.take(i + 1).last() == lines@[i as int]@);
            let lc = chars_of(lines[i].as_str());
            if lc.len() == 0 {
                let ghost before = strings_model(out@);
                out.push(String::new());
                assert(strings_model(out@) =~= before + seq![Seq::<char>::empty()]);
                assert(lc@ =~= Seq::<char>::empty());
            } else {
                push_wrapped_rows(&mut out, lc.as_slice(), cols);
            }
            i = i + 1;
        }
        assert(lm.take(lm.len() as int) =~= lm);
        if out.len() == 0 {
            out.push(String::new());
            assert(strings_model(out@) =~= seq![Seq::<char>::empty()]);
        }
        out
    }

    /// Number of display rows when wrapped to `cols` characters.
    pub fn wrapped_line_count(&self, cols: usize) -> (r: usize)
        ensures
            r == wrapped(self@.text, cols as nat).len(),
    {
        let rows = self.wrapped_lines(cols);
        proof { assert(strings_model(rows@).len() == rows@.len()); }
        rows.len()
    }
}

/// Point a vertical scrollbar at a text area's line scroll: the content is the number
/// of display rows (soft-wrapped to `cols` columns, or logical lines when `cols == 0`,
/// at least 1), the viewport `visible_lines` (at least 1), the offset the first
/// visible line.
pub fn textarea_sync_vertical_scroll(textarea: &TextArea, visible_lines: usize, cols: usize, scroll: &mut ScrollbarState)
    ensures
        final(scroll).axis == ScrollAxis::Vertical,
        final(scroll).content_len == (if wrapped(textarea@.text, cols as nat).len() < 1 { 1 } else {
            wrapped(textarea@.text, cols as nat).len()
        }),
        final(scroll).viewport_len == (if visible_lines < 1 { 1 } else { visible_lines }),
        final(scroll).offset == textarea@.scroll_top_line,
{
    let n = if cols > 0 { textarea.wrapped_line_count(cols) } else { textarea.line_count() };
    scroll.axis = ScrollAxis::Vertical;
    scroll.content_len = if n < 1 { 1 } else { n };
    scroll.viewport_len = if visible_lines < 1 { 1 } else { visible_lines };
    scroll.offset = textarea.scroll_top_line;
}


/// Typing a character with no selection and then pressing Backspace gives back the
/// text, with the caret on the char boundary where the character went in.
pub proof fn lemma_type_then_backspace(m: TextModel, ch: char)
    requires
        m.sel == SelectionState::Empty,
        byte_len(m.text) + 4 <= usize::MAX,
    ensures
        erased_back(typed(m, ch)).1,
        erased_back(typed(m, ch)).0.text == m.text,
        erased_back(typed(m, ch)).0.cursor == at(m, caret(m)),
        erased_back(typed(m, ch)).0.sel == SelectionState::Empty,
{
    let t = m.text;
    let c = caret(m);
    lemma_floor_index_props(t, m.cursor as int);
    lemma_byte_at_mono(t, c, t.len() as int);
    assert(t.take(t.len() as int) =~= t);
    let m1 = typed(m, ch);
    let t1 = t.take(c) + seq![ch] + t.skip(c);
    assert(m1.text == t1);
    assert(t1.take(c) =~= t.take(c));
    lemma_byte_at_step(t1, c);
    assert(t1[c] == ch);
    let b1 = byte_at(t, c) + char_width(ch);
    assert(byte_at(t1, c) == byte_at(t, c));
    assert(byte_at(t1, c + 1) == b1);
    assert(seq![ch].drop_last() =~= Seq::<char>::empty());
    assert(seq![ch].last() == ch);
    assert(byte_len(Seq::<char>::empty()) == 0);
    assert(byte_len(seq![ch]) == char_width(ch));
    assert(byte_at(t, c) <= byte_len(t));
    assert(selection_cleared(m) == m);
    assert(m1 == spliced(m, c, c, seq![ch]));
    lemma_byte_at_mono(t, 0, c);
    assert(t.take(0) =~= Seq::<char>::empty());
    assert(0 <= b1 <= usize::MAX);
    assert(m1.cursor as int == b1);
    if c + 1 < t1.len() {
        lemma_byte_at_step(t1, c + 1);
    }
    lemma_floor_index_char(t1, b1, c + 1);
    assert(caret(m1) == c + 1);
    assert(t1.take(c) + t1.skip(c + 1) =~= t);
}


// ── Home and End ────────────────────────────────────────────────────────────

proof fn lemma_nl_step(s: Seq<char>, k: int)
    requires
        0 <= k < s.len(),
    ensures
        nl_count(s.take(k + 1)) == nl_count(s.take(k)) + if s[k] == '\n' { 1int } else { 0int },
{
    assert(s.take(k + 1).drop_last() =~= s.take(k));
    assert(s.take(k + 1).last() == s[k]);
}

proof fn lemma_nl_mono(s: Seq<char>, a: int, b: int)
    requires
        0 <= a <= b <= s.len(),
    ensures
        nl_count(s.take(a)) <= nl_count(s.take(b)),
    decreases b - a,
{
    if a < b {
        lemma_nl_mono(s, a, b - 1);
        lemma_nl_step(s, b - 1);
    }
}

/// Between two indices with as many newlines before them there is no newline.
proof fn lemma_no_nl_between(s: Seq<char>, i: int, j: int)
    requires
        0 <= i <= j <= s.len(),
        nl_count(s.take(i)) == nl_count(s.take(j)),
    ensures
        forall|k: int| i <= k < j ==> s[k] != '\n',
{
    assert forall|k: int| i <= k < j implies s[k] != '\n' by {
        lemma_nl_mono(s, i, k);
        lemma_nl_step(s, k);
        lemma_nl_mono(s, k + 1, j);
    }
}

/// Line `l` starts just after the `l`-th newline: `l` newlines come before it.
proof fn lemma_line_start_count(s: Seq<char>, l: nat)
    requires
        l <= nl_count(s),
    ensures
        nl_count(s.take(line_start_idx(s, l))) == l,
    decreases s.len(),
{
    if l == 0 || s.len() == 0 {
        assert(s.take(0) =~= Seq::<char>::empty());
    } else if nl_count(s.drop_last()) >= l {
        let t = s.drop_last();
        lemma_line_start_count(t, l);
        lemma_line_start_bounds(t, l);
        assert(t.take(line_start_idx(t, l)) =~= s.take(line_start_idx(t, l)));
    } else {
        assert(s.take(s.len() as int) =~= s);
    }
}

/// The line of character `c` starts at index `s0`: no later than `c`, at the text's
/// start or just after a newline, with no newline from it up to `c`.
proof fn lemma_caret_line_start(t: Seq<char>, c: int)
    requires
        0 <= c <= t.len(),
    ensures
        ({
            let s0 = line_start_idx(t, line_of(t, c));
            &&& 0 <= s0 <= c
            &&& s0 == 0 || t[s0 - 1] == '\n'
            &&& forall|k: int| s0 <= k < c ==> t[k] != '\n'
        }),
{
    let l = line_of(t, c);
    assert(t.take(t.len() as int) =~= t);
    lemma_nl_mono(t, c, t.len() as int);
    lemma_line_start_count(t, l);
    lemma_line_start_bounds(t, l);
    let s0 = line_start_idx(t, l);
    if s0 > c {
        if l > 0 {
            lemma_nl_step(t, s0 - 1);
            lemma_nl_mono(t, c, s0 - 1);
        } else {
            assert(s0 == 0);
        }
    }
    lemma_no_nl_between(t, s0, c);
}

/// The line of character `c` ends at index `e`: no earlier than `c`, at the text's end
/// or on a newline, with no newline from `c` up to it.
proof fn lemma_caret_line_end(t: Seq<char>, c: int)
    requires
        0 <= c <= t.len(),
    ensures
        ({
            let l = line_of(t, c);
            let e = line_start_idx(t, l) + line_len(t, l);
            &&& c <= e <= t.len()
            &&& e == t.len() || t[e] == '\n'
            &&& forall|k: int| c <= k < e ==> t[k] != '\n'
        }),
{
    let l = line_of(t, c);
    assert(t.take(t.len() as int) =~= t);
    lemma_nl_mono(t, c, t.len() as int);
    lemma_line_len_bounds(t, l);
    if nl_count(t) > l {
        lemma_line_start_count(t, l + 1);
        lemma_line_start_bounds(t, l + 1);
        let e = line_start_idx(t, l + 1) - 1;
        lemma_nl_step(t, e);
        if c > e {
            lemma_nl_mono(t, e + 1, c);
        }
        lemma_no_nl_between(t, c, e);
    } else {
        lemma_no_nl_between(t, c, t.len() as int);
    }
}

/// Home puts the caret at the start of its own line and End at the end of it, whatever
/// modifiers are held: the text is unchanged; after Home the caret is at or before
/// where it was, at the text's start or just after a newline, with no newline between;
/// after End it is at or after where it was, at the text's end or on a newline, with
/// no newline between.
pub proof fn lemma_home_end_stay_on_line(m: TextModel, ev: KeyEvent)
    requires
        ev.key == Key::Home || ev.key == Key::End,
        byte_len(m.text) <= usize::MAX,
    ensures
        ({
            let t = m.text;
            let c = caret(m);
            let m2 = key_event_result(m, ev).0;
            let k2 = floor_index(t, m2.cursor as int);
            &&& m2.text == t
            &&& byte_at(t, k2) == m2.cursor
            &&& ev.key == Key::Home ==> {
                &&& k2 <= c
                &&& k2 == 0 || t[k2 - 1] == '\n'
                &&& forall|k: int| k2 <= k < c ==> t[k] != '\n'
            }
            &&& ev.key == Key::End ==> {
                &&& c <= k2
                &&& k2 == t.len() || t[k2] == '\n'
                &&& forall|k: int| c <= k < k2 ==> t[k] != '\n'
            }
        }),
{
    let t = m.text;
    lemma_floor_index_props(t, m.cursor as int);
    let c = caret(m);
    let l = line_of(t, c);
    let target = if ev.key == Key::Home {
        lemma_caret_line_start(t, c);
        line_start_idx(t, l)
    } else {
        lemma_caret_line_end(t, c);
        line_start_idx(t, l) + line_len(t, l)
    };
    assert(0 <= target <= t.len());
    assert(t.take(t.len() as int) =~= t);
    lemma_byte_at_mono(t, target, t.len() as int);
    assert(t.take(0) =~= Seq::<char>::empty());
    lemma_byte_at_mono(t, 0, target);
    if target < t.len() {
        lemma_byte_at_step(t, target);
    }
    lemma_floor_index_char(t, byte_at(t, target), target);
}


/// Character index `k` sits at byte `byte_at(t, k)`, and that byte leads back to it.
proof fn lemma_floor_at(t: Seq<char>, k: int)
    requires
        0 <= k <= t.len(),
    ensures
        floor_index(t, byte_at(t, k)) == k,
        0 <= byte_at(t, k) <= byte_len(t),
{
    assert(t.take(t.len() as int) =~= t);
    assert(t.take(0) =~= Seq::<char>::empty());
    lemma_byte_at_mono(t, k, t.len() as int);
    lemma_byte_at_mono(t, 0, k);
    if k < t.len() {
        lemma_byte_at_step(t, k);
    }
    lemma_floor_index_char(t, byte_at(t, k), k);
}

/// With no newline between `i` and `j`, as many newlines come before both.
proof fn lemma_nl_equal_between(s: Seq<char>, i: int, j: int)
    requires
        0 <= i <= j <= s.len(),
        forall|k: int| i <= k < j ==> s[k] != '\n',
    ensures
        nl_count(s.take(i)) == nl_count(s.take(j)),
    decreases j - i,
{
    if i < j {
        lemma_nl_equal_between(s, i, j - 1);
        lemma_nl_step(s, j - 1);
    }
}

/// Every index of line `l` (from its start up to its end) lies on line `l`.
proof fn lemma_index_on_line(t: Seq<char>, l: nat, x: int)
    requires
        l <= nl_count(t),
        0 <= x <= line_len(t, l),
    ensures
        line_of(t, line_start_idx(t, l) + x) == l,
{
    assert(t.take(t.len() as int) =~= t);
    lemma_line_len_bounds(t, l);
    lemma_line_start_count(t, l);
    let ls = line_start_idx(t, l);
    if nl_count(t) > l {
        lemma_line_start_count(t, l + 1);
        lemma_line_start_bounds(t, l + 1);
        let e = line_start_idx(t, l + 1) - 1;
        lemma_nl_step(t, e);
        lemma_no_nl_between(t, ls, e);
    } else {
        lemma_no_nl_between(t, ls, t.len() as int);
    }
    lemma_nl_equal_between(t, ls, ls + x);
}

/// The arrow keys move the caret one step, whatever modifiers are held: Left and Right
/// by one character (stopping at the ends of the text), Up and Down to the line above
/// or below, PageUp and PageDown ten lines (stopping at the first and last line). The
/// text is unchanged.
pub proof fn lemma_arrows_move_one_step(m: TextModel, ev: KeyEvent)
    requires
        ev.key == Key::Left || ev.key == Key::Right || ev.key == Key::Up || ev.key == Key::Down
            || ev.key == Key::PageUp || ev.key == Key::PageDown,
        byte_len(m.text) <= usize::MAX,
    ensures
        ({
            let t = m.text;
            let c = caret(m);
            let li = line_of(t, c) as int;
            let last = nl_count(t) as int;
            let m2 = key_event_result(m, ev).0;
            let k2 = floor_index(t, m2.cursor as int);
            &&& m2.text == t
            &&& ev.key == Key::Left ==> k2 == (if c > 0 { c - 1 } else { 0 })
            &&& ev.key == Key::Right ==> k2 == (if c < t.len() { c + 1 } else { t.len() as int })
            &&& ev.key == Key::Up ==> line_of(t, k2) == (if li > 0 { li - 1 } else { 0 })
            &&& ev.key == Key::Down ==> line_of(t, k2) == (if li < last { li + 1 } else { li })
            &&& ev.key == Key::PageUp ==> line_of(t, k2) == (if li > 10 { li - 10 } else { 0 })
            &&& ev.key == Key::PageDown ==> line_of(t, k2) == (if li + 10 < last { li + 10 } else { last })
        }),
{
    let t = m.text;
    lemma_floor_index_props(t, m.cursor as int);
    let c = caret(m);
    assert(t.take(t.len() as int) =~= t);
    lemma_nl_mono(t, c, t.len() as int);
    let li = line_of(t, c) as int;
    let last = nl_count(t) as int;
    if ev.key == Key::Left {
        if c > 0 { lemma_floor_at(t, c - 1); } else { lemma_floor_at(t, c); }
    } else if ev.key == Key::Right {
        if c < t.len() { lemma_floor_at(t, c + 1); } else { lemma_floor_at(t, c); }
    } else {
        let delta: int = if ev.key == Key::Up { -1 } else if ev.key == Key::Down { 1 } else if ev.key == Key::PageUp { -10 } else { 10 };
        let nl = if li + delta < 0 { 0 } else if li + delta > last { last } else { li + delta };
        if nl != li {
            let m1 = key_event_result(m, ev).0;
            let col: int = match m.preferred_column { Some(p) => p as int, None => col_of(t, c) };
            lemma_col_le(t, c);
            lemma_line_len_bounds(t, nl as nat);
            let x = if col < line_len(t, nl as nat) { col } else { line_len(t, nl as nat) };
            lemma_index_on_line(t, nl as nat, x);
            lemma_floor_at(t, line_start_idx(t, nl as nat) + x);
        }
    }
}

} // verus!
