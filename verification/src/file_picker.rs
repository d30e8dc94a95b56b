//! Load / save file picker state: directory listing navigation, the filename field,
//! and the dialog that routes keys between them.

use vstd::prelude::*;
use crate::input::{Key, KeyEvent};
use vstd::relations::{sorted_by, total_ordering};
use crate::text::{
    chars_le, chars_leq, lemma_chars_le_refl, lemma_chars_le_antisym, lemma_chars_le_trans,
    lemma_chars_le_total, strings_model, trim_chars, trim_ws, clone_strings,
};
use crate::text::{
    byte_len, byte_at, char_width, char_len_utf8, chars_of, floor_index, floor_scan, is_boundary,
    lemma_byte_len_encode, lemma_floor_index_props, lemma_floor_index_char, lemma_byte_at_step,
    lemma_byte_at_mono, string_from_chars, byte_offset,
};

verus! {

/// The byte length of a string, with its character model.
fn str_byte_len(s: &str) -> (r: usize)
    ensures
        r == byte_len(s@),
{
    proof { lemma_byte_len_encode(s@); }
    s.as_bytes().len()
}

// ── Directory entries ─────────────────────────────────────────────────────

/// One row in the directory listing.
#[derive(Debug, Clone, PartialEq, Eq)]
pub struct DirEntry {
    pub name: String,
    pub is_dir: bool,
}

/// A directory entry as (name, is_dir).
pub type EntryModel = (Seq<char>, bool);

impl View for DirEntry {
    type V = EntryModel;

    open spec fn view(&self) -> EntryModel {
        (self.name@, self.is_dir)
    }
}

/// The entries of a listing as models.
pub open spec fn entries_model(v: Seq<DirEntry>) -> Seq<EntryModel> {
    v.map_values(|e: DirEntry| e@)
}

/// Listing order: directories before files, then by name.
pub open spec fn entry_leq(a: EntryModel, b: EntryModel) -> bool {
    (a.1 && !b.1) || (a.1 == b.1 && chars_le(a.0, b.0))
}

/// The listing order as a relation.
pub open spec fn entry_order() -> spec_fn(EntryModel, EntryModel) -> bool {
    |a: EntryModel, b: EntryModel| entry_leq(a, b)
}

/// The listing order is a total order.
pub proof fn lemma_entry_order_total()
    ensures
        total_ordering(entry_order()),
{
    let r = entry_order();
    assert forall|x: EntryModel| #[trigger] r(x, x) by {
        lemma_chars_le_refl(x.0);
    }
    assert forall|x: EntryModel, y: EntryModel| #[trigger] r(x, y) && #[trigger] r(y, x) implies x == y by {
        lemma_chars_le_antisym(x.0, y.0);
    }
    assert forall|x: EntryModel, y: EntryModel, z: EntryModel| #[trigger] r(x, y) && #[trigger] r(y, z) implies r(x, z) by {
        if x.1 == y.1 && y.1 == z.1 {
            lemma_chars_le_trans(x.0, y.0, z.0);
        }
    }
    assert forall|x: EntryModel, y: EntryModel| #[trigger] r(x, y) || #[trigger] r(y, x) by {
        lemma_chars_le_total(x.0, y.0);
    }
}

/// The `..` entry shown below the navigation root.
pub open spec fn parent_entry() -> EntryModel {
    (seq!['.', '.'], true)
}

/// How a listing `l` is shown: sorted, with `..` first unless at the root.
pub open spec fn arranged_listing(at_root: bool, l: Seq<EntryModel>) -> Seq<EntryModel> {
    let sorted = l.sort_by(entry_order());
    if at_root { sorted } else { seq![parent_entry()] + sorted }
}

fn clone_entry(e: &DirEntry) -> (r: DirEntry)
    ensures
        r@ == e@,
{
    DirEntry { name: e.name.clone(), is_dir: e.is_dir }
}

fn entry_leq_exec(a: &DirEntry, b: &DirEntry) -> (r: bool)
    ensures
        r == entry_leq(a@, b@),
{
    if a.is_dir && !b.is_dir {
        return true;
    }
    if a.is_dir != b.is_dir {
        return false;
    }
    let ca = chars_of(a.name.as_str());
    let cb = chars_of(b.name.as_str());
    chars_leq(ca.as_slice(), cb.as_slice())
}

/// Sort directory entries: directories first, then by name.
pub fn sort_dir_entries(entries: Vec<DirEntry>) -> (r: Vec<DirEntry>)
    ensures
        entries_model(r@) == entries_model(entries@).sort_by(entry_order()),
{
    proof { lemma_entry_order_total(); }
    let ghost input = entries_model(entries@);
    let mut out: Vec<DirEntry> = Vec::new();
    let mut rest = entries;
    let mut i: usize = 0;
    let n = rest.len();
    assert(input.take(0) =~= Seq::<EntryModel>::empty());
    assert(entries_model(out@) =~= Seq::<EntryModel>::empty());
    while i < n
        invariant
            n == rest@.len(),
            i <= n,
            input == entries_model(rest@),
            total_ordering(entry_order()),
            sorted_by(entries_model(out@), entry_order()),
            entries_model(out@).to_multiset() == input.take(i as int).to_multiset(),
        decreases n - i,
    {
        let e = clone_entry(&rest[i]);
        assert(e@ == input[i as int]);
        // First position whose entry sorts strictly after `e`.
        let mut j: usize = 0;
        while j < out.len() && entry_leq_exec(&out[j], &e)
            invariant
                j <= out@.len(),
                forall|q: int| 0 <= q < j ==> entry_leq(#[trigger] entries_model(out@)[q], e@),
            decreases out@.len() - j,
        {
            j = j + 1;
        }
        let ghost before = entries_model(out@);
        out.insert(j, e);
        proof {
            let after = entries_model(out@);
            assert(after =~= before.insert(j as int, e@));
            let r = entry_order();
            assert forall|p: int, q: int| 0 <= p < q < after.len() implies #[trigger] r(after[p], after[q]) by {
                if p < j && q == j {
                } else if p == j && q > j {
                    if q - 1 > j {
                        assert(r(before[j as int], before[q - 1]));
                    }
                    assert(!entry_leq(before[j as int], e@));
                    assert(r(before[j as int], e@) || r(e@, before[j as int]));
                    if q - 1 > j {
                        assert(r(e@, before[q - 1]));
                    }
                } else if p < j && q > j {
                    assert(r(before[p], before[q - 1]));
                } else if q < j {
                    assert(r(before[p], before[q]));
                } else {
                    assert(r(before[p - 1], before[q - 1]));
                }
            }
            vstd::seq_lib::to_multiset_insert(before, j as int, e@);
            assert(input.take(i + 1) =~= input.take(i as int).push(input[i as int]));
            vstd::seq_lib::to_multiset_build(input.take(i as int), input[i as int]);
        }
        i = i + 1;
    }
    proof {
        assert(input.take(n as int) =~= input);
        input.lemma_sort_by_ensures(entry_order());
        vstd::seq_lib::lemma_sorted_unique(entries_model(out@), input.sort_by(entry_order()), entry_order());
    }
    out
}

// ── LineInput ─────────────────────────────────────────────────────────────

/// Single-line text input: the filename field of the file picker dialog.
///
/// Handles printable characters, Backspace (delete left), Delete (delete right),
/// Left / Right, Home / End. No newline is accepted. The cursor is a byte offset into
/// the UTF-8 text.
#[derive(Debug, Clone)]
pub struct LineInput {
    pub text: String,
    /// Byte offset of the cursor; kept on a UTF-8 char boundary by the editing keys.
    pub cursor: usize,
}

/// The field after one key, and whether its text changed.
pub open spec fn line_input_step(t: Seq<char>, b: int, key: Key) -> (Seq<char>, int, bool) {
    let k = floor_index(t, b);
    match key {
        Key::Character(c) => if c == '\n' {
            (t, b, false)
        } else {
            (t.take(k) + seq![c] + t.skip(k), b + char_width(c), true)
        },
        Key::Backspace => if b == 0 {
            (t, b, false)
        } else {
            (t.take(k - 1) + t.skip(k), byte_at(t, k - 1), true)
        },
        Key::Delete => if b >= byte_len(t) {
            (t, b, false)
        } else {
            (t.take(k) + t.skip(k + 1), b, true)
        },
        Key::Left => if b > 0 { (t, byte_at(t, floor_index(t, b - 1)), false) } else { (t, b, false) },
        Key::Right => if b < byte_len(t) { (t, byte_at(t, k + 1), false) } else { (t, b, false) },
        Key::Home => (t, 0, false),
        Key::End => (t, byte_len(t), false),
        _ => (t, b, false),
    }
}

/// Keys that edit at the cursor need it on a char boundary (as `String` editing does).
pub open spec fn line_input_key_ok(t: Seq<char>, b: int, key: Key) -> bool {
    match key {
        Key::Character(c) => c == '\n' || (is_boundary(t, b) && byte_len(t) + char_width(c) <= usize::MAX),
        Key::Backspace => b == 0 || is_boundary(t, b),
        Key::Delete => b >= byte_len(t) || is_boundary(t, b),
        _ => true,
    }
}

proof fn lemma_boundary_index(t: Seq<char>, b: int)
    requires
        is_boundary(t, b),
        0 <= b,
    ensures
        byte_at(t, floor_index(t, b)) == b,
        floor_index(t, b) <= t.len(),
{
    let k = choose|k: int| 0 <= k <= t.len() && byte_at(t, k) == b;
    if k < t.len() {
        lemma_byte_at_step(t, k);
    }
    lemma_floor_index_char(t, b, k);
}

/// What one key does to a line input whose cursor is on a char boundary: the cursor
/// stays on a boundary within the text; the flag says exactly whether the text
/// changed; a typed character other than a newline goes in at the cursor, which moves
/// past it; Home and End go to the ends; Left, Right, Home and End never change the
/// text.
pub proof fn lemma_line_input_step_law(t: Seq<char>, b: int, key: Key)
    requires
        0 <= b,
        is_boundary(t, b),
    ensures
        ({
            let (t2, b2, changed) = line_input_step(t, b, key);
            &&& 0 <= b2 <= byte_len(t2)
            &&& is_boundary(t2, b2)
            &&& changed == (t2 != t)
            &&& (key is Character && key->Character_0 != '\n') ==> byte_at(t, floor_index(t, b)) == b
                && t2 == t.take(floor_index(t, b)) + seq![key->Character_0] + t.skip(floor_index(t, b))
                && b2 == b + char_width(key->Character_0)
            &&& key == Key::Home ==> b2 == 0
            &&& key == Key::End ==> b2 == byte_len(t2)
            &&& (key == Key::Left || key == Key::Right || key == Key::Home || key == Key::End) ==> t2 == t
        }),
{
    lemma_line_input_keeps_boundary(t, b, key);
    lemma_boundary_index(t, b);
    lemma_floor_index_props(t, b);
    let (t2, b2, changed) = line_input_step(t, b, key);
    let j = choose|j: int| 0 <= j <= t2.len() && byte_at(t2, j) == b2;
    lemma_byte_at_mono(t2, 0, j);
    lemma_byte_at_mono(t2, j, t2.len() as int);
    assert(t2.take(0) =~= Seq::<char>::empty());
    assert(t2.take(t2.len() as int) =~= t2);
    assert(t.take(t.len() as int) =~= t);
    let k = floor_index(t, b);
    match key {
        Key::Character(c) => {
            if c != '\n' {
                assert(t2.len() == t.len() + 1);
            }
        },
        Key::Backspace => {
            if b != 0 {
                if k == 0 {
                    assert(t.take(0) =~= Seq::<char>::empty());
                }
                assert(t2.len() == t.len() - 1);
            }
        },
        Key::Delete => {
            if b < byte_len(t) {
                assert(k < t.len());
                assert(t2.len() == t.len() - 1);
            }
        },
        _ => {},
    }
}

/// Every key leaves the cursor of a line input on a char boundary when it was on one
/// before: the field never splits a character.
pub proof fn lemma_line_input_keeps_boundary(t: Seq<char>, b: int, key: Key)
    requires
        0 <= b,
        is_boundary(t, b),
    ensures
        is_boundary(line_input_step(t, b, key).0, line_input_step(t, b, key).1),
{
    lemma_boundary_index(t, b);
    lemma_floor_index_props(t, b);
    let k = floor_index(t, b);
    assert(t.take(t.len() as int) =~= t);
    match key {
        Key::Character(c) => if c != '\n' {
            let t2 = t.take(k) + seq![c] + t.skip(k);
            assert(t2.take(k + 1) =~= t.take(k).push(c));
            assert(t2.take(k + 1).drop_last() =~= t.take(k));
            assert(byte_at(t2, k + 1) == b + char_width(c));
        },
        Key::Backspace => {
            if b != 0 {
                if k == 0 {
                    assert(t.take(0) =~= Seq::<char>::empty());
                }
                let t2 = t.take(k - 1) + t.skip(k);
                assert(t2.take(k - 1) =~= t.take(k - 1));
                assert(byte_at(t2, k - 1) == byte_at(t, k - 1));
            }
        },
        Key::Delete => {
            if b < byte_len(t) {
                let t2 = t.take(k) + t.skip(k + 1);
                assert(t2.take(k) =~= t.take(k));
                assert(byte_at(t2, k) == b);
            }
        },
        Key::Left => {
            if b > 0 {
                lemma_floor_index_props(t, b - 1);
                let j = floor_index(t, b - 1);
                assert(0 <= j <= t.len() && byte_at(t, j) == byte_at(t, j));
            }
        },
        Key::Right => {
            if b < byte_len(t) {
                assert(k < t.len());
                assert(byte_at(t, k + 1) == byte_at(t, k + 1));
            }
        },
        Key::Home => {
            assert(t.take(0) =~= Seq::<char>::empty());
            assert(byte_at(t, 0) == 0);
        },
        Key::End => {
            assert(byte_at(t, t.len() as int) == byte_len(t));
        },
        _ => {},
    }
}

/// A line input never takes a newline: a field without one keeps having none after
/// any key it accepts.
pub proof fn lemma_line_input_single_line(t: Seq<char>, b: int, key: Key)
    requires
        0 <= b,
        line_input_key_ok(t, b, key),
        !t.contains('\n'),
    ensures
        !line_input_step(t, b, key).0.contains('\n'),
{
    lemma_floor_index_props(t, b);
    if is_boundary(t, b) {
        lemma_boundary_index(t, b);
        if b > 0 && floor_index(t, b) == 0 {
            assert(t.take(0) =~= Seq::<char>::empty());
        }
    }
    let k = floor_index(t, b);
    let t2 = line_input_step(t, b, key).0;
    assert(t.take(t.len() as int) =~= t);
    if t2.contains('\n') {
        let i = choose|i: int| 0 <= i < t2.len() && t2[i] == '\n';
        match key {
            Key::Character(c) => {
                if c != '\n' {
                    assert(t2[k] == c);
                    if i < k {
                        assert(t[i] == t2[i]);
                    } else if i > k {
                        assert(t[i - 1] == t2[i]);
                    }
                }
            },
            Key::Backspace => {
                if b != 0 {
                    if i < k - 1 {
                        assert(t[i] == t2[i]);
                    } else {
                        assert(t[i + 1] == t2[i]);
                    }
                }
            },
            Key::Delete => {
                if b < byte_len(t) {
                    assert(k < t.len());
                    if i < k {
                        assert(t[i] == t2[i]);
                    } else {
                        assert(t[i + 1] == t2[i]);
                    }
                }
            },
            _ => {},
        }
    }
}

impl Default for LineInput {
    fn default() -> (r: Self)
        ensures
            r.text@.len() == 0,
            r.cursor == 0,
    {
        LineInput::new()
    }
}

impl LineInput {
    pub fn new() -> (r: Self)
        ensures
            r.text@.len() == 0,
            r.cursor == 0,
    {
        LineInput { text: String::new(), cursor: 0 }
    }

    /// Field holding `s`, cursor at the end.
    pub fn from_str(s: &str) -> (r: Self)
        ensures
            r.text@ == s@,
            r.cursor == byte_len(s@),
    {
        let cs = chars_of(s);
        LineInput { text: string_from_chars(cs.as_slice()), cursor: str_byte_len(s) }
    }

    /// Apply one key; returns `true` if the text changed.
    #[verifier::spinoff_prover]
    pub fn apply_key(&mut self, key: Key) -> (r: bool)
        requires
            line_input_key_ok(old(self).text@, old(self).cursor as int, key),
        ensures
            (final(self).text@, final(self).cursor as int, r) == line_input_step(
                old(self).text@,
                old(self).cursor as int,
                key,
            ),
    {
        let cs = chars_of(self.text.as_str());
        let len = str_byte_len(self.text.as_str());
        let b = self.cursor;
        let ghost t = cs@;
        proof {
            lemma_floor_index_props(t, b as int);
            assert(t.take(t.len() as int) =~= t);
        }
        match key {
            Key::Character(c) => {
                if c == '\n' {
                    return false;
                }
                proof { lemma_boundary_index(t, b as int); }
                let (k, _off) = floor_scan(cs.as_slice(), b);
                let mut v = cs;
                v.insert(k, c);
                assert(v@ =~= t.take(k as int) + seq![c] + t.skip(k as int));
                self.text = string_from_chars(v.as_slice());
                self.cursor = b + char_len_utf8(c);
                true
            },
            Key::Backspace => {
                if b == 0 {
                    return false;
                }
                proof { lemma_boundary_index(t, b as int); }
                let (k, _off) = floor_scan(cs.as_slice(), b);
                let prev = byte_offset(cs.as_slice(), k - 1);
                let mut v = cs;
                v.remove(k - 1);
                assert(v@ =~= t.take(k - 1) + t.skip(k as int));
                self.text = string_from_chars(v.as_slice());
                self.cursor = prev;
                true
            },
            Key::Delete => {
                if b >= len {
                    return false;
                }
                proof { lemma_boundary_index(t, b as int); }
                let (k, _off) = floor_scan(cs.as_slice(), b);
                let mut v = cs;
                v.remove(k);
                assert(v@ =~= t.take(k as int) + t.skip(k + 1));
                self.text = string_from_chars(v.as_slice());
                true
            },
            Key::Left => {
                if b > 0 {
                    let (_k, off) = floor_scan(cs.as_slice(), b - 1);
                    self.cursor = off;
                }
                false
            },
            Key::Right => {
                if b < len {
                    let (k, _off) = floor_scan(cs.as_slice(), b);
                    assert(k < cs@.len()) by {
                        if k == cs@.len() {
                            assert(cs@.take(k as int) =~= cs@);
                            assert(byte_at(cs@, k as int) == byte_len(cs@));
                        }
                    }
                    let k1 = k + 1;
                    self.cursor = byte_offset(cs.as_slice(), k1);
                }
                false
            },
            Key::Home => {
                self.cursor = 0;
                false
            },
            Key::End => {
                self.cursor = len;
                false
            },
            _ => false,
        }
    }

    /// Column (character count) of the cursor.
    pub fn cursor_col(&self) -> (r: usize)
        requires
            is_boundary(self.text@, self.cursor as int),
        ensures
            r == floor_index(self.text@, self.cursor as int),
            crate::text::byte_at(self.text@, r as int) == self.cursor,
    {
        let cs = chars_of(self.text.as_str());
        proof { lemma_boundary_index(cs@, self.cursor as int); }
        let (k, _off) = floor_scan(cs.as_slice(), self.cursor);
        k
    }
}


// ── Picker state ──────────────────────────────────────────────────────────

#[derive(Debug, Clone, Copy, PartialEq, Eq, Structural)]
pub enum PickerMode {
    Load,
    Save,
}

/// Abstract filesystem for tests and for UEFI adapters.
pub trait FileIo {
    type Error;

    /// Whether `entries` can be what directory `path` lists. A file system that knows
    /// what its directories hold says so by giving this a body of its own; by default
    /// any listing can be.
    open spec fn lists(&self, path: Seq<Seq<char>>, entries: Seq<EntryModel>) -> bool {
        true
    }

    /// List `path` (path components, empty = volume root); a listing that comes back
    /// is one that `path` can list.
    fn list(&mut self, path: &[String]) -> (r: Result<Vec<DirEntry>, Self::Error>)
        ensures
            r matches Ok(v) ==> old(self).lists(strings_model(path@), entries_model(v@)),
    ;

    fn read_file(&mut self, path: &[String], name: &str) -> Result<Vec<u8>, Self::Error>;

    fn write_file(&mut self, path: &[String], name: &str, data: &[u8]) -> Result<(), Self::Error>;
}

#[derive(Debug, Clone, PartialEq, Eq)]
pub enum FilePickerAction {
    Nothing,
    Navigated,
    PickedFile(String),
}

/// A picker action with the picked name as characters.
pub enum ActionModel {
    NoneTaken,
    Navigated,
    Picked(Seq<char>),
}

/// The model of an action.
pub open spec fn action_model(a: FilePickerAction) -> ActionModel {
    match a {
        FilePickerAction::Nothing => ActionModel::NoneTaken,
        FilePickerAction::Navigated => ActionModel::Navigated,
        FilePickerAction::PickedFile(n) => ActionModel::Picked(n@),
    }
}

#[derive(Debug, Clone)]
pub struct FilePickerState {
    pub path: Vec<String>,
    /// Navigation cannot go above this path. Empty = no restriction.
    pub root: Vec<String>,
    pub entries: Vec<DirEntry>,
    pub selected: usize,
    /// First visible row when the listing is taller than the on-screen rows.
    pub scroll_top: usize,
    pub mode: PickerMode,
    /// Filename field in save mode.
    pub save_as: String,
}

/// The abstract state of a picker.
pub struct PickerModel {
    pub path: Seq<Seq<char>>,
    pub root: Seq<Seq<char>>,
    pub entries: Seq<EntryModel>,
    pub selected: usize,
    pub scroll_top: usize,
    pub mode: PickerMode,
    pub save_as: Seq<char>,
}

impl View for FilePickerState {
    type V = PickerModel;

    open spec fn view(&self) -> PickerModel {
        PickerModel {
            path: strings_model(self.path@),
            root: strings_model(self.root@),
            entries: entries_model(self.entries@),
            selected: self.selected,
            scroll_top: self.scroll_top,
            mode: self.mode,
            save_as: self.save_as@,
        }
    }
}

/// The picker after a listing `l` of its current path arrived.
pub open spec fn with_listing(m: PickerModel, l: Seq<EntryModel>) -> PickerModel {
    let entries = arranged_listing(m.path.len() <= m.root.len(), l);
    let last = if entries.len() > 0 { entries.len() - 1 } else { 0 };
    PickerModel {
        entries: entries,
        scroll_top: 0,
        selected: (if m.selected < last { m.selected as int } else { last }) as usize,
        ..m
    }
}

/// `post` is `pre` after some listing of `pre`'s path arrived.
pub open spec fn listed(pre: PickerModel, post: PickerModel) -> bool {
    exists|l: Seq<EntryModel>| post == with_listing(pre, l)
}

/// `post` shows a listing that `io` can give for the directory of `pre`: the one
/// the picker asked for.
pub open spec fn listed_by<F: FileIo>(io: F, pre: PickerModel, post: PickerModel) -> bool {
    exists|l: Seq<EntryModel>| #[trigger] io.lists(pre.path, l) && post == with_listing(pre, l)
}

/// What one Up/Down does to the selection and scroll of a listing of `n` rows.
pub open spec fn picker_nav(n: int, sel: int, top: int, rows: int, down: bool) -> (int, int) {
    if n == 0 {
        (sel, top)
    } else if !down {
        let s = if sel > 0 { sel - 1 } else { sel };
        (s, if s < top { s } else { top })
    } else {
        let s = if sel + 1 < n { sel + 1 } else { sel };
        let vr = if rows < 1 { 1 } else { rows };
        let t1 = if s >= top + vr { if s + 1 > vr { s + 1 - vr } else { 0 } } else { top };
        let max_top = if n > vr { n - vr } else { 0 };
        (s, if t1 > max_top { max_top } else { t1 })
    }
}

/// The picker after activating its selection, and the action that reports it.
pub open spec fn activated(m: PickerModel) -> (PickerModel, ActionModel) {
    if m.selected < m.entries.len() {
        let e = m.entries[m.selected as int];
        if e.1 {
            let path = if e.0 == seq!['.', '.'] {
                if m.path.len() > 0 { m.path.drop_last() } else { m.path }
            } else {
                m.path.push(e.0)
            };
            (PickerModel { path: path, selected: 0, ..m }, ActionModel::Navigated)
        } else {
            (m, ActionModel::Picked(e.0))
        }
    } else {
        (m, ActionModel::NoneTaken)
    }
}

/// Activating a directory entry moves one level: `..` drops exactly the last
/// component of a non-empty path (the new path is the old one without its end), any
/// other folder name adds exactly that component, and the selection goes back to the
/// first row with nothing else changed. A file is picked by its name and a missing
/// selection does nothing, the picker unchanged in both cases.
pub proof fn lemma_activate_moves_one_level(m: PickerModel)
    ensures
        ({
            let (m2, a) = activated(m);
            &&& m2.root == m.root && m2.entries == m.entries && m2.mode == m.mode
                && m2.scroll_top == m.scroll_top && m2.save_as == m.save_as
            &&& m.selected >= m.entries.len() ==> m2 == m && a == ActionModel::NoneTaken
            &&& m.selected < m.entries.len() && !m.entries[m.selected as int].1
                ==> m2 == m && a == ActionModel::Picked(m.entries[m.selected as int].0)
            &&& m.selected < m.entries.len() && m.entries[m.selected as int].1 ==> {
                let name = m.entries[m.selected as int].0;
                &&& a == ActionModel::Navigated
                &&& m2.selected == 0
                &&& name == seq!['.', '.'] && m.path.len() > 0 ==> m2.path.len() + 1 == m.path.len()
                    && forall|i: int| 0 <= i < m2.path.len() ==> m2.path[i] == m.path[i]
                &&& name == seq!['.', '.'] && m.path.len() == 0 ==> m2.path == m.path
                &&& name != seq!['.', '.'] ==> m2.path.len() == m.path.len() + 1
                    && m2.path[m.path.len() as int] == name
                    && forall|i: int| 0 <= i < m.path.len() ==> m2.path[i] == m.path[i]
            }
        }),
{
}

fn parent_dir_entry() -> (r: DirEntry)
    ensures
        r@ == parent_entry(),
{
    let mut cs: Vec<char> = Vec::new();
    cs.push('.');
    cs.push('.');
    assert(cs@ =~= seq!['.', '.']);
    DirEntry { name: string_from_chars(cs.as_slice()), is_dir: true }
}

fn is_parent_name(name: &String) -> (r: bool)
    ensures
        r == (name@ == seq!['.', '.']),
{
    let cs = chars_of(name.as_str());
    let r = cs.len() == 2 && cs[0] == '.' && cs[1] == '.';
    if r {
        assert(cs@ =~= seq!['.', '.']);
    }
    r
}

impl FilePickerState {
    pub fn new(mode: PickerMode) -> (r: Self)
        ensures
            r@.path.len() == 0,
            r@.root.len() == 0,
            r@.entries.len() == 0,
            r@.selected == 0,
            r@.scroll_top == 0,
            r@.mode == mode,
            r@.save_as.len() == 0,
    {
        FilePickerState {
            path: Vec::new(),
            root: Vec::new(),
            entries: Vec::new(),
            selected: 0,
            scroll_top: 0,
            mode,
            save_as: String::new(),
        }
    }

    /// A picker that starts at `root` and cannot navigate above it.
    pub fn new_rooted(mode: PickerMode, root: Vec<String>) -> (r: Self)
        ensures
            r@.path == strings_model(root@),
            r@.root == strings_model(root@),
            r@.entries.len() == 0,
            r@.selected == 0,
            r@.scroll_top == 0,
            r@.mode == mode,
            r@.save_as.len() == 0,
    {
        let path = clone_strings(&root);
        FilePickerState { path, root, entries: Vec::new(), selected: 0, scroll_top: 0, mode, save_as: String::new() }
    }

    /// Whether the path is at the root (cannot navigate further up).
    pub fn at_root(&self) -> (r: bool)
        ensures
            r == (self@.path.len() <= self@.root.len()),
    {
        self.path.len() <= self.root.len()
    }

    /// Show a fresh listing of the current path: sorted (directories first, then by
    /// name), `..` first unless at the root, scrolled to the top, selection kept in range.
    pub fn apply_listing(&mut self, listing: Vec<DirEntry>)
        ensures
            final(self)@ == with_listing(old(self)@, entries_model(listing@)),
    {
        let mut entries = sort_dir_entries(listing);
        if !self.at_root() {
            let ghost before = entries_model(entries@);
            entries.insert(0, parent_dir_entry());
            assert(entries_model(entries@) =~= seq![parent_entry()] + before);
        }
        self.entries = entries;
        self.scroll_top = 0;
        let last = if self.entries.len() > 0 { self.entries.len() - 1 } else { 0 };
        self.selected = if self.selected < last { self.selected } else { last };
    }

    /// Refresh the entries from `io`. On error nothing changes; on success the listing
    /// that `io` returned is shown as [`Self::apply_listing`] shows it.
    pub fn reload<F: FileIo>(&mut self, io: &mut F) -> (r: Result<(), F::Error>)
        ensures
            r is Err ==> final(self)@ == old(self)@,
            r is Ok ==> listed(old(self)@, final(self)@),
            r is Ok ==> listed_by(*old(io), old(self)@, final(self)@),
    {
        match io.list(self.path.as_slice()) {
            Ok(listing) => {
                let ghost l = entries_model(listing@);
                self.apply_listing(listing);
                assert(final(self)@ == with_listing(old(self)@, l));
                Ok(())
            },
            Err(e) => Err(e),
        }
    }

    /// Move the selection up; keeps `scroll_top` at or above it.
    pub fn nav_up(&mut self, visible_rows: usize)
        ensures
            final(self)@ == (PickerModel {
                selected: picker_nav(old(self)@.entries.len() as int, old(self).selected as int,
                    old(self).scroll_top as int, visible_rows as int, false).0 as usize,
                scroll_top: picker_nav(old(self)@.entries.len() as int, old(self).selected as int,
                    old(self).scroll_top as int, visible_rows as int, false).1 as usize,
                ..old(self)@
            }),
    {
        let n = self.entries.len();
        if n == 0 {
            return;
        }
        if self.selected > 0 {
            self.selected = self.selected - 1;
        }
        if self.selected < self.scroll_top {
            self.scroll_top = self.selected;
        }
    }

    /// Move the selection down; scrolls when it moves past the visible window.
    pub fn nav_down(&mut self, visible_rows: usize)
        requires
            old(self).selected < usize::MAX,
            old(self).scroll_top + (if visible_rows < 1 { 1 } else { visible_rows as int }) <= usize::MAX,
        ensures
            final(self)@ == (PickerModel {
                selected: picker_nav(old(self)@.entries.len() as int, old(self).selected as int,
                    old(self).scroll_top as int, visible_rows as int, true).0 as usize,
                scroll_top: picker_nav(old(self)@.entries.len() as int, old(self).selected as int,
                    old(self).scroll_top as int, visible_rows as int, true).1 as usize,
                ..old(self)@
            }),
    {
        let n = self.entries.len();
        if n == 0 {
            return;
        }
        if self.selected + 1 < n {
            self.selected = self.selected + 1;
        }
        let vr = if visible_rows < 1 { 1 } else { visible_rows };
        if self.selected >= self.scroll_top + vr {
            self.scroll_top = if self.selected + 1 > vr { self.selected + 1 - vr } else { 0 };
        }
        let max_top = if n > vr { n - vr } else { 0 };
        if self.scroll_top > max_top {
            self.scroll_top = max_top;
        }
    }

    /// Name of the selected entry.
    pub fn selected_name(&self) -> (r: Option<&str>)
        ensures
            self.selected < self.entries@.len() ==> r is Some && r->0@ == self@.entries[self.selected as int].0,
            self.selected >= self.entries@.len() ==> r is None,
    {
        if self.selected < self.entries.len() {
            Some(self.entries[self.selected].name.as_str())
        } else {
            None
        }
    }

    /// Enter the selected directory (`..` goes up) or pick the selected file.
    pub fn activate(&mut self) -> (r: FilePickerAction)
        ensures
            (final(self)@, action_model(r)) == activated(old(self)@),
    {
        if self.selected >= self.entries.len() {
            return FilePickerAction::Nothing;
        }
        let ghost m = self@;
        let is_dir = self.entries[self.selected].is_dir;
        if is_dir {
            if is_parent_name(&self.entries[self.selected].name) {
                let ghost before = strings_model(self.path@);
                self.path.pop();
                assert(strings_model(self.path@) =~= if before.len() > 0 { before.drop_last() } else { before });
            } else {
                let name = self.entries[self.selected].name.clone();
                let ghost before = strings_model(self.path@);
                self.path.push(name);
                assert(strings_model(self.path@) =~= before.push(m.entries[m.selected as int].0));
            }
            self.selected = 0;
            FilePickerAction::Navigated
        } else {
            FilePickerAction::PickedFile(self.entries[self.selected].name.clone())
        }
    }

    /// Confirm saving under `save_as` (trimmed) in the current path; `None` outside
    /// save mode or when the trimmed name is empty.
    pub fn confirm_save(&self) -> (r: Option<FilePickerAction>)
        ensures
            self.mode != PickerMode::Save ==> r is None,
            self.mode == PickerMode::Save && trim_ws(self.save_as@).len() == 0 ==> r is None,
            self.mode == PickerMode::Save && trim_ws(self.save_as@).len() > 0 ==>
                r is Some && action_model(r->0) == ActionModel::Picked(trim_ws(self.save_as@)),
    {
        if self.mode != PickerMode::Save {
            return None;
        }
        let name = trim_chars(self.save_as.as_str());
        if name.len() == 0 {
            return None;
        }
        Some(FilePickerAction::PickedFile(string_from_chars(name.as_slice())))
    }
}

/// The picker after a Backspace below the root: one level up, selection and scroll reset.
pub open spec fn went_up(m: PickerModel) -> PickerModel {
    PickerModel { path: m.path.drop_last(), selected: 0, scroll_top: 0, ..m }
}

/// Going up from a non-empty path drops exactly its last component and returns to the
/// top of the listing: the new path is one shorter and a prefix of the old one.
pub proof fn lemma_went_up_one_level(m: PickerModel)
    requires
        m.path.len() > 0,
    ensures
        went_up(m).path.len() + 1 == m.path.len(),
        forall|i: int| 0 <= i < went_up(m).path.len() ==> went_up(m).path[i] == m.path[i],
        went_up(m).selected == 0 && went_up(m).scroll_top == 0,
        went_up(m).root == m.root && went_up(m).entries == m.entries,
{
}

impl FilePickerState {
    /// One keyboard step: Up/Down navigate, Enter activates (reloading after entering a
    /// directory), Backspace goes to the parent directory unless at the root.
    /// `Ok(Some(_))` reports a navigation or a picked file. On an `io` error the picker
    /// is left as it was just before the reload.
    /// `io` is used only to list a directory entered or gone up to (see
    /// [`picker_rereads`]); on every other key it is left as it was.
    pub fn interact<F: FileIo>(&mut self, io: &mut F, ev: &KeyEvent, visible_rows: usize)
        -> (r: Result<Option<FilePickerAction>, F::Error>)
        requires
            ev.key == Key::Down ==> old(self).selected < usize::MAX,
            ev.key == Key::Down ==> old(self).scroll_top + (if visible_rows < 1 { 1 } else { visible_rows as int }) <= usize::MAX,
        ensures
            match ev.key {
                Key::Up | Key::Down => r is Ok && r->Ok_0 is None && final(self)@ == (PickerModel {
                    selected: picker_nav(old(self)@.entries.len() as int, old(self).selected as int,
                        old(self).scroll_top as int, visible_rows as int, ev.key == Key::Down).0 as usize,
                    scroll_top: picker_nav(old(self)@.entries.len() as int, old(self).selected as int,
                        old(self).scroll_top as int, visible_rows as int, ev.key == Key::Down).1 as usize,
                    ..old(self)@
                }),
                Key::Enter => {
                    let (m1, a) = activated(old(self)@);
                    match a {
                        ActionModel::Navigated => match r {
                            Ok(x) => x == Some(FilePickerAction::Navigated) && listed(m1, final(self)@),
                            Err(_) => final(self)@ == m1,
                        },
                        ActionModel::Picked(n) => r is Ok && r->Ok_0 is Some
                            && action_model(r->Ok_0->0) == a && final(self)@ == old(self)@,
                        ActionModel::NoneTaken => r is Ok && r->Ok_0 is None && final(self)@ == old(self)@,
                    }
                },
                Key::Backspace => if old(self)@.path.len() <= old(self)@.root.len() {
                    r is Ok && r->Ok_0 is None && final(self)@ == old(self)@
                } else {
                    match r {
                        Ok(x) => x == Some(FilePickerAction::Navigated) && listed(went_up(old(self)@), final(self)@),
                        Err(_) => final(self)@ == went_up(old(self)@),
                    }
                },
                _ => r is Ok && r->Ok_0 is None && final(self)@ == old(self)@,
            },
            !picker_rereads(old(self)@, ev.key) ==> *final(io) == *old(io),
            ev.key == Key::Enter && activated(old(self)@).1 is Navigated && r is Ok
                ==> listed_by(*old(io), activated(old(self)@).0, final(self)@),
            ev.key == Key::Backspace && old(self)@.path.len() > old(self)@.root.len() && r is Ok
                ==> listed_by(*old(io), went_up(old(self)@), final(self)@),
    {
        match ev.key {
            Key::Up => {
                self.nav_up(visible_rows);
                Ok(None)
            },
            Key::Down => {
                self.nav_down(visible_rows);
                Ok(None)
            },
            Key::Enter => {
                let a = self.activate();
                match a {
                    FilePickerAction::Navigated => {
                        match self.reload(io) {
                            Ok(()) => Ok(Some(FilePickerAction::Navigated)),
                            Err(e) => Err(e),
                        }
                    },
                    FilePickerAction::PickedFile(_) => Ok(Some(a)),
                    FilePickerAction::Nothing => Ok(None),
                }
            },
            Key::Backspace => {
                if self.at_root() {
                    return Ok(None);
                }
                let ghost before = strings_model(self.path@);
                self.path.pop();
                assert(strings_model(self.path@) =~= before.drop_last());
                self.selected = 0;
                self.scroll_top = 0;
                match self.reload(io) {
                    Ok(()) => Ok(Some(FilePickerAction::Navigated)),
                    Err(e) => Err(e),
                }
            },
            _ => Ok(None),
        }
    }
}

/// Whether `key` makes the picker list a directory again: Enter on a folder or on
/// `..`, or Backspace below the root.
pub open spec fn picker_rereads(m: PickerModel, key: Key) -> bool {
    ||| key == Key::Enter && activated(m).1 is Navigated
    ||| key == Key::Backspace && m.path.len() > m.root.len()
}

// ── Focus zones and the dialog ────────────────────────────────────────────

/// Which zone of the file picker dialog has keyboard focus.
/// Tab order: List → FilenameField → FiletypeDropdown → OkButton → CancelButton → List.
#[derive(Debug, Clone, Copy, PartialEq, Eq, Structural)]
pub enum FilePickerFocus {
    List,
    FilenameField,
    FiletypeDropdown,
    OkButton,
    CancelButton,
}

/// Position of a zone in the Tab order.
pub open spec fn focus_pos(f: FilePickerFocus) -> int {
    match f {
        FilePickerFocus::List => 0,
        FilePickerFocus::FilenameField => 1,
        FilePickerFocus::FiletypeDropdown => 2,
        FilePickerFocus::OkButton => 3,
        FilePickerFocus::CancelButton => 4,
    }
}

impl FilePickerFocus {
    /// Advance focus (Tab), wrapping.
    pub fn next(self) -> (r: Self)
        ensures
            focus_pos(r) == (focus_pos(self) + 1) % 5,
    {
        match self {
            FilePickerFocus::List => FilePickerFocus::FilenameField,
            FilePickerFocus::FilenameField => FilePickerFocus::FiletypeDropdown,
            FilePickerFocus::FiletypeDropdown => FilePickerFocus::OkButton,
            FilePickerFocus::OkButton => FilePickerFocus::CancelButton,
            FilePickerFocus::CancelButton => FilePickerFocus::List,
        }
    }

    /// Retreat focus (Shift+Tab), wrapping.
    pub fn prev(self) -> (r: Self)
        ensures
            focus_pos(r) == (focus_pos(self) + 4) % 5,
    {
        match self {
            FilePickerFocus::List => FilePickerFocus::CancelButton,
            FilePickerFocus::FilenameField => FilePickerFocus::List,
            FilePickerFocus::FiletypeDropdown => FilePickerFocus::FilenameField,
            FilePickerFocus::OkButton => FilePickerFocus::FiletypeDropdown,
            FilePickerFocus::CancelButton => FilePickerFocus::OkButton,
        }
    }
}

/// Outcome of [`FilePickerDialogState::handle_key`].
#[derive(Debug, Clone, PartialEq, Eq)]
pub enum FilePickerDialogAction {
    /// Nothing to report: keep showing the dialog.
    Nothing,
    /// The user confirmed: directory path components and file name.
    Confirm { path: Vec<String>, name: String },
    /// The user pressed Cancel or Escape.
    Cancel,
}

/// A dialog outcome as character sequences.
pub enum DialogActionModel {
    Nothing,
    Confirm(Seq<Seq<char>>, Seq<char>),
    Cancel,
}

pub open spec fn dialog_action_model(a: FilePickerDialogAction) -> DialogActionModel {
    match a {
        FilePickerDialogAction::Nothing => DialogActionModel::Nothing,
        FilePickerDialogAction::Confirm { path, name } => DialogActionModel::Confirm(strings_model(path@), name@),
        FilePickerDialogAction::Cancel => DialogActionModel::Cancel,
    }
}

/// The whole file picker dialog: listing, filename field, file-type choice and focus.
#[derive(Debug, Clone)]
pub struct FilePickerDialogState {
    pub picker: FilePickerState,
    /// Filename text field (filled from the selected file on Enter).
    pub filename: LineInput,
    /// Selected index in the file-type dropdown.
    pub filetype_sel: usize,
    /// Number of file-type options.
    pub filetype_count: usize,
    /// Which zone has keyboard focus.
    pub focus: FilePickerFocus,
    /// Last directory navigated to; updated on navigation and on confirm.
    pub last_dir: Vec<String>,
}

/// The abstract state of the dialog.
pub struct DialogModel {
    pub picker: PickerModel,
    pub filename: Seq<char>,
    pub cursor: usize,
    pub filetype_sel: usize,
    pub filetype_count: usize,
    pub focus: FilePickerFocus,
    pub last_dir: Seq<Seq<char>>,
}

impl View for FilePickerDialogState {
    type V = DialogModel;

    open spec fn view(&self) -> DialogModel {
        DialogModel {
            picker: self.picker@,
            filename: self.filename.text@,
            cursor: self.filename.cursor,
            filetype_sel: self.filetype_sel,
            filetype_count: self.filetype_count,
            focus: self.focus,
            last_dir: strings_model(self.last_dir@),
        }
    }
}

/// Confirming: the trimmed filename if any, else the selected entry if it is a file.
pub open spec fn confirmed(d: DialogModel) -> (DialogModel, DialogActionModel) {
    let name = trim_ws(d.filename);
    let p = d.picker;
    if name.len() > 0 {
        (DialogModel { last_dir: p.path, ..d }, DialogActionModel::Confirm(p.path, name))
    } else if p.selected < p.entries.len() && !p.entries[p.selected as int].1 {
        (DialogModel { last_dir: p.path, ..d }, DialogActionModel::Confirm(p.path, p.entries[p.selected as int].0))
    } else {
        (d, DialogActionModel::Nothing)
    }
}

impl FilePickerDialogState {
    /// Attempt to confirm: a non-empty trimmed filename, or else a selected file.
    fn try_confirm(&mut self) -> (r: FilePickerDialogAction)
        ensures
            (final(self)@, dialog_action_model(r)) == confirmed(old(self)@),
    {
        let name = trim_chars(self.filename.text.as_str());
        if name.len() > 0 {
            self.last_dir = clone_strings(&self.picker.path);
            return FilePickerDialogAction::Confirm {
                path: clone_strings(&self.picker.path),
                name: string_from_chars(name.as_slice()),
            };
        }
        if self.picker.selected < self.picker.entries.len() {
            if !self.picker.entries[self.picker.selected].is_dir {
                self.last_dir = clone_strings(&self.picker.path);
                return FilePickerDialogAction::Confirm {
                    path: clone_strings(&self.picker.path),
                    name: self.picker.entries[self.picker.selected].name.clone(),
                };
            }
        }
        FilePickerDialogAction::Nothing
    }
}

/// The dialog after a listing was requested for picker state `p1`: `Ok` means it
/// arrived and the last directory follows the path; on error the picker is `p1`.
pub open spec fn dialog_relisted<E>(d: DialogModel, p1: PickerModel, post: DialogModel, r: Result<FilePickerDialogAction, E>) -> bool {
    match r {
        Ok(a) => a == FilePickerDialogAction::Nothing && listed(p1, post.picker)
            && post.last_dir == post.picker.path
            && post.filetype_sel == d.filetype_sel && post.filetype_count == d.filetype_count
            && post.focus == d.focus,
        Err(_) => post.picker == p1 && post.last_dir == d.last_dir
            && post.filetype_sel == d.filetype_sel && post.filetype_count == d.filetype_count
            && post.focus == d.focus && post.filename == d.filename && post.cursor == d.cursor,
    }
}

/// One key on the dialog. Escape cancels; Tab / Shift+Tab move focus; the other keys go
/// to the focused zone: the list (Enter activates, Backspace goes up, Up/Down move),
/// the filename field (Enter confirms, other keys edit), the file-type dropdown
/// (Up/Left and Down/Right step within the options), OK (Enter/Space confirm) and
/// Cancel (Enter/Space cancel).
pub open spec fn dialog_step<E>(d: DialogModel, ev: KeyEvent, rows: int, post: DialogModel, r: Result<FilePickerDialogAction, E>) -> bool {
    let k = ev.key;
    let unchanged = post == d && r == Ok::<FilePickerDialogAction, E>(FilePickerDialogAction::Nothing);
    if k == Key::Escape {
        post == d && r == Ok::<FilePickerDialogAction, E>(FilePickerDialogAction::Cancel)
    } else if k == Key::Tab {
        post == DialogModel { focus: if ev.modifiers.shift { prev_focus(d.focus) } else { next_focus(d.focus) }, ..d }
            && r == Ok::<FilePickerDialogAction, E>(FilePickerDialogAction::Nothing)
    } else {
        match d.focus {
            FilePickerFocus::List => match k {
                Key::Enter => {
                    let (p1, a) = activated(d.picker);
                    match a {
                        ActionModel::Navigated => dialog_relisted(d, p1, post, r)
                            && (r is Ok ==> post.filename.len() == 0 && post.cursor == 0),
                        ActionModel::Picked(n) => post == DialogModel {
                            filename: n, cursor: crate::text::byte_len(n) as usize, focus: FilePickerFocus::FilenameField, ..d
                        } && r == Ok::<FilePickerDialogAction, E>(FilePickerDialogAction::Nothing),
                        ActionModel::NoneTaken => unchanged,
                    }
                },
                Key::Backspace => if d.picker.path.len() <= d.picker.root.len() {
                    unchanged
                } else {
                    dialog_relisted(d, went_up(d.picker), post, r)
                        && (r is Ok ==> post.filename == d.filename && post.cursor == d.cursor)
                },
                Key::Up | Key::Down => {
                    let (s, t) = picker_nav(d.picker.entries.len() as int, d.picker.selected as int,
                        d.picker.scroll_top as int, rows, k == Key::Down);
                    post == DialogModel { picker: PickerModel { selected: s as usize, scroll_top: t as usize, ..d.picker }, ..d }
                        && r == Ok::<FilePickerDialogAction, E>(FilePickerDialogAction::Nothing)
                },
                _ => unchanged,
            },
            FilePickerFocus::FilenameField => if k == Key::Enter {
                let (d1, a) = confirmed(d);
                post == d1 && r is Ok && dialog_action_model(r->Ok_0) == a
            } else {
                let (t, b, _changed) = line_input_step(d.filename, d.cursor as int, k);
                post == DialogModel { filename: t, cursor: b as usize, ..d }
                    && r == Ok::<FilePickerDialogAction, E>(FilePickerDialogAction::Nothing)
            },
            FilePickerFocus::FiletypeDropdown => {
                let sel = if (k == Key::Up || k == Key::Left) && d.filetype_sel > 0 {
                    (d.filetype_sel - 1) as usize
                } else if (k == Key::Down || k == Key::Right) && d.filetype_sel + 1 < d.filetype_count {
                    (d.filetype_sel + 1) as usize
                } else {
                    d.filetype_sel
                };
                post == DialogModel { filetype_sel: sel, ..d }
                    && r == Ok::<FilePickerDialogAction, E>(FilePickerDialogAction::Nothing)
            },
            FilePickerFocus::OkButton => if k == Key::Enter || k == Key::Character(' ') {
                let (d1, a) = confirmed(d);
                post == d1 && r is Ok && dialog_action_model(r->Ok_0) == a
            } else {
                unchanged
            },
            FilePickerFocus::CancelButton => if k == Key::Enter || k == Key::Character(' ') {
                post == d && r == Ok::<FilePickerDialogAction, E>(FilePickerDialogAction::Cancel)
            } else {
                unchanged
            },
        }
    }
}

/// The zone after Tab.
pub open spec fn next_focus(f: FilePickerFocus) -> FilePickerFocus {
    match f {
        FilePickerFocus::List => FilePickerFocus::FilenameField,
        FilePickerFocus::FilenameField => FilePickerFocus::FiletypeDropdown,
        FilePickerFocus::FiletypeDropdown => FilePickerFocus::OkButton,
        FilePickerFocus::OkButton => FilePickerFocus::CancelButton,
        FilePickerFocus::CancelButton => FilePickerFocus::List,
    }
}

/// The zone after Shift+Tab.
pub open spec fn prev_focus(f: FilePickerFocus) -> FilePickerFocus {
    match f {
        FilePickerFocus::List => FilePickerFocus::CancelButton,
        FilePickerFocus::FilenameField => FilePickerFocus::List,
        FilePickerFocus::FiletypeDropdown => FilePickerFocus::FilenameField,
        FilePickerFocus::OkButton => FilePickerFocus::FiletypeDropdown,
        FilePickerFocus::CancelButton => FilePickerFocus::OkButton,
    }
}

/// Keys that would make the focused zone fail: editing keys in the filename field need
/// the cursor on a char boundary; Down in the list needs room for the index to grow.
pub open spec fn dialog_key_ok(d: DialogModel, ev: KeyEvent, rows: int) -> bool {
    let k = ev.key;
    if k == Key::Escape || k == Key::Tab {
        true
    } else {
        match d.focus {
            FilePickerFocus::List => k == Key::Down ==> d.picker.selected < usize::MAX
                && d.picker.scroll_top + (if rows < 1 { 1 } else { rows }) <= usize::MAX,
            FilePickerFocus::FilenameField => k == Key::Enter || line_input_key_ok(d.filename, d.cursor as int, k),
            _ => true,
        }
    }
}

impl FilePickerDialogState {
    /// Create and load the volume root listing from `io`.
    pub fn new<F: FileIo>(mode: PickerMode, filetype_count: usize, io: &mut F) -> (r: Result<Self, F::Error>)
        ensures
            r is Ok ==> {
                let d = r->Ok_0@;
                &&& listed(PickerModel { path: Seq::empty(), root: Seq::empty(), entries: Seq::empty(),
                    selected: 0, scroll_top: 0, mode: mode, save_as: Seq::empty() }, d.picker)
                &&& listed_by(*old(io), PickerModel { path: Seq::empty(), root: Seq::empty(), entries: Seq::empty(),
                    selected: 0, scroll_top: 0, mode: mode, save_as: Seq::empty() }, d.picker)
                &&& d.last_dir == d.picker.path
                &&& d.filename.len() == 0 && d.cursor == 0
                &&& d.filetype_sel == 0
                &&& d.filetype_count == if filetype_count < 1 { 1 } else { filetype_count }
                &&& d.focus == FilePickerFocus::List
            },
    {
        let r = Self::with_root(mode, filetype_count, Vec::new(), Vec::new(), io);
        proof {
            if r is Ok {
                assert(strings_model(Seq::<String>::empty()) =~= Seq::<Seq<char>>::empty());
            }
        }
        r
    }

    /// Create with a navigation root and an earlier directory: the picker starts in
    /// `last_dir` when it is non-empty, else at `root`, and loads that listing.
    pub fn with_root<F: FileIo>(
        mode: PickerMode,
        filetype_count: usize,
        root: Vec<String>,
        last_dir: Vec<String>,
        io: &mut F,
    ) -> (r: Result<Self, F::Error>)
        ensures
            r is Ok ==> {
                let d = r->Ok_0@;
                let start = if last_dir@.len() > 0 { strings_model(last_dir@) } else { strings_model(root@) };
                &&& listed(PickerModel { path: start, root: strings_model(root@), entries: Seq::empty(),
                    selected: 0, scroll_top: 0, mode: mode, save_as: Seq::empty() }, d.picker)
                &&& listed_by(*old(io), PickerModel { path: start, root: strings_model(root@), entries: Seq::empty(),
                    selected: 0, scroll_top: 0, mode: mode, save_as: Seq::empty() }, d.picker)
                &&& d.last_dir == d.picker.path
                &&& d.filename.len() == 0 && d.cursor == 0
                &&& d.filetype_sel == 0
                &&& d.filetype_count == if filetype_count < 1 { 1 } else { filetype_count }
                &&& d.focus == FilePickerFocus::List
            },
    {
        let ghost root_m = strings_model(root@);
        let mut picker = FilePickerState::new_rooted(mode, root);
        if last_dir.len() > 0 {
            picker.path = clone_strings(&last_dir);
        }
        let ghost start = if last_dir@.len() > 0 { strings_model(last_dir@) } else { root_m };
        assert(picker@.entries =~= Seq::<EntryModel>::empty());
        assert(picker@.save_as =~= Seq::<char>::empty());
        assert(picker@ == (PickerModel { path: start, root: root_m, entries: Seq::empty(),
            selected: 0, scroll_top: 0, mode: mode, save_as: Seq::empty() }));
        match picker.reload(io) {
            Ok(()) => {},
            Err(e) => {
                return Err(e);
            },
        }
        let ld = clone_strings(&picker.path);
        Ok(FilePickerDialogState {
            last_dir: ld,
            picker,
            filename: LineInput::new(),
            filetype_sel: 0,
            filetype_count: if filetype_count < 1 { 1 } else { filetype_count },
            focus: FilePickerFocus::List,
        })
    }

    /// Route a key event to the focused zone (see [`dialog_step`]). `io` is used only
    /// when the list zone enters or leaves a directory; Escape, Cancel and every other
    /// key leave it as it was.
    pub fn handle_key<F: FileIo>(&mut self, ev: &KeyEvent, visible_rows: usize, io: &mut F)
        -> (r: Result<FilePickerDialogAction, F::Error>)
        requires
            dialog_key_ok(old(self)@, *ev, visible_rows as int),
        ensures
            dialog_step(old(self)@, *ev, visible_rows as int, final(self)@, r),
            !(ev.key != Key::Escape && ev.key != Key::Tab && old(self)@.focus == FilePickerFocus::List
                && picker_rereads(old(self)@.picker, ev.key)) ==> *final(io) == *old(io),
            ev.key == Key::Enter && old(self)@.focus == FilePickerFocus::List
                && activated(old(self)@.picker).1 is Navigated && r is Ok
                ==> listed_by(*old(io), activated(old(self)@.picker).0, final(self)@.picker),
            ev.key == Key::Backspace && old(self)@.focus == FilePickerFocus::List
                && old(self)@.picker.path.len() > old(self)@.picker.root.len() && r is Ok
                ==> listed_by(*old(io), went_up(old(self)@.picker), final(self)@.picker),
    {
        let k = ev.key;
        if k == Key::Escape {
            return Ok(FilePickerDialogAction::Cancel);
        }
        if k == Key::Tab {
            self.focus = if ev.modifiers.shift { self.focus.prev() } else { self.focus.next() };
            return Ok(FilePickerDialogAction::Nothing);
        }
        match self.focus {
            FilePickerFocus::List => {
                match k {
                    Key::Enter => {
                        let action = self.picker.activate();
                        match action {
                            FilePickerAction::Navigated => {
                                match self.picker.reload(io) {
                                    Ok(()) => {},
                                    Err(e) => {
                                        return Err(e);
                                    },
                                }
                                self.last_dir = clone_strings(&self.picker.path);
                                self.filename = LineInput::new();
                            },
                            FilePickerAction::PickedFile(name) => {
                                self.filename = LineInput::from_str(name.as_str());
                                self.focus = FilePickerFocus::FilenameField;
                            },
                            FilePickerAction::Nothing => {},
                        }
                    },
                    Key::Backspace => {
                        if !self.picker.at_root() {
                            let ghost before = strings_model(self.picker.path@);
                            self.picker.path.pop();
                            assert(strings_model(self.picker.path@) =~= before.drop_last());
                            self.picker.selected = 0;
                            self.picker.scroll_top = 0;
                            match self.picker.reload(io) {
                                Ok(()) => {},
                                Err(e) => {
                                    return Err(e);
                                },
                            }
                            self.last_dir = clone_strings(&self.picker.path);
                        }
                    },
                    Key::Up => self.picker.nav_up(visible_rows),
                    Key::Down => self.picker.nav_down(visible_rows),
                    _ => {},
                }
            },
            FilePickerFocus::FilenameField => {
                if k == Key::Enter {
                    return Ok(self.try_confirm());
                }
                self.filename.apply_key(k);
            },
            FilePickerFocus::FiletypeDropdown => {
                match k {
                    Key::Up | Key::Left => {
                        if self.filetype_sel > 0 {
                            self.filetype_sel = self.filetype_sel - 1;
                        }
                    },
                    Key::Down | Key::Right => {
                        if self.filetype_sel < usize::MAX && self.filetype_sel + 1 < self.filetype_count {
                            self.filetype_sel = self.filetype_sel + 1;
                        }
                    },
                    _ => {},
                }
            },
            FilePickerFocus::OkButton => {
                if k == Key::Enter || k == Key::Character(' ') {
                    return Ok(self.try_confirm());
                }
            },
            FilePickerFocus::CancelButton => {
                if k == Key::Enter || k == Key::Character(' ') {
                    return Ok(FilePickerDialogAction::Cancel);
                }
            },
        }
        Ok(FilePickerDialogAction::Nothing)
    }
}

} // verus!
