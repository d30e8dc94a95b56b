//! Editor and theme settings, serialized through a [`SettingsBlob`] (version 1).
//!
//! Keys: `font_size` and `theme_index` (one byte each), `last_file` and `last_dir`
//! (UTF-8 text, stored only when non-empty). Unknown keys are ignored when reading.

use vstd::prelude::*;
use vstd::utf8::{decode_utf8, encode_utf8, valid_utf8};
use crate::settings::{
    SettingsBlob, PairModel, encode_blob, decode_blob, pairs_model, pairs_fit, lemma_settings_roundtrip,
};
use crate::text::{split_to_strings, join_strings, chars_of, split_on, join_with, strings_model};

verus! {

pub const DEFAULT_FONT_SIZE: u8 = 14;
pub const DEFAULT_THEME_INDEX: u8 = 0;

/// Persistent settings for the text editor; every field has a safe default.
#[derive(Debug, Clone, PartialEq, Eq)]
pub struct EditorSettings {
    /// Font size in points.
    pub font_size: u8,
    /// Index into the application's theme list.
    pub theme_index: u8,
    /// Last opened file name (empty: none).
    pub last_file: String,
    /// Last visited directory, components joined with '/' (empty: the root).
    pub last_dir: String,
}

/// The abstract value of [`EditorSettings`].
pub struct EditorSettingsModel {
    pub font_size: u8,
    pub theme_index: u8,
    pub last_file: Seq<char>,
    pub last_dir: Seq<char>,
}

impl View for EditorSettings {
    type V = EditorSettingsModel;

    open spec fn view(&self) -> EditorSettingsModel {
        EditorSettingsModel {
            font_size: self.font_size,
            theme_index: self.theme_index,
            last_file: self.last_file@,
            last_dir: self.last_dir@,
        }
    }
}

/// The defaults: font size 14, theme 0, no file, root directory.
pub open spec fn default_model() -> EditorSettingsModel {
    EditorSettingsModel {
        font_size: DEFAULT_FONT_SIZE,
        theme_index: DEFAULT_THEME_INDEX,
        last_file: Seq::empty(),
        last_dir: Seq::empty(),
    }
}

/// `b"font_size"`.
pub open spec fn key_font_size() -> Seq<u8> {
    seq![102u8, 111u8, 110u8, 116u8, 95u8, 115u8, 105u8, 122u8, 101u8]
}

/// `b"theme_index"`.
pub open spec fn key_theme_index() -> Seq<u8> {
    seq![116u8, 104u8, 101u8, 109u8, 101u8, 95u8, 105u8, 110u8, 100u8, 101u8, 120u8]
}

/// `b"last_file"`.
pub open spec fn key_last_file() -> Seq<u8> {
    seq![108u8, 97u8, 115u8, 116u8, 95u8, 102u8, 105u8, 108u8, 101u8]
}

/// `b"last_dir"`.
pub open spec fn key_last_dir() -> Seq<u8> {
    seq![108u8, 97u8, 115u8, 116u8, 95u8, 100u8, 105u8, 114u8]
}

/// What `String::from_utf8_lossy` makes of `bytes`.
pub uninterp spec fn utf8_lossy(bytes: Seq<u8>) -> Seq<char>;

/// The text of `bytes`: decoded exactly when they are valid UTF-8.
pub open spec fn text_of_bytes(bytes: Seq<u8>) -> Seq<char> {
    if valid_utf8(bytes) { decode_utf8(bytes) } else { utf8_lossy(bytes) }
}

/// `String::from_utf8_lossy`: the text of `bytes`, invalid sequences replaced by U+FFFD.
/// Stated here: valid UTF-8 decodes exactly, and otherwise the result is a function of
/// the bytes. How invalid sequences are replaced is not stated.
#[verifier::external_body]
fn from_utf8_lossy(bytes: &[u8]) -> (r: String)
    ensures
        valid_utf8(bytes@) ==> r@ == decode_utf8(bytes@),
        !valid_utf8(bytes@) ==> r@ == utf8_lossy(bytes@),
{
    String::from_utf8_lossy(bytes).into_owned()
}

/// Path components of a stored directory: none for the empty string, else the pieces between '/'.
pub open spec fn dir_components(s: Seq<char>) -> Seq<Seq<char>> {
    if s.len() == 0 { Seq::empty() } else { split_on(s, '/') }
}

/// Storing path components and reading them back gives the same components, when none
/// holds a '/' and the path is not a single empty component.
pub proof fn lemma_last_dir_roundtrip(parts: Seq<Seq<char>>)
    requires
        forall|i: int| 0 <= i < parts.len() ==> !(#[trigger] parts[i]).contains('/'),
        !(parts.len() == 1 && parts[0].len() == 0),
    ensures
        dir_components(join_with(parts, '/')) == parts,
{
    if parts.len() == 0 {
        assert(parts =~= Seq::<Seq<char>>::empty());
    } else {
        crate::text::lemma_split_join(parts, '/');
        if parts.len() == 1 {
            assert(join_with(parts, '/') == parts[0]);
        } else {
            let j = join_with(parts, '/');
            assert(j == join_with(parts.drop_last(), '/') + seq!['/'] + parts.last());
            assert(j.len() > 0);
        }
    }
}

/// Settings after reading one pair.
pub open spec fn apply_pair(m: EditorSettingsModel, p: PairModel) -> EditorSettingsModel {
    let (k, v) = p;
    if k == key_font_size() && v.len() > 0 {
        EditorSettingsModel { font_size: v[0], ..m }
    } else if k == key_theme_index() && v.len() > 0 {
        EditorSettingsModel { theme_index: v[0], ..m }
    } else if k == key_last_file() {
        EditorSettingsModel { last_file: text_of_bytes(v), ..m }
    } else if k == key_last_dir() {
        EditorSettingsModel { last_dir: text_of_bytes(v), ..m }
    } else {
        m
    }
}

/// Settings after reading `ps` in order, starting from the defaults.
pub open spec fn from_pairs(ps: Seq<PairModel>) -> EditorSettingsModel
    decreases ps.len(),
{
    if ps.len() == 0 { default_model() } else { apply_pair(from_pairs(ps.drop_last()), ps.last()) }
}

/// The pairs written for `m`.
pub open spec fn to_pairs(m: EditorSettingsModel) -> Seq<PairModel> {
    seq![(key_font_size(), seq![m.font_size]), (key_theme_index(), seq![m.theme_index])]
        + (if m.last_file.len() > 0 { seq![(key_last_file(), encode_utf8(m.last_file))] } else { Seq::empty() })
        + (if m.last_dir.len() > 0 { seq![(key_last_dir(), encode_utf8(m.last_dir))] } else { Seq::empty() })
}

/// What raw bytes decode to.
pub open spec fn decode_settings(raw: Seq<u8>) -> Option<EditorSettingsModel> {
    match decode_blob(raw) {
        Some((version, ps)) => if version == 1 { Some(from_pairs(ps)) } else { None },
        None => None,
    }
}

fn bytes_eq(a: &[u8], b: &[u8]) -> (r: bool)
    ensures
        r == (a@ == b@),
{
    if a.len() != b.len() {
        return false;
    }
    let mut i: usize = 0;
    while i < a.len()
        invariant
            i <= a@.len() == b@.len(),
            forall|j: int| 0 <= j < i ==> a@[j] == b@[j],
        decreases a@.len() - i,
    {
        if a[i] != b[i] {
            return false;
        }
        i = i + 1;
    }
    assert(a@ =~= b@);
    true
}

fn bytes_from(src: &[u8]) -> (r: Vec<u8>)
    ensures
        r@ == src@,
{
    let mut out: Vec<u8> = Vec::new();
    let mut i: usize = 0;
    while i < src.len()
        invariant
            i <= src@.len(),
            out@ == src@.take(i as int),
        decreases src@.len() - i,
    {
        out.push(src[i]);
        i = i + 1;
        assert(out@ =~= src@.take(i as int));
    }
    assert(src@.take(src@.len() as int) =~= src@);
    out
}

fn make_key_font_size() -> (r: Vec<u8>)
    ensures
        r@ == key_font_size(),
{
    let mut v: Vec<u8> = Vec::new();
    v.push(102); v.push(111); v.push(110); v.push(116); v.push(95);
    v.push(115); v.push(105); v.push(122); v.push(101);
    assert(v@ =~= key_font_size());
    v
}

fn make_key_theme_index() -> (r: Vec<u8>)
    ensures
        r@ == key_theme_index(),
{
    let mut v: Vec<u8> = Vec::new();
    v.push(116); v.push(104); v.push(101); v.push(109); v.push(101); v.push(95);
    v.push(105); v.push(110); v.push(100); v.push(101); v.push(120);
    assert(v@ =~= key_theme_index());
    v
}

fn make_key_last_file() -> (r: Vec<u8>)
    ensures
        r@ == key_last_file(),
{
    let mut v: Vec<u8> = Vec::new();
    v.push(108); v.push(97); v.push(115); v.push(116); v.push(95);
    v.push(102); v.push(105); v.push(108); v.push(101);
    assert(v@ =~= key_last_file());
    v
}

fn make_key_last_dir() -> (r: Vec<u8>)
    ensures
        r@ == key_last_dir(),
{
    let mut v: Vec<u8> = Vec::new();
    v.push(108); v.push(97); v.push(115); v.push(116); v.push(95);
    v.push(100); v.push(105); v.push(114);
    assert(v@ =~= key_last_dir());
    v
}

impl Default for EditorSettings {
    fn default() -> (r: Self)
        ensures
            r@ == default_model(),
    {
        EditorSettings {
            font_size: DEFAULT_FONT_SIZE,
            theme_index: DEFAULT_THEME_INDEX,
            last_file: String::new(),
            last_dir: String::new(),
        }
    }
}

impl EditorSettings {
    pub fn new() -> (r: Self)
        ensures
            r@ == default_model(),
    {
        Self::default()
    }

    /// The last directory as path components (split on '/'); empty for the root.
    pub fn last_dir_path(&self) -> (r: Vec<String>)
        ensures
            strings_model(r@) == dir_components(self.last_dir@),
    {
        let cs = chars_of(self.last_dir.as_str());
        if cs.len() == 0 {
            let r: Vec<String> = Vec::new();
            assert(strings_model(r@) =~= Seq::<Seq<char>>::empty());
            return r;
        }
        split_to_strings(cs.as_slice(), '/')
    }

    /// Store the last directory from path components, joined with '/'.
    pub fn set_last_dir_path(&mut self, path: &[String])
        ensures
            final(self)@ == (EditorSettingsModel { last_dir: join_with(strings_model(path@), '/'), ..old(self)@ }),
    {
        self.last_dir = join_strings(path, '/');
    }

    /// The settings as a version-1 blob.
    pub fn to_blob(&self) -> (r: SettingsBlob)
        ensures
            r@ == (1u16, to_pairs(self@)),
    {
        let mut pairs: Vec<(Vec<u8>, Vec<u8>)> = Vec::new();
        let mut fs: Vec<u8> = Vec::new();
        fs.push(self.font_size);
        let mut ti: Vec<u8> = Vec::new();
        ti.push(self.theme_index);
        pairs.push((make_key_font_size(), fs));
        pairs.push((make_key_theme_index(), ti));
        let ghost m = self@;
        let ghost base: Seq<PairModel> = seq![(key_font_size(), seq![m.font_size]), (key_theme_index(), seq![m.theme_index])];
        assert(pairs_model(pairs@) =~= base);
        if !self.last_file.as_str().is_empty() {
            let b = bytes_from(self.last_file.as_str().as_bytes());
            let ghost before = pairs_model(pairs@);
            pairs.push((make_key_last_file(), b));
            assert(pairs_model(pairs@) =~= before.push((key_last_file(), encode_utf8(m.last_file))));
        }
        let ghost mid = base + (if m.last_file.len() > 0 {
            seq![(key_last_file(), encode_utf8(m.last_file))]
        } else {
            Seq::<PairModel>::empty()
        });
        assert(pairs_model(pairs@) =~= mid);
        if !self.last_dir.as_str().is_empty() {
            let b = bytes_from(self.last_dir.as_str().as_bytes());
            let ghost before = pairs_model(pairs@);
            pairs.push((make_key_last_dir(), b));
            assert(pairs_model(pairs@) =~= before.push((key_last_dir(), encode_utf8(m.last_dir))));
        }
        assert(pairs_model(pairs@) =~= to_pairs(m));
        SettingsBlob { version: 1, pairs }
    }

    /// Read settings from a blob: `None` unless its version is 1; unknown keys are ignored.
    pub fn from_blob(blob: &SettingsBlob) -> (r: Option<Self>)
        ensures
            blob.version != 1 ==> r is None,
            blob.version == 1 ==> r is Some && r->0@ == from_pairs(pairs_model(blob.pairs@)),
    {
        if blob.version != 1 {
            return None;
        }
        let ghost ps = pairs_model(blob.pairs@);
        let kf = make_key_font_size();
        let kt = make_key_theme_index();
        let kl = make_key_last_file();
        let kd = make_key_last_dir();
        let mut s = Self::default();
        let mut i: usize = 0;
        assert(ps.take(0) =~= Seq::<PairModel>::empty());
        while i < blob.pairs.len()
            invariant
                i <= blob.pairs@.len(),
                ps == pairs_model(blob.pairs@),
                kf@ == key_font_size(),
                kt@ == key_theme_index(),
                kl@ == key_last_file(),
                kd@ == key_last_dir(),
                s@ == from_pairs(ps.take(i as int)),
            decreases blob.pairs@.len() - i,
        {
            let k = &blob.pairs[i].0;
            let v = &blob.pairs[i].1;
            assert(ps.take(i + 1).drop_last() =~= ps.take(i as int));
            assert(ps.take(i + 1).last() == (k@, v@));
            if bytes_eq(k.as_slice(), kf.as_slice()) && v.len() != 0 {
                s.font_size = v[0];
            } else if bytes_eq(k.as_slice(), kt.as_slice()) && v.len() != 0 {
                s.theme_index = v[0];
            } else if bytes_eq(k.as_slice(), kl.as_slice()) {
                s.last_file = from_utf8_lossy(v.as_slice());
            } else if bytes_eq(k.as_slice(), kd.as_slice()) {
                s.last_dir = from_utf8_lossy(v.as_slice());
            }
            i = i + 1;
        }
        assert(ps.take(ps.len() as int) =~= ps);
        Some(s)
    }

    /// The settings as bytes for NVRAM storage.
    pub fn encode(&self) -> (r: Vec<u8>)
        ensures
            r@ == encode_blob(1u16, to_pairs(self@)),
    {
        self.to_blob().encode()
    }

    /// Read settings from raw NVRAM bytes; corrupt data or another version gives `None`.
    pub fn decode(raw: &[u8]) -> (r: Option<Self>)
        ensures
            match decode_settings(raw@) {
                Some(m) => r is Some && r->0@ == m,
                None => r is None,
            },
    {
        match SettingsBlob::decode(raw) {
            Some(b) => Self::from_blob(&b),
            None => None,
        }
    }
}

/// Reading back what was written gives the same settings, whenever the file and
/// directory names each take at most `u16::MAX` bytes of UTF-8.
pub proof fn lemma_editor_settings_roundtrip(m: EditorSettingsModel)
    requires
        encode_utf8(m.last_file).len() <= 0xffff,
        encode_utf8(m.last_dir).len() <= 0xffff,
    ensures
        decode_settings(encode_blob(1u16, to_pairs(m))) == Some(m),
{
    let ps = to_pairs(m);
    assert(pairs_fit(ps));
    lemma_settings_roundtrip(1u16, ps);
    vstd::utf8::encode_utf8_decode_utf8(m.last_file);
    vstd::utf8::encode_utf8_decode_utf8(m.last_dir);
    vstd::utf8::encode_utf8_valid_utf8(m.last_file);
    vstd::utf8::encode_utf8_valid_utf8(m.last_dir);
    assert(key_font_size() != key_theme_index());
    assert(key_last_file() != key_font_size() && key_last_file() != key_theme_index());
    assert(key_last_dir() != key_font_size() && key_last_dir() != key_theme_index());
    assert(key_last_dir() != key_last_file()) by {
        assert(key_last_dir().len() != key_last_file().len());
    }
    let p0 = (key_font_size(), seq![m.font_size]);
    let p1 = (key_theme_index(), seq![m.theme_index]);
    let p2 = (key_last_file(), encode_utf8(m.last_file));
    let p3 = (key_last_dir(), encode_utf8(m.last_dir));
    let s0 = seq![p0];
    let s1 = seq![p0, p1];
    assert(s0.drop_last() =~= Seq::<PairModel>::empty());
    assert(s1.drop_last() =~= s0);
    let f0 = from_pairs(s0);
    assert(from_pairs(Seq::<PairModel>::empty()) == default_model());
    assert(s0.last() == p0);
    assert(f0 == apply_pair(default_model(), p0));
    let f1 = from_pairs(s1);
    assert(s1.last() == p1);
    assert(f1 == apply_pair(f0, p1));
    let want1 = EditorSettingsModel { font_size: m.font_size, theme_index: m.theme_index, ..default_model() };
    assert(f1 == want1);
    let s2 = if m.last_file.len() > 0 { s1.push(p2) } else { s1 };
    assert(s2 =~= s1 + (if m.last_file.len() > 0 { seq![p2] } else { Seq::<PairModel>::empty() }));
    let want2 = EditorSettingsModel { last_file: m.last_file, ..want1 };
    if m.last_file.len() > 0 {
        assert(s2.drop_last() =~= s1);
        assert(from_pairs(s2) == apply_pair(f1, p2));
        assert(from_pairs(s2) == want2);
    } else {
        assert(m.last_file =~= Seq::<char>::empty());
        assert(from_pairs(s2) == want2);
    }
    let s3 = if m.last_dir.len() > 0 { s2.push(p3) } else { s2 };
    assert(s3 =~= ps);
    if m.last_dir.len() > 0 {
        assert(s3.drop_last() =~= s2);
        assert(from_pairs(s3) == apply_pair(from_pairs(s2), p3));
        assert(from_pairs(s3) == m);
    } else {
        assert(m.last_dir =~= Seq::<char>::empty());
        assert(from_pairs(s3) == m);
    }
}

} // verus!
