//! Settings as a byte blob for NVRAM (or any key-value store).
//!
//! Layout: the magic `0x55454649` ("UEFI") as four little-endian bytes, the version
//! (`u16` LE), the pair count (`u16` LE), then for each pair the key length (`u16` LE),
//! the key bytes, the value length (`u16` LE) and the value bytes. Counts and lengths
//! above `u16::MAX` are capped at `u16::MAX` (and the bytes cut to that length).

use vstd::prelude::*;

verus! {

pub const SETTINGS_MAGIC: u32 = 0x5545_4649;

/// A key/value pair as byte sequences.
pub type PairModel = (Seq<u8>, Seq<u8>);

/// Simple versioned payload of key/value pairs.
#[derive(Debug, Clone, PartialEq, Eq)]
pub struct SettingsBlob {
    pub version: u16,
    pub pairs: Vec<(Vec<u8>, Vec<u8>)>,
}

/// The pairs of a blob as byte sequences.
pub open spec fn pairs_model(pairs: Seq<(Vec<u8>, Vec<u8>)>) -> Seq<PairModel> {
    pairs.map_values(|p: (Vec<u8>, Vec<u8>)| (p.0@, p.1@))
}

impl View for SettingsBlob {
    type V = (u16, Seq<PairModel>);

    open spec fn view(&self) -> (u16, Seq<PairModel>) {
        (self.version, pairs_model(self.pairs@))
    }
}

/// `n` capped at `u16::MAX`.
pub open spec fn cap16(n: int) -> int {
    if n > 0xffff { 0xffff } else { n }
}

/// Two little-endian bytes of `x` (`0 <= x < 2^16`).
pub open spec fn le16(x: int) -> Seq<u8> {
    seq![(x % 256) as u8, (x / 256 % 256) as u8]
}

/// Four little-endian bytes of `x` (`0 <= x < 2^32`).
pub open spec fn le32(x: int) -> Seq<u8> {
    seq![(x % 256) as u8, (x / 0x100 % 256) as u8, (x / 0x1_0000 % 256) as u8, (x / 0x100_0000 % 256) as u8]
}

/// Encoding of one pair.
pub open spec fn encode_pair(p: PairModel) -> Seq<u8> {
    let kl = cap16(p.0.len() as int);
    let vl = cap16(p.1.len() as int);
    le16(kl) + p.0.take(kl) + le16(vl) + p.1.take(vl)
}

/// Encoding of a run of pairs, in order.
#[verifier::opaque]
pub open spec fn encode_pairs(ps: Seq<PairModel>) -> Seq<u8>
    decreases ps.len(),
{
    if ps.len() == 0 { Seq::empty() } else { encode_pair(ps[0]) + encode_pairs(ps.drop_first()) }
}

/// Encoding of a whole blob.
pub open spec fn encode_blob(version: u16, ps: Seq<PairModel>) -> Seq<u8> {
    le32(SETTINGS_MAGIC as int) + le16(version as int) + le16(cap16(ps.len() as int)) + encode_pairs(ps)
}

/// Little-endian `u16` at `i`.
pub open spec fn read16(raw: Seq<u8>, i: int) -> int {
    raw[i] + 256 * raw[i + 1]
}

/// Little-endian `u32` at `i`.
pub open spec fn read32(raw: Seq<u8>, i: int) -> int {
    raw[i] + 0x100 * raw[i + 1] + 0x1_0000 * raw[i + 2] + 0x100_0000 * raw[i + 3]
}

/// Parse `n` pairs starting at byte `i`; `None` when the bytes run out first.
#[verifier::opaque]
pub open spec fn parse_pairs(raw: Seq<u8>, i: int, n: nat) -> Option<Seq<PairModel>>
    decreases n,
{
    if n == 0 {
        Some(Seq::empty())
    } else if i + 2 > raw.len() {
        None
    } else {
        let kl = read16(raw, i);
        let k0 = i + 2;
        if k0 + kl > raw.len() {
            None
        } else {
            let v_at = k0 + kl;
            if v_at + 2 > raw.len() {
                None
            } else {
                let vl = read16(raw, v_at);
                let v0 = v_at + 2;
                if v0 + vl > raw.len() {
                    None
                } else {
                    match parse_pairs(raw, v0 + vl, (n - 1) as nat) {
                        Some(rest) => Some(seq![(raw.subrange(k0, k0 + kl), raw.subrange(v0, v0 + vl))] + rest),
                        None => None,
                    }
                }
            }
        }
    }
}

/// What a blob decodes to: `None` for short input, a wrong magic, or truncated pairs.
/// Bytes after the last pair are ignored.
pub open spec fn decode_blob(raw: Seq<u8>) -> Option<(u16, Seq<PairModel>)> {
    if raw.len() < 8 {
        None
    } else if read32(raw, 0) != SETTINGS_MAGIC {
        None
    } else {
        match parse_pairs(raw, 8, read16(raw, 6) as nat) {
            Some(ps) => Some((read16(raw, 4) as u16, ps)),
            None => None,
        }
    }
}

/// Encoding distributes over concatenation of pair runs.
pub proof fn lemma_encode_pairs_concat(a: Seq<PairModel>, b: Seq<PairModel>)
    ensures
        encode_pairs(a + b) == encode_pairs(a) + encode_pairs(b),
    decreases a.len(),
{
    reveal(encode_pairs);
    if a.len() == 0 {
        assert(a + b =~= b);
        assert(encode_pairs(a) + encode_pairs(b) =~= encode_pairs(b));
    } else {
        assert((a + b).drop_first() =~= a.drop_first() + b);
        lemma_encode_pairs_concat(a.drop_first(), b);
        assert(encode_pairs(a + b) =~= encode_pair(a[0]) + (encode_pairs(a.drop_first()) + encode_pairs(b)));
    }
}

proof fn lemma_encode_one(p: PairModel)
    ensures
        encode_pairs(seq![p]) == encode_pair(p),
{
    reveal_with_fuel(encode_pairs, 2);
    assert(seq![p].drop_first() =~= Seq::<PairModel>::empty());
    assert(encode_pair(p) + Seq::<u8>::empty() =~= encode_pair(p));
}

/// Pairs whose key and value each fit a `u16` length.
pub open spec fn pairs_fit(ps: Seq<PairModel>) -> bool {
    forall|i: int| 0 <= i < ps.len() ==> #[trigger] ps[i].0.len() <= 0xffff && ps[i].1.len() <= 0xffff
}

proof fn lemma_read16_le16(raw: Seq<u8>, i: int, x: int)
    requires
        0 <= x < 0x1_0000,
        0 <= i,
        i + 2 <= raw.len(),
        raw.subrange(i, i + 2) == le16(x),
    ensures
        read16(raw, i) == x,
{
    assert(raw[i] == raw.subrange(i, i + 2)[0]);
    assert(raw[i + 1] == raw.subrange(i, i + 2)[1]);
}

proof fn lemma_mid(a: Seq<u8>, b: Seq<u8>, c: Seq<u8>)
    ensures
        (a + b + c).subrange(a.len() as int, (a.len() + b.len()) as int) == b,
        (a + b + c).len() == a.len() + b.len() + c.len(),
{
    assert((a + b + c).subrange(a.len() as int, (a.len() + b.len()) as int) =~= b);
}

proof fn lemma_parse_step(raw: Seq<u8>, i: int, n: nat, k: Seq<u8>, v: Seq<u8>, rest: Seq<PairModel>)
    requires
        n > 0,
        0 <= i,
        k.len() <= 0xffff,
        v.len() <= 0xffff,
        i + 4 + k.len() + v.len() <= raw.len(),
        raw.subrange(i, i + 2) == le16(k.len() as int),
        raw.subrange(i + 2, i + 2 + k.len()) == k,
        raw.subrange(i + 2 + k.len(), i + 4 + k.len()) == le16(v.len() as int),
        raw.subrange(i + 4 + k.len(), i + 4 + k.len() + v.len()) == v,
        parse_pairs(raw, i + 4 + k.len() + v.len(), (n - 1) as nat) == Some(rest),
    ensures
        parse_pairs(raw, i, n) == Some(seq![(k, v)] + rest),
{
    reveal(parse_pairs);
    lemma_read16_le16(raw, i, k.len() as int);
    lemma_read16_le16(raw, i + 2 + k.len(), v.len() as int);
}

proof fn lemma_pair_layout(raw: Seq<u8>, i: int, p: PairModel)
    requires
        0 <= i,
        p.0.len() <= 0xffff,
        p.1.len() <= 0xffff,
        i + encode_pair(p).len() <= raw.len(),
        raw.subrange(i, i + encode_pair(p).len()) == encode_pair(p),
    ensures
        encode_pair(p).len() == 4 + p.0.len() + p.1.len(),
        raw.subrange(i, i + 2) == le16(p.0.len() as int),
        raw.subrange(i + 2, i + 2 + p.0.len()) == p.0,
        raw.subrange(i + 2 + p.0.len(), i + 4 + p.0.len()) == le16(p.1.len() as int),
        raw.subrange(i + 4 + p.0.len(), i + 4 + p.0.len() + p.1.len()) == p.1,
{
    let k = p.0;
    let v = p.1;
    let kl = k.len() as int;
    let vl = v.len() as int;
    assert(k.take(kl) =~= k);
    assert(v.take(vl) =~= v);
    let enc = encode_pair(p);
    assert(enc =~= le16(kl) + k + le16(vl) + v);
    let e = raw.subrange(i, i + enc.len());
    assert(raw.subrange(i, i + 2) =~= e.subrange(0, 2));
    assert(e.subrange(0, 2) =~= le16(kl));
    assert(raw.subrange(i + 2, i + 2 + kl) =~= e.subrange(2, 2 + kl));
    assert(e.subrange(2, 2 + kl) =~= k);
    assert(raw.subrange(i + 2 + kl, i + 4 + kl) =~= e.subrange(2 + kl, 4 + kl));
    assert(e.subrange(2 + kl, 4 + kl) =~= le16(vl));
    assert(raw.subrange(i + 4 + kl, i + 4 + kl + vl) =~= e.subrange(4 + kl, 4 + kl + vl));
    assert(e.subrange(4 + kl, 4 + kl + vl) =~= v);
}

#[verifier::spinoff_prover]
proof fn lemma_parse_encoded(prefix: Seq<u8>, ps: Seq<PairModel>, tail: Seq<u8>)
    requires
        pairs_fit(ps),
    ensures
        parse_pairs(prefix + encode_pairs(ps) + tail, prefix.len() as int, ps.len()) == Some(ps),
    decreases ps.len(),
{
    let raw = prefix + encode_pairs(ps) + tail;
    if ps.len() == 0 {
        reveal(parse_pairs);
        assert(ps =~= Seq::<PairModel>::empty());
    } else {
        let p0 = ps[0];
        let rest = ps.drop_first();
        assert(p0.0.len() <= 0xffff && p0.1.len() <= 0xffff);
        let enc = encode_pair(p0);
        let pre2 = prefix + enc;
        assert(encode_pairs(ps) == enc + encode_pairs(rest)) by { reveal(encode_pairs); }
        assert(pairs_fit(rest)) by {
            assert forall|j: int| 0 <= j < rest.len() implies #[trigger] rest[j].0.len() <= 0xffff
                && rest[j].1.len() <= 0xffff by {
                assert(rest[j] == ps[j + 1]);
            }
        }
        lemma_parse_encoded(pre2, rest, tail);
        assert(raw =~= pre2 + encode_pairs(rest) + tail);
        assert(raw =~= prefix + enc + (encode_pairs(rest) + tail));
        lemma_mid(prefix, enc, encode_pairs(rest) + tail);
        lemma_pair_layout(raw, prefix.len() as int, p0);
        lemma_parse_step(raw, prefix.len() as int, ps.len(), p0.0, p0.1, rest);
        assert(seq![(p0.0, p0.1)] + rest =~= ps);
    }
}

/// Decoding an encoded blob gives it back, whenever its pair count and every key and
/// value length fit in a `u16`.
#[verifier::spinoff_prover]
pub proof fn lemma_settings_roundtrip(version: u16, ps: Seq<PairModel>)
    requires
        ps.len() <= 0xffff,
        pairs_fit(ps),
    ensures
        decode_blob(encode_blob(version, ps)) == Some((version, ps)),
{
    let l32 = le32(SETTINGS_MAGIC as int);
    assert(l32 =~= seq![0x49u8, 0x46u8, 0x45u8, 0x55u8]);
    let header = l32 + le16(version as int) + le16(cap16(ps.len() as int));
    let raw = encode_blob(version, ps);
    assert(raw =~= header + encode_pairs(ps) + Seq::<u8>::empty());
    lemma_parse_encoded(header, ps, Seq::<u8>::empty());
    assert(raw.subrange(4, 6) =~= le16(version as int));
    lemma_read16_le16(raw, 4, version as int);
    assert(raw.subrange(6, 8) =~= le16(ps.len() as int));
    lemma_read16_le16(raw, 6, ps.len() as int);
    assert(raw[0] == 0x49 && raw[1] == 0x46 && raw[2] == 0x45 && raw[3] == 0x55);
}

fn push_le16(out: &mut Vec<u8>, x: u16)
    ensures
        final(out)@ == old(out)@ + le16(x as int),
{
    out.push((x % 256) as u8);
    out.push((x / 256) as u8);
    assert(final(out)@ =~= old(out)@ + le16(x as int));
}

fn push_prefix(out: &mut Vec<u8>, src: &Vec<u8>, n: usize)
    requires
        n <= src@.len(),
    ensures
        final(out)@ == old(out)@ + src@.take(n as int),
{
    let mut i: usize = 0;
    while i < n
        invariant
            i <= n <= src@.len(),
            out@ == old(out)@ + src@.take(i as int),
        decreases n - i,
    {
        out.push(src[i]);
        i = i + 1;
        assert(out@ =~= old(out)@ + src@.take(i as int));
    }
}

fn read16_at(raw: &[u8], i: usize) -> (r: u16)
    requires
        i + 2 <= raw@.len(),
    ensures
        r == read16(raw@, i as int),
{
    raw[i] as u16 + 256 * (raw[i + 1] as u16)
}

fn copy_range(raw: &[u8], lo: usize, hi: usize) -> (r: Vec<u8>)
    requires
        lo <= hi <= raw@.len(),
    ensures
        r@ == raw@.subrange(lo as int, hi as int),
{
    let mut out: Vec<u8> = Vec::new();
    let mut i = lo;
    while i < hi
        invariant
            lo <= i <= hi <= raw@.len(),
            out@ == raw@.subrange(lo as int, i as int),
        decreases hi - i,
    {
        out.push(raw[i]);
        i = i + 1;
        assert(out@ =~= raw@.subrange(lo as int, i as int));
    }
    out
}

impl SettingsBlob {
    /// The blob as bytes (see the module documentation for the layout).
    pub fn encode(&self) -> (r: Vec<u8>)
        ensures
            r@ == encode_blob(self.version, pairs_model(self.pairs@)),
    {
        let ghost ps = pairs_model(self.pairs@);
        let mut out: Vec<u8> = Vec::new();
        push_le16(&mut out, (SETTINGS_MAGIC % 0x1_0000) as u16);
        push_le16(&mut out, (SETTINGS_MAGIC / 0x1_0000) as u16);
        assert(out@ =~= le32(SETTINGS_MAGIC as int));
        push_le16(&mut out, self.version);
        let n: u16 = if self.pairs.len() > 0xffff { 0xffff } else { self.pairs.len() as u16 };
        push_le16(&mut out, n);
        let ghost header = out@;
        assert(ps.take(0) =~= Seq::<PairModel>::empty());
        assert(encode_pairs(ps.take(0)) == Seq::<u8>::empty()) by { reveal(encode_pairs); }
        assert(out@ =~= header + encode_pairs(ps.take(0)));
        let mut i: usize = 0;
        while i < self.pairs.len()
            invariant
                i <= self.pairs@.len(),
                ps == pairs_model(self.pairs@),
                header == le32(SETTINGS_MAGIC as int) + le16(self.version as int) + le16(cap16(ps.len() as int)),
                out@ == header + encode_pairs(ps.take(i as int)),
            decreases self.pairs@.len() - i,
        {
            let k = &self.pairs[i].0;
            let v = &self.pairs[i].1;
            let kl: u16 = if k.len() > 0xffff { 0xffff } else { k.len() as u16 };
            let vl: u16 = if v.len() > 0xffff { 0xffff } else { v.len() as u16 };
            let ghost before = out@;
            push_le16(&mut out, kl);
            push_prefix(&mut out, k, kl as usize);
            push_le16(&mut out, vl);
            push_prefix(&mut out, v, vl as usize);
            proof {
                assert(ps[i as int] == (k@, v@));
                assert(out@ =~= before + encode_pair(ps[i as int]));
                assert(ps.take(i + 1) =~= ps.take(i as int) + seq![ps[i as int]]);
                lemma_encode_pairs_concat(ps.take(i as int), seq![ps[i as int]]);
                lemma_encode_one(ps[i as int]);
                assert(out@ =~= header + encode_pairs(ps.take(i + 1)));
            }
            i = i + 1;
        }
        assert(ps.take(ps.len() as int) =~= ps);
        out
    }

    /// Parse a blob; `None` for short input, a wrong magic, or truncated pairs.
    pub fn decode(raw: &[u8]) -> (r: Option<SettingsBlob>)
        ensures
            match decode_blob(raw@) {
                Some(m) => r is Some && r->0@ == m,
                None => r is None,
            },
    {
        if raw.len() < 8 {
            return None;
        }
        let lo = read16_at(raw, 0) as u32;
        let hi = read16_at(raw, 2) as u32;
        let magic = lo + 0x1_0000 * hi;
        if magic != SETTINGS_MAGIC {
            return None;
        }
        let version = read16_at(raw, 4);
        let n = read16_at(raw, 6);
        let mut i: usize = 8;
        let mut pairs: Vec<(Vec<u8>, Vec<u8>)> = Vec::new();
        let mut j: u16 = 0;
        proof { reveal(parse_pairs); }
        while j < n
            invariant
                8 <= i <= raw@.len(),
                j <= n,
                n == read16(raw@, 6),
                parse_pairs(raw@, 8, n as nat) == match parse_pairs(raw@, i as int, (n - j) as nat) {
                    Some(rest) => Some(pairs_model(pairs@) + rest),
                    None => None::<Seq<PairModel>>,
                },
            decreases n - j,
        {
            proof { reveal(parse_pairs); }
            if raw.len() - i < 2 {
                return None;
            }
            let kl = read16_at(raw, i) as usize;
            i = i + 2;
            if raw.len() - i < kl {
                return None;
            }
            let k = copy_range(raw, i, i + kl);
            i = i + kl;
            if raw.len() - i < 2 {
                return None;
            }
            let vl = read16_at(raw, i) as usize;
            i = i + 2;
            if raw.len() - i < vl {
                return None;
            }
            let v = copy_range(raw, i, i + vl);
            i = i + vl;
            let ghost old_pairs = pairs_model(pairs@);
            pairs.push((k, v));
            proof {
                assert(pairs_model(pairs@) =~= old_pairs + seq![(k@, v@)]);
                match parse_pairs(raw@, i as int, (n - j - 1) as nat) {
                    Some(rest) => {
                        assert(old_pairs + (seq![(k@, v@)] + rest) =~= pairs_model(pairs@) + rest);
                    },
                    None => {},
                }
            }
            j = j + 1;
        }
        assert(pairs_model(pairs@) + Seq::<PairModel>::empty() =~= pairs_model(pairs@));
        proof { reveal(parse_pairs); }
        Some(SettingsBlob { version, pairs })
    }
}

} // verus!
