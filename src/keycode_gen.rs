//! Keycode definition tables, merged from versioned definition files: each
//! file's entries define, delete or reset entries of the tables built so far.

use vstd::prelude::*;
use vstd::string::StringSliceAdditionalSpecFns;

verus! {

/// Instruction marker that deletes an entry.
#[derive(Clone, Copy, Debug, Default, PartialEq, Eq, Structural)]
pub struct Delete;

/// Instruction marker that resets a list.
#[derive(Clone, Copy, Debug, Default, PartialEq, Eq, Structural)]
pub struct Reset;

/// An alias of a keycode, or an instruction to drop those defined so far.
#[derive(Debug)]
pub enum AliasIns {
    Reset(Reset),
    Def(String),
}

/// The definition of one keycode.
#[derive(Debug)]
pub struct Keycode {
    pub group: Option<String>,
    pub key: String,
    pub label: Option<String>,
    pub aliases: Vec<AliasIns>,
}

/// An entry of the keycode table: delete the keycode, reset the whole
/// table, or define the keycode.
#[derive(Debug)]
pub enum KeycodeIns {
    Delete(Delete),
    Reset(u8),
    Def(Keycode),
}

/// A range of keycodes, `start` and `end` inclusive as written in the files.
#[derive(Clone, Copy, Debug, PartialEq, Eq, Hash, Structural)]
pub struct KeyRange {
    pub start: u16,
    pub end: u16,
}

/// An entry of the range table: delete the range or define it under a name.
#[derive(Debug)]
pub enum KeyRangeIns {
    Delete(Delete),
    Def { define: String },
}

/// Keycode and range tables, each a list of entries with distinct keys
/// (a keycode table is keyed by the keycode's value).
#[derive(Debug)]
pub struct Spec {
    pub keycodes: Vec<(u16, KeycodeIns)>,
    pub ranges: Vec<(KeyRange, KeyRangeIns)>,
}

/// The map that a list of (key, value) entries stands for; a later entry
/// wins over an earlier one with the same key.
pub open spec fn to_map<K, V>(s: Seq<(K, V)>) -> Map<K, V>
    decreases s.len(),
{
    if s.len() == 0 {
        Map::empty()
    } else {
        to_map(s.drop_last()).insert(s.last().0, s.last().1)
    }
}

/// No two entries share a key.
pub open spec fn unique_keys<K, V>(s: Seq<(K, V)>) -> bool {
    forall|i: int, j: int| 0 <= i < j < s.len() ==> s[i].0 != s[j].0
}

impl Spec {
    /// Both tables have distinct keys.
    pub open spec fn wf(&self) -> bool {
        unique_keys(self.keycodes@) && unique_keys(self.ranges@)
    }
}

/// The keycode table after applying a list of entries in order.
pub open spec fn merge_keycodes(m: Map<u16, KeycodeIns>, src: Seq<(u16, KeycodeIns)>) -> Map<
    u16,
    KeycodeIns,
>
    decreases src.len(),
{
    if src.len() == 0 {
        m
    } else {
        let before = merge_keycodes(m, src.drop_last());
        let (k, ins) = src.last();
        match ins {
            KeycodeIns::Delete(_) => before.remove(k),
            KeycodeIns::Reset(_) => Map::empty(),
            KeycodeIns::Def(_) => before.insert(k, ins),
        }
    }
}

/// The range table after applying a list of entries in order.
pub open spec fn merge_ranges(m: Map<KeyRange, KeyRangeIns>, src: Seq<(KeyRange, KeyRangeIns)>) -> Map<
    KeyRange,
    KeyRangeIns,
>
    decreases src.len(),
{
    if src.len() == 0 {
        m
    } else {
        let before = merge_ranges(m, src.drop_last());
        let (k, ins) = src.last();
        match ins {
            KeyRangeIns::Delete(_) => before.remove(k),
            KeyRangeIns::Def { .. } => before.insert(k, ins),
        }
    }
}

proof fn lemma_to_map_dom<K, V>(s: Seq<(K, V)>, k: K)
    ensures
        to_map(s).dom().contains(k) <==> exists|i: int| 0 <= i < s.len() && s[i].0 == k,
    decreases s.len(),
{
    if s.len() > 0 {
        let d = s.drop_last();
        lemma_to_map_dom(d, k);
        if to_map(s).dom().contains(k) {
            if s.last().0 == k {
                assert(s[s.len() - 1].0 == k);
            } else {
                let i = choose|i: int| 0 <= i < d.len() && d[i].0 == k;
                assert(s[i].0 == k);
            }
        }
        if exists|i: int| 0 <= i < s.len() && s[i].0 == k {
            let i = choose|i: int| 0 <= i < s.len() && s[i].0 == k;
            if i < s.len() - 1 {
                assert(d[i].0 == k);
            }
        }
    }
}

proof fn lemma_to_map_remove<K, V>(s: Seq<(K, V)>, i: int)
    requires
        unique_keys(s),
        0 <= i < s.len(),
    ensures
        unique_keys(s.remove(i)),
        to_map(s.remove(i)) == to_map(s).remove(s[i].0),
    decreases s.len(),
{
    let r = s.remove(i);
    assert forall|a: int, b: int| 0 <= a < b < r.len() implies r[a].0 != r[b].0 by {
        let sa = if a < i {
            a
        } else {
            a + 1
        };
        let sb = if b < i {
            b
        } else {
            b + 1
        };
        assert(r[a] == s[sa]);
        assert(r[b] == s[sb]);
    }
    let d = s.drop_last();
    lemma_to_map_dom(d, s.last().0);
    if i == s.len() - 1 {
        assert(r =~= d);
        assert(!to_map(d).dom().contains(s.last().0));
        assert(to_map(s).remove(s[i].0) =~= to_map(d));
    } else {
        assert(r.drop_last() =~= d.remove(i));
        assert(r.last() == s.last());
        assert(unique_keys(d));
        lemma_to_map_remove(d, i);
        assert(s[i].0 != s.last().0);
        assert(to_map(r) =~= to_map(s).remove(s[i].0));
    }
}

proof fn lemma_to_map_push<K, V>(s: Seq<(K, V)>, k: K, v: V)
    requires
        unique_keys(s),
        forall|i: int| 0 <= i < s.len() ==> s[i].0 != k,
    ensures
        unique_keys(s.push((k, v))),
        to_map(s.push((k, v))) == to_map(s).insert(k, v),
{
    assert(s.push((k, v)).drop_last() =~= s);
}

/// The index of the entry with key `k`, if any.
fn find_keycode(v: &Vec<(u16, KeycodeIns)>, k: u16) -> (r: Option<usize>)
    ensures
        r matches Some(i) ==> i < v@.len() && v@[i as int].0 == k,
        r is None ==> forall|i: int| 0 <= i < v@.len() ==> v@[i].0 != k,
{
    let mut i: usize = 0;
    while i < v.len()
        invariant
            i <= v@.len(),
            forall|j: int| 0 <= j < i ==> v@[j].0 != k,
        decreases v@.len() - i,
    {
        if v[i].0 == k {
            return Some(i);
        }
        i = i + 1;
    }
    None
}

/// The index of the entry with key `k`, if any.
fn find_range(v: &Vec<(KeyRange, KeyRangeIns)>, k: KeyRange) -> (r: Option<usize>)
    ensures
        r matches Some(i) ==> i < v@.len() && v@[i as int].0 == k,
        r is None ==> forall|i: int| 0 <= i < v@.len() ==> v@[i].0 != k,
{
    let mut i: usize = 0;
    while i < v.len()
        invariant
            i <= v@.len(),
            forall|j: int| 0 <= j < i ==> v@[j].0 != k,
        decreases v@.len() - i,
    {
        if v[i].0 == k {
            return Some(i);
        }
        i = i + 1;
    }
    None
}

/// Applies every entry of `src` to `dst`, in order: a deletion removes the
/// entry with its key, a reset empties the keycode table, a definition
/// adds or replaces the entry with its key.
pub fn merge_specs(dst: &mut Spec, src: Spec)
    requires
        old(dst).wf(),
    ensures
        final(dst).wf(),
        to_map(final(dst).keycodes@) == merge_keycodes(to_map(old(dst).keycodes@), src.keycodes@),
        to_map(final(dst).ranges@) == merge_ranges(to_map(old(dst).ranges@), src.ranges@),
{
    let ghost start = to_map(dst.keycodes@);
    let ghost all = src.keycodes@;
    let mut entries = src.keycodes;
    let ghost n = entries@.len();
    while entries.len() > 0
        invariant
            entries@.len() <= n,
            n == all.len(),
            entries@ == all.skip(n - entries@.len()),
            unique_keys(dst.keycodes@),
            dst.ranges@ == old(dst).ranges@,
            unique_keys(dst.ranges@),
            to_map(dst.keycodes@) == merge_keycodes(start, all.take(n - entries@.len())),
        decreases entries@.len(),
    {
        let ghost done = n - entries@.len();
        assert(entries@[0] == all[done]);
        let (key, ins) = entries.remove(0);
        assert(entries@ =~= all.skip(done + 1));
        assert(all.take(done + 1).drop_last() =~= all.take(done));
        match ins {
            KeycodeIns::Delete(_) => {
                match find_keycode(&dst.keycodes, key) {
                    Some(i) => {
                        proof {
                            lemma_to_map_remove(dst.keycodes@, i as int);
                        }
                        dst.keycodes.remove(i);
                    },
                    None => {
                        proof {
                            lemma_to_map_dom(dst.keycodes@, key);
                            assert(to_map(dst.keycodes@).remove(key) =~= to_map(dst.keycodes@));
                        }
                    },
                }
            },
            KeycodeIns::Reset(_) => {
                dst.keycodes.clear();
                assert(to_map(dst.keycodes@) =~= Map::<u16, KeycodeIns>::empty());
            },
            KeycodeIns::Def(_) => {
                match find_keycode(&dst.keycodes, key) {
                    Some(i) => {
                        proof {
                            lemma_to_map_remove(dst.keycodes@, i as int);
                        }
                        dst.keycodes.remove(i);
                        proof {
                            lemma_to_map_dom(dst.keycodes@, key);
                            assert(!to_map(dst.keycodes@).dom().contains(key));
                        }
                    },
                    None => {},
                }
                proof {
                    lemma_to_map_dom(dst.keycodes@, key);
                    lemma_to_map_push(dst.keycodes@, key, ins);
                }
                let ghost before = to_map(dst.keycodes@);
                dst.keycodes.push((key, ins));
                assert(to_map(dst.keycodes@) == before.insert(key, ins));
            },
        }
    }
    assert(all.take(n as int) =~= all);
    let ghost rstart = to_map(dst.ranges@);
    let ghost rall = src.ranges@;
    let mut rentries = src.ranges;
    let ghost rn = rentries@.len();
    while rentries.len() > 0
        invariant
            rentries@.len() <= rn,
            rn == rall.len(),
            rentries@ == rall.skip(rn - rentries@.len()),
            unique_keys(dst.ranges@),
            unique_keys(dst.keycodes@),
            to_map(dst.keycodes@) == merge_keycodes(start, all),
            to_map(dst.ranges@) == merge_ranges(rstart, rall.take(rn - rentries@.len())),
        decreases rentries@.len(),
    {
        let ghost done = rn - rentries@.len();
        assert(rentries@[0] == rall[done]);
        let (key, ins) = rentries.remove(0);
        assert(rentries@ =~= rall.skip(done + 1));
        assert(rall.take(done + 1).drop_last() =~= rall.take(done));
        match find_range(&dst.ranges, key) {
            Some(i) => {
                proof {
                    lemma_to_map_remove(dst.ranges@, i as int);
                }
                dst.ranges.remove(i);
            },
            None => {
                proof {
                    lemma_to_map_dom(dst.ranges@, key);
                    assert(to_map(dst.ranges@).remove(key) =~= to_map(dst.ranges@));
                }
            },
        }
        proof {
            lemma_to_map_dom(dst.ranges@, key);
        }
        match ins {
            KeyRangeIns::Delete(_) => {},
            KeyRangeIns::Def { .. } => {
                proof {
                    lemma_to_map_push(dst.ranges@, key, ins);
                    assert(to_map(dst.ranges@).remove(key).insert(key, ins) =~= to_map(
                        dst.ranges@,
                    ).insert(key, ins));
                }
                dst.ranges.push((key, ins));
            },
        }
    }
    assert(rall.take(rn as int) =~= rall);
}

/// The value of an ASCII hexadecimal digit, either case.
pub open spec fn hex_value(c: u8) -> Option<int> {
    if 0x30 <= c <= 0x39 {
        Some(c - 0x30)
    } else if 0x61 <= c <= 0x66 {
        Some(c - 0x61 + 10)
    } else if 0x41 <= c <= 0x46 {
        Some(c - 0x41 + 10)
    } else {
        None
    }
}

pub open spec fn is_hex(c: u8) -> bool {
    hex_value(c) is Some
}

/// Whether `0x` and four hex digits start at `i` (the `x` in either case).
pub open spec fn hex_word_at(b: Seq<u8>, i: int) -> bool {
    &&& 0 <= i
    &&& i + 6 <= b.len()
    &&& b[i] == 0x30
    &&& (b[i + 1] == 0x78 || b[i + 1] == 0x58)
    &&& is_hex(b[i + 2]) && is_hex(b[i + 3]) && is_hex(b[i + 4]) && is_hex(b[i + 5])
}

/// The value of the four hex digits after the `0x` at `i`.
pub open spec fn hex_word_value(b: Seq<u8>, i: int) -> int {
    hex_value(b[i + 2]).unwrap() * 4096 + hex_value(b[i + 3]).unwrap() * 256 + hex_value(
        b[i + 4],
    ).unwrap() * 16 + hex_value(b[i + 5]).unwrap()
}

/// Whether a range written `0xXXXX/0xXXXX` starts at `i`.
pub open spec fn range_at(b: Seq<u8>, i: int) -> bool {
    hex_word_at(b, i) && i + 6 < b.len() && b[i + 6] == 0x2F && hex_word_at(b, i + 7)
}

fn hex_digit(c: u8) -> (r: Option<u16>)
    ensures
        r matches Some(v) ==> hex_value(c) == Some(v as int),
        r is None ==> hex_value(c) is None,
{
    if 0x30 <= c && c <= 0x39 {
        Some((c - 0x30) as u16)
    } else if 0x61 <= c && c <= 0x66 {
        Some((c - 0x61 + 10) as u16)
    } else if 0x41 <= c && c <= 0x46 {
        Some((c - 0x41 + 10) as u16)
    } else {
        None
    }
}

fn hex_word(b: &[u8], i: usize) -> (r: Option<u16>)
    ensures
        r is Some <==> hex_word_at(b@, i as int),
        r matches Some(v) ==> v == hex_word_value(b@, i as int),
{
    if i >= b.len() || b.len() - i < 6 {
        return None;
    }
    if b[i] != 0x30 || !(b[i + 1] == 0x78 || b[i + 1] == 0x58) {
        return None;
    }
    let d0 = match hex_digit(b[i + 2]) {
        Some(v) => v,
        None => return None,
    };
    let d1 = match hex_digit(b[i + 3]) {
        Some(v) => v,
        None => return None,
    };
    let d2 = match hex_digit(b[i + 4]) {
        Some(v) => v,
        None => return None,
    };
    let d3 = match hex_digit(b[i + 5]) {
        Some(v) => v,
        None => return None,
    };
    Some(d0 * 4096 + d1 * 256 + d2 * 16 + d3)
}

impl KeyRange {
    /// Reads the first range written `0xXXXX/0xXXXX` anywhere in `text`
    /// (hex digits and the `x` in either case); `None` when there is none.
    pub fn parse(text: &str) -> (r: Option<KeyRange>)
        ensures
            r is Some <==> exists|i: int| range_at(text.spec_bytes(), i),
            r matches Some(k) ==> exists|i: int|
                {
                    &&& range_at(text.spec_bytes(), i)
                    &&& forall|j: int| 0 <= j < i ==> !range_at(text.spec_bytes(), j)
                    &&& k.start == hex_word_value(text.spec_bytes(), i)
                    &&& k.end == hex_word_value(text.spec_bytes(), i + 7)
                },
    {
        let b = text.as_bytes();
        let mut i: usize = 0;
        while i < b.len()
            invariant
                b@ == text.spec_bytes(),
                forall|j: int| 0 <= j < i ==> !range_at(b@, j),
            decreases b@.len() - i,
        {
            let start = hex_word(b, i);
            if let Some(s) = start {
                if b.len() - i > 6 && b[i + 6] == 0x2F {
                    if let Some(e) = hex_word(b, i + 7) {
                        assert(range_at(b@, i as int));
                        return Some(KeyRange { start: s, end: e });
                    }
                }
            }
            i = i + 1;
        }
        assert forall|j: int| range_at(b@, j) implies false by {
            assert(j >= 0 && j < b@.len());
        }
        None
    }
}

} // verus!
