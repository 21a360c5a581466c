//! Symbolic keys, the string table that recovers their text, and the shared
//! building blocks of the containers: string lists, raw and compressed blocks.
use std::collections::HashMap;
use vstd::prelude::*;
use vstd::std_specs::hash::group_hash_axioms;
use vstd::utf8::{decode_utf8, encode_utf8, valid_utf8};
use crate::codec::{cell_bytes, cell_value, dump_bytes, dump_bytes_vec, from_bytes, from_bytes_vec, push_cell, read_cell, size, spec_dump, spec_dump_seq, spec_read, spec_size, Cell, CodecError, Endian, OrderedData, Prim};
use std::io::Read;
use std::io::Write;
use vstd::slice::{slice_subrange, slice_to_vec};

verus! {

broadcast use group_hash_axioms;

/// Generator polynomial of the key hash.
pub const HASH_POLY: u32 = 0x04c1_1db7;

/// One bit step of the key hash's shift register.
pub open spec fn crc_step(x: u32) -> u32 {
    if x & 0x8000_0000 != 0 {
        (x << 1u32) ^ HASH_POLY
    } else {
        x << 1u32
    }
}

/// `k` bit steps from `x`.
pub open spec fn crc_steps(x: u32, k: nat) -> u32
    decreases k,
{
    if k == 0 {
        x
    } else {
        crc_step(crc_steps(x, (k - 1) as nat))
    }
}

/// The table entry of the key hash for the byte `n`.
pub open spec fn crc_entry(n: u32) -> u32 {
    crc_steps(n << 24u32, 8)
}

/// Keys are case-blind for ASCII letters: upper case hashes as lower case.
pub open spec fn fold_byte(b: u8) -> u8 {
    if 0x41 <= b <= 0x5a {
        (b + 0x20) as u8
    } else {
        b
    }
}

/// The shift register after the bytes `s`, from the start value `init`.
pub open spec fn hash_register(s: Seq<u8>, init: u32) -> u32
    decreases s.len(),
{
    if s.len() == 0 {
        init
    } else {
        let h = hash_register(s.drop_last(), init);
        (h << 8u32) ^ crc_entry((fold_byte(s.last()) as u32) ^ (h >> 24u32))
    }
}

/// The 32-bit key of the byte string `s`; a mask pre-seeds the register and so
/// derives an independent key from the same string.
pub open spec fn hash_of(s: Seq<u8>, mask: Option<u32>) -> u32 {
    let seed = match mask {
        Some(m) => m,
        None => 0u32,
    };
    !hash_register(s, !seed)
}

fn table_entry(n: u32) -> (r: u32)
    ensures
        r == crc_entry(n),
{
    let mut x: u32 = n << 24u32;
    let mut k: usize = 0;
    while k < 8
        invariant
            k <= 8,
            x == crc_steps(n << 24u32, k as nat),
        decreases 8 - k,
    {
        x = if x & 0x8000_0000 != 0 {
            (x << 1u32) ^ HASH_POLY
        } else {
            x << 1u32
        };
        k = k + 1;
    }
    x
}

/// The 32-bit key of `string`, pre-seeded by `mask` when one is given.
pub fn hash_string(string: &[u8], mask: Option<u32>) -> (r: u32)
    ensures
        r == hash_of(string@, mask),
{
    let seed = match mask {
        Some(val) => val,
        None => 0,
    };
    let mut h: u32 = !seed;
    let mut i: usize = 0;
    while i < string.len()
        invariant
            i <= string@.len(),
            h == hash_register(string@.take(i as int), !seed),
        decreases string@.len() - i,
    {
        assert(string@.take(i + 1).drop_last() =~= string@.take(i as int));
        let b = string[i];
        let f: u8 = if 0x41 <= b && b <= 0x5a {
            b + 0x20
        } else {
            b
        };
        h = (h << 8u32) ^ table_entry((f as u32) ^ (h >> 24u32));
        i = i + 1;
    }
    assert(string@.take(i as int) =~= string@);
    !h
}

/// Hashing is a function of the bytes and the mask: the same string and mask
/// give the same key on every call.
pub proof fn lemma_hash_deterministic(s1: Seq<u8>, m1: Option<u32>, s2: Seq<u8>, m2: Option<u32>)
    requires
        s1 == s2,
        m1 == m2,
    ensures
        hash_of(s1, m1) == hash_of(s2, m2),
{
}

/// `crc_entry` written out step by step, for the bit-vector solver.
pub open spec fn crc_entry_unrolled(n: u32) -> u32 {
    crc_step(crc_step(crc_step(crc_step(crc_step(crc_step(crc_step(crc_step(n << 24u32))))))))
}

proof fn lemma_crc_entry_unrolled(n: u32)
    ensures
        crc_entry(n) == crc_entry_unrolled(n),
{
    reveal_with_fuel(crc_steps, 9);
}

/// The key of `"*"` seeded by a key, which the format uses to derive a second
/// key from a first one.
pub open spec fn star_key(m: u32) -> u32 {
    hash_of(seq![0x2au8], Some(m))
}

proof fn lemma_star_key_unrolled(m: u32)
    ensures
        star_key(m) == !((((!m) << 8u32) ^ crc_entry_unrolled(0x2a ^ ((!m) >> 24u32)))),
{
    let s = seq![0x2au8];
    reveal_with_fuel(hash_register, 2);
    assert(s.drop_last() =~= Seq::<u8>::empty());
    assert(s.last() == 0x2a);
    assert(hash_register(s.drop_last(), !m) == !m);
    assert(fold_byte(0x2a) == 0x2a);
    lemma_crc_entry_unrolled(0x2au32 ^ ((!m) >> 24u32));
}

/// Deriving a key from a key through `"*"` loses nothing: different keys give
/// different derived keys.
pub proof fn lemma_star_key_injective(m1: u32, m2: u32)
    requires
        m1 != m2,
    ensures
        star_key(m1) != star_key(m2),
{
    lemma_star_key_unrolled(m1);
    lemma_star_key_unrolled(m2);
    assert(!((((!m1) << 8u32) ^ crc_entry_unrolled(0x2a ^ ((!m1) >> 24u32)))) != !((((!m2) << 8u32)
        ^ crc_entry_unrolled(0x2a ^ ((!m2) >> 24u32))))) by (bit_vector)
        requires
            m1 != m2,
    ;
}

/// The text of a key without a known string: `0x` and eight upper-case hex digits.
pub open spec fn key_text(k: u32) -> Seq<char> {
    seq!['0', 'x'] + Seq::new(8, |i: int| hex_digit(((k as int) / pow16(7 - i)) % 16))
}

pub open spec fn pow16(e: int) -> int
    decreases e,
{
    if e <= 0 {
        1
    } else {
        16 * pow16(e - 1)
    }
}

pub open spec fn hex_digit(d: int) -> char {
    if d < 10 {
        ((d + 0x30) as u8) as char
    } else {
        ((d - 10 + 0x41) as u8) as char
    }
}

/// The value of an ASCII hex digit, either case.
pub open spec fn hex_value(b: u8) -> Option<u32> {
    if 0x30 <= b <= 0x39 {
        Some((b - 0x30) as u32)
    } else if 0x41 <= b <= 0x46 {
        Some((b - 0x41 + 10) as u32)
    } else if 0x61 <= b <= 0x66 {
        Some((b - 0x61 + 10) as u32)
    } else {
        None
    }
}

/// The number that the hex digits `s` spell, if they all are hex digits.
pub open spec fn hex_number(s: Seq<u8>) -> Option<nat>
    decreases s.len(),
{
    if s.len() == 0 {
        Some(0)
    } else {
        match (hex_number(s.drop_last()), hex_value(s.last())) {
            (Some(a), Some(d)) => Some((a * 16 + d) as nat),
            _ => None,
        }
    }
}

/// The key that the text `s` (after its `0x`) spells: one or more hex digits whose
/// value fits in 32 bits.
pub open spec fn parse_key(s: Seq<u8>) -> Option<u32> {
    match hex_number(s) {
        Some(v) => if s.len() > 0 && v < 0x1_0000_0000 {
            Some(v as u32)
        } else {
            None
        },
        None => None,
    }
}

/// `s` starts with the two bytes `0x`.
pub open spec fn has_key_prefix(s: Seq<u8>) -> bool {
    s.len() >= 2 && s[0] == 0x30 && s[1] == 0x78
}

proof fn lemma_hex_number_grows(s: Seq<u8>, k: int)
    requires
        0 <= k <= s.len(),
        hex_number(s) is Some,
    ensures
        hex_number(s.take(k)) is Some,
        hex_number(s.take(k))->Some_0 <= hex_number(s)->Some_0,
    decreases s.len(),
{
    if k < s.len() {
        assert(s.drop_last().take(k) =~= s.take(k));
        lemma_hex_number_grows(s.drop_last(), k);
    } else {
        assert(s.take(k) =~= s);
    }
}

fn parse_hex(b: &[u8], start: usize) -> (r: Option<u32>)
    requires
        start <= b@.len(),
    ensures
        r == parse_key(b@.skip(start as int)),
{
    let ghost s = b@.skip(start as int);
    if start == b.len() {
        return None;
    }
    let mut acc: u64 = 0;
    let mut i: usize = start;
    while i < b.len()
        invariant
            start <= i <= b@.len(),
            s == b@.skip(start as int),
            hex_number(s.take(i - start)) == Some(acc as nat),
            acc < 0x1_0000_0000,
        decreases b@.len() - i,
    {
        proof {
            assert(s.take(i - start + 1).drop_last() =~= s.take(i - start));
            assert(s.take(i - start + 1).last() == b@[i as int]);
        }
        let c = b[i];
        let d: u64 = if 0x30 <= c && c <= 0x39 {
            (c - 0x30) as u64
        } else if 0x41 <= c && c <= 0x46 {
            (c - 0x41 + 10) as u64
        } else if 0x61 <= c && c <= 0x66 {
            (c - 0x61 + 10) as u64
        } else {
            proof {
                if hex_number(s) is Some {
                    lemma_hex_number_grows(s, i - start + 1);
                }
            }
            return None;
        };
        acc = acc * 16 + d;
        i = i + 1;
        if acc >= 0x1_0000_0000 {
            proof {
                if hex_number(s) is Some {
                    lemma_hex_number_grows(s, i - start);
                }
            }
            return None;
        }
    }
    assert(s.take(i - start) =~= s);
    Some(acc as u32)
}

/// A symbolic key: a 32-bit hash, carrying the string it was made from when
/// that string is known. Equality, order and hashing go by the 32-bit value
/// alone; the string is for display.
#[derive(Debug, Clone)]
pub enum Crc {
    Str(String),
    Key(u32),
}

impl Crc {
    pub open spec fn spec_key(&self) -> u32 {
        match self {
            Crc::Key(k) => *k,
            Crc::Str(s) => hash_of(encode_utf8(s@), None),
        }
    }

    /// The 32-bit value of the key.
    pub fn key(&self) -> (r: u32)
        ensures
            r == self.spec_key(),
    {
        match self {
            Crc::Key(val) => *val,
            Crc::Str(val) => hash_string(val.as_str().as_bytes(), None),
        }
    }

    /// The string of the key, when it is known.
    pub fn str(&self) -> (r: Option<&str>)
        ensures
            match self {
                Crc::Key(_) => r is None,
                Crc::Str(s) => r is Some && r->Some_0@ == s@,
            },
    {
        match self {
            Crc::Key(_) => None,
            Crc::Str(val) => Some(val.as_str()),
        }
    }

    /// The key's string when known, else `0x` and its value in eight hex digits.
    pub fn to_string(&self) -> (r: String)
        ensures
            match self {
                Crc::Key(k) => r@ == key_text(*k),
                Crc::Str(s) => r@ == s@,
            },
    {
        match self {
            Crc::Key(val) => key_string(*val),
            Crc::Str(val) => val.clone(),
        }
    }

    /// Reads a key back from its text: `0x` and hex digits give the bare value,
    /// any other text is the key's string.
    pub fn from_string(val: &str) -> (r: Self)
        requires
            has_key_prefix(encode_utf8(val@)) ==> parse_key(encode_utf8(val@).skip(2)) is Some,
        ensures
            has_key_prefix(encode_utf8(val@)) ==> r == Crc::Key(
                parse_key(encode_utf8(val@).skip(2))->Some_0,
            ),
            !has_key_prefix(encode_utf8(val@)) ==> r is Str && r->Str_0@ == val@ && r.spec_key()
                == hash_of(encode_utf8(val@), None),
    {
        let b = val.as_bytes();
        if b.len() >= 2 && b[0] == 0x30 && b[1] == 0x78 {
            match parse_hex(b, 2) {
                Some(k) => Crc::Key(k),
                None => Crc::Key(0),
            }
        } else {
            let s = val.to_owned();
            proof {
                assert(encode_utf8(s@) == encode_utf8(val@));
            }
            Crc::Str(s)
        }
    }

    /// A copy of the key, with its string when it has one.
    pub fn clone_key(&self) -> (r: Self)
        ensures
            r.spec_key() == self.spec_key(),
            r is Str <==> self is Str,
    {
        match self {
            Crc::Key(k) => Crc::Key(*k),
            Crc::Str(s) => {
                let c = s.clone();
                assert(encode_utf8(c@) == encode_utf8(s@));
                Crc::Str(c)
            },
        }
    }

    /// The key for a stored 32-bit value: with its string when `table` knows one.
    pub fn resolve(val: u32, table: &StringTable) -> (r: Self)
        requires
            table.wf(),
        ensures
            r.spec_key() == val,
            r is Str <==> table@.contains_key(val),
            r is Str ==> r->Str_0@ == table@[val],
    {
        match table.lookup(val) {
            Some(s) => Crc::Str(s),
            None => Crc::Key(val),
        }
    }
}

impl PartialEq for Crc {
    fn eq(&self, other: &Crc) -> (r: bool) {
        self.key() == other.key()
    }
}

impl vstd::std_specs::cmp::PartialEqSpecImpl for Crc {
    open spec fn obeys_eq_spec() -> bool {
        true
    }

    open spec fn eq_spec(&self, other: &Crc) -> bool {
        self.spec_key() == other.spec_key()
    }
}

impl Eq for Crc {

}

/// The key `c` carries its string exactly when the table `m` holds one for
/// its value, and then it is that string.
pub open spec fn crc_resolved(c: Crc, m: Map<u32, Seq<char>>) -> bool {
    &&& (c is Str <==> m.contains_key(c.spec_key()))
    &&& (c is Str ==> c->Str_0@ == m[c.spec_key()])
}

/// The one-character text of hex digit `d`.
fn hex_text(d: u32) -> (r: &'static str)
    requires
        d < 16,
    ensures
        r@ == seq![hex_digit(d as int)],
{
    proof {
        reveal_strlit("0");
        reveal_strlit("1");
        reveal_strlit("2");
        reveal_strlit("3");
        reveal_strlit("4");
        reveal_strlit("5");
        reveal_strlit("6");
        reveal_strlit("7");
        reveal_strlit("8");
        reveal_strlit("9");
        reveal_strlit("A");
        reveal_strlit("B");
        reveal_strlit("C");
        reveal_strlit("D");
        reveal_strlit("E");
        reveal_strlit("F");
    }
    let r = match d {
        0 => "0",
        1 => "1",
        2 => "2",
        3 => "3",
        4 => "4",
        5 => "5",
        6 => "6",
        7 => "7",
        8 => "8",
        9 => "9",
        10 => "A",
        11 => "B",
        12 => "C",
        13 => "D",
        14 => "E",
        _ => "F",
    };
    assert(r@ =~= seq![hex_digit(d as int)]);
    r
}

proof fn lemma_nibble(k: u32, i: int)
    requires
        0 <= i < 8,
    ensures
        ((k >> ((28 - 4 * i) as u32)) & 0xf) as int == ((k as int) / pow16(7 - i)) % 16,
{
    reveal_with_fuel(pow16, 8);
    let s = (28 - 4 * i) as u32;
    assert(((k >> s) & 0xf) == (k >> s) % 16) by (bit_vector);
    if i == 0 { assert(k >> 28u32 == k / 0x1000_0000) by (bit_vector); }
    else if i == 1 { assert(k >> 24u32 == k / 0x100_0000) by (bit_vector); }
    else if i == 2 { assert(k >> 20u32 == k / 0x10_0000) by (bit_vector); }
    else if i == 3 { assert(k >> 16u32 == k / 0x1_0000) by (bit_vector); }
    else if i == 4 { assert(k >> 12u32 == k / 0x1000) by (bit_vector); }
    else if i == 5 { assert(k >> 8u32 == k / 0x100) by (bit_vector); }
    else if i == 6 { assert(k >> 4u32 == k / 0x10) by (bit_vector); }
    else { assert(k >> 0u32 == k) by (bit_vector); }
}

/// `0x` and the eight upper-case hex digits of `k`.
fn key_string(k: u32) -> (r: String)
    ensures
        r@ == key_text(k),
{
    proof {
        reveal_strlit("0x");
    }
    let mut r = String::from_str("0x");
    let mut i: u32 = 0;
    while i < 8
        invariant
            i <= 8,
            r@ == seq!['0', 'x'] + Seq::new(i as nat, |j: int| hex_digit(((k as int) / pow16(7 - j)) % 16)),
        decreases 8 - i,
    {
        let d = (k >> (28 - 4 * i)) & 0xf;
        proof {
            lemma_nibble(k, i as int);
        }
        r.append(hex_text(d));
        i = i + 1;
        assert(r@ =~= seq!['0', 'x'] + Seq::new(i as nat, |j: int| hex_digit(((k as int) / pow16(7 - j)) % 16)));
    }
    r
}

/// The process's table from keys back to the strings they were made from.
/// Every string is stored under its own key.
pub struct StringTable {
    pub map: HashMap<u32, String>,
}

impl View for StringTable {
    type V = Map<u32, Seq<char>>;

    open spec fn view(&self) -> Map<u32, Seq<char>> {
        self.map@.map_values(|s: String| s@)
    }
}

impl StringTable {
    pub open spec fn wf(&self) -> bool {
        forall|k: u32| #[trigger] self@.contains_key(k) ==> hash_of(encode_utf8(self@[k]), None) == k
    }

    pub fn new() -> (r: Self)
        ensures
            r.wf(),
            r@ == Map::<u32, Seq<char>>::empty(),
    {
        let r = StringTable { map: HashMap::new() };
        assert(r@ =~= Map::<u32, Seq<char>>::empty());
        r
    }

    /// Stores `s` under its key.
    pub fn intern(&mut self, s: &String)
        requires
            old(self).wf(),
        ensures
            final(self).wf(),
            final(self)@ == old(self)@.insert(hash_of(encode_utf8(s@), None), s@),
    {
        let k = hash_string(s.as_str().as_bytes(), None);
        self.map.insert(k, s.clone());
        assert(self@ =~= old(self)@.insert(k, s@));
    }

    /// The string stored under `k`, if any.
    pub fn lookup(&self, k: u32) -> (r: Option<String>)
        requires
            self.wf(),
        ensures
            match r {
                Some(s) => self@.contains_key(k) && s@ == self@[k] && hash_of(encode_utf8(s@), None)
                    == k,
                None => !self@.contains_key(k),
            },
    {
        match self.map.get(&k) {
            Some(s) => Some(s.clone()),
            None => None,
        }
    }
}

/// The table `m` after storing each string of `vals` under its key, in order:
/// a later string with the same key replaces an earlier one.
pub open spec fn interned(m: Map<u32, Seq<char>>, vals: Seq<String>) -> Map<u32, Seq<char>>
    decreases vals.len(),
{
    if vals.len() == 0 {
        m
    } else {
        interned(m, vals.drop_last()).insert(hash_of(encode_utf8(vals.last()@), None), vals.last()@)
    }
}

/// Adds every string of `vals` to `table`, each under its own key.
pub fn update_strings(table: &mut StringTable, vals: &[String])
    requires
        old(table).wf(),
    ensures
        final(table).wf(),
        final(table)@ == interned(old(table)@, vals@),
        forall|i: int|
            0 <= i < vals@.len() ==> #[trigger] final(table)@.contains_key(
                hash_of(encode_utf8(vals@[i]@), None),
            ),
        forall|k: u32| #[trigger]
            old(table)@.contains_key(k) ==> final(table)@.contains_key(k),
{
    let mut i: usize = 0;
    while i < vals.len()
        invariant
            i <= vals@.len(),
            table.wf(),
            forall|j: int|
                0 <= j < i ==> #[trigger] table@.contains_key(hash_of(encode_utf8(vals@[j]@), None)),
            forall|k: u32| #[trigger] old(table)@.contains_key(k) ==> table@.contains_key(k),
            table@ == interned(old(table)@, vals@.take(i as int)),
        decreases vals@.len() - i,
    {
        assert(vals@.take(i + 1).drop_last() =~= vals@.take(i as int));
        table.intern(&vals[i]);
        i = i + 1;
    }
    assert(vals@.take(i as int) =~= vals@);
}

/// A count and a relative offset: how a record reaches variable-length data.
#[derive(Debug, Clone, Copy, PartialEq)]
pub struct List {
    pub num: u16,
    pub offset: u16,
}

impl OrderedData for List {
    open spec fn spec_layout(o: Endian) -> Seq<Cell> {
        seq![
            Cell { prim: Prim::U16, endian: o },
            Cell { prim: Prim::U16, endian: o },
        ]
    }

    open spec fn spec_cells(&self, o: Endian) -> Seq<u64> {
        seq![
            self.num as u64,
            self.offset as u64,
        ]
    }

    open spec fn spec_from_cells(c: Seq<u64>, o: Endian) -> Self {
        List {
            num: c[0] as u16,
            offset: c[1] as u16,
        }
    }

    open spec fn spec_values(&self) -> Seq<u64> {
        seq![
            self.num as u64,
            self.offset as u64,
        ]
    }

    open spec fn spec_fits(&self, o: Endian) -> bool {
        true
    }

    fn layout(o: Endian) -> (r: Vec<Cell>) {
        vec![
            Cell { prim: Prim::U16, endian: o },
            Cell { prim: Prim::U16, endian: o },
        ]
    }

    fn to_cells(&self, o: Endian) -> (r: Vec<u64>) {
        vec![
            self.num as u64,
            self.offset as u64,
        ]
    }

    fn from_cells(c: &Vec<u64>, o: Endian) -> (r: Self) {
        List {
            num: c[0] as u16,
            offset: c[1] as u16,
        }
    }

    open spec fn spec_keys_resolved(&self, m: Map<u32, Seq<char>>) -> bool {
        true
    }

    fn resolved(&self, table: &StringTable) -> (r: Self) {
        *self
    }

    proof fn lemma_layout_small(o: Endian) {
    }

    proof fn lemma_cells(&self, o: Endian) {
    }
}

/// A flag stored in a padded word.
#[derive(Debug, Clone, Copy, PartialEq)]
pub struct Bool {
    pub val: u8,
    pub _pad1: u8,
    pub _pad2: u8,
    pub _pad3: u8,
}

impl OrderedData for Bool {
    open spec fn spec_layout(o: Endian) -> Seq<Cell> {
        seq![
            Cell { prim: Prim::U8, endian: o },
            Cell { prim: Prim::U8, endian: o },
            Cell { prim: Prim::U8, endian: o },
            Cell { prim: Prim::U8, endian: o },
        ]
    }

    open spec fn spec_cells(&self, o: Endian) -> Seq<u64> {
        seq![
            self.val as u64,
            self._pad1 as u64,
            self._pad2 as u64,
            self._pad3 as u64,
        ]
    }

    open spec fn spec_from_cells(c: Seq<u64>, o: Endian) -> Self {
        Bool {
            val: c[0] as u8,
            _pad1: c[1] as u8,
            _pad2: c[2] as u8,
            _pad3: c[3] as u8,
        }
    }

    open spec fn spec_values(&self) -> Seq<u64> {
        seq![
            self.val as u64,
            self._pad1 as u64,
            self._pad2 as u64,
            self._pad3 as u64,
        ]
    }

    open spec fn spec_fits(&self, o: Endian) -> bool {
        true
    }

    fn layout(o: Endian) -> (r: Vec<Cell>) {
        vec![
            Cell { prim: Prim::U8, endian: o },
            Cell { prim: Prim::U8, endian: o },
            Cell { prim: Prim::U8, endian: o },
            Cell { prim: Prim::U8, endian: o },
        ]
    }

    fn to_cells(&self, o: Endian) -> (r: Vec<u64>) {
        vec![
            self.val as u64,
            self._pad1 as u64,
            self._pad2 as u64,
            self._pad3 as u64,
        ]
    }

    fn from_cells(c: &Vec<u64>, o: Endian) -> (r: Self) {
        Bool {
            val: c[0] as u8,
            _pad1: c[1] as u8,
            _pad2: c[2] as u8,
            _pad3: c[3] as u8,
        }
    }

    open spec fn spec_keys_resolved(&self, m: Map<u32, Seq<char>>) -> bool {
        true
    }

    fn resolved(&self, table: &StringTable) -> (r: Self) {
        *self
    }

    proof fn lemma_layout_small(o: Endian) {
    }

    proof fn lemma_cells(&self, o: Endian) {
    }
}

/// A weight entry: a word and four bytes.
#[derive(Debug, Clone, Copy, PartialEq)]
pub struct Weight {
    pub x: u32,
    pub a: u8,
    pub b: u8,
    pub c: u8,
    pub d: u8,
}

impl OrderedData for Weight {
    open spec fn spec_layout(o: Endian) -> Seq<Cell> {
        seq![
            Cell { prim: Prim::U32, endian: o },
            Cell { prim: Prim::U8, endian: o },
            Cell { prim: Prim::U8, endian: o },
            Cell { prim: Prim::U8, endian: o },
            Cell { prim: Prim::U8, endian: o },
        ]
    }

    open spec fn spec_cells(&self, o: Endian) -> Seq<u64> {
        seq![
            self.x as u64,
            self.a as u64,
            self.b as u64,
            self.c as u64,
            self.d as u64,
        ]
    }

    open spec fn spec_from_cells(c: Seq<u64>, o: Endian) -> Self {
        Weight {
            x: c[0] as u32,
            a: c[1] as u8,
            b: c[2] as u8,
            c: c[3] as u8,
            d: c[4] as u8,
        }
    }

    open spec fn spec_values(&self) -> Seq<u64> {
        seq![
            self.x as u64,
            self.a as u64,
            self.b as u64,
            self.c as u64,
            self.d as u64,
        ]
    }

    open spec fn spec_fits(&self, o: Endian) -> bool {
        true
    }

    fn layout(o: Endian) -> (r: Vec<Cell>) {
        vec![
            Cell { prim: Prim::U32, endian: o },
            Cell { prim: Prim::U8, endian: o },
            Cell { prim: Prim::U8, endian: o },
            Cell { prim: Prim::U8, endian: o },
            Cell { prim: Prim::U8, endian: o },
        ]
    }

    fn to_cells(&self, o: Endian) -> (r: Vec<u64>) {
        vec![
            self.x as u64,
            self.a as u64,
            self.b as u64,
            self.c as u64,
            self.d as u64,
        ]
    }

    fn from_cells(c: &Vec<u64>, o: Endian) -> (r: Self) {
        Weight {
            x: c[0] as u32,
            a: c[1] as u8,
            b: c[2] as u8,
            c: c[3] as u8,
            d: c[4] as u8,
        }
    }

    open spec fn spec_keys_resolved(&self, m: Map<u32, Seq<char>>) -> bool {
        true
    }

    fn resolved(&self, table: &StringTable) -> (r: Self) {
        *self
    }

    proof fn lemma_layout_small(o: Endian) {
    }

    proof fn lemma_cells(&self, o: Endian) {
    }
}

/// A node entry of four words.
#[derive(Debug, Clone, Copy, PartialEq)]
pub struct Node {
    pub x: u32,
    pub y: u32,
    pub z: u32,
    pub w: u32,
}

impl OrderedData for Node {
    open spec fn spec_layout(o: Endian) -> Seq<Cell> {
        seq![
            Cell { prim: Prim::U32, endian: o },
            Cell { prim: Prim::U32, endian: o },
            Cell { prim: Prim::U32, endian: o },
            Cell { prim: Prim::U32, endian: o },
        ]
    }

    open spec fn spec_cells(&self, o: Endian) -> Seq<u64> {
        seq![
            self.x as u64,
            self.y as u64,
            self.z as u64,
            self.w as u64,
        ]
    }

    open spec fn spec_from_cells(c: Seq<u64>, o: Endian) -> Self {
        Node {
            x: c[0] as u32,
            y: c[1] as u32,
            z: c[2] as u32,
            w: c[3] as u32,
        }
    }

    open spec fn spec_values(&self) -> Seq<u64> {
        seq![
            self.x as u64,
            self.y as u64,
            self.z as u64,
            self.w as u64,
        ]
    }

    open spec fn spec_fits(&self, o: Endian) -> bool {
        true
    }

    fn layout(o: Endian) -> (r: Vec<Cell>) {
        vec![
            Cell { prim: Prim::U32, endian: o },
            Cell { prim: Prim::U32, endian: o },
            Cell { prim: Prim::U32, endian: o },
            Cell { prim: Prim::U32, endian: o },
        ]
    }

    fn to_cells(&self, o: Endian) -> (r: Vec<u64>) {
        vec![
            self.x as u64,
            self.y as u64,
            self.z as u64,
            self.w as u64,
        ]
    }

    fn from_cells(c: &Vec<u64>, o: Endian) -> (r: Self) {
        Node {
            x: c[0] as u32,
            y: c[1] as u32,
            z: c[2] as u32,
            w: c[3] as u32,
        }
    }

    open spec fn spec_keys_resolved(&self, m: Map<u32, Seq<char>>) -> bool {
        true
    }

    fn resolved(&self, table: &StringTable) -> (r: Self) {
        *self
    }

    proof fn lemma_layout_small(o: Endian) {
    }

    proof fn lemma_cells(&self, o: Endian) {
    }
}

/// Header of a table of named sub-blocks.
#[derive(Debug, Clone, Copy, PartialEq)]
pub struct SubBlocksHeader {
    pub z0: u32,
    pub block_num: u32,
    pub z2: u32,
    pub z3: u32,
}

impl OrderedData for SubBlocksHeader {
    open spec fn spec_layout(o: Endian) -> Seq<Cell> {
        seq![
            Cell { prim: Prim::U32, endian: o },
            Cell { prim: Prim::U32, endian: o },
            Cell { prim: Prim::U32, endian: o },
            Cell { prim: Prim::U32, endian: o },
        ]
    }

    open spec fn spec_cells(&self, o: Endian) -> Seq<u64> {
        seq![
            self.z0 as u64,
            self.block_num as u64,
            self.z2 as u64,
            self.z3 as u64,
        ]
    }

    open spec fn spec_from_cells(c: Seq<u64>, o: Endian) -> Self {
        SubBlocksHeader {
            z0: c[0] as u32,
            block_num: c[1] as u32,
            z2: c[2] as u32,
            z3: c[3] as u32,
        }
    }

    open spec fn spec_values(&self) -> Seq<u64> {
        seq![
            self.z0 as u64,
            self.block_num as u64,
            self.z2 as u64,
            self.z3 as u64,
        ]
    }

    open spec fn spec_fits(&self, o: Endian) -> bool {
        true
    }

    fn layout(o: Endian) -> (r: Vec<Cell>) {
        vec![
            Cell { prim: Prim::U32, endian: o },
            Cell { prim: Prim::U32, endian: o },
            Cell { prim: Prim::U32, endian: o },
            Cell { prim: Prim::U32, endian: o },
        ]
    }

    fn to_cells(&self, o: Endian) -> (r: Vec<u64>) {
        vec![
            self.z0 as u64,
            self.block_num as u64,
            self.z2 as u64,
            self.z3 as u64,
        ]
    }

    fn from_cells(c: &Vec<u64>, o: Endian) -> (r: Self) {
        SubBlocksHeader {
            z0: c[0] as u32,
            block_num: c[1] as u32,
            z2: c[2] as u32,
            z3: c[3] as u32,
        }
    }

    open spec fn spec_keys_resolved(&self, m: Map<u32, Seq<char>>) -> bool {
        true
    }

    fn resolved(&self, table: &StringTable) -> (r: Self) {
        *self
    }

    proof fn lemma_layout_small(o: Endian) {
    }

    proof fn lemma_cells(&self, o: Endian) {
    }
}

/// Where a named sub-block lies.
#[derive(Debug, Clone, PartialEq)]
pub struct SubBlocksBlockHeader {
    pub key: Crc,
    pub offset: u32,
    pub size: u32,
}

impl OrderedData for SubBlocksBlockHeader {
    open spec fn spec_layout(o: Endian) -> Seq<Cell> {
        seq![
            Cell { prim: Prim::U32, endian: o },
            Cell { prim: Prim::U32, endian: o },
            Cell { prim: Prim::U32, endian: o },
        ]
    }

    open spec fn spec_cells(&self, o: Endian) -> Seq<u64> {
        seq![
            self.key.spec_key() as u64,
            self.offset as u64,
            self.size as u64,
        ]
    }

    open spec fn spec_from_cells(c: Seq<u64>, o: Endian) -> Self {
        SubBlocksBlockHeader {
            key: Crc::Key(c[0] as u32),
            offset: c[1] as u32,
            size: c[2] as u32,
        }
    }

    open spec fn spec_values(&self) -> Seq<u64> {
        seq![
            self.key.spec_key() as u64,
            self.offset as u64,
            self.size as u64,
        ]
    }

    open spec fn spec_fits(&self, o: Endian) -> bool {
        true
    }

    fn layout(o: Endian) -> (r: Vec<Cell>) {
        vec![
            Cell { prim: Prim::U32, endian: o },
            Cell { prim: Prim::U32, endian: o },
            Cell { prim: Prim::U32, endian: o },
        ]
    }

    fn to_cells(&self, o: Endian) -> (r: Vec<u64>) {
        vec![
            self.key.key() as u64,
            self.offset as u64,
            self.size as u64,
        ]
    }

    fn from_cells(c: &Vec<u64>, o: Endian) -> (r: Self) {
        SubBlocksBlockHeader {
            key: Crc::Key(c[0] as u32),
            offset: c[1] as u32,
            size: c[2] as u32,
        }
    }

    open spec fn spec_keys_resolved(&self, m: Map<u32, Seq<char>>) -> bool {
        crc_resolved(self.key, m)
    }

    fn resolved(&self, table: &StringTable) -> (r: Self) {
        SubBlocksBlockHeader {
            key: Crc::resolve(self.key.key(), table),
            offset: self.offset,
            size: self.size,
        }
    }

    proof fn lemma_layout_small(o: Endian) {
    }

    proof fn lemma_cells(&self, o: Endian) {
    }
}

/// Header of the string key table.
#[derive(Debug, Clone, Copy, PartialEq)]
pub struct StringKeysHeader {
    pub num_a: u16,
    pub num_b: u16,
    pub z2: u32,
    pub z3: u32,
    pub z4: u32,
    pub z5: u32,
}

impl OrderedData for StringKeysHeader {
    open spec fn spec_layout(o: Endian) -> Seq<Cell> {
        seq![
            Cell { prim: Prim::U16, endian: o },
            Cell { prim: Prim::U16, endian: o },
            Cell { prim: Prim::U32, endian: o },
            Cell { prim: Prim::U32, endian: o },
            Cell { prim: Prim::U32, endian: o },
            Cell { prim: Prim::U32, endian: o },
        ]
    }

    open spec fn spec_cells(&self, o: Endian) -> Seq<u64> {
        seq![
            self.num_a as u64,
            self.num_b as u64,
            self.z2 as u64,
            self.z3 as u64,
            self.z4 as u64,
            self.z5 as u64,
        ]
    }

    open spec fn spec_from_cells(c: Seq<u64>, o: Endian) -> Self {
        StringKeysHeader {
            num_a: c[0] as u16,
            num_b: c[1] as u16,
            z2: c[2] as u32,
            z3: c[3] as u32,
            z4: c[4] as u32,
            z5: c[5] as u32,
        }
    }

    open spec fn spec_values(&self) -> Seq<u64> {
        seq![
            self.num_a as u64,
            self.num_b as u64,
            self.z2 as u64,
            self.z3 as u64,
            self.z4 as u64,
            self.z5 as u64,
        ]
    }

    open spec fn spec_fits(&self, o: Endian) -> bool {
        true
    }

    fn layout(o: Endian) -> (r: Vec<Cell>) {
        vec![
            Cell { prim: Prim::U16, endian: o },
            Cell { prim: Prim::U16, endian: o },
            Cell { prim: Prim::U32, endian: o },
            Cell { prim: Prim::U32, endian: o },
            Cell { prim: Prim::U32, endian: o },
            Cell { prim: Prim::U32, endian: o },
        ]
    }

    fn to_cells(&self, o: Endian) -> (r: Vec<u64>) {
        vec![
            self.num_a as u64,
            self.num_b as u64,
            self.z2 as u64,
            self.z3 as u64,
            self.z4 as u64,
            self.z5 as u64,
        ]
    }

    fn from_cells(c: &Vec<u64>, o: Endian) -> (r: Self) {
        StringKeysHeader {
            num_a: c[0] as u16,
            num_b: c[1] as u16,
            z2: c[2] as u32,
            z3: c[3] as u32,
            z4: c[4] as u32,
            z5: c[5] as u32,
        }
    }

    open spec fn spec_keys_resolved(&self, m: Map<u32, Seq<char>>) -> bool {
        true
    }

    fn resolved(&self, table: &StringTable) -> (r: Self) {
        *self
    }

    proof fn lemma_layout_small(o: Endian) {
    }

    proof fn lemma_cells(&self, o: Endian) {
    }
}

/// An entry of the string key table.
#[derive(Debug, Clone, PartialEq)]
pub struct StringKeysVal {
    pub key: Crc,
    pub offset: u32,
}

impl OrderedData for StringKeysVal {
    open spec fn spec_layout(o: Endian) -> Seq<Cell> {
        seq![
            Cell { prim: Prim::U32, endian: o },
            Cell { prim: Prim::U32, endian: o },
        ]
    }

    open spec fn spec_cells(&self, o: Endian) -> Seq<u64> {
        seq![
            self.key.spec_key() as u64,
            self.offset as u64,
        ]
    }

    open spec fn spec_from_cells(c: Seq<u64>, o: Endian) -> Self {
        StringKeysVal {
            key: Crc::Key(c[0] as u32),
            offset: c[1] as u32,
        }
    }

    open spec fn spec_values(&self) -> Seq<u64> {
        seq![
            self.key.spec_key() as u64,
            self.offset as u64,
        ]
    }

    open spec fn spec_fits(&self, o: Endian) -> bool {
        true
    }

    fn layout(o: Endian) -> (r: Vec<Cell>) {
        vec![
            Cell { prim: Prim::U32, endian: o },
            Cell { prim: Prim::U32, endian: o },
        ]
    }

    fn to_cells(&self, o: Endian) -> (r: Vec<u64>) {
        vec![
            self.key.key() as u64,
            self.offset as u64,
        ]
    }

    fn from_cells(c: &Vec<u64>, o: Endian) -> (r: Self) {
        StringKeysVal {
            key: Crc::Key(c[0] as u32),
            offset: c[1] as u32,
        }
    }

    open spec fn spec_keys_resolved(&self, m: Map<u32, Seq<char>>) -> bool {
        crc_resolved(self.key, m)
    }

    fn resolved(&self, table: &StringTable) -> (r: Self) {
        StringKeysVal {
            key: Crc::resolve(self.key.key(), table),
            offset: self.offset,
        }
    }

    proof fn lemma_layout_small(o: Endian) {
    }

    proof fn lemma_cells(&self, o: Endian) {
    }
}

/// Header of a game object table.
#[derive(Debug, Clone, Copy, PartialEq)]
pub struct GameObjsHeader {
    pub const_: u32,
    pub types_num: u32,
    pub types_offset: u32,
    pub obj_num: u32,
    pub obj_offset: u32,
    pub z5: u32,
    pub z6: u32,
    pub z7: u32,
}

impl OrderedData for GameObjsHeader {
    open spec fn spec_layout(o: Endian) -> Seq<Cell> {
        seq![
            Cell { prim: Prim::U32, endian: o },
            Cell { prim: Prim::U32, endian: o },
            Cell { prim: Prim::U32, endian: o },
            Cell { prim: Prim::U32, endian: o },
            Cell { prim: Prim::U32, endian: o },
            Cell { prim: Prim::U32, endian: o },
            Cell { prim: Prim::U32, endian: o },
            Cell { prim: Prim::U32, endian: o },
        ]
    }

    open spec fn spec_cells(&self, o: Endian) -> Seq<u64> {
        seq![
            self.const_ as u64,
            self.types_num as u64,
            self.types_offset as u64,
            self.obj_num as u64,
            self.obj_offset as u64,
            self.z5 as u64,
            self.z6 as u64,
            self.z7 as u64,
        ]
    }

    open spec fn spec_from_cells(c: Seq<u64>, o: Endian) -> Self {
        GameObjsHeader {
            const_: c[0] as u32,
            types_num: c[1] as u32,
            types_offset: c[2] as u32,
            obj_num: c[3] as u32,
            obj_offset: c[4] as u32,
            z5: c[5] as u32,
            z6: c[6] as u32,
            z7: c[7] as u32,
        }
    }

    open spec fn spec_values(&self) -> Seq<u64> {
        seq![
            self.const_ as u64,
            self.types_num as u64,
            self.types_offset as u64,
            self.obj_num as u64,
            self.obj_offset as u64,
            self.z5 as u64,
            self.z6 as u64,
            self.z7 as u64,
        ]
    }

    open spec fn spec_fits(&self, o: Endian) -> bool {
        true
    }

    fn layout(o: Endian) -> (r: Vec<Cell>) {
        vec![
            Cell { prim: Prim::U32, endian: o },
            Cell { prim: Prim::U32, endian: o },
            Cell { prim: Prim::U32, endian: o },
            Cell { prim: Prim::U32, endian: o },
            Cell { prim: Prim::U32, endian: o },
            Cell { prim: Prim::U32, endian: o },
            Cell { prim: Prim::U32, endian: o },
            Cell { prim: Prim::U32, endian: o },
        ]
    }

    fn to_cells(&self, o: Endian) -> (r: Vec<u64>) {
        vec![
            self.const_ as u64,
            self.types_num as u64,
            self.types_offset as u64,
            self.obj_num as u64,
            self.obj_offset as u64,
            self.z5 as u64,
            self.z6 as u64,
            self.z7 as u64,
        ]
    }

    fn from_cells(c: &Vec<u64>, o: Endian) -> (r: Self) {
        GameObjsHeader {
            const_: c[0] as u32,
            types_num: c[1] as u32,
            types_offset: c[2] as u32,
            obj_num: c[3] as u32,
            obj_offset: c[4] as u32,
            z5: c[5] as u32,
            z6: c[6] as u32,
            z7: c[7] as u32,
        }
    }

    open spec fn spec_keys_resolved(&self, m: Map<u32, Seq<char>>) -> bool {
        true
    }

    fn resolved(&self, table: &StringTable) -> (r: Self) {
        *self
    }

    proof fn lemma_layout_small(o: Endian) {
    }

    proof fn lemma_cells(&self, o: Endian) {
    }
}

/// A type of a game object table.
#[derive(Debug, Clone, PartialEq)]
pub struct GameObjsTypeHeader {
    pub key: Crc,
    pub size: u32,
    pub fields: u32,
}

impl OrderedData for GameObjsTypeHeader {
    open spec fn spec_layout(o: Endian) -> Seq<Cell> {
        seq![
            Cell { prim: Prim::U32, endian: o },
            Cell { prim: Prim::U32, endian: o },
            Cell { prim: Prim::U32, endian: o },
        ]
    }

    open spec fn spec_cells(&self, o: Endian) -> Seq<u64> {
        seq![
            self.key.spec_key() as u64,
            self.size as u64,
            self.fields as u64,
        ]
    }

    open spec fn spec_from_cells(c: Seq<u64>, o: Endian) -> Self {
        GameObjsTypeHeader {
            key: Crc::Key(c[0] as u32),
            size: c[1] as u32,
            fields: c[2] as u32,
        }
    }

    open spec fn spec_values(&self) -> Seq<u64> {
        seq![
            self.key.spec_key() as u64,
            self.size as u64,
            self.fields as u64,
        ]
    }

    open spec fn spec_fits(&self, o: Endian) -> bool {
        true
    }

    fn layout(o: Endian) -> (r: Vec<Cell>) {
        vec![
            Cell { prim: Prim::U32, endian: o },
            Cell { prim: Prim::U32, endian: o },
            Cell { prim: Prim::U32, endian: o },
        ]
    }

    fn to_cells(&self, o: Endian) -> (r: Vec<u64>) {
        vec![
            self.key.key() as u64,
            self.size as u64,
            self.fields as u64,
        ]
    }

    fn from_cells(c: &Vec<u64>, o: Endian) -> (r: Self) {
        GameObjsTypeHeader {
            key: Crc::Key(c[0] as u32),
            size: c[1] as u32,
            fields: c[2] as u32,
        }
    }

    open spec fn spec_keys_resolved(&self, m: Map<u32, Seq<char>>) -> bool {
        crc_resolved(self.key, m)
    }

    fn resolved(&self, table: &StringTable) -> (r: Self) {
        GameObjsTypeHeader {
            key: Crc::resolve(self.key.key(), table),
            size: self.size,
            fields: self.fields,
        }
    }

    proof fn lemma_layout_small(o: Endian) {
    }

    proof fn lemma_cells(&self, o: Endian) {
    }
}

/// A field of a game object type.
#[derive(Debug, Clone, PartialEq)]
pub struct GameObjsTypeField {
    pub key: Crc,
    pub kind: Crc,
    pub offset: u32,
}

impl OrderedData for GameObjsTypeField {
    open spec fn spec_layout(o: Endian) -> Seq<Cell> {
        seq![
            Cell { prim: Prim::U32, endian: o },
            Cell { prim: Prim::U32, endian: o },
            Cell { prim: Prim::U32, endian: o },
        ]
    }

    open spec fn spec_cells(&self, o: Endian) -> Seq<u64> {
        seq![
            self.key.spec_key() as u64,
            self.kind.spec_key() as u64,
            self.offset as u64,
        ]
    }

    open spec fn spec_from_cells(c: Seq<u64>, o: Endian) -> Self {
        GameObjsTypeField {
            key: Crc::Key(c[0] as u32),
            kind: Crc::Key(c[1] as u32),
            offset: c[2] as u32,
        }
    }

    open spec fn spec_values(&self) -> Seq<u64> {
        seq![
            self.key.spec_key() as u64,
            self.kind.spec_key() as u64,
            self.offset as u64,
        ]
    }

    open spec fn spec_fits(&self, o: Endian) -> bool {
        true
    }

    fn layout(o: Endian) -> (r: Vec<Cell>) {
        vec![
            Cell { prim: Prim::U32, endian: o },
            Cell { prim: Prim::U32, endian: o },
            Cell { prim: Prim::U32, endian: o },
        ]
    }

    fn to_cells(&self, o: Endian) -> (r: Vec<u64>) {
        vec![
            self.key.key() as u64,
            self.kind.key() as u64,
            self.offset as u64,
        ]
    }

    fn from_cells(c: &Vec<u64>, o: Endian) -> (r: Self) {
        GameObjsTypeField {
            key: Crc::Key(c[0] as u32),
            kind: Crc::Key(c[1] as u32),
            offset: c[2] as u32,
        }
    }

    open spec fn spec_keys_resolved(&self, m: Map<u32, Seq<char>>) -> bool {
        crc_resolved(self.key, m) && crc_resolved(self.kind, m)
    }

    fn resolved(&self, table: &StringTable) -> (r: Self) {
        GameObjsTypeField {
            key: Crc::resolve(self.key.key(), table),
            kind: Crc::resolve(self.kind.key(), table),
            offset: self.offset,
        }
    }

    proof fn lemma_layout_small(o: Endian) {
    }

    proof fn lemma_cells(&self, o: Endian) {
    }
}

/// Header of one game object.
#[derive(Debug, Clone, PartialEq)]
pub struct GameObjsObjHeader {
    pub layer: u32,
    pub key: Crc,
    pub size: u16,
    pub z3: u16,
    pub z4: u32,
}

impl OrderedData for GameObjsObjHeader {
    open spec fn spec_layout(o: Endian) -> Seq<Cell> {
        seq![
            Cell { prim: Prim::U32, endian: o },
            Cell { prim: Prim::U32, endian: o },
            Cell { prim: Prim::U16, endian: o },
            Cell { prim: Prim::U16, endian: o },
            Cell { prim: Prim::U32, endian: o },
        ]
    }

    open spec fn spec_cells(&self, o: Endian) -> Seq<u64> {
        seq![
            self.layer as u64,
            self.key.spec_key() as u64,
            self.size as u64,
            self.z3 as u64,
            self.z4 as u64,
        ]
    }

    open spec fn spec_from_cells(c: Seq<u64>, o: Endian) -> Self {
        GameObjsObjHeader {
            layer: c[0] as u32,
            key: Crc::Key(c[1] as u32),
            size: c[2] as u16,
            z3: c[3] as u16,
            z4: c[4] as u32,
        }
    }

    open spec fn spec_values(&self) -> Seq<u64> {
        seq![
            self.layer as u64,
            self.key.spec_key() as u64,
            self.size as u64,
            self.z3 as u64,
            self.z4 as u64,
        ]
    }

    open spec fn spec_fits(&self, o: Endian) -> bool {
        true
    }

    fn layout(o: Endian) -> (r: Vec<Cell>) {
        vec![
            Cell { prim: Prim::U32, endian: o },
            Cell { prim: Prim::U32, endian: o },
            Cell { prim: Prim::U16, endian: o },
            Cell { prim: Prim::U16, endian: o },
            Cell { prim: Prim::U32, endian: o },
        ]
    }

    fn to_cells(&self, o: Endian) -> (r: Vec<u64>) {
        vec![
            self.layer as u64,
            self.key.key() as u64,
            self.size as u64,
            self.z3 as u64,
            self.z4 as u64,
        ]
    }

    fn from_cells(c: &Vec<u64>, o: Endian) -> (r: Self) {
        GameObjsObjHeader {
            layer: c[0] as u32,
            key: Crc::Key(c[1] as u32),
            size: c[2] as u16,
            z3: c[3] as u16,
            z4: c[4] as u32,
        }
    }

    open spec fn spec_keys_resolved(&self, m: Map<u32, Seq<char>>) -> bool {
        crc_resolved(self.key, m)
    }

    fn resolved(&self, table: &StringTable) -> (r: Self) {
        GameObjsObjHeader {
            layer: self.layer,
            key: Crc::resolve(self.key.key(), table),
            size: self.size,
            z3: self.z3,
            z4: self.z4,
        }
    }

    proof fn lemma_layout_small(o: Endian) {
    }

    proof fn lemma_cells(&self, o: Endian) {
    }
}


/// What a zlib stream inflates to, or nothing when it is not a valid stream.
pub uninterp spec fn zlib_inflated(b: Seq<u8>) -> Option<Seq<u8>>;

/// The zlib stream that compresses `b` at compression level `level`.
pub uninterp spec fn zlib_deflated(b: Seq<u8>, level: u32) -> Seq<u8>;

/// Relies on flate2's `ZlibDecoder`: inflates one zlib stream, failing where
/// the decoder reports an error (a stream cut short yields what it holds).
/// The outcome depends on the bytes alone.
#[verifier::external_body]
fn inflate(b: &[u8]) -> (r: Option<Vec<u8>>)
    ensures
        match r {
            Some(v) => zlib_inflated(b@) == Some(v@),
            None => zlib_inflated(b@) is None,
        },
{
    let mut out = Vec::new();
    match flate2::read::ZlibDecoder::new(b).read_to_end(&mut out) {
        Ok(_) => Some(out),
        Err(_) => None,
    }
}

/// Relies on flate2's `ZlibEncoder`: the stream it writes is never empty (it
/// starts with the zlib header) and inflates back to the input. flate2
/// documents levels 0 to 9; its backend asserts a level of at most 10.
#[verifier::external_body]
fn deflate(b: &[u8], level: u32) -> (r: Vec<u8>)
    requires
        level <= 9,
    ensures
        r@ == zlib_deflated(b@, level),
        r@.len() > 0,
        zlib_inflated(r@) == Some(b@),
{
    let mut z = flate2::write::ZlibEncoder::new(Vec::new(), flate2::Compression::new(level));
    z.write_all(b).expect("writing to a Vec cannot fail");
    z.finish().expect("writing to a Vec cannot fail")
}

/// The payload of a block framed as `(size, size_comp, offset)` in `data`:
/// `size` raw bytes when `size_comp` is zero, else the inflation of
/// `size_comp` bytes, which must come to exactly `size` bytes.
pub open spec fn decoded_block(data: Seq<u8>, size: nat, size_comp: nat, offset: nat) -> Result<
    Seq<u8>,
    CodecError,
> {
    if size_comp == 0 {
        if offset + size > data.len() {
            Err(CodecError::OutOfBounds)
        } else {
            Ok(data.subrange(offset as int, (offset + size) as int))
        }
    } else if offset + size_comp > data.len() {
        Err(CodecError::OutOfBounds)
    } else {
        match zlib_inflated(data.subrange(offset as int, (offset + size_comp) as int)) {
            Some(out) => if out.len() == size {
                Ok(out)
            } else {
                Err(CodecError::BadCompressedBlock)
            },
            None => Err(CodecError::BadCompressedBlock),
        }
    }
}

/// The stored form of a payload: nothing for an empty payload, else its zlib
/// stream at compression level `level`.
pub open spec fn encoded_block(b: Seq<u8>, level: u32) -> Seq<u8> {
    if b.len() == 0 {
        seq![]
    } else {
        zlib_deflated(b, level)
    }
}

/// A payload block, stored raw or zlib-compressed.
#[derive(Debug, Clone)]
pub struct CompressedBlock {
    pub data: Vec<u8>,
}

impl CompressedBlock {
    /// Reads the block framed as `(size, size_comp, offset)` in `data`.
    pub fn from_data(data: &[u8], size: usize, size_comp: usize, offset: usize) -> (r: Result<
        Self,
        CodecError,
    >)
        ensures
            match r {
                Ok(b) => decoded_block(data@, size as nat, size_comp as nat, offset as nat) == Ok::<
                    Seq<u8>,
                    CodecError,
                >(b.data@),
                Err(e) => decoded_block(data@, size as nat, size_comp as nat, offset as nat)
                    == Err::<Seq<u8>, CodecError>(e),
            },
    {
        let n = data.len();
        if size_comp == 0 {
            if offset > n || size > n - offset {
                return Err(CodecError::OutOfBounds);
            }
            let v = slice_to_vec(slice_subrange(data, offset, offset + size));
            Ok(CompressedBlock { data: v })
        } else {
            if offset > n || size_comp > n - offset {
                return Err(CodecError::OutOfBounds);
            }
            match inflate(slice_subrange(data, offset, offset + size_comp)) {
                Some(out) => {
                    if out.len() == size {
                        Ok(CompressedBlock { data: out })
                    } else {
                        Err(CodecError::BadCompressedBlock)
                    }
                },
                None => Err(CodecError::BadCompressedBlock),
            }
        }
    }

    /// The stored form of the block at compression level `level`. An empty
    /// block stores as nothing, so that its header says `size_comp == 0`;
    /// either way the stored bytes decode back to the block.
    pub fn dump(&self, level: u32) -> (r: Vec<u8>)
        requires
            level <= 9,
        ensures
            r@ == encoded_block(self.data@, level),
            decoded_block(r@, self.data@.len(), r@.len(), 0) == Ok::<Seq<u8>, CodecError>(
                self.data@,
            ),
    {
        if self.data.len() == 0 {
            let r: Vec<u8> = Vec::new();
            assert(r@.subrange(0, 0) =~= self.data@);
            return r;
        }
        let r = deflate(self.data.as_slice(), level);
        assert(r@.subrange(0, r@.len() as int) =~= r@);
        r
    }
}


/// The text that `String::from_utf8_lossy` makes of the bytes `b`.
pub uninterp spec fn lossy_text(b: Seq<u8>) -> Seq<char>;

/// Relies on `String::from_utf8_lossy`: bytes that are valid UTF-8 decode to
/// their characters; other bytes give replacement characters.
#[verifier::external_body]
fn text_of(b: &[u8]) -> (r: String)
    ensures
        r@ == lossy_text(b@),
        valid_utf8(b@) ==> r@ == decode_utf8(b@),
{
    String::from_utf8_lossy(b).into_owned()
}

/// The cell a string's length is stored in.
pub open spec fn length_cell(o: Endian) -> Cell {
    Cell { prim: Prim::U32, endian: o }
}

/// Where the bytes of each of `num` length-prefixed strings lie, the first
/// length word at `off`: `(start, length)` pairs, or nothing when the buffer
/// ends first.
pub open spec fn string_spans(data: Seq<u8>, off: nat, num: nat, o: Endian) -> Option<
    Seq<(nat, nat)>,
>
    decreases num,
{
    if num == 0 {
        Some(seq![])
    } else {
        match string_spans(data, off, (num - 1) as nat, o) {
            None => None,
            Some(sp) => {
                let p = spans_end(off, sp);
                if p + 4 > data.len() {
                    None
                } else {
                    let k = cell_value(length_cell(o), data.skip(p as int)) as nat;
                    if p + 4 + k > data.len() {
                        None
                    } else {
                        Some(sp.push(((p + 4) as nat, k)))
                    }
                }
            },
        }
    }
}

/// Where the string after the spans `sp` starts its length word.
pub open spec fn spans_end(off: nat, sp: Seq<(nat, nat)>) -> nat {
    if sp.len() == 0 {
        off
    } else {
        sp.last().0 + sp.last().1
    }
}

proof fn lemma_spans_none(data: Seq<u8>, off: nat, i: nat, num: nat, o: Endian)
    requires
        i <= num,
        string_spans(data, off, i, o) is None,
    ensures
        string_spans(data, off, num, o) is None,
    decreases num - i,
{
    if i < num {
        lemma_spans_none(data, off, i + 1, num, o);
    }
}

/// The stored form of the strings `ss`: each one's length word, then its bytes.
pub open spec fn strings_bytes(ss: Seq<Seq<u8>>, o: Endian) -> Seq<u8>
    decreases ss.len(),
{
    if ss.len() == 0 {
        seq![]
    } else {
        strings_bytes(ss.drop_last(), o) + cell_bytes(length_cell(o), ss.last().len() as u64)
            + ss.last()
    }
}

/// A table of length-prefixed strings.
#[derive(Debug, Clone)]
pub struct Strings {
    pub strings: Vec<String>,
}

impl View for Strings {
    type V = Seq<Seq<char>>;

    open spec fn view(&self) -> Seq<Seq<char>> {
        self.strings@.map_values(|s: String| s@)
    }
}

impl Strings {
    /// The UTF-8 bytes of each string.
    pub open spec fn spec_utf8(&self) -> Seq<Seq<u8>> {
        self.strings@.map_values(|s: String| encode_utf8(s@))
    }

    /// Reads `num` length-prefixed strings from `offset` on, in byte order `o`.
    pub fn from_data(data: &[u8], offset: usize, num: usize, o: Endian) -> (r: Result<
        Self,
        CodecError,
    >)
        ensures
            match r {
                Ok(s) => {
                    let sp = string_spans(data@, offset as nat, num as nat, o)->Some_0;
                    &&& string_spans(data@, offset as nat, num as nat, o) is Some
                    &&& s@.len() == num
                    &&& forall|i: int|
                        0 <= i < num ==> #[trigger] s@[i] == lossy_text(
                            data@.subrange(sp[i].0 as int, (sp[i].0 + sp[i].1) as int),
                        )
                    &&& forall|i: int|
                        0 <= i < num && valid_utf8(
                            data@.subrange(sp[i].0 as int, (sp[i].0 + sp[i].1) as int),
                        ) ==> #[trigger] s@[i] == decode_utf8(
                            data@.subrange(sp[i].0 as int, (sp[i].0 + sp[i].1) as int),
                        )
                },
                Err(e) => e == CodecError::OutOfBounds && string_spans(
                    data@,
                    offset as nat,
                    num as nat,
                    o,
                ) is None,
            },
    {
        let n = data.len();
        let c = Cell { prim: Prim::U32, endian: o };
        let mut strings: Vec<String> = Vec::new();
        let mut off = offset;
        let mut i: usize = 0;
        let ghost mut sp: Seq<(nat, nat)> = seq![];
        if off > n {
            if num == 0 {
                assert(strings@.map_values(|s: String| s@) =~= seq![]);
                return Ok(Strings { strings });
            }
            proof {
                lemma_spans_none(data@, offset as nat, 1, num as nat, o);
            }
            return Err(CodecError::OutOfBounds);
        }
        while i < num
            invariant
                i <= num,
                n == data@.len(),
                c == length_cell(o),
                off <= n,
                string_spans(data@, offset as nat, i as nat, o) == Some(sp),
                off == spans_end(offset as nat, sp),
                sp.len() == i,
                strings@.len() == i,
                forall|j: int|
                    0 <= j < i ==> #[trigger] strings@[j]@ == lossy_text(
                        data@.subrange(sp[j].0 as int, (sp[j].0 + sp[j].1) as int),
                    ),
                forall|j: int|
                    0 <= j < i && valid_utf8(
                        data@.subrange(sp[j].0 as int, (sp[j].0 + sp[j].1) as int),
                    ) ==> #[trigger] strings@[j]@ == decode_utf8(
                        data@.subrange(sp[j].0 as int, (sp[j].0 + sp[j].1) as int),
                    ),
            decreases num - i,
        {
            if n - off < 4 {
                proof {
                    lemma_spans_none(data@, offset as nat, (i + 1) as nat, num as nat, o);
                }
                return Err(CodecError::OutOfBounds);
            }
            let k = read_cell(data, off, c);
            if k > (n - off - 4) as u64 {
                proof {
                    lemma_spans_none(data@, offset as nat, (i + 1) as nat, num as nat, o);
                }
                return Err(CodecError::OutOfBounds);
            }
            let start = off + 4;
            let end = start + k as usize;
            let t = text_of(slice_subrange(data, start, end));
            strings.push(t);
            proof {
                sp = sp.push((start as nat, k as nat));
            }
            off = end;
            i = i + 1;
        }
        let r = Strings { strings };
        assert forall|j: int| 0 <= j < num implies #[trigger] r@[j] == lossy_text(
            data@.subrange(sp[j].0 as int, (sp[j].0 + sp[j].1) as int),
        ) by {
            assert(r@[j] == r.strings@[j]@);
        }
        assert forall|j: int|
            0 <= j < num && valid_utf8(
                data@.subrange(sp[j].0 as int, (sp[j].0 + sp[j].1) as int),
            ) implies #[trigger] r@[j] == decode_utf8(
            data@.subrange(sp[j].0 as int, (sp[j].0 + sp[j].1) as int),
        ) by {
            assert(r@[j] == r.strings@[j]@);
        }
        Ok(r)
    }

    /// The stored form of the table in byte order `o`: each string's length
    /// word, then its bytes.
    pub fn dump(&self, o: Endian) -> (r: Vec<u8>)
        requires
            forall|i: int|
                0 <= i < self.strings@.len() ==> #[trigger] encode_utf8(self.strings@[i]@).len()
                    < 0x1_0000_0000,
        ensures
            r@ == strings_bytes(self.spec_utf8(), o),
    {
        let c = Cell { prim: Prim::U32, endian: o };
        let mut r: Vec<u8> = Vec::new();
        let mut i: usize = 0;
        while i < self.strings.len()
            invariant
                i <= self.strings@.len(),
                c == length_cell(o),
                r@ == strings_bytes(self.spec_utf8().take(i as int), o),
            decreases self.strings@.len() - i,
        {
            assert(self.spec_utf8().take(i + 1).drop_last() =~= self.spec_utf8().take(i as int));
            let b = self.strings[i].as_str().as_bytes();
            push_cell(&mut r, c, b.len() as u64);
            let mut k: usize = 0;
            let ghost mid = r@;
            while k < b.len()
                invariant
                    k <= b@.len(),
                    r@ == mid + b@.take(k as int),
                decreases b@.len() - k,
            {
                r.push(b[k]);
                k = k + 1;
                assert(r@ =~= mid + b@.take(k as int));
            }
            assert(b@.take(k as int) =~= b@);
            i = i + 1;
        }
        assert(self.spec_utf8().take(i as int) =~= self.spec_utf8());
        r
    }

    /// The number of strings.
    pub fn len(&self) -> (r: usize)
        ensures
            r == self@.len(),
    {
        self.strings.len()
    }

    /// The size of the stored table: a length word and the bytes of each string.
    pub fn size(&self, o: Endian) -> (r: Option<usize>)
        ensures
            match r {
                Some(n) => n == strings_bytes(self.spec_utf8(), o).len(),
                None => strings_bytes(self.spec_utf8(), o).len() > usize::MAX,
            },
    {
        let mut total: usize = 0;
        let mut i: usize = 0;
        while i < self.strings.len()
            invariant
                i <= self.strings@.len(),
                total == strings_bytes(self.spec_utf8().take(i as int), o).len(),
            decreases self.strings@.len() - i,
        {
            assert(self.spec_utf8().take(i + 1).drop_last() =~= self.spec_utf8().take(i as int));
            let b = self.strings[i].as_str().as_bytes();
            let step = match b.len().checked_add(4) {
                Some(v) => v,
                None => {
                    proof {
                        lemma_strings_bytes_grow(self.spec_utf8(), (i + 1) as nat, o);
                    }
                    return None;
                },
            };
            total = match total.checked_add(step) {
                Some(v) => v,
                None => {
                    proof {
                        lemma_strings_bytes_grow(self.spec_utf8(), (i + 1) as nat, o);
                    }
                    return None;
                },
            };
            i = i + 1;
        }
        assert(self.spec_utf8().take(i as int) =~= self.spec_utf8());
        Some(total)
    }
}

proof fn lemma_strings_bytes_grow(ss: Seq<Seq<u8>>, k: nat, o: Endian)
    requires
        k <= ss.len(),
    ensures
        strings_bytes(ss.take(k as int), o).len() <= strings_bytes(ss, o).len(),
    decreases ss.len(),
{
    if k < ss.len() {
        assert(ss.drop_last().take(k as int) =~= ss.take(k as int));
        lemma_strings_bytes_grow(ss.drop_last(), k, o);
    } else {
        assert(ss.take(k as int) =~= ss);
    }
}

/// A block kept as raw bytes.
#[derive(Debug, Clone)]
pub struct Data {
    pub data: Vec<u8>,
}

impl Data {
    /// The `size` bytes at `offset`.
    pub fn from_data(data: &[u8], offset: usize, size: usize) -> (r: Result<Self, CodecError>)
        ensures
            match r {
                Ok(d) => offset + size <= data@.len() && d.data@ == data@.subrange(
                    offset as int,
                    offset + size,
                ),
                Err(e) => offset + size > data@.len() && e == CodecError::OutOfBounds,
            },
    {
        if offset > data.len() || size > data.len() - offset {
            return Err(CodecError::OutOfBounds);
        }
        Ok(Data { data: slice_to_vec(slice_subrange(data, offset, offset + size)) })
    }

    /// Writes the block's bytes into `data` at `offset`.
    pub fn into_data(&self, data: &mut Vec<u8>, offset: usize) -> (r: Result<(), CodecError>)
        ensures
            match r {
                Ok(()) => offset + self.data@.len() <= old(data)@.len() && final(data)@
                    == old(data)@.take(offset as int) + self.data@ + old(data)@.skip(
                    offset + self.data@.len(),
                ),
                Err(e) => offset + self.data@.len() > old(data)@.len() && e
                    == CodecError::OutOfBounds && final(data)@ == old(data)@,
            },
    {
        let n = data.len();
        if offset > n || self.data.len() > n - offset {
            return Err(CodecError::OutOfBounds);
        }
        let ghost start = data@;
        let mut i: usize = 0;
        while i < self.data.len()
            invariant
                i <= self.data@.len(),
                n == start.len(),
                offset + self.data@.len() <= n,
                data@ =~= start.take(offset as int) + self.data@.take(i as int) + start.skip(
                    offset + i,
                ),
            decreases self.data@.len() - i,
        {
            data.set(offset + i, self.data[i]);
            i = i + 1;
        }
        Ok(())
    }

    /// The block's bytes.
    pub fn dump(&self) -> (r: Vec<u8>)
        ensures
            r@ == self.data@,
    {
        let mut r: Vec<u8> = Vec::new();
        let mut i: usize = 0;
        while i < self.data.len()
            invariant
                i <= self.data@.len(),
                r@ =~= self.data@.take(i as int),
            decreases self.data@.len() - i,
        {
            r.push(self.data[i]);
            i = i + 1;
        }
        r
    }
}


/// Why the string key table at `offset` cannot be read, if it cannot: its
/// header, entries or padding pass the end, or its two counts differ.
pub open spec fn string_keys_error(data: Seq<u8>, offset: nat, o: Endian) -> Option<CodecError> {
    let hs = spec_size::<StringKeysHeader>(o);
    if offset + hs > data.len() {
        Some(CodecError::OutOfBounds)
    } else {
        let h = spec_read::<StringKeysHeader>(data.skip(offset as int), o);
        let n = h.num_a as nat;
        let vs = spec_size::<StringKeysVal>(o);
        if h.num_a != h.num_b {
            Some(CodecError::Malformed)
        } else if offset + hs + n * vs > data.len() {
            Some(CodecError::OutOfBounds)
        } else if offset + hs + n * vs + n * 4 > data.len() {
            Some(CodecError::OutOfBounds)
        } else {
            None
        }
    }
}

/// The string key table: a header, one entry per key, and one padding word
/// per key.
#[derive(Debug, Clone)]
pub struct StringKeys {
    pub header: StringKeysHeader,
    pub vals: Vec<StringKeysVal>,
    pub pad: Vec<u32>,
}

impl StringKeys {
    /// Reads the table at `offset` in byte order `o`. Its header gives the
    /// number of keys twice; a header whose two counts differ is refused.
    pub fn from_data(data: &[u8], offset: usize, o: Endian) -> (r: Result<Self, CodecError>)
        ensures
            match r {
                Ok(k) => {
                    let hs = spec_size::<StringKeysHeader>(o);
                    let vs = spec_size::<StringKeysVal>(o);
                    let n = k.header.num_a as int;
                    &&& k.header == spec_read::<StringKeysHeader>(data@.skip(offset as int), o)
                    &&& k.header.num_a == k.header.num_b
                    &&& k.vals@.len() == n
                    &&& k.pad@.len() == n
                    &&& forall|i: int|
                        0 <= i < n ==> #[trigger] k.vals@[i] == spec_read::<StringKeysVal>(
                            data@.skip(offset + hs + i * vs),
                            o,
                        )
                    &&& forall|i: int|
                        0 <= i < n ==> #[trigger] k.pad@[i] == spec_read::<u32>(
                            data@.skip(offset + hs + n * vs + i * 4),
                            o,
                        )
                },
                Err(e) => string_keys_error(data@, offset as nat, o) == Some(e),
            },
            r is Ok <==> string_keys_error(data@, offset as nat, o) is None,
    {
        let dl = data.len();
        let header: StringKeysHeader = from_bytes(data, offset, o)?;
        if header.num_a != header.num_b {
            return Err(CodecError::Malformed);
        }
        let n = header.num_a as usize;
        let hs = size::<StringKeysHeader>(o);
        let vs = size::<StringKeysVal>(o);
        let start = offset + hs;
        let vals: Vec<StringKeysVal> = from_bytes_vec(data, start, n, o)?;
        assert(start + n * vs <= dl);
        let vend = start + n * vs;
        proof {
            reveal_with_fuel(crate::codec::layout_size, 2);
            assert(spec_size::<u32>(o) == 4);
        }
        let pad: Vec<u32> = from_bytes_vec(data, vend, n, o)?;
        Ok(StringKeys { header, vals, pad })
    }

    /// The size of the stored table in byte order `o`.
    pub fn size(&self, o: Endian) -> (r: usize)
        requires
            self.vals@.len() <= 0x1_0000,
            self.pad@.len() <= 0x1_0000,
        ensures
            r == spec_size::<StringKeysHeader>(o) + self.vals@.len() * spec_size::<StringKeysVal>(o)
                + self.pad@.len() * 4,
    {
        proof {
            reveal_with_fuel(crate::codec::layout_size, 2);
        }
        let hs = size::<StringKeysHeader>(o);
        let vs = size::<StringKeysVal>(o);
        let ps = size::<u32>(o);
        assert(self.vals@.len() * vs <= 0x1_0000 * (8 * 4096)) by (nonlinear_arith)
            requires
                self.vals@.len() <= 0x1_0000,
                vs <= 8 * 4096,
        ;
        hs + self.vals.len() * vs + self.pad.len() * ps
    }

    /// The stored table in byte order `o`: header, entries, padding words.
    pub fn dump(&self, o: Endian) -> (r: Vec<u8>)
        ensures
            r@ == spec_dump(self.header, o) + spec_dump_seq(self.vals@, o) + spec_dump_seq(
                self.pad@,
                o,
            ),
    {
        let mut r = dump_bytes(&self.header, o);
        let v = dump_bytes_vec(&self.vals, o);
        let p = dump_bytes_vec(&self.pad, o);
        let mut i: usize = 0;
        let ghost a = r@;
        while i < v.len()
            invariant
                i <= v@.len(),
                r@ == a + v@.take(i as int),
            decreases v@.len() - i,
        {
            r.push(v[i]);
            i = i + 1;
            assert(r@ =~= a + v@.take(i as int));
        }
        assert(v@.take(i as int) =~= v@);
        let ghost b = r@;
        let mut i: usize = 0;
        while i < p.len()
            invariant
                i <= p@.len(),
                r@ == b + p@.take(i as int),
            decreases p@.len() - i,
        {
            r.push(p[i]);
            i = i + 1;
            assert(r@ =~= b + p@.take(i as int));
        }
        assert(p@.take(i as int) =~= p@);
        r
    }
}

/// The key of the sub-block named `Polish`.
pub const KEY_POLISH: u32 = 0x0192_f383;

/// The key of the sub-block named `German`.
pub const KEY_GERMAN: u32 = 0x46ae_f807;

/// The key of the sub-block named `French`.
pub const KEY_FRENCH: u32 = 0x763c_259b;

/// The key of the sub-block named `Spanish`.
pub const KEY_SPANISH: u32 = 0x9ed6_a1c8;

/// The key of the sub-block named `Russian`.
pub const KEY_RUSSIAN: u32 = 0xb382_1be2;

/// The key of the sub-block named `Swedish`.
pub const KEY_SWEDISH: u32 = 0xba0a_b0f0;

/// The key of the sub-block named `English`.
pub const KEY_ENGLISH: u32 = 0xe493_d172;

/// The key of the sub-block named `Italian`.
pub const KEY_ITALIAN: u32 = 0xefac_a857;

/// The key of the sub-block named `Norwegian`.
pub const KEY_NORWEGIAN: u32 = 0x7d39_39a2;

/// The key of the sub-block named `PFields`.
pub const KEY_PFIELDS: u32 = 0x3d94_3a5d;

/// The key of the sub-block named `Spray`.
pub const KEY_SPRAY: u32 = 0x0bef_4d0e;

/// The key of the sub-block named `3dCrowd`.
pub const KEY_CROWD: u32 = 0x4455_c09f;

/// The key of the sub-block named `Level`.
pub const KEY_GAME_OBJS: u32 = 0x7c29_b7af;

/// The key of the sub-block named `atlas_1.uv`.
pub const KEY_ATLAS_1: u32 = 0x3c77_9ab5;

/// The key of the sub-block named `atlas_2.uv`.
pub const KEY_ATLAS_2: u32 = 0x5c00_28db;

/// What a named sub-block holds, and so how it is parsed.
#[derive(Clone, Copy, Debug, PartialEq, Eq, Structural)]
pub enum SubBlockKind {
    LangStrings,
    Data,
    Spray,
    Crowd,
    GameObjs,
    AtlasUV,
    Lua,
    Ssa,
}

/// `name` ends with the bytes `suffix`.
pub open spec fn has_suffix(name: Seq<u8>, suffix: Seq<u8>) -> bool {
    name.len() >= suffix.len() && name.skip(name.len() - suffix.len()) == suffix
}

/// A language's string table.
pub open spec fn is_language_key(k: u32) -> bool {
    k == KEY_POLISH || k == KEY_GERMAN || k == KEY_FRENCH || k == KEY_SPANISH || k == KEY_RUSSIAN
        || k == KEY_SWEDISH || k == KEY_ENGLISH || k == KEY_ITALIAN || k == KEY_NORWEGIAN
}

/// The kind of the sub-block with key `k` and, when known, name `name`: the
/// well-known keys first, then the name's extension; anything else is kept
/// as raw data.
pub open spec fn block_kind_of(k: u32, name: Option<Seq<u8>>) -> SubBlockKind {
    if is_language_key(k) {
        SubBlockKind::LangStrings
    } else if k == KEY_PFIELDS {
        SubBlockKind::Data
    } else if k == KEY_SPRAY {
        SubBlockKind::Spray
    } else if k == KEY_CROWD {
        SubBlockKind::Crowd
    } else if k == KEY_GAME_OBJS {
        SubBlockKind::GameObjs
    } else if k == KEY_ATLAS_1 || k == KEY_ATLAS_2 {
        SubBlockKind::AtlasUV
    } else {
        match name {
            Some(n) => if has_suffix(n, seq![0x2eu8, 0x6c, 0x75, 0x61]) {
                SubBlockKind::Lua
            } else if has_suffix(n, seq![0x2eu8, 0x73, 0x73, 0x61]) {
                SubBlockKind::Ssa
            } else {
                SubBlockKind::Data
            },
            None => SubBlockKind::Data,
        }
    }
}

fn ends_with(name: &[u8], suffix: &[u8]) -> (r: bool)
    ensures
        r == has_suffix(name@, suffix@),
{
    if name.len() < suffix.len() {
        return false;
    }
    let n = name.len();
    let start = n - suffix.len();
    let mut i: usize = 0;
    while i < suffix.len()
        invariant
            i <= suffix@.len(),
            n == name@.len(),
            start + suffix@.len() == name@.len(),
            forall|j: int| 0 <= j < i ==> name@[start + j] == suffix@[j],
        decreases suffix@.len() - i,
    {
        if name[start + i] != suffix[i] {
            assert(name@.skip(start as int)[i as int] != suffix@[i as int]);
            return false;
        }
        i = i + 1;
    }
    assert(name@.skip(start as int) =~= suffix@);
    true
}

/// Decides how the sub-block with key `key` is parsed. A block of unknown
/// kind is carried as raw data, so that it survives a rebuild unchanged.
pub fn sub_block_kind(key: &Crc) -> (r: SubBlockKind)
    ensures
        r == block_kind_of(
            key.spec_key(),
            match key {
                Crc::Str(s) => Some(encode_utf8(s@)),
                Crc::Key(_) => None,
            },
        ),
{
    let k = key.key();
    if k == KEY_POLISH || k == KEY_GERMAN || k == KEY_FRENCH || k == KEY_SPANISH || k == KEY_RUSSIAN
        || k == KEY_SWEDISH || k == KEY_ENGLISH || k == KEY_ITALIAN || k == KEY_NORWEGIAN {
        SubBlockKind::LangStrings
    } else if k == KEY_PFIELDS {
        SubBlockKind::Data
    } else if k == KEY_SPRAY {
        SubBlockKind::Spray
    } else if k == KEY_CROWD {
        SubBlockKind::Crowd
    } else if k == KEY_GAME_OBJS {
        SubBlockKind::GameObjs
    } else if k == KEY_ATLAS_1 || k == KEY_ATLAS_2 {
        SubBlockKind::AtlasUV
    } else {
        match key {
            Crc::Str(s) => {
                let b = s.as_str().as_bytes();
                let lua: [u8; 4] = [0x2e, 0x6c, 0x75, 0x61];
                let ssa: [u8; 4] = [0x2e, 0x73, 0x73, 0x61];
                assert(lua@ =~= seq![0x2eu8, 0x6c, 0x75, 0x61]);
                assert(ssa@ =~= seq![0x2eu8, 0x73, 0x73, 0x61]);
                if ends_with(b, &lua) {
                    SubBlockKind::Lua
                } else if ends_with(b, &ssa) {
                    SubBlockKind::Ssa
                } else {
                    SubBlockKind::Data
                }
            },
            Crc::Key(_) => SubBlockKind::Data,
        }
    }
}


/// The number of UTF-16 code units that the UTF-8 text `b` takes: one per
/// character, and one more for each character outside the basic plane, the
/// ones whose UTF-8 form starts with a byte of 0xF0 or above.
pub open spec fn utf16_units(b: Seq<u8>) -> nat
    decreases b.len(),
{
    if b.len() == 0 {
        0
    } else {
        utf16_units(b.drop_last()) + (if b.last() & 0xc0 != 0x80 {
            1nat
        } else {
            0nat
        }) + (if b.last() >= 0xf0 {
            1nat
        } else {
            0nat
        })
    }
}

/// The bytes a table of strings takes as zero-terminated UTF-16 text.
pub open spec fn lang_size(ss: Seq<Seq<u8>>) -> nat
    decreases ss.len(),
{
    if ss.len() == 0 {
        0
    } else {
        lang_size(ss.drop_last()) + 2 * utf16_units(ss.last()) + 2
    }
}

/// A language's string table, stored as zero-terminated UTF-16 strings.
#[derive(Debug, Clone)]
pub struct LangStrings {
    pub strings: Vec<String>,
}

fn utf16_count(b: &[u8]) -> (r: u128)
    ensures
        r == utf16_units(b@),
        r <= 2 * b@.len(),
{
    let mut r: u128 = 0;
    let n = b.len();
    let mut i: usize = 0;
    while i < b.len()
        invariant
            i <= b@.len(),
            n == b@.len(),
            r == utf16_units(b@.take(i as int)),
            r <= 2 * i,
        decreases b@.len() - i,
    {
        assert(b@.take(i + 1).drop_last() =~= b@.take(i as int));
        let x = b[i];
        if x & 0xc0 != 0x80 {
            r = r + 1;
        }
        if x >= 0xf0 {
            r = r + 1;
        }
        i = i + 1;
    }
    assert(b@.take(i as int) =~= b@);
    r
}

impl LangStrings {
    /// The UTF-8 bytes of each string.
    pub open spec fn spec_utf8(&self) -> Seq<Seq<u8>> {
        self.strings@.map_values(|s: String| encode_utf8(s@))
    }

    /// The size of the stored table: each string as UTF-16, two bytes per
    /// code unit, and a two-byte terminator; nothing when that overflows.
    pub fn size(&self) -> (r: Option<usize>)
        ensures
            match r {
                Some(n) => n == lang_size(self.spec_utf8()),
                None => lang_size(self.spec_utf8()) > usize::MAX,
            },
    {
        let mut total: usize = 0;
        let mut i: usize = 0;
        while i < self.strings.len()
            invariant
                i <= self.strings@.len(),
                total == lang_size(self.spec_utf8().take(i as int)),
            decreases self.strings@.len() - i,
        {
            assert(self.spec_utf8().take(i + 1).drop_last() =~= self.spec_utf8().take(i as int));
            let u = utf16_count(self.strings[i].as_str().as_bytes());
            if u > usize::MAX as u128 {
                proof {
                    lemma_lang_size_grows(self.spec_utf8(), (i + 1) as nat);
                }
                return None;
            }
            let u = u as usize;
            let step = match u.checked_mul(2) {
                Some(v) => match v.checked_add(2) {
                    Some(w) => w,
                    None => {
                        proof {
                            lemma_lang_size_grows(self.spec_utf8(), (i + 1) as nat);
                        }
                        return None;
                    },
                },
                None => {
                    proof {
                        lemma_lang_size_grows(self.spec_utf8(), (i + 1) as nat);
                    }
                    return None;
                },
            };
            total = match total.checked_add(step) {
                Some(v) => v,
                None => {
                    proof {
                        lemma_lang_size_grows(self.spec_utf8(), (i + 1) as nat);
                    }
                    return None;
                },
            };
            i = i + 1;
        }
        assert(self.spec_utf8().take(i as int) =~= self.spec_utf8());
        Some(total)
    }
}

proof fn lemma_lang_size_grows(ss: Seq<Seq<u8>>, k: nat)
    requires
        k <= ss.len(),
    ensures
        lang_size(ss.take(k as int)) <= lang_size(ss),
    decreases ss.len(),
{
    if k < ss.len() {
        assert(ss.drop_last().take(k as int) =~= ss.take(k as int));
        lemma_lang_size_grows(ss.drop_last(), k);
    } else {
        assert(ss.take(k as int) =~= ss);
    }
}


impl OrderedData for Crc {
    open spec fn spec_layout(o: Endian) -> Seq<Cell> {
        seq![Cell { prim: Prim::U32, endian: o }]
    }

    open spec fn spec_cells(&self, o: Endian) -> Seq<u64> {
        seq![self.spec_key() as u64]
    }

    open spec fn spec_from_cells(c: Seq<u64>, o: Endian) -> Self {
        Crc::Key(c[0] as u32)
    }

    open spec fn spec_values(&self) -> Seq<u64> {
        seq![self.spec_key() as u64]
    }

    open spec fn spec_fits(&self, o: Endian) -> bool {
        true
    }

    open spec fn spec_keys_resolved(&self, m: Map<u32, Seq<char>>) -> bool {
        crc_resolved(*self, m)
    }

    fn layout(o: Endian) -> (r: Vec<Cell>) {
        vec![Cell { prim: Prim::U32, endian: o }]
    }

    fn to_cells(&self, o: Endian) -> (r: Vec<u64>) {
        vec![self.key() as u64]
    }

    fn from_cells(c: &Vec<u64>, o: Endian) -> (r: Self) {
        Crc::Key(c[0] as u32)
    }

    fn resolved(&self, table: &StringTable) -> (r: Self) {
        Crc::resolve(self.key(), table)
    }

    proof fn lemma_layout_small(o: Endian) {
    }

    proof fn lemma_cells(&self, o: Endian) {
    }
}

} // verus!
