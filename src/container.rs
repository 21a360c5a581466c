//! Laying records out in one flat buffer, and fixing cross-references when a
//! buffer is rebuilt with its records at new offsets.
//!
//! A [`Container`] is append-only: each appended block lands at the first
//! offset past the current end that is a multiple of the block's alignment,
//! the gap zero-filled. A [`RelocTable`] lists the buffer locations that hold
//! a 32-bit offset of another record; [`relocate`] rewrites each of them, once,
//! through a map from old offsets to new ones.
use std::collections::HashMap;
use vstd::prelude::*;
use vstd::std_specs::hash::group_hash_axioms;
use crate::codec::{cell_bytes, cell_value, lemma_cell_round_trip, push_cell, Cell, CodecError, Endian, Prim};

verus! {

broadcast use group_hash_axioms;

/// The first multiple of `align` that is at least `n`.
pub open spec fn align_up(n: nat, align: nat) -> nat
    recommends
        align > 0,
{
    if n % align == 0 {
        n
    } else {
        (n + (align - n % align)) as nat
    }
}

/// `s` with the bytes from `off` on replaced by `b`.
pub open spec fn put_bytes(s: Seq<u8>, off: int, b: Seq<u8>) -> Seq<u8> {
    Seq::new(s.len(), |q: int| if off <= q < off + b.len() { b[q - off] } else { s[q] })
}

/// A buffer of records laid out one after the other. `spans` records, for
/// each appended block, its offset, its length and the alignment it asked for.
pub struct Container {
    pub data: Vec<u8>,
    pub spans: Ghost<Seq<(nat, nat, nat)>>,
}

impl Container {
    /// Every block lies inside the buffer at a multiple of its alignment, and
    /// each block ends before the next one starts.
    pub open spec fn wf(&self) -> bool {
        &&& forall|i: int|
            0 <= i < self.spans@.len() ==> {
                let (off, len, align) = #[trigger] self.spans@[i];
                align > 0 && off % align == 0 && off + len <= self.data@.len()
            }
        &&& forall|i: int, j: int|
            0 <= i < j < self.spans@.len() ==> #[trigger] self.spans@[i].0 + self.spans@[i].1
                <= #[trigger] self.spans@[j].0
    }

    pub fn new() -> (r: Self)
        ensures
            r.wf(),
            r.data@ == Seq::<u8>::empty(),
            r.spans@ == Seq::<(nat, nat, nat)>::empty(),
    {
        Container { data: Vec::new(), spans: Ghost(Seq::empty()) }
    }

    /// The number of bytes laid out so far.
    pub fn len(&self) -> (r: usize)
        ensures
            r == self.data@.len(),
    {
        self.data.len()
    }

    /// Zero-pads the buffer to a multiple of `align`, then appends `bytes` and
    /// returns the offset they start at.
    pub fn append(&mut self, bytes: &[u8], align: usize) -> (r: usize)
        requires
            old(self).wf(),
            align > 0,
            align_up(old(self).data@.len(), align as nat) + bytes@.len() <= usize::MAX,
        ensures
            final(self).wf(),
            r == align_up(old(self).data@.len(), align as nat),
            r % align == 0,
            final(self).data@ == old(self).data@ + Seq::new(
                (r - old(self).data@.len()) as nat,
                |q: int| 0u8,
            ) + bytes@,
            final(self).spans@ == old(self).spans@.push((r as nat, bytes@.len(), align as nat)),
    {
        let ghost start = self.data@;
        let ghost sp = self.spans@;
        let n = self.data.len();
        let rem = n % align;
        let pad = if rem == 0 {
            0
        } else {
            align - rem
        };
        let mut k: usize = 0;
        while k < pad
            invariant
                k <= pad,
                self.data@ =~= start + Seq::new(k as nat, |q: int| 0u8),
                self.spans@ == sp,
            decreases pad - k,
        {
            self.data.push(0);
            k = k + 1;
        }
        let r = n + pad;
        assert(r % align == 0) by {
            if rem != 0 {
                vstd::arithmetic::div_mod::lemma_fundamental_div_mod(n as int, align as int);
                assert(r == align * (n / align + 1)) by (nonlinear_arith)
                    requires
                        n == align * (n / align) + rem,
                        r == n + (align - rem),
                ;
                vstd::arithmetic::div_mod::lemma_mod_multiples_basic(
                    (n / align + 1) as int,
                    align as int,
                );
            }
        }
        let mut i: usize = 0;
        while i < bytes.len()
            invariant
                i <= bytes@.len(),
                self.data@ =~= start + Seq::new(pad as nat, |q: int| 0u8) + bytes@.take(i as int),
                self.spans@ == sp,
            decreases bytes@.len() - i,
        {
            self.data.push(bytes[i]);
            i = i + 1;
        }
        assert(bytes@.take(i as int) =~= bytes@);
        self.spans = Ghost(self.spans@.push((r as nat, bytes@.len(), align as nat)));
        r
    }

    /// Overwrites the bytes at `off` with `bytes`, for a record whose pointer
    /// fields are known only once the records it points to are laid out.
    pub fn patch(&mut self, off: usize, bytes: &[u8])
        requires
            old(self).wf(),
            off + bytes@.len() <= old(self).data@.len(),
        ensures
            final(self).wf(),
            final(self).spans@ == old(self).spans@,
            final(self).data@ == put_bytes(old(self).data@, off as int, bytes@),
    {
        let ghost start = self.data@;
        let ghost sp = self.spans@;
        let n = self.data.len();
        let mut i: usize = 0;
        while i < bytes.len()
            invariant
                i <= bytes@.len(),
                n == start.len(),
                self.spans@ == sp,
                off + bytes@.len() <= start.len(),
                self.data@.len() == start.len(),
                self.data@ =~= put_bytes(start, off as int, bytes@.take(i as int)),
            decreases bytes@.len() - i,
        {
            self.data.set(off + i, bytes[i]);
            i = i + 1;
        }
        assert(bytes@.take(i as int) =~= bytes@);
    }

    /// Freezes the layout and hands out the buffer.
    pub fn finish(self) -> (r: Vec<u8>)
        ensures
            r@ == self.data@,
    {
        self.data
    }
}

/// Blocks appended to a container start at strictly increasing offsets, each a
/// multiple of the alignment it was appended with, as long as the earlier of
/// two blocks is not empty.
pub proof fn lemma_layout_increasing(c: &Container, i: int, j: int)
    requires
        c.wf(),
        0 <= i < j < c.spans@.len(),
        c.spans@[i].1 > 0,
    ensures
        c.spans@[i].0 < c.spans@[j].0,
        c.spans@[i].0 % c.spans@[i].2 == 0,
        c.spans@[j].0 % c.spans@[j].2 == 0,
{
}

/// The cell a relocated offset is stored in: 32 bits in the container's order.
pub open spec fn offset_cell(o: Endian) -> Cell {
    Cell { prim: Prim::U32, endian: o }
}

/// The 32-bit offset stored at `loc` of `s`.
pub open spec fn offset_at(s: Seq<u8>, loc: int, o: Endian) -> u64 {
    cell_value(offset_cell(o), s.skip(loc))
}

/// No two locations of `locs` share a byte of their 4-byte slots.
pub open spec fn disjoint_slots(locs: Seq<usize>) -> bool {
    forall|i: int, j: int|
        0 <= i < locs.len() && 0 <= j < locs.len() && i != j ==> #[trigger] locs[i] + 4
            <= #[trigger] locs[j] || locs[j] + 4 <= locs[i]
}

/// `q` lies in the slot of one of the first `n` locations.
pub open spec fn in_some_slot(locs: Seq<usize>, n: int, q: int) -> bool {
    exists|k: int| 0 <= k < n && #[trigger] locs[k] <= q < locs[k] + 4
}

/// The locations of a buffer that hold the offset of another record.
pub struct RelocTable {
    pub locs: Vec<usize>,
}

impl RelocTable {
    pub open spec fn wf(&self) -> bool {
        disjoint_slots(self.locs@)
    }

    pub fn new() -> (r: Self)
        ensures
            r.wf(),
            r.locs@ == Seq::<usize>::empty(),
    {
        RelocTable { locs: Vec::new() }
    }

    /// Records that `loc` holds an offset. A location whose slot overlaps one
    /// already recorded is refused, so that every slot is patched exactly once.
    pub fn add(&mut self, loc: usize) -> (r: bool)
        requires
            old(self).wf(),
        ensures
            final(self).wf(),
            r <==> forall|i: int|
                0 <= i < old(self).locs@.len() ==> #[trigger] old(self).locs@[i] == loc
                    || old(self).locs@[i] + 4 <= loc || loc + 4 <= old(self).locs@[i],
            r && old(self).locs@.contains(loc) ==> final(self).locs@ == old(self).locs@,
            r && !old(self).locs@.contains(loc) ==> final(self).locs@ == old(self).locs@.push(loc),
            !r ==> final(self).locs@ == old(self).locs@,
    {
        let mut found = false;
        let mut i: usize = 0;
        while i < self.locs.len()
            invariant
                i <= self.locs@.len(),
                self.locs@ == old(self).locs@,
                self.wf(),
                forall|j: int|
                    0 <= j < i ==> #[trigger] self.locs@[j] == loc || self.locs@[j] + 4 <= loc || loc
                        + 4 <= self.locs@[j],
                found <==> exists|j: int| 0 <= j < i && #[trigger] self.locs@[j] == loc,
            decreases self.locs@.len() - i,
        {
            let l = self.locs[i];
            if l == loc {
                found = true;
            } else if !(l as u128 + 4 <= loc as u128 || loc as u128 + 4 <= l as u128) {
                return false;
            }
            i = i + 1;
        }
        if found {
            proof {
                let j = choose|j: int| 0 <= j < i && #[trigger] self.locs@[j] == loc;
                assert(self.locs@.contains(loc));
            }
            return true;
        }
        let ghost before = self.locs@;
        assert(!before.contains(loc));
        self.locs.push(loc);
        assert forall|a: int, b: int|
            0 <= a < self.locs@.len() && 0 <= b < self.locs@.len() && a != b implies #[trigger] self.locs@[a]
            + 4 <= #[trigger] self.locs@[b] || self.locs@[b] + 4 <= self.locs@[a] by {
            if a < before.len() && b < before.len() {
                assert(before[a] == self.locs@[a] && before[b] == self.locs@[b]);
            } else if a == before.len() {
                assert(before[b] != loc);
            } else {
                assert(before[a] != loc);
            }
        }
        true
    }
}

/// The locations `offs` as buffer positions.
pub open spec fn as_locations(offs: Seq<u32>) -> Seq<usize> {
    offs.map_values(|x: u32| x as usize)
}

/// Any two entries of `s` are the same location or have disjoint slots.
pub open spec fn no_partial_overlap(s: Seq<usize>) -> bool {
    forall|i: int, j: int|
        0 <= i < s.len() && 0 <= j < s.len() ==> #[trigger] s[i] == #[trigger] s[j] || s[i] + 4
            <= s[j] || s[j] + 4 <= s[i]
}

/// The relocation table whose locations are `offs`, such as a payload file's
/// list of block-2 offsets. A location listed more than once is kept once, so
/// that its slot is patched exactly once; two locations whose slots only
/// partly overlap are refused.
pub fn reloc_table_of(offs: &Vec<u32>) -> (r: Option<RelocTable>)
    ensures
        match r {
            Some(t) => {
                &&& t.wf()
                &&& forall|i: int| 0 <= i < offs@.len() ==> t.locs@.contains(#[trigger] as_locations(offs@)[i])
                &&& forall|k: int| 0 <= k < t.locs@.len() ==> as_locations(offs@).contains(#[trigger] t.locs@[k])
            },
            None => !no_partial_overlap(as_locations(offs@)),
        },
        r is Some <==> no_partial_overlap(as_locations(offs@)),
{
    let ghost all = as_locations(offs@);
    let mut t = RelocTable::new();
    let mut i: usize = 0;
    while i < offs.len()
        invariant
            i <= offs@.len(),
            all == as_locations(offs@),
            t.wf(),
            forall|m: int| 0 <= m < i ==> t.locs@.contains(#[trigger] all[m]),
            forall|k: int| 0 <= k < t.locs@.len() ==> exists|m: int| 0 <= m < i && #[trigger] all[m] == #[trigger] t.locs@[k],
            no_partial_overlap(all.take(i as int)),
        decreases offs@.len() - i,
    {
        let ghost before = t.locs@;
        let loc = offs[i] as usize;
        assert(all[i as int] == loc);
        if !t.add(loc) {
            proof {
                let j = choose|j: int|
                    0 <= j < before.len() && !(#[trigger] before[j] == loc || before[j] + 4 <= loc || loc + 4 <= before[j]);
                let m = choose|m: int| 0 <= m < i && #[trigger] all[m] == before[j];
                assert(!(all[m] == all[i as int] || all[m] + 4 <= all[i as int] || all[i as int] + 4 <= all[m]));
            }
            return None;
        }
        proof {
            assert forall|m: int| 0 <= m < i + 1 implies t.locs@.contains(#[trigger] all[m]) by {
                if m < i {
                    let k = choose|k: int| 0 <= k < before.len() && before[k] == all[m];
                    if before.contains(loc) {
                        assert(t.locs@[k] == all[m]);
                    } else {
                        assert(t.locs@[k] == all[m]);
                    }
                } else {
                    if before.contains(loc) {
                        let k = choose|k: int| 0 <= k < before.len() && before[k] == loc;
                        assert(t.locs@[k] == all[m]);
                    } else {
                        assert(t.locs@[before.len() as int] == all[m]);
                    }
                }
            }
            assert forall|k: int| 0 <= k < t.locs@.len() implies exists|m: int| 0 <= m < i + 1 && #[trigger] all[m] == #[trigger] t.locs@[k] by {
                if k < before.len() {
                    assert(t.locs@[k] == before[k]);
                    let m = choose|m: int| 0 <= m < i && #[trigger] all[m] == before[k];
                    assert(all[m] == t.locs@[k]);
                } else {
                    assert(all[i as int] == t.locs@[k]);
                }
            }
            let tk = all.take(i + 1);
            assert forall|a: int, b: int| 0 <= a < tk.len() && 0 <= b < tk.len() implies #[trigger] tk[a] == #[trigger] tk[b] || tk[a] + 4 <= tk[b] || tk[b] + 4 <= tk[a] by {
                if a < i && b < i {
                    assert(all.take(i as int)[a] == tk[a] && all.take(i as int)[b] == tk[b]);
                } else if a == i && b < i {
                    let k = choose|k: int| 0 <= k < before.len() && before[k] == all[b];
                    assert(before[k] == loc || before[k] + 4 <= loc || loc + 4 <= before[k]);
                } else if b == i && a < i {
                    let k = choose|k: int| 0 <= k < before.len() && before[k] == all[a];
                    assert(before[k] == loc || before[k] + 4 <= loc || loc + 4 <= before[k]);
                }
            }
        }
        i = i + 1;
    }
    assert(all.take(i as int) =~= all);
    Some(t)
}

/// The result of writing `vals[k]` into the slot at `locs[k]` for each `k < n`.
pub open spec fn patched(s: Seq<u8>, locs: Seq<usize>, vals: Seq<u64>, o: Endian, n: nat) -> Seq<
    u8,
>
    decreases n,
{
    if n == 0 {
        s
    } else {
        put_bytes(
            patched(s, locs, vals, o, (n - 1) as nat),
            locs[n - 1] as int,
            cell_bytes(offset_cell(o), vals[n - 1]),
        )
    }
}

proof fn lemma_patched(s: Seq<u8>, locs: Seq<usize>, vals: Seq<u64>, o: Endian, n: nat)
    requires
        n <= locs.len(),
        n <= vals.len(),
        disjoint_slots(locs),
        forall|k: int| 0 <= k < n ==> #[trigger] locs[k] + 4 <= s.len(),
    ensures
        patched(s, locs, vals, o, n).len() == s.len(),
        forall|k: int|
            0 <= k < n ==> #[trigger] patched(s, locs, vals, o, n).subrange(
                locs[k] as int,
                locs[k] + 4,
            ) == cell_bytes(offset_cell(o), vals[k]),
        forall|q: int|
            0 <= q < s.len() && !in_some_slot(locs, n as int, q) ==> #[trigger] patched(
                s,
                locs,
                vals,
                o,
                n,
            )[q] == s[q],
    decreases n,
{
    if n > 0 {
        let m = (n - 1) as nat;
        lemma_patched(s, locs, vals, o, m);
        let prev = patched(s, locs, vals, o, m);
        let cur = patched(s, locs, vals, o, n);
        let b = cell_bytes(offset_cell(o), vals[m as int]);
        assert(b.len() == 4);
        assert forall|k: int| 0 <= k < n implies #[trigger] cur.subrange(
            locs[k] as int,
            locs[k] + 4,
        ) == cell_bytes(offset_cell(o), vals[k]) by {
            if k < m {
                assert(locs[k] + 4 <= locs[m as int] || locs[m as int] + 4 <= locs[k]);
                assert(cur.subrange(locs[k] as int, locs[k] + 4) =~= prev.subrange(
                    locs[k] as int,
                    locs[k] + 4,
                ));
            } else {
                assert(cur.subrange(locs[k] as int, locs[k] + 4) =~= b);
            }
        }
        assert forall|q: int|
            0 <= q < s.len() && !in_some_slot(locs, n as int, q) implies #[trigger] cur[q]
            == s[q] by {
            assert(!(locs[m as int] <= q < locs[m as int] + 4));
            if in_some_slot(locs, m as int, q) {
                let k = choose|k: int| 0 <= k < m && #[trigger] locs[k] <= q < locs[k] + 4;
                assert(in_some_slot(locs, n as int, q));
            }
        }
    }
}

/// The new offset for each location of `locs`: its old value sent through `map`.
pub open spec fn new_offsets(s: Seq<u8>, locs: Seq<usize>, map: Map<u32, u32>, o: Endian) -> Seq<u64> {
    Seq::new(locs.len(), |k: int| map[offset_at(s, locs[k] as int, o) as u32] as u64)
}

/// `s` with the offset at each location of `locs` rewritten through `map`.
pub open spec fn relocated(s: Seq<u8>, locs: Seq<usize>, map: Map<u32, u32>, o: Endian) -> Seq<u8> {
    patched(s, locs, new_offsets(s, locs, map, o), o, locs.len())
}

/// Rewrites each offset stored at a location of `table` through `map`, from
/// the old offset space to the new one. Fails, leaving `data` as it was, when
/// a location lies outside `data`, or when an old offset has no new one: a
/// record was left out of the rebuild.
pub fn relocate(data: &mut Vec<u8>, table: &RelocTable, map: &HashMap<u32, u32>, o: Endian) -> (r:
    Result<(), CodecError>)
    requires
        table.wf(),
    ensures
        ({
            let locs = table.locs@;
            let in_bounds = forall|k: int|
                0 <= k < locs.len() ==> #[trigger] locs[k] + 4 <= old(data)@.len();
            let mapped = forall|k: int|
                0 <= k < locs.len() ==> map@.contains_key(
                    #[trigger] offset_at(old(data)@, locs[k] as int, o) as u32,
                );
            match r {
                Ok(()) => {
                    &&& in_bounds && mapped
                    &&& final(data)@ == relocated(old(data)@, locs, map@, o)
                    &&& final(data)@.len() == old(data)@.len()
                    &&& forall|k: int|
                        0 <= k < locs.len() ==> #[trigger] offset_at(final(data)@, locs[k] as int, o)
                            == map@[offset_at(old(data)@, locs[k] as int, o) as u32] as u64
                    &&& forall|q: int|
                        0 <= q < old(data)@.len() && !in_some_slot(locs, locs.len() as int, q)
                            ==> #[trigger] final(data)@[q] == old(data)@[q]
                },
                Err(e) => {
                    &&& final(data)@ == old(data)@
                    &&& (e == CodecError::OutOfBounds <==> !in_bounds)
                    &&& (e == CodecError::MissingRelocation <==> in_bounds && !mapped)
                    &&& (e == CodecError::OutOfBounds || e == CodecError::MissingRelocation)
                },
            }
        }),
{
    let ghost locs = table.locs@;
    let n = data.len();
    let c = Cell { prim: Prim::U32, endian: o };
    let mut i: usize = 0;
    while i < table.locs.len()
        invariant
            i <= locs.len(),
            locs == table.locs@,
            c == offset_cell(o),
            n == data@.len(),
            forall|k: int| 0 <= k < i ==> #[trigger] locs[k] + 4 <= n,
        decreases locs.len() - i,
    {
        let l = table.locs[i];
        if l > n || n - l < 4 {
            return Err(CodecError::OutOfBounds);
        }
        i = i + 1;
    }
    let mut news: Vec<u64> = Vec::new();
    let mut i: usize = 0;
    while i < table.locs.len()
        invariant
            i <= locs.len(),
            locs == table.locs@,
            c == offset_cell(o),
            n == data@.len(),
            forall|k: int| 0 <= k < locs.len() ==> #[trigger] locs[k] + 4 <= n,
            news@.len() == i,
            forall|k: int|
                0 <= k < i ==> map@.contains_key(
                    #[trigger] offset_at(data@, locs[k] as int, o) as u32,
                ) && news@[k] == map@[offset_at(data@, locs[k] as int, o) as u32] as u64,
            forall|k: int| 0 <= k < i ==> #[trigger] news@[k] < 0x1_0000_0000,
        decreases locs.len() - i,
    {
        let v = crate::codec::read_cell(data.as_slice(), table.locs[i], c);
        match map.get(&(v as u32)) {
            Some(nv) => {
                news.push(*nv as u64);
            },
            None => {
                assert(v == offset_at(data@, locs[i as int] as int, o));
                assert(!map@.contains_key(offset_at(data@, locs[i as int] as int, o) as u32));
                return Err(CodecError::MissingRelocation);
            },
        }
        i = i + 1;
    }
    let ghost start = data@;
    proof {
        lemma_patched(start, locs, news@, o, locs.len());
    }
    let mut i: usize = 0;
    while i < table.locs.len()
        invariant
            i <= locs.len(),
            locs == table.locs@,
            c == offset_cell(o),
            disjoint_slots(locs),
            start.len() == n,
            forall|k: int| 0 <= k < locs.len() ==> #[trigger] news@[k] < 0x1_0000_0000,
            news@.len() == locs.len(),
            forall|k: int| 0 <= k < locs.len() ==> #[trigger] locs[k] + 4 <= start.len(),
            data@ == patched(start, locs, news@, o, i as nat),
            data@.len() == start.len(),
        decreases locs.len() - i,
    {
        let l = table.locs[i];
        let mut b: Vec<u8> = Vec::new();
        push_cell(&mut b, c, news[i]);
        assert(b@ == cell_bytes(c, news@[i as int]));
        proof {
            lemma_patched(start, locs, news@, o, i as nat);
        }
        let mut k: usize = 0;
        let ghost prev = data@;
        while k < 4
            invariant
                k <= 4,
                b@.len() == 4,
                l + 4 <= prev.len(),
                prev.len() == n,
                data@.len() == prev.len(),
                data@ =~= put_bytes(prev, l as int, b@.take(k as int)),
            decreases 4 - k,
        {
            data.set(l + k, b[k]);
            k = k + 1;
        }
        assert(b@.take(4) =~= b@);
        i = i + 1;
    }
    proof {
        assert forall|k: int| 0 <= k < locs.len() implies #[trigger] offset_at(
            data@,
            locs[k] as int,
            o,
        ) == map@[offset_at(start, locs[k] as int, o) as u32] as u64 by {
            let b = cell_bytes(c, news@[k]);
            assert(data@.subrange(locs[k] as int, locs[k] + 4) == b);
            lemma_cell_round_trip(c, news@[k], data@.skip(locs[k] + 4));
            assert(b + data@.skip(locs[k] + 4) =~= data@.skip(locs[k] as int));
        }
    }
    assert(news@ =~= new_offsets(start, locs, map@, o));
    Ok(())
}

} // verus!
