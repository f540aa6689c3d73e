//! The address-decoding bus.
//!
//! A bus owns an arena of devices and a list of map entries, each entry
//! installing one arena device at a base address for a window of `len`
//! addresses. A read at address `a` is answered by the last-mapped entry
//! whose window contains `a` and whose device holds the byte `a - base`
//! (last-mapped wins); addresses no entry matches read as 0xFF. A write
//! at `a` fans out to every matching entry's device; read-only devices
//! absorb it. Because the same arena device may be installed at several
//! bases, possibly through a shorter window (the work-RAM echo),
//! identity is the arena index, and a reset resets each arena device
//! exactly once.

use vstd::prelude::*;

use crate::dev::{DevView, Device};

verus! {

/// One bus mapping: the arena device `dev` responds from `base` for at
/// most `len` addresses, and never past the bytes it has.
#[derive(Clone, Copy, PartialEq, Eq, Structural, Debug)]
pub struct MapEntry {
    pub base: u16,
    pub dev: usize,
    pub len: usize,
}

/// The bus as contracts see it: the device views in arena order and the
/// map entries in insertion order.
pub struct BusView {
    pub devs: Seq<DevView>,
    pub entries: Seq<MapEntry>,
}

impl BusView {
    /// Whether map entry `i` matches address `addr`: the entry exists,
    /// names an arena device, `addr` lies in the entry's window, and
    /// `addr - base` is one of the device's bytes.
    pub open spec fn hits(self, i: int, addr: u16) -> bool {
        &&& 0 <= i < self.entries.len()
        &&& self.entries[i].dev < self.devs.len()
        &&& self.entries[i].base <= addr
        &&& addr - self.entries[i].base < self.entries[i].len
        &&& addr - self.entries[i].base < self.devs[self.entries[i].dev as int].bytes.len()
    }

    /// The index of the last entry below `n` matching `addr`, or -1.
    pub open spec fn winner_from(self, n: int, addr: u16) -> int
        decreases n,
    {
        if n <= 0 {
            -1
        } else if self.hits(n - 1, addr) {
            n - 1
        } else {
            self.winner_from(n - 1, addr)
        }
    }

    /// The index of the entry that answers a read at `addr`, or -1 when
    /// no entry matches (such reads observe 0xFF).
    pub open spec fn winner(self, addr: u16) -> int {
        self.winner_from(self.entries.len() as int, addr)
    }

    /// What a read at `addr` observes.
    pub open spec fn read_spec(self, addr: u16) -> u8 {
        let w = self.winner(addr);
        if w >= 0 {
            let e = self.entries[w];
            self.devs[e.dev as int].read_spec(addr - e.base)
        } else {
            0xFF
        }
    }

    /// The bus after the write at `addr` has fanned out to the first `n`
    /// entries, in map order.
    pub open spec fn write_upto(self, n: int, addr: u16, value: u8) -> BusView
        decreases n,
    {
        if n <= 0 {
            self
        } else {
            let prev = self.write_upto(n - 1, addr, value);
            if self.hits(n - 1, addr) {
                let e = self.entries[n - 1];
                BusView {
                    devs: prev.devs.update(
                        e.dev as int,
                        prev.devs[e.dev as int].write_spec(addr - e.base, value),
                    ),
                    ..prev
                }
            } else {
                prev
            }
        }
    }

    /// The bus after a write at `addr` has fanned out to every entry.
    pub open spec fn write_spec(self, addr: u16, value: u8) -> BusView {
        self.write_upto(self.entries.len() as int, addr, value)
    }

    /// The bus after a reset: every arena device reset once.
    pub open spec fn reset_spec(self) -> BusView {
        BusView { devs: Seq::new(self.devs.len(), |i: int| self.devs[i].reset_spec()), ..self }
    }

    /// Whether a read at `addr` is answered by a device that writes can
    /// change.
    pub open spec fn writable_at(self, addr: u16) -> bool {
        let w = self.winner(addr);
        w >= 0 && self.devs[self.entries[w].dev as int].writable
    }

    /// Whether some entry matching `addr` maps device `d` so that the
    /// write lands on its local byte `off`.
    pub open spec fn touches(self, addr: u16, d: int, off: int) -> bool {
        exists|i: int|
            self.hits(i, addr) && self.entries[i].dev == d && addr - self.entries[i].base == off
    }

    /// Whether a write at `a` cannot change what a read at `b` observes:
    /// no entry matching `a` backs the byte that `b`'s winning entry reads.
    pub open spec fn independent(self, a: u16, b: u16) -> bool {
        self.winner(b) >= 0 ==> !self.touches(
            a,
            self.entries[self.winner(b)].dev as int,
            b - self.entries[self.winner(b)].base,
        )
    }
}

/// Two bus views with the same map and the same device lengths and
/// writabilities: writes turn one into the other, and address decoding
/// cannot tell them apart.
pub open spec fn same_shape(x: BusView, y: BusView) -> bool {
    &&& x.entries == y.entries
    &&& x.devs.len() == y.devs.len()
    &&& forall|i: int|
        0 <= i < x.devs.len() ==> (#[trigger] x.devs[i]).bytes.len() == y.devs[i].bytes.len()
            && x.devs[i].writable == y.devs[i].writable
}

/// A partial write fan-out keeps the bus shape.
pub proof fn lemma_write_upto_shape(v: BusView, n: int, addr: u16, value: u8)
    ensures
        same_shape(v, v.write_upto(n, addr, value)),
    decreases n,
{
    if n > 0 {
        lemma_write_upto_shape(v, n - 1, addr, value);
    }
}

/// Buses of the same shape agree on which entry wins every address.
pub proof fn lemma_same_shape_winner(x: BusView, y: BusView, n: int, addr: u16)
    requires
        same_shape(x, y),
    ensures
        x.winner_from(n, addr) == y.winner_from(n, addr),
    decreases n,
{
    if n > 0 {
        lemma_same_shape_winner(x, y, n - 1, addr);
    }
}

/// The winning entry is the last match: every matching entry is at or
/// below it, and when it exists it does match.
pub proof fn lemma_winner_props(v: BusView, n: int, addr: u16)
    requires
        n >= 0,
    ensures
        -1 <= v.winner_from(n, addr) < n,
        v.winner_from(n, addr) >= 0 ==> v.hits(v.winner_from(n, addr), addr),
        forall|i: int| v.winner_from(n, addr) < i < n ==> !v.hits(i, addr),
    decreases n,
{
    if n > 0 {
        lemma_winner_props(v, n - 1, addr);
    }
}

/// After a write at `addr` fans out, every writable device matched by an
/// entry holds the written value at that entry's local index. This is the
/// bus-level write law: the device at the address reflects the value.
pub proof fn lemma_write_updates_device(v: BusView, addr: u16, value: u8, i: int)
    requires
        v.hits(i, addr),
        v.devs[v.entries[i].dev as int].writable,
    ensures
        v.write_spec(addr, value).devs[v.entries[i].dev as int].bytes[addr - v.entries[i].base]
            == value,
{
    let d = v.entries[i].dev as int;
    let off = addr - v.entries[i].base;
    assert forall|n: int| i < n <= v.entries.len() implies v.write_upto(
        n,
        addr,
        value,
    ).devs[d].bytes[off] == value by {
        lemma_write_lands(v, addr, value, i, n);
    }
}

/// Helper for the write law: once entry `i`'s write has landed, later
/// fan-out steps never change that byte to anything else.
proof fn lemma_write_lands(v: BusView, addr: u16, value: u8, i: int, n: int)
    requires
        v.hits(i, addr),
        v.devs[v.entries[i].dev as int].writable,
        i < n,
    ensures
        v.write_upto(n, addr, value).devs[v.entries[i].dev as int].bytes[addr - v.entries[i].base]
            == value,
    decreases n,
{
    let d = v.entries[i].dev as int;
    let off = addr - v.entries[i].base;
    let prev = v.write_upto(n - 1, addr, value);
    lemma_write_upto_shape(v, n - 1, addr, value);
    if n - 1 == i {
        assert(prev.devs[d].write_spec(off, value).bytes[off] == value);
    } else {
        lemma_write_lands(v, addr, value, i, n - 1);
        if v.hits(n - 1, addr) {
            let e = v.entries[n - 1];
            if e.dev as int == d {
                let off2 = addr - e.base;
                if off2 == off {
                    assert(prev.devs[d].write_spec(off2, value).bytes[off] == value);
                } else {
                    assert(prev.devs[d].write_spec(off2, value).bytes[off]
                        == prev.devs[d].bytes[off]);
                }
            }
        }
    }
}

/// Reading back a just-written address observes the written value,
/// whenever the winning device is writable.
pub proof fn lemma_write_then_read(v: BusView, addr: u16, value: u8)
    requires
        v.writable_at(addr),
    ensures
        v.write_spec(addr, value).read_spec(addr) == value,
{
    let w = v.winner(addr);
    lemma_winner_props(v, v.entries.len() as int, addr);
    lemma_write_updates_device(v, addr, value, w);
    let v2 = v.write_spec(addr, value);
    lemma_write_upto_shape(v, v.entries.len() as int, addr, value);
    lemma_same_shape_winner(v, v2, v.entries.len() as int, addr);
}

/// A write at `a` leaves the read at `b` unchanged whenever no entry
/// matching `a` backs the byte that `b`'s winning entry observes.
pub proof fn lemma_write_other(v: BusView, a: u16, b: u16, value: u8)
    requires
        v.independent(a, b),
    ensures
        v.write_spec(a, value).read_spec(b) == v.read_spec(b),
{
    let v2 = v.write_spec(a, value);
    lemma_write_upto_shape(v, v.entries.len() as int, a, value);
    lemma_same_shape_winner(v, v2, v.entries.len() as int, b);
    let w = v.winner(b);
    lemma_winner_props(v, v.entries.len() as int, b);
    if w >= 0 {
        let d = v.entries[w].dev as int;
        let off = b - v.entries[w].base;
        assert(v.hits(w, b));
        lemma_write_misses(v, a, value, d, off, v.entries.len() as int);
    }
}

/// Helper for independence: a fan-out at `a` never changes byte `off` of
/// device `d` when no entry matching `a` lands there.
proof fn lemma_write_misses(v: BusView, a: u16, value: u8, d: int, off: int, n: int)
    requires
        !v.touches(a, d, off),
        0 <= d < v.devs.len(),
        0 <= off < v.devs[d].bytes.len(),
    ensures
        v.write_upto(n, a, value).devs[d].bytes[off] == v.devs[d].bytes[off],
    decreases n,
{
    if n > 0 {
        lemma_write_misses(v, a, value, d, off, n - 1);
        lemma_write_upto_shape(v, n - 1, a, value);
        let prev = v.write_upto(n - 1, a, value);
        if v.hits(n - 1, a) {
            let e = v.entries[n - 1];
            if e.dev as int == d {
                assert(a - e.base != off) by {
                    if a - e.base == off {
                        assert(v.hits(n - 1, a) && v.entries[n - 1].dev == d && a - v.entries[n
                            - 1].base == off);
                        assert(v.touches(a, d, off));
                    }
                }
                assert(prev.devs[d].write_spec(a - e.base, value).bytes[off]
                    == prev.devs[d].bytes[off]);
            }
        }
    }
}

/// A write at an address no entry matches changes nothing: its whole
/// fan-out falls through.
pub proof fn lemma_write_unmapped(v: BusView, addr: u16, value: u8)
    requires
        forall|i: int| !v.hits(i, addr),
    ensures
        v.write_spec(addr, value) == v,
{
    lemma_write_upto_unmapped(v, v.entries.len() as int, addr, value);
}

/// Helper: each prefix of an unmatched fan-out is the bus unchanged.
proof fn lemma_write_upto_unmapped(v: BusView, n: int, addr: u16, value: u8)
    requires
        forall|i: int| !v.hits(i, addr),
    ensures
        v.write_upto(n, addr, value) == v,
    decreases n,
{
    if n > 0 {
        lemma_write_upto_unmapped(v, n - 1, addr, value);
    }
}

/// The bus: an arena of owned devices and the map entries installing
/// them at base addresses.
pub struct Bus {
    devs: Vec<Device>,
    entries: Vec<MapEntry>,
}

impl View for Bus {
    type V = BusView;

    closed spec fn view(&self) -> BusView {
        BusView { devs: self.devs@.map_values(|d: Device| d@), entries: self.entries@ }
    }
}

impl Bus {
    /// An empty bus: no devices, no map entries. Every read observes 0xFF.
    pub fn new() -> (r: Bus)
        ensures
            r@.devs == Seq::<DevView>::empty(),
            r@.entries == Seq::<MapEntry>::empty(),
    {
        let r = Bus { devs: Vec::new(), entries: Vec::new() };
        proof {
            assert(r@.devs =~= Seq::<DevView>::empty());
        }
        r
    }

    /// Adds a device to the arena and returns its arena index.
    pub fn add_dev(&mut self, d: Device) -> (i: usize)
        ensures
            final(self)@.devs == old(self)@.devs.push(d@),
            final(self)@.entries == old(self)@.entries,
            i == old(self)@.devs.len(),
    {
        let i = self.devs.len();
        self.devs.push(d);
        proof {
            assert(self@.devs =~= old(self)@.devs.push(d@));
        }
        i
    }

    /// Installs arena device `dev` at `base`, answering for a window of
    /// `len` addresses. Later entries win reads.
    pub fn map_dev(&mut self, base: u16, dev: usize, len: usize)
        ensures
            final(self)@.entries == old(self)@.entries.push(MapEntry { base, dev, len }),
            final(self)@.devs == old(self)@.devs,
    {
        self.entries.push(MapEntry { base, dev, len });
    }

    /// Removes every map entry; the arena is untouched.
    pub fn clear_map(&mut self)
        ensures
            final(self)@.entries == Seq::<MapEntry>::empty(),
            final(self)@.devs == old(self)@.devs,
    {
        self.entries.clear();
        proof {
            assert(self@.entries =~= Seq::<MapEntry>::empty());
        }
    }

    /// Removes map entry `i`; the arena is untouched.
    pub fn unmap(&mut self, i: usize)
        requires
            i < old(self)@.entries.len(),
        ensures
            final(self)@.entries == old(self)@.entries.remove(i as int),
            final(self)@.devs == old(self)@.devs,
    {
        self.entries.remove(i);
    }

    pub fn read(&self, addr: u16) -> (r: u8)
        ensures
            r == self@.read_spec(addr),
    {
        let ghost v = self@;
        let mut i: usize = self.entries.len();
        proof {
            lemma_winner_props(v, i as int, addr);
        }
        while i > 0
            invariant
                i <= self.entries@.len(),
                self@ == v,
                v.winner_from(i as int, addr) == v.winner(addr),
            decreases i,
        {
            i -= 1;
            let e = self.entries[i];
            if e.base <= addr && e.dev < self.devs.len() {
                let off = (addr - e.base) as usize;
                if off < e.len && self.devs[e.dev].contains(off) {
                    assert(v.hits(i as int, addr));
                    return self.devs[e.dev].read(off);
                }
            }
            assert(!v.hits(i as int, addr));
        }
        0xFF
    }

    pub fn write(&mut self, addr: u16, value: u8)
        ensures
            final(self)@ == old(self)@.write_spec(addr, value),
    {
        let ghost v = old(self)@;
        let n = self.entries.len();
        let mut i: usize = 0;
        while i < n
            invariant
                n == v.entries.len(),
                i <= n,
                self@ == v.write_upto(i as int, addr, value),
            decreases n - i,
        {
            proof {
                lemma_write_upto_shape(v, i as int, addr, value);
            }
            let e = self.entries[i];
            if e.base <= addr && e.dev < self.devs.len() {
                let off = (addr - e.base) as usize;
                if off < e.len && self.devs[e.dev].contains(off) {
                    assert(v.hits(i as int, addr));
                    let d = &mut self.devs[e.dev];
                    d.write(off, value);
                    proof {
                        assert(self@.devs =~= v.write_upto(i + 1, addr, value).devs);
                        assert(self@ == v.write_upto(i + 1, addr, value));
                    }
                } else {
                    assert(!v.hits(i as int, addr));
                }
            } else {
                assert(!v.hits(i as int, addr));
            }
            i += 1;
        }
    }

    /// Resets every arena device exactly once. A device mapped at several
    /// bases (the work-RAM echo) is reset once, since identity is the
    /// arena index.
    pub fn reset(&mut self)
        ensures
            final(self)@ == old(self)@.reset_spec(),
    {
        let ghost v = old(self)@;
        let n = self.devs.len();
        let mut i: usize = 0;
        while i < n
            invariant
                n == self.devs@.len(),
                i <= n,
                self@.entries == v.entries,
                self@.devs.len() == v.devs.len(),
                forall|j: int| 0 <= j < i ==> self@.devs[j] == v.devs[j].reset_spec(),
                forall|j: int| i <= j < n ==> self@.devs[j] == v.devs[j],
            decreases n - i,
        {
            let ghost snap = self@;
            let d = &mut self.devs[i];
            d.reset();
            proof {
                assert forall|j: int| 0 <= j < n implies self@.devs[j] == (if j == i {
                    snap.devs[j].reset_spec()
                } else {
                    snap.devs[j]
                }) by {
                    assert(self.devs@[j]@ == self@.devs[j]);
                }
            }
            i += 1;
        }
        proof {
            assert(self@.devs =~= v.reset_spec().devs);
        }
    }

    /// Reads device `i` of the arena at its local `index`, bypassing the
    /// address map.
    pub fn dev_read(&self, i: usize, index: usize) -> (r: u8)
        requires
            i < self@.devs.len(),
        ensures
            r == self@.devs[i as int].read_spec(index as int),
    {
        self.devs[i].read(index)
    }

    /// Writes device `i` of the arena at its local `index`, bypassing the
    /// address map (read-only devices still absorb it).
    pub fn dev_write(&mut self, i: usize, index: usize, value: u8)
        requires
            i < old(self)@.devs.len(),
        ensures
            final(self)@.devs == old(self)@.devs.update(
                i as int,
                old(self)@.devs[i as int].write_spec(index as int, value),
            ),
            final(self)@.entries == old(self)@.entries,
    {
        let d = &mut self.devs[i];
        d.write(index, value);
        proof {
            assert(self@.devs =~= old(self)@.devs.update(
                i as int,
                old(self)@.devs[i as int].write_spec(index as int, value),
            ));
        }
    }

    /// Replaces device `i` of the arena.
    pub fn dev_replace(&mut self, i: usize, d: Device)
        requires
            i < old(self)@.devs.len(),
        ensures
            final(self)@.devs == old(self)@.devs.update(i as int, d@),
            final(self)@.entries == old(self)@.entries,
    {
        let slot = &mut self.devs[i];
        *slot = d;
        proof {
            assert(self@.devs =~= old(self)@.devs.update(i as int, d@));
        }
    }

    pub fn dev_count(&self) -> (r: usize)
        ensures
            r == self@.devs.len(),
    {
        self.devs.len()
    }

    pub fn entry_count(&self) -> (r: usize)
        ensures
            r == self@.entries.len(),
    {
        self.entries.len()
    }
}

} // verus!
