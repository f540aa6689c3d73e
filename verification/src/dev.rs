//! Byte-addressable memory devices.
//!
//! Every memory-mapped entity of the console exposes the same small
//! interface: a length, a containment test for device-local indices,
//! a byte read, a byte write and a reset. Out-of-range reads observe
//! 0xFF and out-of-range writes are dropped.

use vstd::prelude::*;

verus! {

/// A read/write memory device: a fixed-length run of bytes addressed by
/// device-local, zero-based indices.
pub struct Ram {
    data: Vec<u8>,
}

impl View for Ram {
    type V = Seq<u8>;

    closed spec fn view(&self) -> Seq<u8> {
        self.data@
    }
}

impl Ram {
    /// What a read at `index` observes: the byte there, or 0xFF out of range.
    pub open spec fn read_spec(self, index: usize) -> u8 {
        if index < self@.len() {
            self@[index as int]
        } else {
            0xFF
        }
    }

    /// The contents after a write at `index`: updated in range, unchanged
    /// out of range.
    pub open spec fn write_spec(self, index: usize, value: u8) -> Seq<u8> {
        if index < self@.len() {
            self@.update(index as int, value)
        } else {
            self@
        }
    }

    /// A device of `len` bytes, all holding `value`.
    pub fn filled(len: usize, value: u8) -> (r: Ram)
        ensures
            r@ == Seq::new(len as nat, |i: int| value),
    {
        let mut data: Vec<u8> = Vec::new();
        while data.len() < len
            invariant
                data@.len() <= len,
                forall|i: int| 0 <= i < data@.len() ==> data@[i] == value,
            decreases len - data@.len(),
        {
            data.push(value);
        }
        proof {
            assert(data@ =~= Seq::new(len as nat, |i: int| value));
        }
        Ram { data }
    }

    /// A zero-filled device of `len` bytes.
    pub fn zeroed(len: usize) -> (r: Ram)
        ensures
            r@ == Seq::new(len as nat, |i: int| 0u8),
    {
        Ram::filled(len, 0)
    }

    /// A device holding exactly the given bytes.
    pub fn from_bytes(data: Vec<u8>) -> (r: Ram)
        ensures
            r@ == data@,
    {
        Ram { data }
    }

    pub fn len(&self) -> (r: usize)
        ensures
            r == self@.len(),
    {
        self.data.len()
    }

    /// Whether `index` addresses a byte of this device.
    pub fn contains(&self, index: usize) -> (r: bool)
        ensures
            r == (index < self@.len()),
    {
        index < self.data.len()
    }

    pub fn read(&self, index: usize) -> (r: u8)
        ensures
            r == self.read_spec(index),
    {
        if index < self.data.len() {
            self.data[index]
        } else {
            0xFF
        }
    }

    pub fn write(&mut self, index: usize, value: u8)
        ensures
            final(self)@ == old(self).write_spec(index, value),
    {
        if index < self.data.len() {
            self.data[index] = value;
        }
    }

    /// Clears every byte to zero; the length is kept.
    pub fn reset(&mut self)
        ensures
            final(self)@ == Seq::new(old(self)@.len(), |i: int| 0u8),
    {
        let n = self.data.len();
        let mut i: usize = 0;
        while i < n
            invariant
                n == self.data@.len(),
                i <= n,
                forall|j: int| 0 <= j < i ==> self.data@[j] == 0u8,
            decreases n - i,
        {
            self.data[i] = 0;
            i += 1;
        }
        proof {
            assert(self.data@ =~= Seq::new(old(self)@.len(), |j: int| 0u8));
        }
    }
}

/// Read-only device.
///
/// Provides a read-only view of the wrapped device: reads are forwarded
/// and all writes are silently dropped, so the observable bytes never
/// change between resets.
pub struct ReadOnly(Ram);

impl View for ReadOnly {
    type V = Seq<u8>;

    closed spec fn view(&self) -> Seq<u8> {
        self.0@
    }
}

impl ReadOnly {
    /// Wraps a device, freezing its observable contents.
    pub fn from(dev: Ram) -> (r: ReadOnly)
        ensures
            r@ == dev@,
    {
        ReadOnly(dev)
    }

    pub fn len(&self) -> (r: usize)
        ensures
            r == self@.len(),
    {
        self.0.len()
    }

    pub fn contains(&self, index: usize) -> (r: bool)
        ensures
            r == (index < self@.len()),
    {
        self.0.contains(index)
    }

    pub fn read(&self, index: usize) -> (r: u8)
        ensures
            r == (if index < self@.len() {
                self@[index as int]
            } else {
                0xFF
            }),
    {
        self.0.read(index)
    }

    /// Writes are dropped: the device is unchanged.
    pub fn write(&mut self, index: usize, value: u8)
        ensures
            *final(self) == *old(self),
    {
    }

    /// Resets the wrapped device (its bytes clear to zero).
    pub fn reset(&mut self)
        ensures
            final(self)@ == Seq::new(old(self)@.len(), |i: int| 0u8),
    {
        self.0.reset()
    }
}

/// A run of `n` zero bytes.
pub open spec fn zeros(n: int) -> Seq<u8> {
    Seq::new(n as nat, |i: int| 0u8)
}

/// What the bus knows of a device: the bytes a read observes, and whether
/// writes can change them.
pub struct DevView {
    pub bytes: Seq<u8>,
    pub writable: bool,
}

impl DevView {
    /// What a read at `index` observes.
    pub open spec fn read_spec(self, index: int) -> u8 {
        if 0 <= index < self.bytes.len() {
            self.bytes[index]
        } else {
            0xFF
        }
    }

    /// The device after a write at `index`.
    pub open spec fn write_spec(self, index: int, value: u8) -> DevView {
        if self.writable && 0 <= index < self.bytes.len() {
            DevView { bytes: self.bytes.update(index, value), ..self }
        } else {
            self
        }
    }

    /// The device after a reset: all bytes zero.
    pub open spec fn reset_spec(self) -> DevView {
        DevView { bytes: Seq::new(self.bytes.len(), |i: int| 0u8), ..self }
    }
}

/// A device as the bus owns it: either a plain read/write memory or a
/// read-only wrapper.
pub enum Device {
    Ram(Ram),
    ReadOnly(ReadOnly),
}

impl View for Device {
    type V = DevView;

    open spec fn view(&self) -> DevView {
        match self {
            Device::Ram(m) => DevView { bytes: m@, writable: true },
            Device::ReadOnly(r) => DevView { bytes: r@, writable: false },
        }
    }
}

impl Device {
    pub fn len(&self) -> (r: usize)
        ensures
            r == self@.bytes.len(),
    {
        match self {
            Device::Ram(m) => m.len(),
            Device::ReadOnly(r) => r.len(),
        }
    }

    pub fn contains(&self, index: usize) -> (r: bool)
        ensures
            r == (index < self@.bytes.len()),
    {
        match self {
            Device::Ram(m) => m.contains(index),
            Device::ReadOnly(r) => r.contains(index),
        }
    }

    pub fn read(&self, index: usize) -> (r: u8)
        ensures
            r == self@.read_spec(index as int),
    {
        match self {
            Device::Ram(m) => m.read(index),
            Device::ReadOnly(r) => r.read(index),
        }
    }

    pub fn write(&mut self, index: usize, value: u8)
        ensures
            final(self)@ == old(self)@.write_spec(index as int, value),
    {
        match self {
            Device::Ram(m) => m.write(index, value),
            Device::ReadOnly(r) => r.write(index, value),
        }
    }

    pub fn reset(&mut self)
        ensures
            final(self)@ == old(self)@.reset_spec(),
    {
        match self {
            Device::Ram(m) => m.reset(),
            Device::ReadOnly(r) => r.reset(),
        }
    }
}

/// The device after a whole sequence of writes, applied in order.
pub open spec fn apply_writes(d: DevView, writes: Seq<(int, u8)>) -> DevView
    decreases writes.len(),
{
    if writes.len() == 0 {
        d
    } else {
        apply_writes(d.write_spec(writes[0].0, writes[0].1), writes.drop_first())
    }
}

/// A read-only device observes its initial bytes after any sequence of
/// writes: none of them changes it.
pub proof fn lemma_read_only_unchanged(d: DevView, writes: Seq<(int, u8)>)
    requires
        !d.writable,
    ensures
        apply_writes(d, writes) == d,
    decreases writes.len(),
{
    if writes.len() > 0 {
        lemma_read_only_unchanged(d, writes.drop_first());
    }
}

} // verus!
