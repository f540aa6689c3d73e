//! Cartridge memory bank controllers.
//!
//! A controller presents two logical devices over the cartridge: the ROM
//! window (bus addresses 0x0000..=0x7FFF, device-local indices 0..0x8000)
//! and the RAM window (0xA000..=0xBFFF, indices 0..0x2000). Reads always
//! reflect the current banking state; writes into the ROM window mutate
//! the banking registers instead of storing bytes.

use vstd::prelude::*;

use crate::dev::Ram;

verus! {

/// A cartridge without a controller: a flat 32 KiB ROM view plus an
/// optional RAM.
pub struct NoMbc {
    rom: Ram,
    ram: Ram,
}

impl NoMbc {
    pub fn with(rom: Ram, ram: Ram) -> (r: NoMbc)
        ensures
            r.rom_bytes() == rom@,
            r.ram_bytes() == ram@,
    {
        NoMbc { rom, ram }
    }

    pub closed spec fn rom_bytes(self) -> Seq<u8> {
        self.rom@
    }

    pub closed spec fn ram_bytes(self) -> Seq<u8> {
        self.ram@
    }

    /// Reads the flat ROM; indices past its end observe 0xFF.
    pub fn rom_read(&self, index: usize) -> (r: u8)
        ensures
            r == (if index < self.rom_bytes().len() {
                self.rom_bytes()[index as int]
            } else {
                0xFF
            }),
    {
        self.rom.read(index)
    }

    /// ROM writes are dropped: there is no controller to latch them.
    pub fn rom_write(&mut self, index: usize, value: u8)
        ensures
            *final(self) == *old(self),
    {
    }

    pub fn ram_read(&self, index: usize) -> (r: u8)
        ensures
            r == (if index < self.ram_bytes().len() {
                self.ram_bytes()[index as int]
            } else {
                0xFF
            }),
    {
        self.ram.read(index)
    }

    pub fn ram_write(&mut self, index: usize, value: u8)
        ensures
            final(self).ram_bytes() == (if index < old(self).ram_bytes().len() {
                old(self).ram_bytes().update(index as int, value)
            } else {
                old(self).ram_bytes()
            }),
            final(self).rom_bytes() == old(self).rom_bytes(),
    {
        self.ram.write(index, value);
    }
}

/// The MBC1 controller: a 5-bit ROM bank register, a 2-bit upper bank
/// register, a mode flag and a RAM-enable latch.
pub struct Mbc1 {
    rom: Ram,
    ram: Ram,
    /// Low five bank bits; a write of zero latches to one.
    lower: u8,
    /// Upper two bank bits; also the RAM bank in mode 1.
    upper: u8,
    /// Mode flag: in mode 1 the upper bits remap the low ROM window and
    /// select the RAM bank.
    mode: bool,
    /// RAM accesses outside an enabled window read 0xFF and drop writes.
    ram_enable: bool,
}

impl Mbc1 {
    /// The banking registers a well-formed controller maintains.
    pub closed spec fn wf(self) -> bool {
        &&& 1 <= self.lower < 0x20
        &&& self.upper < 4
        &&& self.rom@.len() > 0
    }

    pub closed spec fn rom_bytes(self) -> Seq<u8> {
        self.rom@
    }

    pub closed spec fn ram_bytes(self) -> Seq<u8> {
        self.ram@
    }

    pub closed spec fn lower_spec(self) -> u8 {
        self.lower
    }

    pub closed spec fn upper_spec(self) -> u8 {
        self.upper
    }

    pub closed spec fn mode_spec(self) -> bool {
        self.mode
    }

    pub closed spec fn ram_enabled_spec(self) -> bool {
        self.ram_enable
    }

    /// The ROM bank serving `index`: the combined bank for the switchable
    /// window, and in mode 1 the upper bits alone for the low window.
    pub open spec fn rom_bank_spec(self, index: int) -> int {
        if index < 0x4000 {
            if self.mode_spec() {
                (self.upper_spec() as int) * 0x20
            } else {
                0
            }
        } else {
            (self.upper_spec() as int) * 0x20 + self.lower_spec()
        }
    }

    /// The cartridge ROM byte serving window index `index`, modulo the
    /// ROM's actual size.
    pub open spec fn rom_addr_spec(self, index: int) -> int {
        (self.rom_bank_spec(index) * 0x4000 + (index % 0x4000)) % (self.rom_bytes().len() as int)
    }

    /// The RAM bank selected: the upper bits in mode 1, bank 0 otherwise.
    pub open spec fn ram_bank_spec(self) -> int {
        if self.mode_spec() {
            self.upper_spec() as int
        } else {
            0
        }
    }

    pub open spec fn ram_addr_spec(self, index: int) -> int {
        (self.ram_bank_spec() * 0x2000 + index) % (self.ram_bytes().len() as int)
    }

    pub fn with(rom: Ram, ram: Ram) -> (r: Mbc1)
        requires
            rom@.len() > 0,
        ensures
            r.wf(),
            r.rom_bytes() == rom@,
            r.ram_bytes() == ram@,
            r.lower_spec() == 1,
            r.upper_spec() == 0,
            !r.mode_spec(),
            !r.ram_enabled_spec(),
    {
        Mbc1 { rom, ram, lower: 1, upper: 0, mode: false, ram_enable: false }
    }

    /// Reads the ROM window at `index`, through the current banking state.
    pub fn rom_read(&self, index: usize) -> (r: u8)
        requires
            self.wf(),
            index < 0x8000,
        ensures
            r == self.rom_bytes()[self.rom_addr_spec(index as int)],
    {
        let bank: usize = if index < 0x4000 {
            if self.mode {
                (self.upper as usize) * 0x20
            } else {
                0
            }
        } else {
            (self.upper as usize) * 0x20 + (self.lower as usize)
        };
        let addr = (bank * 0x4000 + (index % 0x4000)) % self.rom.len();
        self.rom.read(addr)
    }

    /// A write into the ROM window: latches the banking register the
    /// index selects. A bank-number write of zero latches bank one.
    pub fn rom_write(&mut self, index: usize, value: u8)
        requires
            old(self).wf(),
            index < 0x8000,
        ensures
            final(self).wf(),
            final(self).rom_bytes() == old(self).rom_bytes(),
            final(self).ram_bytes() == old(self).ram_bytes(),
            final(self).ram_enabled_spec() == (if index < 0x2000 {
                value & 0x0F == 0x0A
            } else {
                old(self).ram_enabled_spec()
            }),
            final(self).lower_spec() == (if 0x2000 <= index < 0x4000 {
                if value & 0x1F == 0 {
                    1
                } else {
                    value & 0x1F
                }
            } else {
                old(self).lower_spec()
            }),
            0x2000 <= index < 0x4000 && value & 0x1F == 0 ==> final(self).lower_spec() == 1,
            final(self).upper_spec() == (if 0x4000 <= index < 0x6000 {
                value & 0x03
            } else {
                old(self).upper_spec()
            }),
            final(self).mode_spec() == (if 0x6000 <= index {
                value & 0x01 == 1
            } else {
                old(self).mode_spec()
            }),
    {
        if index < 0x2000 {
            self.ram_enable = value & 0x0F == 0x0A;
        } else if index < 0x4000 {
            let bank = value & 0x1F;
            self.lower = if bank == 0 {
                1
            } else {
                bank
            };
            proof {
                assert(value & 0x1F < 0x20) by (bit_vector);
            }
        } else if index < 0x6000 {
            self.upper = value & 0x03;
            proof {
                assert(value & 0x03 < 4) by (bit_vector);
            }
        } else {
            self.mode = value & 0x01 == 1;
        }
    }

    /// Reads the RAM window at `index`: the selected bank's byte when RAM
    /// is enabled and present, 0xFF otherwise.
    pub fn ram_read(&self, index: usize) -> (r: u8)
        requires
            self.wf(),
            index < 0x2000,
        ensures
            r == (if self.ram_enabled_spec() && self.ram_bytes().len() > 0 {
                self.ram_bytes()[self.ram_addr_spec(index as int)]
            } else {
                0xFF
            }),
    {
        if self.ram_enable && self.ram.len() > 0 {
            let bank: usize = if self.mode {
                self.upper as usize
            } else {
                0
            };
            let addr = (bank * 0x2000 + index) % self.ram.len();
            self.ram.read(addr)
        } else {
            0xFF
        }
    }

    /// Writes the RAM window at `index`; dropped when RAM is disabled or
    /// absent.
    pub fn ram_write(&mut self, index: usize, value: u8)
        requires
            old(self).wf(),
            index < 0x2000,
        ensures
            final(self).wf(),
            final(self).rom_bytes() == old(self).rom_bytes(),
            final(self).lower_spec() == old(self).lower_spec(),
            final(self).upper_spec() == old(self).upper_spec(),
            final(self).mode_spec() == old(self).mode_spec(),
            final(self).ram_enabled_spec() == old(self).ram_enabled_spec(),
            final(self).ram_bytes() == (if old(self).ram_enabled_spec() && old(
                self,
            ).ram_bytes().len() > 0 {
                old(self).ram_bytes().update(old(self).ram_addr_spec(index as int), value)
            } else {
                old(self).ram_bytes()
            }),
    {
        if self.ram_enable && self.ram.len() > 0 {
            let bank: usize = if self.mode {
                self.upper as usize
            } else {
                0
            };
            let addr = (bank * 0x2000 + index) % self.ram.len();
            self.ram.write(addr, value);
        }
    }

    /// Returns the banking registers to their power-on state; the ROM and
    /// RAM contents are kept.
    pub fn reset(&mut self)
        ensures
            final(self).wf() == (old(self).rom_bytes().len() > 0),
            final(self).rom_bytes() == old(self).rom_bytes(),
            final(self).ram_bytes() == old(self).ram_bytes(),
            final(self).lower_spec() == 1,
            final(self).upper_spec() == 0,
            !final(self).mode_spec(),
            !final(self).ram_enabled_spec(),
    {
        self.lower = 1;
        self.upper = 0;
        self.mode = false;
        self.ram_enable = false;
    }

    /// The combined ROM bank currently serving the switchable window.
    pub fn rom_bank(&self) -> (r: u8)
        requires
            self.wf(),
        ensures
            r == self.upper_spec() * 0x20 + self.lower_spec(),
    {
        self.upper * 0x20 + self.lower
    }
}

} // verus!
