//! The assembled console.
//!
//! Wires the processor, the interrupt controller and every memory device
//! onto the canonical address map:
//!
//! | range            | device                                   |
//! |------------------|------------------------------------------|
//! | 0x0000..=0x00FF  | boot ROM (read-only overlay, wins reads) |
//! | 0x0000..=0x7FFF  | cartridge ROM                            |
//! | 0x8000..=0x9FFF  | video RAM                                |
//! | 0xA000..=0xBFFF  | external cartridge RAM                   |
//! | 0xC000..=0xDFFF  | work RAM                                 |
//! | 0xE000..=0xFDFF  | work RAM echo (same backing)             |
//! | 0xFE00..=0xFE9F  | object attribute memory                  |
//! | 0xFF00..=0xFF7F  | I/O registers (gaps read 0xFF)           |
//! | 0xFF80..=0xFFFE  | high RAM                                 |
//! | 0xFFFF           | IE register (held by the PIC)            |
//!
//! Writes fan out to every matching device, so a write into the low 256
//! bytes lands in cartridge ROM even while the boot overlay masks reads.
//! Writing 1 to 0xFF50 removes the overlay. Addresses no device claims
//! (0xFEA0..=0xFEFF and the I/O gaps) read 0xFF.

use vstd::prelude::*;

use crate::bus::{Bus, MapEntry};
use crate::cpu::{spec_cycle, Cpu};
use crate::dev::{zeros, Device, Ram, ReadOnly};
use crate::mmu::Mmu;
use crate::pic::Pic;

verus! {

/// Arena index of the boot-ROM overlay.
pub const BOOT_DEV: usize = 0;

/// Arena index of the cartridge ROM.
pub const ROM_DEV: usize = 1;

/// Arena index of the video RAM.
pub const VRAM_DEV: usize = 2;

/// Arena index of the external cartridge RAM.
pub const ERAM_DEV: usize = 3;

/// Arena index of the work RAM (mapped twice: main and echo).
pub const WRAM_DEV: usize = 4;

/// Arena index of the object attribute memory.
pub const OAM_DEV: usize = 5;

/// Arena index of the high RAM.
pub const HRAM_DEV: usize = 6;

/// Arena index of the joypad register.
pub const CON_DEV: usize = 7;

/// Arena index of the serial registers.
pub const COM_DEV: usize = 8;

/// Arena index of the divider and timer registers.
pub const TIMER_DEV: usize = 9;

/// Arena index of the sound control registers.
pub const SOUND_DEV: usize = 10;

/// Arena index of the waveform RAM.
pub const WAVE_DEV: usize = 11;

/// Arena index of the LCD control registers.
pub const LCD_DEV: usize = 12;

/// Arena index of the boot-ROM disable register.
pub const BANK_DEV: usize = 13;

/// The console's address map, in insertion order. Later entries win
/// reads, so the boot overlay stands after cartridge ROM; it is map
/// entry [`crate::mmu::BOOT_ENTRY`]. Every window is as long as its
/// device, except the work-RAM echo, whose 0x1E00-byte window ends at
/// 0xFDFF and leaves 0xFE00 and above to the entries that follow.
pub open spec fn console_map() -> Seq<MapEntry> {
    seq![
        MapEntry { base: 0x0000, dev: ROM_DEV, len: 0x8000 },
        MapEntry { base: 0x0000, dev: BOOT_DEV, len: 0x100 },
        MapEntry { base: 0x8000, dev: VRAM_DEV, len: 0x2000 },
        MapEntry { base: 0xA000, dev: ERAM_DEV, len: 0x2000 },
        MapEntry { base: 0xC000, dev: WRAM_DEV, len: 0x2000 },
        MapEntry { base: 0xE000, dev: WRAM_DEV, len: 0x1E00 },
        MapEntry { base: 0xFE00, dev: OAM_DEV, len: 0xA0 },
        MapEntry { base: 0xFF00, dev: CON_DEV, len: 1 },
        MapEntry { base: 0xFF01, dev: COM_DEV, len: 2 },
        MapEntry { base: 0xFF04, dev: TIMER_DEV, len: 4 },
        MapEntry { base: 0xFF10, dev: SOUND_DEV, len: 0x17 },
        MapEntry { base: 0xFF30, dev: WAVE_DEV, len: 0x10 },
        MapEntry { base: 0xFF40, dev: LCD_DEV, len: 0x0C },
        MapEntry { base: 0xFF50, dev: BANK_DEV, len: 1 },
        MapEntry { base: 0xFF80, dev: HRAM_DEV, len: 0x7F },
    ]
}

/// The arena a fresh console carries: fourteen devices of the canonical
/// lengths, all writable but the boot overlay.
pub open spec fn console_devs(devs: Seq<crate::dev::DevView>) -> bool {
    &&& devs.len() == 14
    &&& devs[BOOT_DEV as int].bytes.len() == 0x100 && !devs[BOOT_DEV as int].writable
    &&& devs[ROM_DEV as int].bytes.len() == 0x8000 && devs[ROM_DEV as int].writable
    &&& devs[VRAM_DEV as int].bytes.len() == 0x2000 && devs[VRAM_DEV as int].writable
    &&& devs[ERAM_DEV as int].bytes.len() == 0x2000 && devs[ERAM_DEV as int].writable
    &&& devs[WRAM_DEV as int].bytes.len() == 0x2000 && devs[WRAM_DEV as int].writable
    &&& devs[OAM_DEV as int].bytes.len() == 0xA0 && devs[OAM_DEV as int].writable
    &&& devs[HRAM_DEV as int].bytes.len() == 0x7F && devs[HRAM_DEV as int].writable
    &&& devs[CON_DEV as int].bytes.len() == 1 && devs[CON_DEV as int].writable
    &&& devs[COM_DEV as int].bytes.len() == 2 && devs[COM_DEV as int].writable
    &&& devs[TIMER_DEV as int].bytes.len() == 4 && devs[TIMER_DEV as int].writable
    &&& devs[SOUND_DEV as int].bytes.len() == 0x17 && devs[SOUND_DEV as int].writable
    &&& devs[WAVE_DEV as int].bytes.len() == 0x10 && devs[WAVE_DEV as int].writable
    &&& devs[LCD_DEV as int].bytes.len() == 0x0C && devs[LCD_DEV as int].writable
    &&& devs[BANK_DEV as int].bytes.len() == 1 && devs[BANK_DEV as int].writable
}

/// How the console loads a cartridge image: up to 32 KiB is copied into
/// cartridge ROM, the rest of the device is left as it was.
pub open spec fn loaded(dst: Seq<u8>, src: Seq<u8>) -> Seq<u8> {
    Seq::new(dst.len(), |i: int| if i < src.len() && i < 0x8000 {
        src[i]
    } else {
        dst[i]
    })
}

/// What a cartridge load reports: an image of exactly 32 KiB, a short
/// one whose remainder of the ROM is left untouched, or an over-long one
/// whose excess is dropped.
#[derive(Clone, Copy, PartialEq, Eq, Structural, Debug)]
pub enum LoadOutcome {
    Exact,
    Short { missing: usize },
    Truncated { excess: usize },
}

/// The console: the SM83 core and the memory fabric it transacts on.
pub struct GameBoy {
    pub cpu: Cpu,
    pub mmu: Mmu,
}

/// Installs the canonical address map onto a bus whose map is empty.
fn install_map(bus: &mut Bus)
    requires
        old(bus)@.entries.len() == 0,
    ensures
        final(bus)@.entries == console_map(),
        final(bus)@.devs == old(bus)@.devs,
{
    bus.map_dev(0x0000, ROM_DEV, 0x8000);
    bus.map_dev(0x0000, BOOT_DEV, 0x100);
    bus.map_dev(0x8000, VRAM_DEV, 0x2000);
    bus.map_dev(0xA000, ERAM_DEV, 0x2000);
    bus.map_dev(0xC000, WRAM_DEV, 0x2000);
    bus.map_dev(0xE000, WRAM_DEV, 0x1E00);
    bus.map_dev(0xFE00, OAM_DEV, 0xA0);
    bus.map_dev(0xFF00, CON_DEV, 1);
    bus.map_dev(0xFF01, COM_DEV, 2);
    bus.map_dev(0xFF04, TIMER_DEV, 4);
    bus.map_dev(0xFF10, SOUND_DEV, 0x17);
    bus.map_dev(0xFF30, WAVE_DEV, 0x10);
    bus.map_dev(0xFF40, LCD_DEV, 0x0C);
    bus.map_dev(0xFF50, BANK_DEV, 1);
    bus.map_dev(0xFF80, HRAM_DEV, 0x7F);
    proof {
        assert(bus@.entries =~= console_map());
    }
}

/// On the canonical map with the overlay installed, a read of the low
/// 256 bytes observes the boot image, whatever the cartridge ROM holds:
/// the overlay is mapped after it and wins.
pub proof fn lemma_boot_overlay_masks(v: crate::bus::BusView, addr: u16)
    requires
        v.entries == console_map(),
        console_devs(v.devs),
        v.devs[BOOT_DEV as int].bytes == boot_image(),
        addr < 0x100,
    ensures
        v.read_spec(addr) == boot_image()[addr as int],
{
    assert(boot_image().len() == 0x100);
    assert(v.hits(1, addr));
    assert forall|i: int| 1 < i < 15 implies !v.hits(i, addr) by {
        assert(v.entries[i].base >= 0x8000);
    }
    assert(v.winner(addr) == 1) by {
        reveal_with_fuel(crate::bus::BusView::winner_from, 16);
    }
}

/// Once the overlay is removed, the same read observes cartridge ROM.
pub proof fn lemma_boot_uncovered(v: crate::bus::BusView, addr: u16)
    requires
        v.entries == console_map().remove(crate::mmu::BOOT_ENTRY as int),
        console_devs(v.devs),
        addr < 0x100,
    ensures
        v.read_spec(addr) == v.devs[ROM_DEV as int].bytes[addr as int],
{
    assert(v.hits(0, addr));
    assert forall|i: int| 0 < i < 14 implies !v.hits(i, addr) by {
        assert(v.entries[i] == console_map()[i + 1]);
        assert(v.entries[i].base >= 0x8000);
    }
    assert(v.winner(addr) == 0) by {
        reveal_with_fuel(crate::bus::BusView::winner_from, 16);
    }
}

/// The addresses the canonical map leaves unmapped: the gap above
/// object attribute memory and the I/O gaps. (0xFF0F and 0xFFFF are
/// not listed: the interrupt controller answers them, not a bus
/// device.)
pub open spec fn unmapped_gap(addr: u16) -> bool {
    ||| 0xFEA0 <= addr <= 0xFEFF
    ||| addr == 0xFF03
    ||| 0xFF08 <= addr <= 0xFF0E
    ||| 0xFF27 <= addr <= 0xFF2F
    ||| 0xFF4C <= addr <= 0xFF4F
    ||| 0xFF51 <= addr <= 0xFF7F
}

/// No entry of the canonical map answers an unmapped address: a read
/// there observes 0xFF, and a write leaves the whole fabric — every
/// device and both interrupt registers — unchanged.
pub proof fn lemma_gap_unmapped(v: crate::mmu::MmuView, addr: u16, value: u8)
    requires
        v.bus.entries == console_map(),
        unmapped_gap(addr),
    ensures
        v.read_spec(addr) == 0xFF,
        v.write_spec(addr, value) == v,
{
    assert forall|i: int| !v.bus.hits(i, addr) by {
        if 0 <= i < 15 {
            assert(v.bus.entries[i] == console_map()[i]);
        }
    }
    crate::bus::lemma_winner_props(v.bus, v.bus.entries.len() as int, addr);
    crate::bus::lemma_write_unmapped(v.bus, addr, value);
}

impl GameBoy {
    /// What every public operation of the console preserves: the CPU's
    /// flag invariant.
    pub open spec fn wf(self) -> bool {
        self.cpu.wf()
    }

    /// A fresh console: the boot overlay embedded and mapped, every
    /// memory zeroed, the CPU at its power-on state.
    pub fn new() -> (r: GameBoy)
        ensures
            r.wf(),
            r.cpu == Cpu::power_on(),
            r.mmu@.boot,
            r.mmu@.ie == 0 && r.mmu@.iflag == 0,
            r.mmu@.bus.entries == console_map(),
            console_devs(r.mmu@.bus.devs),
            r.mmu@.bus.devs[BOOT_DEV as int].bytes == boot_image(),
            forall|i: int|
                0 <= i < 14 && i != BOOT_DEV ==> (#[trigger] r.mmu@.bus.devs[i]).bytes == zeros(
                    r.mmu@.bus.devs[i].bytes.len() as int,
                ),
    {
        let mut bus = Bus::new();
        let b0 = bus.add_dev(Device::ReadOnly(ReadOnly::from(Ram::from_bytes(boot_rom()))));
        let b1 = bus.add_dev(Device::Ram(Ram::zeroed(0x8000)));
        let b2 = bus.add_dev(Device::Ram(Ram::zeroed(0x2000)));
        let b3 = bus.add_dev(Device::Ram(Ram::zeroed(0x2000)));
        let b4 = bus.add_dev(Device::Ram(Ram::zeroed(0x2000)));
        let b5 = bus.add_dev(Device::Ram(Ram::zeroed(0xA0)));
        let b6 = bus.add_dev(Device::Ram(Ram::zeroed(0x7F)));
        let b7 = bus.add_dev(Device::Ram(Ram::zeroed(1)));
        let b8 = bus.add_dev(Device::Ram(Ram::zeroed(2)));
        let b9 = bus.add_dev(Device::Ram(Ram::zeroed(4)));
        let b10 = bus.add_dev(Device::Ram(Ram::zeroed(0x17)));
        let b11 = bus.add_dev(Device::Ram(Ram::zeroed(0x10)));
        let b12 = bus.add_dev(Device::Ram(Ram::zeroed(0x0C)));
        let b13 = bus.add_dev(Device::Ram(Ram::zeroed(1)));
        install_map(&mut bus);
        let mmu = Mmu::assemble(bus, Pic::new(), true);
        let r = GameBoy { cpu: Cpu::new(), mmu };
        proof {
            let devs = r.mmu@.bus.devs;
            assert(devs.len() == 14);
            assert(devs[0].bytes == boot_image() && !devs[0].writable);
            assert(boot_image().len() == 0x100);
            assert(devs[1].bytes =~= zeros(0x8000) && devs[1].writable);
            assert(devs[2].bytes =~= zeros(0x2000) && devs[2].writable);
            assert(devs[3].bytes =~= zeros(0x2000) && devs[3].writable);
            assert(devs[4].bytes =~= zeros(0x2000) && devs[4].writable);
            assert(devs[5].bytes =~= zeros(0xA0) && devs[5].writable);
            assert(devs[6].bytes =~= zeros(0x7F) && devs[6].writable);
            assert(devs[7].bytes =~= zeros(1) && devs[7].writable);
            assert(devs[8].bytes =~= zeros(2) && devs[8].writable);
            assert(devs[9].bytes =~= zeros(4) && devs[9].writable);
            assert(devs[10].bytes =~= zeros(0x17) && devs[10].writable);
            assert(devs[11].bytes =~= zeros(0x10) && devs[11].writable);
            assert(devs[12].bytes =~= zeros(0x0C) && devs[12].writable);
            assert(devs[13].bytes =~= zeros(1) && devs[13].writable);
            assert forall|i: int| 0 <= i < 14 && i != BOOT_DEV implies (#[trigger] devs[i]).bytes
                =~= zeros(devs[i].bytes.len() as int) by {
            }
        }
        r
    }

    /// Returns the console to its reset state: PC zeroed, run state and
    /// interrupt registers cleared, the boot overlay re-embedded and the
    /// canonical map re-installed. Cartridge ROM and the other memories
    /// keep their contents, as the hardware leaves them.
    pub fn reset(&mut self)
        requires
            old(self).wf(),
            BOOT_DEV < old(self).mmu@.bus.devs.len(),
        ensures
            final(self).wf(),
            final(self).cpu == (Cpu {
                regs: crate::cpu::Registers { pc: 0, ..old(self).cpu.regs },
                ..Cpu::power_on()
            }),
            final(self).mmu@.boot,
            final(self).mmu@.ie == 0 && final(self).mmu@.iflag == 0,
            final(self).mmu@.bus.entries == console_map(),
            final(self).mmu@.bus.devs == old(self).mmu@.bus.devs.update(
                BOOT_DEV as int,
                (crate::dev::DevView { bytes: boot_image(), writable: false }),
            ),
    {
        self.cpu.reset();
        self.mmu.pic.reset();
        self.mmu.bus.dev_replace(
            BOOT_DEV,
            Device::ReadOnly(ReadOnly::from(Ram::from_bytes(boot_rom()))),
        );
        self.mmu.bus.clear_map();
        install_map(&mut self.mmu.bus);
        self.mmu.set_boot_mapped();
        proof {
            assert(self.mmu@.bus.devs =~= old(self).mmu@.bus.devs.update(
                BOOT_DEV as int,
                (crate::dev::DevView { bytes: boot_image(), writable: false }),
            ));
        }
    }

    /// Copies a cartridge image into cartridge ROM: at most 32 KiB, the
    /// rest of the device untouched, and reports whether the image was
    /// exact, short, or truncated.
    pub fn load(&mut self, rom: &[u8]) -> (r: LoadOutcome)
        requires
            ROM_DEV < old(self).mmu@.bus.devs.len(),
            old(self).mmu@.bus.devs[ROM_DEV as int].writable,
        ensures
            final(self).cpu == old(self).cpu,
            final(self).mmu@.ie == old(self).mmu@.ie,
            final(self).mmu@.iflag == old(self).mmu@.iflag,
            final(self).mmu@.boot == old(self).mmu@.boot,
            final(self).mmu@.bus.entries == old(self).mmu@.bus.entries,
            final(self).mmu@.bus.devs == old(self).mmu@.bus.devs.update(
                ROM_DEV as int,
                (crate::dev::DevView {
                    bytes: loaded(old(self).mmu@.bus.devs[ROM_DEV as int].bytes, rom@),
                    writable: old(self).mmu@.bus.devs[ROM_DEV as int].writable,
                }),
            ),
            r == (if rom@.len() < 0x8000 {
                LoadOutcome::Short { missing: (0x8000 - rom@.len()) as usize }
            } else if rom@.len() > 0x8000 {
                LoadOutcome::Truncated { excess: (rom@.len() - 0x8000) as usize }
            } else {
                LoadOutcome::Exact
            }),
    {
        let ghost devs0 = self.mmu@.bus.devs;
        let n = if rom.len() < 0x8000 {
            rom.len()
        } else {
            0x8000
        };
        let mut i: usize = 0;
        while i < n
            invariant
                n <= rom@.len() && n <= 0x8000,
                n == (if rom@.len() < 0x8000 {
                    rom@.len() as int
                } else {
                    0x8000
                }),
                i <= n,
                ROM_DEV < devs0.len(),
                devs0[ROM_DEV as int].writable,
                self.mmu@.bus.devs.len() == devs0.len(),
                self.cpu == old(self).cpu,
                self.mmu@.ie == old(self).mmu@.ie,
                self.mmu@.iflag == old(self).mmu@.iflag,
                self.mmu@.boot == old(self).mmu@.boot,
                self.mmu@.bus.entries == old(self).mmu@.bus.entries,
                devs0 == old(self).mmu@.bus.devs,
                forall|d: int|
                    0 <= d < devs0.len() && d != ROM_DEV ==> #[trigger] self.mmu@.bus.devs[d]
                        == devs0[d],
                self.mmu@.bus.devs[ROM_DEV as int].writable == devs0[ROM_DEV as int].writable,
                self.mmu@.bus.devs[ROM_DEV as int].bytes.len() == devs0[ROM_DEV as int].bytes.len(),
                forall|j: int|
                    0 <= j < devs0[ROM_DEV as int].bytes.len() ==> #[trigger] self.mmu@.bus.devs[
                        ROM_DEV as int
                    ].bytes[j] == (if j < i {
                        loaded(devs0[ROM_DEV as int].bytes, rom@)[j]
                    } else {
                        devs0[ROM_DEV as int].bytes[j]
                    }),
            decreases n - i,
        {
            let byte = rom[i];
            self.mmu.bus.dev_write(ROM_DEV, i, byte);
            i += 1;
        }
        proof {
            assert(self.mmu@.bus.devs[ROM_DEV as int].bytes =~= loaded(
                devs0[ROM_DEV as int].bytes,
                rom@,
            ));
            assert(self.mmu@.bus.devs =~= devs0.update(
                ROM_DEV as int,
                (crate::dev::DevView {
                    bytes: loaded(devs0[ROM_DEV as int].bytes, rom@),
                    writable: devs0[ROM_DEV as int].writable,
                }),
            ));
        }
        if rom.len() < 0x8000 {
            LoadOutcome::Short { missing: 0x8000 - rom.len() }
        } else if rom.len() > 0x8000 {
            LoadOutcome::Truncated { excess: rom.len() - 0x8000 }
        } else {
            LoadOutcome::Exact
        }
    }

    /// Advances the whole machine by one M-cycle, as
    /// [`crate::cpu::spec_cycle`] describes.
    pub fn step(&mut self)
        requires
            old(self).wf(),
        ensures
            ({
                let r = spec_cycle(old(self).cpu, old(self).mmu@);
                final(self).cpu == r.0 && final(self).mmu@ == r.1
            }),
            final(self).wf(),
    {
        self.cpu.cycle(&mut self.mmu);
    }

    /// Whether the CPU is neither halted nor stopped.
    pub fn enabled(&self) -> (r: bool)
        ensures
            r == (self.cpu.status is Enabled),
    {
        self.cpu.enabled()
    }

    /// Runs the machine cycle by cycle until the CPU halts or stops,
    /// or until the given cycle budget runs out (every loop here must
    /// provably terminate); returns the cycles left. The machine ends
    /// exactly where `cycles - left` machine cycles leave it, and a
    /// positive return means the CPU stopped being enabled there; a zero
    /// return with the CPU still enabled means the budget ran out first.
    pub fn start(&mut self, cycles: u64) -> (left: u64)
        requires
            old(self).wf(),
        ensures
            final(self).wf(),
            left <= cycles,
            ({
                let r = crate::cpu::spec_cycles(
                    old(self).cpu,
                    old(self).mmu@,
                    (cycles - left) as nat,
                );
                final(self).cpu == r.0 && final(self).mmu@ == r.1
            }),
            left > 0 ==> !(final(self).cpu.status is Enabled),
    {
        let mut left: u64 = cycles;
        while left > 0
            invariant
                self.wf(),
                left <= cycles,
                ({
                    let r = crate::cpu::spec_cycles(
                        old(self).cpu,
                        old(self).mmu@,
                        (cycles - left) as nat,
                    );
                    self.cpu == r.0 && self.mmu@ == r.1
                }),
            decreases left,
        {
            if !self.enabled() {
                return left;
            }
            proof {
                crate::cpu::lemma_spec_cycles_snoc(
                    old(self).cpu,
                    old(self).mmu@,
                    (cycles - left) as nat,
                );
            }
            self.step();
            left = left - 1;
        }
        left
    }

    /// Reads an address as the CPU would.
    pub fn read(&self, addr: u16) -> (r: u8)
        ensures
            r == self.mmu@.read_spec(addr),
    {
        self.mmu.read(addr)
    }

    /// Writes an address as the CPU would: the write fans out to every
    /// matching device.
    pub fn write(&mut self, addr: u16, value: u8)
        ensures
            final(self).mmu@ == old(self).mmu@.write_spec(addr, value),
            final(self).cpu == old(self).cpu,
    {
        self.mmu.write(addr, value);
    }

    /// Reads one arena device at a device-local index, bypassing the
    /// address map; unknown devices and indices read 0xFF.
    pub fn dev_byte(&self, dev: usize, index: usize) -> (r: u8)
        ensures
            r == (if dev < self.mmu@.bus.devs.len() {
                self.mmu@.bus.devs[dev as int].read_spec(index as int)
            } else {
                0xFF
            }),
    {
        if dev < self.mmu.bus.dev_count() {
            self.mmu.bus.dev_read(dev, index)
        } else {
            0xFF
        }
    }
}

/// The fixed 256-byte boot image, as contracts see it: what the boot
/// overlay holds, byte for byte.
pub open spec fn boot_image() -> Seq<u8> {
    seq![
        0x31u8, 0xfe, 0xff, 0xaf, 0x21, 0xff, 0x9f, 0x32, 0xcb, 0x7c, 0x20, 0xfb, 0x21, 0x26,
        0xff, 0x0e, 0x11, 0x3e, 0x80, 0x32, 0xe2, 0x0c, 0x3e, 0xf3, 0xe2, 0x32, 0x3e, 0x77,
        0x77, 0x3e, 0xfc, 0xe0, 0x47, 0x11, 0x04, 0x01, 0x21, 0x10, 0x80, 0x1a, 0xcd, 0x95,
        0x00, 0xcd, 0x96, 0x00, 0x13, 0x7b, 0xfe, 0x34, 0x20, 0xf3, 0x11, 0xd8, 0x00, 0x06,
        0x08, 0x1a, 0x13, 0x22, 0x23, 0x05, 0x20, 0xf9, 0x3e, 0x19, 0xea, 0x10, 0x99, 0x21,
        0x2f, 0x99, 0x0e, 0x0c, 0x3d, 0x28, 0x08, 0x32, 0x0d, 0x20, 0xf9, 0x2e, 0x0f, 0x18,
        0xf3, 0x67, 0x3e, 0x64, 0x57, 0xe0, 0x42, 0x3e, 0x91, 0xe0, 0x40, 0x04, 0x1e, 0x02,
        0x0e, 0x0c, 0xf0, 0x44, 0xfe, 0x90, 0x20, 0xfa, 0x0d, 0x20, 0xf7, 0x1d, 0x20, 0xf2,
        0x0e, 0x13, 0x24, 0x7c, 0x1e, 0x83, 0xfe, 0x62, 0x28, 0x06, 0x1e, 0xc1, 0xfe, 0x64,
        0x20, 0x06, 0x7b, 0xe2, 0x0c, 0x3e, 0x87, 0xe2, 0xf0, 0x42, 0x90, 0xe0, 0x42, 0x15,
        0x20, 0xd2, 0x05, 0x20, 0x4f, 0x16, 0x20, 0x18, 0xcb, 0x4f, 0x06, 0x04, 0xc5, 0xcb,
        0x11, 0x17, 0xc1, 0xcb, 0x11, 0x17, 0x05, 0x20, 0xf5, 0x22, 0x23, 0x22, 0x23, 0xc9,
        0xce, 0xed, 0x66, 0x66, 0xcc, 0x0d, 0x00, 0x0b, 0x03, 0x73, 0x00, 0x83, 0x00, 0x0c,
        0x00, 0x0d, 0x00, 0x08, 0x11, 0x1f, 0x88, 0x89, 0x00, 0x0e, 0xdc, 0xcc, 0x6e, 0xe6,
        0xdd, 0xdd, 0xd9, 0x99, 0xbb, 0xbb, 0x67, 0x63, 0x6e, 0x0e, 0xec, 0xcc, 0xdd, 0xdc,
        0x99, 0x9f, 0xbb, 0xb9, 0x33, 0x3e, 0x3c, 0x42, 0xb9, 0xa5, 0xb9, 0xa5, 0x42, 0x3c,
        0x21, 0x04, 0x01, 0x11, 0xa8, 0x00, 0x1a, 0x13, 0xbe, 0x20, 0xfe, 0x23, 0x7d, 0xfe,
        0x34, 0x20, 0xf5, 0x06, 0x19, 0x78, 0x86, 0x23, 0x05, 0x20, 0xfb, 0x86, 0x20, 0xfe,
        0x3e, 0x01, 0xe0, 0x50,
    ]
}

/// The fixed 256-byte boot image, embedded verbatim and mapped at reset.
#[verifier::rlimit(100)]
pub fn boot_rom() -> (r: Vec<u8>)
    ensures
        r@ == boot_image(),
{
    let r: Vec<u8> = vec![
        0x31, 0xfe, 0xff, 0xaf, 0x21, 0xff, 0x9f, 0x32, 0xcb, 0x7c, 0x20, 0xfb, 0x21, 0x26, 0xff,
        0x0e, 0x11, 0x3e, 0x80, 0x32, 0xe2, 0x0c, 0x3e, 0xf3, 0xe2, 0x32, 0x3e, 0x77, 0x77, 0x3e,
        0xfc, 0xe0, 0x47, 0x11, 0x04, 0x01, 0x21, 0x10, 0x80, 0x1a, 0xcd, 0x95, 0x00, 0xcd, 0x96,
        0x00, 0x13, 0x7b, 0xfe, 0x34, 0x20, 0xf3, 0x11, 0xd8, 0x00, 0x06, 0x08, 0x1a, 0x13, 0x22,
        0x23, 0x05, 0x20, 0xf9, 0x3e, 0x19, 0xea, 0x10, 0x99, 0x21, 0x2f, 0x99, 0x0e, 0x0c, 0x3d,
        0x28, 0x08, 0x32, 0x0d, 0x20, 0xf9, 0x2e, 0x0f, 0x18, 0xf3, 0x67, 0x3e, 0x64, 0x57, 0xe0,
        0x42, 0x3e, 0x91, 0xe0, 0x40, 0x04, 0x1e, 0x02, 0x0e, 0x0c, 0xf0, 0x44, 0xfe, 0x90, 0x20,
        0xfa, 0x0d, 0x20, 0xf7, 0x1d, 0x20, 0xf2, 0x0e, 0x13, 0x24, 0x7c, 0x1e, 0x83, 0xfe, 0x62,
        0x28, 0x06, 0x1e, 0xc1, 0xfe, 0x64, 0x20, 0x06, 0x7b, 0xe2, 0x0c, 0x3e, 0x87, 0xe2, 0xf0,
        0x42, 0x90, 0xe0, 0x42, 0x15, 0x20, 0xd2, 0x05, 0x20, 0x4f, 0x16, 0x20, 0x18, 0xcb, 0x4f,
        0x06, 0x04, 0xc5, 0xcb, 0x11, 0x17, 0xc1, 0xcb, 0x11, 0x17, 0x05, 0x20, 0xf5, 0x22, 0x23,
        0x22, 0x23, 0xc9, 0xce, 0xed, 0x66, 0x66, 0xcc, 0x0d, 0x00, 0x0b, 0x03, 0x73, 0x00, 0x83,
        0x00, 0x0c, 0x00, 0x0d, 0x00, 0x08, 0x11, 0x1f, 0x88, 0x89, 0x00, 0x0e, 0xdc, 0xcc, 0x6e,
        0xe6, 0xdd, 0xdd, 0xd9, 0x99, 0xbb, 0xbb, 0x67, 0x63, 0x6e, 0x0e, 0xec, 0xcc, 0xdd, 0xdc,
        0x99, 0x9f, 0xbb, 0xb9, 0x33, 0x3e, 0x3c, 0x42, 0xb9, 0xa5, 0xb9, 0xa5, 0x42, 0x3c, 0x21,
        0x04, 0x01, 0x11, 0xa8, 0x00, 0x1a, 0x13, 0xbe, 0x20, 0xfe, 0x23, 0x7d, 0xfe, 0x34, 0x20,
        0xf5, 0x06, 0x19, 0x78, 0x86, 0x23, 0x05, 0x20, 0xfb, 0x86, 0x20, 0xfe, 0x3e, 0x01, 0xe0,
        0x50,
    ];
    proof {
        assert(r@ =~= boot_image());
    }
    r
}

} // verus!
