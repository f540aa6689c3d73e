//! The console's memory fabric.
//!
//! Bundles the main address bus with the interrupt controller and the
//! boot-overlay latch, so that a single read/write pair serves every CPU
//! bus transaction:
//!
//! - IE is observable at 0xFFFF and IF at 0xFF0F, over whatever the bus
//!   maps there;
//! - writing a value with bit 0 set to 0xFF50 removes the boot-ROM
//!   overlay (map entry [`BOOT_ENTRY`]), once, so cartridge ROM becomes
//!   visible at 0x0000..=0x00FF;
//! - everything else decodes through the bus, writes fanning out to all
//!   matching devices.

use vstd::prelude::*;

use crate::bus::{Bus, BusView};
use crate::pic::Pic;

verus! {

/// The map-entry index of the boot-ROM overlay in the canonical console
/// map: cartridge ROM is installed first, the overlay second so that it
/// wins reads of the low 256 bytes.
pub const BOOT_ENTRY: usize = 1;

/// Address of the IE register.
pub const IE_ADDR: u16 = 0xFFFF;

/// Address of the IF register.
pub const IF_ADDR: u16 = 0xFF0F;

/// Address of the boot-overlay disable register.
pub const BOOT_OFF_ADDR: u16 = 0xFF50;

/// The fabric as contracts see it.
pub struct MmuView {
    pub bus: BusView,
    pub ie: u8,
    pub iflag: u8,
    /// Whether the boot overlay is still installed as map entry
    /// [`BOOT_ENTRY`].
    pub boot: bool,
}

impl MmuView {
    /// Whether a write disables the boot overlay.
    pub open spec fn disables_boot(self, addr: u16, value: u8) -> bool {
        addr == BOOT_OFF_ADDR && value & 1 == 1 && self.boot && self.bus.entries.len() > BOOT_ENTRY
    }

    /// What a read at `addr` observes.
    pub open spec fn read_spec(self, addr: u16) -> u8 {
        if addr == IE_ADDR {
            self.ie
        } else if addr == IF_ADDR {
            self.iflag
        } else {
            self.bus.read_spec(addr)
        }
    }

    /// The fabric after a write at `addr`.
    pub open spec fn write_spec(self, addr: u16, value: u8) -> MmuView {
        let b = self.bus.write_spec(addr, value);
        MmuView {
            bus: if self.disables_boot(addr, value) {
                BusView { entries: b.entries.remove(BOOT_ENTRY as int), ..b }
            } else {
                b
            },
            ie: if addr == IE_ADDR {
                value
            } else {
                self.ie
            },
            iflag: if addr == IF_ADDR {
                value
            } else {
                self.iflag
            },
            boot: self.boot && !self.disables_boot(addr, value),
        }
    }

    /// Whether any interrupt source is both enabled and requested.
    pub open spec fn pending_spec(self) -> bool {
        self.ie & self.iflag != 0
    }
}

/// The memory fabric: the bus, the interrupt registers, the overlay latch.
pub struct Mmu {
    pub bus: Bus,
    pub pic: Pic,
    /// Whether the boot overlay still stands as map entry [`BOOT_ENTRY`].
    pub boot: bool,
}

impl View for Mmu {
    type V = MmuView;

    open spec fn view(&self) -> MmuView {
        MmuView { bus: self.bus@, ie: self.pic.ie, iflag: self.pic.iflag, boot: self.boot }
    }
}

impl Mmu {
    /// Wires a bus into the fabric; `boot_mapped` says whether the bus
    /// currently has the boot overlay installed as entry [`BOOT_ENTRY`].
    pub fn assemble(bus: Bus, pic: Pic, boot_mapped: bool) -> (r: Mmu)
        ensures
            r@ == (MmuView { bus: bus@, ie: pic.ie, iflag: pic.iflag, boot: boot_mapped }),
    {
        Mmu { bus, pic, boot: boot_mapped }
    }

    pub fn read(&self, addr: u16) -> (r: u8)
        ensures
            r == self@.read_spec(addr),
    {
        if addr == IE_ADDR {
            self.pic.ie
        } else if addr == IF_ADDR {
            self.pic.iflag
        } else {
            self.bus.read(addr)
        }
    }

    /// Whether any interrupt source is both enabled and requested.
    pub fn pending(&self) -> (r: bool)
        ensures
            r == self@.pending_spec(),
    {
        self.pic.pending()
    }

    /// The highest-priority pending source, as the PIC arbitrates it.
    pub fn irq(&self) -> (r: Option<crate::pic::Interrupt>)
        ensures
            r == crate::pic::first_pending(self@.ie & self@.iflag),
    {
        self.pic.irq()
    }

    /// Records that the boot overlay stands installed again as map
    /// entry [`BOOT_ENTRY`]; the machine assembly calls this when it
    /// re-installs the canonical map at reset.
    pub fn set_boot_mapped(&mut self)
        ensures
            final(self)@ == (MmuView { boot: true, ..old(self)@ }),
    {
        self.boot = true;
    }

    /// Acknowledges a source: clears its request flag.
    pub fn ack(&mut self, src: crate::pic::Interrupt)
        ensures
            final(self)@ == (MmuView { iflag: old(self)@.iflag & !src.mask_spec(), ..old(self)@ }),
    {
        self.pic.ack(src);
    }

    pub fn write(&mut self, addr: u16, value: u8)
        ensures
            final(self)@ == old(self)@.write_spec(addr, value),
    {
        let ghost v = old(self)@;
        self.bus.write(addr, value);
        proof {
            crate::bus::lemma_write_upto_shape(v.bus, v.bus.entries.len() as int, addr, value);
        }
        if addr == BOOT_OFF_ADDR && value & 1 == 1 && self.boot {
            if BOOT_ENTRY < self.bus.entry_count() {
                self.bus.unmap(BOOT_ENTRY);
                self.boot = false;
            }
        }
        if addr == IE_ADDR {
            self.pic.ie = value;
        }
        if addr == IF_ADDR {
            self.pic.iflag = value;
        }
        proof {
            assert(v.disables_boot(addr, value) ==> !self@.boot);
        }
    }
}

} // verus!
