//! The programmable interrupt controller.
//!
//! Two 8-bit registers: IE, the enable mask, and IF, the request flags.
//! The five interrupt sources occupy bits 0 to 4 in priority order; a
//! source is pending when both its IE and IF bits are set, and `int`
//! arbitrates in favour of the lowest set bit.

use vstd::prelude::*;

verus! {

/// An interrupt source, in priority order (VBlank first).
#[derive(Clone, Copy, PartialEq, Eq, Structural, Debug)]
pub enum Interrupt {
    VBlank,
    LcdStat,
    Timer,
    Serial,
    Joypad,
}

impl Interrupt {
    /// The source's bit inside IE and IF.
    pub open spec fn mask_spec(self) -> u8 {
        match self {
            Interrupt::VBlank => 0x01,
            Interrupt::LcdStat => 0x02,
            Interrupt::Timer => 0x04,
            Interrupt::Serial => 0x08,
            Interrupt::Joypad => 0x10,
        }
    }

    pub fn mask(self) -> (r: u8)
        ensures
            r == self.mask_spec(),
    {
        match self {
            Interrupt::VBlank => 0x01,
            Interrupt::LcdStat => 0x02,
            Interrupt::Timer => 0x04,
            Interrupt::Serial => 0x08,
            Interrupt::Joypad => 0x10,
        }
    }

    /// The service-routine address the CPU jumps to for this source.
    pub open spec fn vector_spec(self) -> u16 {
        match self {
            Interrupt::VBlank => 0x40,
            Interrupt::LcdStat => 0x48,
            Interrupt::Timer => 0x50,
            Interrupt::Serial => 0x58,
            Interrupt::Joypad => 0x60,
        }
    }

    pub fn vector(self) -> (r: u16)
        ensures
            r == self.vector_spec(),
    {
        match self {
            Interrupt::VBlank => 0x40,
            Interrupt::LcdStat => 0x48,
            Interrupt::Timer => 0x50,
            Interrupt::Serial => 0x58,
            Interrupt::Joypad => 0x60,
        }
    }
}

/// The highest-priority source whose bit is set in `p`, lowest bit first.
pub open spec fn first_pending(p: u8) -> Option<Interrupt> {
    if p & 0x01 != 0 {
        Some(Interrupt::VBlank)
    } else if p & 0x02 != 0 {
        Some(Interrupt::LcdStat)
    } else if p & 0x04 != 0 {
        Some(Interrupt::Timer)
    } else if p & 0x08 != 0 {
        Some(Interrupt::Serial)
    } else if p & 0x10 != 0 {
        Some(Interrupt::Joypad)
    } else {
        None
    }
}

/// The interrupt controller: the IE and IF register pair.
pub struct Pic {
    pub ie: u8,
    pub iflag: u8,
}

impl Pic {
    pub fn new() -> (r: Pic)
        ensures
            r.ie == 0,
            r.iflag == 0,
    {
        Pic { ie: 0, iflag: 0 }
    }

    /// The highest-priority source that is both enabled and requested.
    pub fn irq(&self) -> (r: Option<Interrupt>)
        ensures
            r == first_pending(self.ie & self.iflag),
    {
        let p = self.ie & self.iflag;
        if p & 0x01 != 0 {
            Some(Interrupt::VBlank)
        } else if p & 0x02 != 0 {
            Some(Interrupt::LcdStat)
        } else if p & 0x04 != 0 {
            Some(Interrupt::Timer)
        } else if p & 0x08 != 0 {
            Some(Interrupt::Serial)
        } else if p & 0x10 != 0 {
            Some(Interrupt::Joypad)
        } else {
            None
        }
    }

    /// Whether any source is both enabled and requested.
    pub fn pending(&self) -> (r: bool)
        ensures
            r == (self.ie & self.iflag != 0),
    {
        self.ie & self.iflag != 0
    }

    /// Raises the source's request flag; peripherals call this.
    pub fn request(&mut self, src: Interrupt)
        ensures
            final(self).iflag == old(self).iflag | src.mask_spec(),
            final(self).ie == old(self).ie,
    {
        self.iflag = self.iflag | src.mask();
    }

    /// Acknowledges the source: clears its request flag.
    pub fn ack(&mut self, src: Interrupt)
        ensures
            final(self).iflag == old(self).iflag & !src.mask_spec(),
            final(self).ie == old(self).ie,
    {
        self.iflag = self.iflag & !src.mask();
    }

    /// Clears both registers.
    pub fn reset(&mut self)
        ensures
            final(self).ie == 0,
            final(self).iflag == 0,
    {
        self.ie = 0;
        self.iflag = 0;
    }
}

} // verus!
