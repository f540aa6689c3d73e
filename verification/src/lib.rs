//! A verified model of the original 8-bit handheld game console built
//! around the Sharp LR35902 system-on-chip.
//!
//! The crate provides the machine fabric: byte-addressable devices and the
//! address-decoding bus ([`bus`]), cartridge memory bank controllers
//! ([`mbc`]), the programmable interrupt controller ([`pic`]), the SM83
//! processor core ([`cpu`]), the picture unit's background tile fetcher
//! ([`ppu`]) and the assembled console with its canonical memory map
//! ([`dmg`]).
//!
//! Loading a cartridge image from disk and driving the machine in real
//! time are host concerns and live outside this crate; the library takes
//! plain bytes and advances one machine cycle at a time.

pub mod bus;
pub mod cpu;
pub mod dev;
pub mod dmg;
pub mod mbc;
pub mod mmu;
pub mod pic;
pub mod ppu;

use vstd::prelude::*;

verus! {

} // verus!
