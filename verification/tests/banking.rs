use gameboy::dev::Ram;
use gameboy::mbc::{Mbc1, NoMbc};

/// A cartridge ROM of `banks` 16 KiB banks, each byte holding its bank
/// number.
fn marked_rom(banks: usize) -> Ram {
    let mut data: Vec<u8> = Vec::new();
    for bank in 0usize..banks {
        for _ in 0usize..0x4000 {
            data.push(bank as u8);
        }
    }
    Ram::from_bytes(data)
}

#[test]
fn mbc1_bank_zero_latches_to_one() {
    let mut mbc = Mbc1::with(marked_rom(64), Ram::zeroed(0x2000));
    mbc.rom_write(0x2000, 0x00);
    assert_eq!(mbc.rom_bank(), 1);
    assert_eq!(mbc.rom_read(0x4000), 1);
}

#[test]
fn mbc1_switches_banks() {
    let mut mbc = Mbc1::with(marked_rom(64), Ram::zeroed(0x2000));
    assert_eq!(mbc.rom_read(0x0000), 0);
    assert_eq!(mbc.rom_read(0x4000), 1);
    mbc.rom_write(0x2000, 0x05);
    assert_eq!(mbc.rom_bank(), 5);
    assert_eq!(mbc.rom_read(0x4000), 5);
    assert_eq!(mbc.rom_read(0x7FFF), 5);
    // The low window still serves bank 0 in mode 0.
    assert_eq!(mbc.rom_read(0x0000), 0);
    // The upper bits extend the bank number.
    mbc.rom_write(0x4000, 0x01);
    assert_eq!(mbc.rom_bank(), 0x25);
    assert_eq!(mbc.rom_read(0x4000), 0x25);
}

#[test]
fn mbc1_mode_one_remaps_low_window() {
    let mut mbc = Mbc1::with(marked_rom(64), Ram::zeroed(0x2000));
    mbc.rom_write(0x4000, 0x01);  // upper bits = 1
    mbc.rom_write(0x6000, 0x01);  // mode 1
    assert_eq!(mbc.rom_read(0x0000), 0x20);
}

#[test]
fn mbc1_bank_wraps_to_rom_size() {
    // Eight banks only: bank numbers wrap modulo the ROM's actual size.
    let mut mbc = Mbc1::with(marked_rom(8), Ram::zeroed(0x2000));
    mbc.rom_write(0x2000, 0x09);
    assert_eq!(mbc.rom_read(0x4000), 1);
}

#[test]
fn mbc1_ram_enable_latch() {
    let mut mbc = Mbc1::with(marked_rom(4), Ram::zeroed(0x2000));
    // Disabled RAM reads 0xFF and drops writes.
    assert_eq!(mbc.ram_read(0x0123), 0xFF);
    mbc.ram_write(0x0123, 0x42);
    mbc.rom_write(0x0000, 0x0A);
    assert_eq!(mbc.ram_read(0x0123), 0x00);
    mbc.ram_write(0x0123, 0x42);
    assert_eq!(mbc.ram_read(0x0123), 0x42);
    // Any low nibble other than 0x0A disables again.
    mbc.rom_write(0x0000, 0x00);
    assert_eq!(mbc.ram_read(0x0123), 0xFF);
}

#[test]
fn mbc1_reset_restores_power_on_banking() {
    let mut mbc = Mbc1::with(marked_rom(8), Ram::zeroed(0x2000));
    mbc.rom_write(0x2000, 0x03);
    mbc.rom_write(0x6000, 0x01);
    mbc.rom_write(0x0000, 0x0A);
    mbc.reset();
    assert_eq!(mbc.rom_bank(), 1);
    assert_eq!(mbc.ram_read(0), 0xFF);
}

#[test]
fn nombc_is_flat_and_rom_ignores_writes() {
    let mut cart = NoMbc::with(Ram::filled(0x8000, 0x2A), Ram::zeroed(0x2000));
    assert_eq!(cart.rom_read(0x7FFF), 0x2A);
    cart.rom_write(0x2000, 0x05);
    assert_eq!(cart.rom_read(0x2000), 0x2A);
    cart.ram_write(0x10, 0x99);
    assert_eq!(cart.ram_read(0x10), 0x99);
}
