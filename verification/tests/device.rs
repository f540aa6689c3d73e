use gameboy::dev::{Device, Ram, ReadOnly};

fn setup() -> ReadOnly {
    let rom = Ram::filled(0x100, 0x55);
    ReadOnly::from(rom)
}

#[test]
fn from_works() {
    let ronly = setup();
    for addr in 0x000usize..0x100 {
        assert_eq!(ronly.read(addr), 0x55);
    }
}

#[test]
fn device_contains_works() {
    let ronly = setup();
    for addr in 0x000usize..0x100 {
        assert!(ronly.contains(addr));
    }
}

#[test]
fn device_len_works() {
    let ronly = setup();
    assert_eq!(ronly.len(), 0x100)
}

#[test]
fn device_read_works() {
    let ronly = setup();
    for addr in 0x000usize..0x100 {
        assert_eq!(ronly.read(addr), 0x55);
    }
}

#[test]
fn device_write_ignored() {
    let mut ronly = setup();
    for addr in 0x000usize..0x100 {
        ronly.write(addr, 0xaa);
    }
    for addr in 0x000usize..0x100 {
        assert_eq!(ronly.read(addr), 0x55);
    }
}

#[test]
fn ram_read_write_round_trip() {
    let mut ram = Ram::zeroed(0x10);
    assert_eq!(ram.read(0x3), 0x00);
    ram.write(0x3, 0x42);
    assert_eq!(ram.read(0x3), 0x42);
    // Out-of-range accesses read 0xFF and drop writes.
    assert_eq!(ram.read(0x10), 0xFF);
    ram.write(0x10, 0x99);
    assert_eq!(ram.read(0xF), 0x00);
}

#[test]
fn ram_reset_zeroes() {
    let mut ram = Ram::filled(4, 0xAB);
    ram.reset();
    for i in 0usize..4 {
        assert_eq!(ram.read(i), 0x00);
    }
    assert_eq!(ram.len(), 4);
}

#[test]
fn device_dispatch_matches_kind() {
    let mut d = Device::Ram(Ram::zeroed(2));
    assert_eq!(d.len(), 2);
    assert!(d.contains(1));
    assert!(!d.contains(2));
    d.write(1, 0x7E);
    assert_eq!(d.read(1), 0x7E);

    let mut r = Device::ReadOnly(ReadOnly::from(Ram::filled(2, 0x5A)));
    r.write(1, 0x7E);
    assert_eq!(r.read(1), 0x5A);
}
