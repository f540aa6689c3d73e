use gameboy::cpu::{Ime, Status};
use gameboy::dmg::{
    GameBoy, LoadOutcome, BANK_DEV, BOOT_DEV, COM_DEV, CON_DEV, ERAM_DEV, HRAM_DEV, LCD_DEV,
    OAM_DEV, ROM_DEV, SOUND_DEV, TIMER_DEV, VRAM_DEV, WAVE_DEV, WRAM_DEV,
};

#[test]
fn bus_works() {
    let mut gb = GameBoy::new();
    // Boot ROM overlay: writes into the low 256 bytes are absorbed by the
    // read-only overlay and fan out into cartridge ROM underneath.
    for addr in 0x0000u32..=0x00ff {
        gb.write(addr as u16, 0x10);
    }
    for addr in 0x00usize..=0xff {
        assert_eq!(gb.dev_byte(ROM_DEV, addr), 0x10);
    }
    assert_eq!(gb.dev_byte(BOOT_DEV, 0x00), 0x31);
    // Cartridge ROM
    for addr in 0x0100u32..=0x7fff {
        gb.write(addr as u16, 0x20);
    }
    for addr in 0x0100usize..=0x7fff {
        assert_eq!(gb.dev_byte(ROM_DEV, addr), 0x20);
    }
    // Video RAM
    for addr in 0x8000u32..=0x9fff {
        gb.write(addr as u16, 0x30);
    }
    for addr in 0x0000usize..=0x1fff {
        assert_eq!(gb.dev_byte(VRAM_DEV, addr), 0x30);
    }
    // External RAM
    for addr in 0xa000u32..=0xbfff {
        gb.write(addr as u16, 0x40);
    }
    for addr in 0x0000usize..=0x1fff {
        assert_eq!(gb.dev_byte(ERAM_DEV, addr), 0x40);
    }
    // Video RAM (OAM)
    for addr in 0xfe00u32..=0xfe9f {
        gb.write(addr as u16, 0x50);
    }
    for addr in 0x00usize..=0x9f {
        assert_eq!(gb.dev_byte(OAM_DEV, addr), 0x50);
    }
    // I/O devices
    {
        // Controller
        gb.write(0xff00, 0x61);
        assert_eq!(gb.read(0xff00), 0x61);
        assert_eq!(gb.dev_byte(CON_DEV, 0x0), 0x61);
        // Communication
        for addr in 0xff01u32..=0xff02 {
            gb.write(addr as u16, 0x62);
        }
        for addr in 0xff01u32..=0xff02 {
            assert_eq!(gb.read(addr as u16), 0x62);
        }
        for addr in 0x00usize..=0x01 {
            assert_eq!(gb.dev_byte(COM_DEV, addr), 0x62);
        }
        // Divider & Timer
        for addr in 0xff04u32..=0xff07 {
            gb.write(addr as u16, 0x63);
        }
        for addr in 0xff04u32..=0xff07 {
            assert_eq!(gb.read(addr as u16), 0x63);
        }
        for addr in 0x00usize..=0x03 {
            assert_eq!(gb.dev_byte(TIMER_DEV, addr), 0x63);
        }
        // Interrupt Flag
        gb.write(0xff0f, 0x64);
        assert_eq!(gb.read(0xff0f), 0x64);
        assert_eq!(gb.mmu.pic.iflag, 0x64);
        // Sound
        for addr in 0xff10u32..=0xff26 {
            gb.write(addr as u16, 0x65);
        }
        for addr in 0xff10u32..=0xff26 {
            assert_eq!(gb.read(addr as u16), 0x65);
        }
        for addr in 0x00usize..=0x16 {
            assert_eq!(gb.dev_byte(SOUND_DEV, addr), 0x65);
        }
        // Waveform RAM
        for addr in 0xff30u32..=0xff3f {
            gb.write(addr as u16, 0x66);
        }
        for addr in 0xff30u32..=0xff3f {
            assert_eq!(gb.read(addr as u16), 0x66);
        }
        for addr in 0x00usize..=0x0f {
            assert_eq!(gb.dev_byte(WAVE_DEV, addr), 0x66);
        }
        // LCD
        for addr in 0xff40u32..=0xff4b {
            gb.write(addr as u16, 0x67);
        }
        for addr in 0xff40u32..=0xff4b {
            assert_eq!(gb.read(addr as u16), 0x67);
        }
        for addr in 0x00usize..=0x0b {
            assert_eq!(gb.dev_byte(LCD_DEV, addr), 0x67);
        }
        // Boot ROM Disable (an even value leaves the overlay in place)
        gb.write(0xff50, 0x68);
        assert_eq!(gb.read(0xff50), 0x68);
        assert_eq!(gb.dev_byte(BANK_DEV, 0x0), 0x68);
    }
    // High RAM
    for addr in 0xff80u32..=0xfffe {
        gb.write(addr as u16, 0x70);
    }
    for addr in 0x00usize..=0x7e {
        assert_eq!(gb.dev_byte(HRAM_DEV, addr), 0x70);
    }
    // Interrupt Enable
    gb.write(0xffff, 0x80);
    assert_eq!(gb.read(0xffff), 0x80);
    assert_eq!(gb.mmu.pic.ie, 0x80);
}

#[test]
fn boot_overlay_masks_reads() {
    let mut gb = GameBoy::new();
    gb.write(0x0040, 0xAA);
    // The overlay wins reads: the embedded boot image's byte at 0x40.
    assert_eq!(gb.read(0x0040), 0x3e);
    // The write fanned out into cartridge ROM underneath.
    assert_eq!(gb.dev_byte(ROM_DEV, 0x40), 0xAA);
    // Disabling the overlay uncovers the cartridge byte.
    gb.write(0xff50, 1);
    assert_eq!(gb.read(0x0040), 0xAA);
}

#[test]
fn work_ram_echo() {
    let mut gb = GameBoy::new();
    gb.write(0xC000, 0x42);
    assert_eq!(gb.read(0xE000), 0x42);
    gb.write(0xFDFF, 0x77);
    assert_eq!(gb.read(0xDDFF), 0x77);
}

#[test]
fn unmapped_addresses_read_ff() {
    let mut gb = GameBoy::new();
    // The gap above OAM and the I/O gaps: reads observe 0xFF and writes
    // change nothing.
    for addr in [0xFEA0u16, 0xFECC, 0xFEFF, 0xFF03, 0xFF08, 0xFF2F, 0xFF4C, 0xFF7F] {
        assert_eq!(gb.read(addr), 0xFF);
        gb.write(addr, 0x55);
        assert_eq!(gb.read(addr), 0xFF);
    }
}

#[test]
fn echo_window_ends_at_fdff() {
    let mut gb = GameBoy::new();
    // The echo answers 0xE000..=0xFDFF only: writes at 0xFE00 and above
    // no longer land in work RAM.
    gb.write(0xFE00, 0x99);
    assert_eq!(gb.read(0xDE00), 0x00);
    gb.write(0xFFFF, 0x01);
    assert_eq!(gb.read(0xDFFF), 0x00);
    assert_eq!(gb.read(0xFFFF), 0x01);
}

#[test]
fn push_pop_round_trip() {
    let mut gb = GameBoy::new();
    gb.cpu.regs.sp = 0xFFFE;
    gb.cpu.regs.pc = 0xC000;
    // LD BC,0x1234; PUSH BC; LD BC,0; POP BC
    let program: [u8; 8] = [0x01, 0x34, 0x12, 0xC5, 0x01, 0x00, 0x00, 0xC1];
    for i in 0usize..program.len() {
        gb.write(0xC000 + i as u16, program[i]);
    }
    for _ in 0..13 {
        gb.step();
    }
    assert_eq!(gb.cpu.regs.b, 0x12);
    assert_eq!(gb.cpu.regs.c, 0x34);
    assert_eq!(gb.cpu.regs.sp, 0xFFFE);
}

#[test]
fn halt_until_interrupt_then_service() {
    let mut gb = GameBoy::new();
    gb.write(0xFFFF, 0x01);  // IE: VBlank enabled
    gb.cpu.ime = Ime::Enabled;
    gb.cpu.regs.sp = 0xFFFE;
    gb.cpu.regs.pc = 0xC000;
    gb.write(0xC000, 0x76);  // HALT
    gb.step();
    assert!(matches!(gb.cpu.status, Status::Halted));
    gb.step();
    assert!(matches!(gb.cpu.status, Status::Halted));
    // An external VBlank request wakes and is serviced in five cycles.
    gb.write(0xFF0F, 0x01);
    for _ in 0..5 {
        gb.step();
    }
    assert_eq!(gb.cpu.regs.pc, 0x0040);
    assert_eq!(gb.cpu.regs.sp, 0xFFFC);
    assert!(matches!(gb.cpu.ime, Ime::Disabled));
    // The request flag was acknowledged.
    assert_eq!(gb.mmu.pic.iflag, 0x00);
}

#[test]
fn halt_bug_repeats_next_opcode() {
    let mut gb = GameBoy::new();
    gb.write(0xFFFF, 0x01);
    gb.write(0xFF0F, 0x01);
    gb.cpu.ime = Ime::Disabled;
    gb.cpu.regs.pc = 0xC000;
    gb.write(0xC000, 0x76);  // HALT with a pending request and IME off
    gb.write(0xC001, 0x3C);  // INC A
    gb.step();
    assert!(matches!(gb.cpu.status, Status::Enabled));
    gb.step();
    gb.step();
    // PC failed to advance after the halt-bug fetch: INC A ran twice.
    assert_eq!(gb.cpu.regs.a, 2);
    assert_eq!(gb.cpu.regs.pc, 0xC002);
}

#[test]
fn flag_low_nibble_stays_zero() {
    let mut gb = GameBoy::new();
    gb.cpu.regs.pc = 0xC000;
    gb.cpu.regs.sp = 0xFFFE;
    // A mix of arithmetic, rotates, stack and jumps.
    let program: [u8; 14] = [
        0x3E, 0x0F,  // LD A,0x0F
        0xC6, 0x01,  // ADD A,0x01
        0x27,  // DAA
        0x17,  // RLA
        0xF5,  // PUSH AF
        0xF1,  // POP AF
        0x05,  // DEC B
        0x18, 0x00,  // JR +0
        0xB7,  // OR A
        0x2F,  // CPL
        0x37,  // SCF
    ];
    for i in 0usize..program.len() {
        gb.write(0xC000 + i as u16, program[i]);
    }
    for _ in 0..24 {
        gb.step();
        assert_eq!(gb.cpu.regs.f & 0x0F, 0);
    }
}

#[test]
fn load_exact_short_truncated() {
    let mut gb = GameBoy::new();
    let exact: Vec<u8> = vec![0x5A; 0x8000];
    assert_eq!(gb.load(&exact), LoadOutcome::Exact);
    assert_eq!(gb.dev_byte(ROM_DEV, 0x7FFF), 0x5A);

    let short: Vec<u8> = vec![1, 2, 3];
    assert_eq!(gb.load(&short), LoadOutcome::Short { missing: 0x8000 - 3 });
    assert_eq!(gb.dev_byte(ROM_DEV, 0), 1);
    assert_eq!(gb.dev_byte(ROM_DEV, 2), 3);
    // The remainder is left as it was.
    assert_eq!(gb.dev_byte(ROM_DEV, 3), 0x5A);

    let mut long: Vec<u8> = vec![0x77; 0x8001];
    long[0x8000] = 0x99;
    assert_eq!(gb.load(&long), LoadOutcome::Truncated { excess: 1 });
    assert_eq!(gb.dev_byte(ROM_DEV, 0x7FFF), 0x77);
}

#[test]
fn reset_restores_overlay_and_pc() {
    let mut gb = GameBoy::new();
    gb.write(0xFF50, 1);
    assert_eq!(gb.read(0x0000), 0x00);  // cartridge ROM uncovered (zeroed)
    gb.write(0xC123, 0x42);
    gb.cpu.regs.pc = 0x1234;
    gb.reset();
    assert_eq!(gb.cpu.regs.pc, 0);
    assert_eq!(gb.read(0x0000), 0x31);  // boot image visible again
    assert_eq!(gb.read(0xC123), 0x42);  // work RAM kept
}

#[test]
fn stop_freezes_until_wake() {
    let mut gb = GameBoy::new();
    gb.cpu.regs.pc = 0xC000;
    gb.write(0xC000, 0x10);  // STOP
    gb.write(0xC001, 0x3C);  // INC A
    gb.step();
    assert!(matches!(gb.cpu.status, Status::Stopped));
    gb.step();
    assert_eq!(gb.cpu.regs.a, 0);
    gb.cpu.wake();
    assert!(gb.enabled());
    gb.step();
    assert_eq!(gb.cpu.regs.a, 1);
}

#[test]
fn start_runs_until_stopped() {
    let mut gb = GameBoy::new();
    gb.cpu.regs.pc = 0xC000;
    gb.write(0xC000, 0x3C);  // INC A
    gb.write(0xC001, 0x10);  // STOP
    let left: u64 = gb.start(100);
    assert!(left > 0);
    assert!(!gb.enabled());
    assert_eq!(gb.cpu.regs.a, 1);
}
