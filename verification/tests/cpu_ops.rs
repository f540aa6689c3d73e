use gameboy::cpu::{Ime, Registers, WideRegister};
use gameboy::dmg::GameBoy;
use gameboy::pic::{Interrupt, Pic};

/// Runs a short program placed in work RAM for `steps` machine cycles.
fn run(program: &[u8], steps: usize) -> GameBoy {
    let mut gb = GameBoy::new();
    gb.cpu.regs.pc = 0xC000;
    gb.cpu.regs.sp = 0xFFFE;
    for i in 0usize..program.len() {
        gb.write(0xC000 + i as u16, program[i]);
    }
    for _ in 0..steps {
        gb.step();
    }
    gb
}

#[test]
fn add_sets_half_carry() {
    // LD A,0x0F; ADD A,0x01: result 0x10, H set, Z/N/C clear.
    let gb = run(&[0x3E, 0x0F, 0xC6, 0x01], 4);
    assert_eq!(gb.cpu.regs.a, 0x10);
    assert_eq!(gb.cpu.regs.f, 0x20);
}

#[test]
fn add_sets_zero_and_carry() {
    // LD A,0xFF; ADD A,0x01: result 0x00 with Z, H and C set.
    let gb = run(&[0x3E, 0xFF, 0xC6, 0x01], 4);
    assert_eq!(gb.cpu.regs.a, 0x00);
    assert_eq!(gb.cpu.regs.f, 0x80 | 0x20 | 0x10);
}

#[test]
fn sub_sets_n_and_borrow() {
    // LD A,0x10; SUB 0x20: result 0xF0 with N and C set.
    let gb = run(&[0x3E, 0x10, 0xD6, 0x20], 4);
    assert_eq!(gb.cpu.regs.a, 0xF0);
    assert_eq!(gb.cpu.regs.f, 0x40 | 0x10);
}

#[test]
fn daa_adjusts_bcd_sum() {
    // 0x19 + 0x28 = 0x41; DAA corrects it to 0x47 (19 + 28 = 47).
    let gb = run(&[0x3E, 0x19, 0xC6, 0x28, 0x27], 5);
    assert_eq!(gb.cpu.regs.a, 0x47);
    assert_eq!(gb.cpu.regs.f & 0x10, 0);
}

#[test]
fn daa_reports_bcd_carry() {
    // 0x91 + 0x19 = 0xAA; DAA gives 0x10 with the carry set (91+19=110).
    let gb = run(&[0x3E, 0x91, 0xC6, 0x19, 0x27], 5);
    assert_eq!(gb.cpu.regs.a, 0x10);
    assert_eq!(gb.cpu.regs.f & 0x10, 0x10);
}

#[test]
fn rotates_through_carry() {
    // LD A,0x81; RLCA: A = 0x03, C set.
    let gb = run(&[0x3E, 0x81, 0x07], 3);
    assert_eq!(gb.cpu.regs.a, 0x03);
    assert_eq!(gb.cpu.regs.f, 0x10);
    // LD A,0x81; SCF; RLA: the old carry enters bit 0.
    let gb2 = run(&[0x3E, 0x81, 0x37, 0x17], 4);
    assert_eq!(gb2.cpu.regs.a, 0x03);
    assert_eq!(gb2.cpu.regs.f, 0x10);
}

#[test]
fn logic_ops_set_flags() {
    // LD A,0x0F; AND 0xF0: zero with the AND's fixed H flag.
    let gb = run(&[0x3E, 0x0F, 0xE6, 0xF0], 4);
    assert_eq!(gb.cpu.regs.a, 0x00);
    assert_eq!(gb.cpu.regs.f, 0x80 | 0x20);
    // LD A,0x0F; XOR 0xFF
    let gb2 = run(&[0x3E, 0x0F, 0xEE, 0xFF], 4);
    assert_eq!(gb2.cpu.regs.a, 0xF0);
    assert_eq!(gb2.cpu.regs.f, 0x00);
}

#[test]
fn inc_dec_keep_carry() {
    // SCF; INC B; DEC B: C survives, Z and H track the values.
    let gb = run(&[0x37, 0x04, 0x05], 3);
    assert_eq!(gb.cpu.regs.b, 0x00);
    assert_eq!(gb.cpu.regs.f, 0x80 | 0x40 | 0x10);
}

#[test]
fn ld_matrix_and_hl_indirect() {
    // LD B,0x7E via A and (HL): LD A,0x7E; LD H,0xC1; LD L,0x00;
    // LD (HL),A; LD B,(HL)
    let gb = run(&[0x3E, 0x7E, 0x26, 0xC1, 0x2E, 0x00, 0x77, 0x46], 10);
    assert_eq!(gb.cpu.regs.b, 0x7E);
    assert_eq!(gb.read(0xC100), 0x7E);
}

#[test]
fn jumps_and_calls() {
    // JP 0xC005; (skipped: INC A; INC A); at 0xC005: CALL 0xC009;
    // at 0xC009: INC A; RET -> back at 0xC008: INC B
    let program: [u8; 11] = [
        0xC3, 0x05, 0xC0,  // JP 0xC005
        0x3C, 0x3C,  // skipped
        0xCD, 0x09, 0xC0,  // CALL 0xC009
        0x04,  // INC B (after RET)
        0x3C,  // INC A (the callee)
        0xC9,  // RET
    ];
    let gb = run(&program, 4 + 6 + 1 + 4 + 1);
    assert_eq!(gb.cpu.regs.a, 1);
    assert_eq!(gb.cpu.regs.b, 1);
    assert_eq!(gb.cpu.regs.sp, 0xFFFE);
}

#[test]
fn conditional_jump_not_taken_is_shorter() {
    // LD A,1; OR A (clears Z); JR Z,+2 (not taken); INC B
    let gb = run(&[0x3E, 0x01, 0xB7, 0x28, 0x02, 0x04], 8);
    assert_eq!(gb.cpu.regs.b, 1);
}

#[test]
fn prefix_table_bit_and_swap() {
    // LD A,0xF0; SWAP A; then BIT 7,A sets Z (bit clear after swap).
    let gb = run(&[0x3E, 0xF0, 0xCB, 0x37, 0xCB, 0x7F], 7);
    assert_eq!(gb.cpu.regs.a, 0x0F);
    assert_eq!(gb.cpu.regs.f & 0x80, 0x80);
    // RES and SET on a register.
    let gb2 = run(&[0x3E, 0xFF, 0xCB, 0x87, 0xCB, 0xC7], 7);
    assert_eq!(gb2.cpu.regs.a, 0xFF);
}

#[test]
fn ei_delays_one_instruction() {
    // EI; NOP: the master enable turns on only after the next fetch.
    let mut gb = GameBoy::new();
    gb.cpu.regs.pc = 0xC000;
    gb.write(0xC000, 0xFB);
    gb.write(0xC001, 0x00);
    gb.step();
    assert!(matches!(gb.cpu.ime, Ime::WillEnable));
    gb.step();
    assert!(matches!(gb.cpu.ime, Ime::Enabled));
}

#[test]
fn wide_register_views_compose_halves() {
    let mut regs = Registers::default();
    WideRegister::BC.set(&mut regs, 0x1234);
    assert_eq!(regs.b, 0x12);
    assert_eq!(regs.c, 0x34);
    assert_eq!(WideRegister::BC.get(&regs), 0x1234);
    // A set of AF keeps the low nibble of F zero.
    WideRegister::AF.set(&mut regs, 0x12FF);
    assert_eq!(regs.a, 0x12);
    assert_eq!(regs.f, 0xF0);
    assert_eq!(WideRegister::AF.get(&regs), 0x12F0);
}

#[test]
fn pic_arbitrates_lowest_bit_first() {
    let mut pic = Pic::new();
    pic.ie = 0x1F;
    pic.request(Interrupt::Joypad);
    pic.request(Interrupt::Timer);
    assert_eq!(pic.irq(), Some(Interrupt::Timer));
    pic.ack(Interrupt::Timer);
    assert_eq!(pic.irq(), Some(Interrupt::Joypad));
    pic.ack(Interrupt::Joypad);
    assert_eq!(pic.irq(), None);
    // A masked request is pending only when enabled.
    pic.ie = 0x00;
    pic.request(Interrupt::Serial);
    assert_eq!(pic.irq(), None);
    assert!(!pic.pending());
}

#[test]
fn interrupt_vectors() {
    assert_eq!(Interrupt::VBlank.vector(), 0x40);
    assert_eq!(Interrupt::LcdStat.vector(), 0x48);
    assert_eq!(Interrupt::Timer.vector(), 0x50);
    assert_eq!(Interrupt::Serial.vector(), 0x58);
    assert_eq!(Interrupt::Joypad.vector(), 0x60);
}

#[test]
fn serial_interrupt_uses_its_vector() {
    // Any vector entry: SP drops by two and PC holds the vector.
    let mut gb = GameBoy::new();
    gb.cpu.regs.pc = 0xC000;
    gb.cpu.regs.sp = 0xD000;
    gb.cpu.ime = Ime::Enabled;
    gb.write(0xC000, 0x00);  // NOP
    gb.step();  // NOP; ends in Done
    gb.write(0xFFFF, 0x08);
    gb.write(0xFF0F, 0x08);
    for _ in 0..5 {
        gb.step();
    }
    assert_eq!(gb.cpu.regs.pc, 0x58);
    assert_eq!(gb.cpu.regs.sp, 0xCFFE);
    // The pushed return address is the interrupted PC.
    assert_eq!(gb.read(0xCFFE), 0x01);
    assert_eq!(gb.read(0xCFFF), 0xC0);
}

#[test]
fn illegal_opcode_freezes() {
    let gb = run(&[0xD3], 1);
    assert!(!gb.enabled());
}
