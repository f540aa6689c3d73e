//! The SM83 processor core.
//!
//! The CPU is a per-machine-cycle state machine. Each call of
//! [`Cpu::cycle`] advances it by one M-cycle:
//!
//! - from `Done` it samples interrupts (serviced only when the master
//!   enable is on) and otherwise falls into a fetch;
//! - a fetch reads the opcode at PC, services the halt bug by rolling PC
//!   back once, promotes a delayed interrupt enable, decodes, and runs
//!   the instruction's first micro-operation in the same cycle;
//! - each later cycle runs one more micro-operation until the
//!   instruction is done.
//!
//! The whole cycle function is mirrored by the specification-level
//! interpreter [`spec_cycle`], so that multi-cycle behaviour (interrupt
//! servicing, halt states) can be reasoned about cycle by cycle.

use vstd::prelude::*;

use crate::cpu::inst::{decode, inst_exec_spec, step_jump, Instruction, Op};
use crate::mmu::{Mmu, MmuView};
use crate::pic::{first_pending, Interrupt};

pub mod inst;

verus! {

// ---------------------------------------------------------------------
// Wrapping 8/16-bit arithmetic, as specification functions with exact
// executable mirrors.
// ---------------------------------------------------------------------

pub open spec fn wadd16(a: u16, d: u16) -> u16 {
    ((a + d) % 0x10000) as u16
}

pub open spec fn wsub16(a: u16, d: u16) -> u16 {
    ((a + 0x10000 - d) % 0x10000) as u16
}

pub open spec fn wadd8(a: u8, d: u8) -> u8 {
    ((a + d) % 0x100) as u8
}

pub open spec fn hi8(w: u16) -> u8 {
    (w / 0x100) as u8
}

pub open spec fn lo8(w: u16) -> u8 {
    (w % 0x100) as u8
}

pub open spec fn make16(hi: u8, lo: u8) -> u16 {
    (hi * 0x100 + lo) as u16
}

/// The 8-bit relative-jump offset sign-extended to 16 bits.
pub open spec fn sext16(e: u8) -> u16 {
    if e < 0x80 {
        e as u16
    } else {
        (e + 0xFF00) as u16
    }
}

pub fn ex_wadd16(a: u16, d: u16) -> (r: u16)
    ensures
        r == wadd16(a, d),
{
    (((a as u32) + (d as u32)) % 0x10000) as u16
}

pub fn ex_wsub16(a: u16, d: u16) -> (r: u16)
    ensures
        r == wsub16(a, d),
{
    (((a as u32) + 0x10000 - (d as u32)) % 0x10000) as u16
}

pub fn ex_wadd8(a: u8, d: u8) -> (r: u8)
    ensures
        r == wadd8(a, d),
{
    (((a as u16) + (d as u16)) % 0x100) as u8
}

pub fn ex_hi8(w: u16) -> (r: u8)
    ensures
        r == hi8(w),
{
    (w / 0x100) as u8
}

pub fn ex_lo8(w: u16) -> (r: u8)
    ensures
        r == lo8(w),
{
    (w % 0x100) as u8
}

pub fn ex_make16(hi: u8, lo: u8) -> (r: u16)
    ensures
        r == make16(hi, lo),
{
    (hi as u16) * 0x100 + (lo as u16)
}

pub fn ex_sext16(e: u8) -> (r: u16)
    ensures
        r == sext16(e),
{
    if e < 0x80 {
        e as u16
    } else {
        (e as u16) + 0xFF00
    }
}

// ---------------------------------------------------------------------
// Specification-level bus transactions, mirrored by the executable
// helpers on `Cpu` below.
// ---------------------------------------------------------------------

/// Fetching one byte at PC: the byte observed and PC advanced.
pub open spec fn spec_fetch8(cpu: Cpu, mmu: MmuView) -> (Cpu, u8) {
    (
        Cpu { regs: Registers { pc: wadd16(cpu.regs.pc, 1), ..cpu.regs }, ..cpu },
        mmu.read_spec(cpu.regs.pc),
    )
}

/// Popping a little-endian word at SP: low byte first, SP up by two.
pub open spec fn spec_pop16(cpu: Cpu, mmu: MmuView) -> (Cpu, u16) {
    (
        Cpu { regs: Registers { sp: wadd16(cpu.regs.sp, 2), ..cpu.regs }, ..cpu },
        make16(mmu.read_spec(wadd16(cpu.regs.sp, 1)), mmu.read_spec(cpu.regs.sp)),
    )
}

/// Pushing a word at SP: high byte at SP-1, low byte at SP-2, SP down by
/// two.
pub open spec fn spec_push16(cpu: Cpu, mmu: MmuView, word: u16) -> (Cpu, MmuView) {
    (
        Cpu { regs: Registers { sp: wsub16(cpu.regs.sp, 2), ..cpu.regs }, ..cpu },
        mmu.write_spec(wsub16(cpu.regs.sp, 1), hi8(word)).write_spec(
            wsub16(cpu.regs.sp, 2),
            lo8(word),
        ),
    )
}

// ---------------------------------------------------------------------
// The flag register. Bits 7..4 are Z, N, H, C; the low nibble is always
// zero. The flag helpers are phrased arithmetically (bit `k` of `f` is
// `f / 2^k % 2`), which the solver handles without bit-blasting.
// ---------------------------------------------------------------------

pub open spec fn get_z(f: u8) -> bool {
    f / 0x80 % 2 == 1
}

pub open spec fn get_n(f: u8) -> bool {
    f / 0x40 % 2 == 1
}

pub open spec fn get_h(f: u8) -> bool {
    f / 0x20 % 2 == 1
}

pub open spec fn get_c(f: u8) -> bool {
    f / 0x10 % 2 == 1
}

/// The flag byte holding exactly the four flags, low nibble zero.
pub open spec fn flags_spec(z: bool, n: bool, h: bool, c: bool) -> u8 {
    ((if z {
        0x80u8
    } else {
        0u8
    }) + (if n {
        0x40u8
    } else {
        0u8
    }) + (if h {
        0x20u8
    } else {
        0u8
    }) + (if c {
        0x10u8
    } else {
        0u8
    })) as u8
}

/// The carry flag as a 0/1 operand for carry-in arithmetic.
pub open spec fn carry_in(f: u8) -> u8 {
    if get_c(f) {
        1
    } else {
        0
    }
}

pub fn ex_get_z(f: u8) -> (r: bool)
    ensures
        r == get_z(f),
{
    f / 0x80 % 2 == 1
}

pub fn ex_get_n(f: u8) -> (r: bool)
    ensures
        r == get_n(f),
{
    f / 0x40 % 2 == 1
}

pub fn ex_get_h(f: u8) -> (r: bool)
    ensures
        r == get_h(f),
{
    f / 0x20 % 2 == 1
}

pub fn ex_get_c(f: u8) -> (r: bool)
    ensures
        r == get_c(f),
{
    f / 0x10 % 2 == 1
}

pub fn ex_flags(z: bool, n: bool, h: bool, c: bool) -> (r: u8)
    ensures
        r == flags_spec(z, n, h, c),
        r % 16 == 0,
{
    let mut f: u8 = 0;
    if z {
        f = f + 0x80;
    }
    if n {
        f = f + 0x40;
    }
    if h {
        f = f + 0x20;
    }
    if c {
        f = f + 0x10;
    }
    f
}

/// The four flags round-trip through the flag byte.
pub proof fn lemma_flags_roundtrip(z: bool, n: bool, h: bool, c: bool)
    ensures
        get_z(flags_spec(z, n, h, c)) == z,
        get_n(flags_spec(z, n, h, c)) == n,
        get_h(flags_spec(z, n, h, c)) == h,
        get_c(flags_spec(z, n, h, c)) == c,
        flags_spec(z, n, h, c) % 16 == 0,
{
}

/// The well-formedness condition `f % 16 == 0` says exactly that the
/// low four bits of F are zero.
pub proof fn lemma_low_nibble_zero(f: u8)
    ensures
        (f % 16 == 0) == (f & 0x0F == 0),
{
    assert((f % 16 == 0) == (f & 0x0F == 0)) by (bit_vector);
}

// ---------------------------------------------------------------------
// The register file.
// ---------------------------------------------------------------------

/// The CPU's internal register set. The low nibble of F is kept zero by
/// every instruction.
#[derive(Clone, Copy, PartialEq, Eq, Structural, Debug)]
pub struct Registers {
    pub a: u8,
    pub f: u8,
    pub b: u8,
    pub c: u8,
    pub d: u8,
    pub e: u8,
    pub h: u8,
    pub l: u8,
    pub sp: u16,
    pub pc: u16,
}

impl Default for Registers {
    fn default() -> (r: Self)
        ensures
            r == Registers::zeroed(),
    {
        Registers { a: 0, f: 0, b: 0, c: 0, d: 0, e: 0, h: 0, l: 0, sp: 0, pc: 0 }
    }
}

impl Registers {
    pub open spec fn zeroed() -> Registers {
        Registers { a: 0, f: 0, b: 0, c: 0, d: 0, e: 0, h: 0, l: 0, sp: 0, pc: 0 }
    }

    /// After a reset only PC is defined (zero); the other registers keep
    /// whatever they held, matching the hardware's undefined state.
    pub fn reset(&mut self)
        ensures
            *final(self) == (Registers { pc: 0, ..*old(self) }),
    {
        self.pc = 0;
    }
}

/// A 16-bit view over the register file: the four register pairs and the
/// two native 16-bit registers. Pairs are not separate storage; a get
/// composes `(high << 8) | low` and a set splits the halves back. A set
/// of AF keeps the low nibble of F zero.
#[derive(Clone, Copy, PartialEq, Eq, Structural, Debug)]
pub enum WideRegister {
    AF,
    BC,
    DE,
    HL,
    SP,
    PC,
}

impl WideRegister {
    pub open spec fn get_spec(self, regs: Registers) -> u16 {
        match self {
            WideRegister::AF => make16(regs.a, regs.f),
            WideRegister::BC => make16(regs.b, regs.c),
            WideRegister::DE => make16(regs.d, regs.e),
            WideRegister::HL => make16(regs.h, regs.l),
            WideRegister::SP => regs.sp,
            WideRegister::PC => regs.pc,
        }
    }

    pub open spec fn set_spec(self, regs: Registers, value: u16) -> Registers {
        match self {
            WideRegister::AF => Registers {
                a: hi8(value),
                f: (lo8(value) / 16 * 16) as u8,
                ..regs
            },
            WideRegister::BC => Registers { b: hi8(value), c: lo8(value), ..regs },
            WideRegister::DE => Registers { d: hi8(value), e: lo8(value), ..regs },
            WideRegister::HL => Registers { h: hi8(value), l: lo8(value), ..regs },
            WideRegister::SP => Registers { sp: value, ..regs },
            WideRegister::PC => Registers { pc: value, ..regs },
        }
    }

    /// Composes the pair (or reads the native register).
    pub fn get(&self, regs: &Registers) -> (r: u16)
        ensures
            r == self.get_spec(*regs),
    {
        match self {
            WideRegister::AF => ex_make16(regs.a, regs.f),
            WideRegister::BC => ex_make16(regs.b, regs.c),
            WideRegister::DE => ex_make16(regs.d, regs.e),
            WideRegister::HL => ex_make16(regs.h, regs.l),
            WideRegister::SP => regs.sp,
            WideRegister::PC => regs.pc,
        }
    }

    /// Splits the value back into the pair (or writes the native
    /// register). Setting AF masks the low nibble of F to zero.
    pub fn set(&self, regs: &mut Registers, value: u16)
        ensures
            *final(regs) == self.set_spec(*old(regs), value),
    {
        match self {
            WideRegister::AF => {
                regs.a = ex_hi8(value);
                regs.f = ex_lo8(value) / 16 * 16;
            },
            WideRegister::BC => {
                regs.b = ex_hi8(value);
                regs.c = ex_lo8(value);
            },
            WideRegister::DE => {
                regs.d = ex_hi8(value);
                regs.e = ex_lo8(value);
            },
            WideRegister::HL => {
                regs.h = ex_hi8(value);
                regs.l = ex_lo8(value);
            },
            WideRegister::SP => {
                regs.sp = value;
            },
            WideRegister::PC => {
                regs.pc = value;
            },
        }
    }
}

// ---------------------------------------------------------------------
// Run status and interrupt master enable.
// ---------------------------------------------------------------------

/// The CPU's run status.
#[derive(Clone, Copy, PartialEq, Eq, Structural, Debug)]
pub enum Status {
    Enabled,
    Halted,
    Stopped,
}

/// The interrupt master enable, with the one-instruction delay that EI
/// imposes.
#[derive(Clone, Copy, PartialEq, Eq, Structural, Debug)]
pub enum Ime {
    Disabled,
    Enabled,
    WillEnable,
}

impl Ime {
    pub fn enabled(&self) -> (r: bool)
        ensures
            r == (*self is Enabled),
    {
        matches!(self, Ime::Enabled)
    }
}

/// The per-M-cycle execution state.
#[derive(Clone, Copy, PartialEq, Eq, Structural, Debug)]
pub enum State {
    Fetch,
    Execute(Instruction),
    Done,
}

impl Default for State {
    fn default() -> (r: Self)
        ensures
            r == State::Fetch,
    {
        State::Fetch
    }
}

// ---------------------------------------------------------------------
// The CPU proper.
// ---------------------------------------------------------------------

/// The SM83 central processing unit.
pub struct Cpu {
    /// Internal register set.
    pub regs: Registers,
    /// Run status.
    pub status: Status,
    /// Execution state.
    pub state: State,
    /// Interrupt master enable.
    pub ime: Ime,
    /// Set when HALT ran with interrupts disabled and one pending; the
    /// next fetch then reads the byte at PC without advancing PC.
    pub halt_bug: bool,
}

impl Cpu {
    /// The invariant every machine cycle preserves: the low four bits of
    /// the flag register are zero.
    pub open spec fn wf(self) -> bool {
        self.regs.f % 16 == 0
    }

    pub fn new() -> (r: Cpu)
        ensures
            r == Cpu::power_on(),
            r.wf(),
    {
        Cpu {
            regs: Registers::default(),
            status: Status::Enabled,
            state: State::Fetch,
            ime: Ime::Disabled,
            halt_bug: false,
        }
    }

    pub open spec fn power_on() -> Cpu {
        Cpu {
            regs: Registers::zeroed(),
            status: Status::Enabled,
            state: State::Fetch,
            ime: Ime::Disabled,
            halt_bug: false,
        }
    }

    /// Zeros PC and returns to the initial run state; the other
    /// registers are left as the hardware leaves them (undefined).
    pub fn reset(&mut self)
        ensures
            *final(self) == (Cpu {
                regs: Registers { pc: 0, ..old(self).regs },
                status: Status::Enabled,
                state: State::Fetch,
                ime: Ime::Disabled,
                halt_bug: false,
            }),
    {
        self.regs.reset();
        self.status = Status::Enabled;
        self.state = State::Fetch;
        self.ime = Ime::Disabled;
        self.halt_bug = false;
    }

    /// Leaves a stopped or halted state, as an external wake signal does.
    pub fn wake(&mut self)
        ensures
            *final(self) == (Cpu { status: Status::Enabled, ..*old(self) }),
    {
        self.status = Status::Enabled;
    }

    pub fn enabled(&self) -> (r: bool)
        ensures
            r == (self.status is Enabled),
    {
        matches!(self.status, Status::Enabled)
    }

    /// Fetch the next byte after PC.
    pub fn fetchbyte(&mut self, mmu: &Mmu) -> (b: u8)
        ensures
            b == mmu@.read_spec(old(self).regs.pc),
            *final(self) == (Cpu {
                regs: Registers { pc: wadd16(old(self).regs.pc, 1), ..old(self).regs },
                ..*old(self)
            }),
    {
        let b = mmu.read(self.regs.pc);
        self.regs.pc = ex_wadd16(self.regs.pc, 1);
        b
    }

    /// Read the byte at HL.
    pub fn readbyte(&self, mmu: &Mmu) -> (b: u8)
        ensures
            b == mmu@.read_spec(WideRegister::HL.get_spec(self.regs)),
    {
        let hl = WideRegister::HL.get(&self.regs);
        mmu.read(hl)
    }

    /// Write to the byte at HL.
    pub fn writebyte(&self, mmu: &mut Mmu, byte: u8)
        ensures
            final(mmu)@ == old(mmu)@.write_spec(WideRegister::HL.get_spec(self.regs), byte),
    {
        let hl = WideRegister::HL.get(&self.regs);
        mmu.write(hl, byte);
    }

    /// Fetch the next little-endian word after PC.
    pub fn fetchword(&mut self, mmu: &Mmu) -> (w: u16)
        ensures
            w == make16(
                mmu@.read_spec(wadd16(old(self).regs.pc, 1)),
                mmu@.read_spec(old(self).regs.pc),
            ),
            *final(self) == (Cpu {
                regs: Registers { pc: wadd16(old(self).regs.pc, 2), ..old(self).regs },
                ..*old(self)
            }),
    {
        let lo = mmu.read(self.regs.pc);
        self.regs.pc = ex_wadd16(self.regs.pc, 1);
        let hi = mmu.read(self.regs.pc);
        self.regs.pc = ex_wadd16(self.regs.pc, 1);
        proof {
            assert(wadd16(wadd16(old(self).regs.pc, 1), 1) == wadd16(old(self).regs.pc, 2));
        }
        ex_make16(hi, lo)
    }

    /// Pop the little-endian word at SP: low byte first, SP up by two.
    pub fn popword(&mut self, mmu: &Mmu) -> (w: u16)
        ensures
            w == make16(
                mmu@.read_spec(wadd16(old(self).regs.sp, 1)),
                mmu@.read_spec(old(self).regs.sp),
            ),
            *final(self) == (Cpu {
                regs: Registers { sp: wadd16(old(self).regs.sp, 2), ..old(self).regs },
                ..*old(self)
            }),
    {
        let lo = mmu.read(self.regs.sp);
        self.regs.sp = ex_wadd16(self.regs.sp, 1);
        let hi = mmu.read(self.regs.sp);
        self.regs.sp = ex_wadd16(self.regs.sp, 1);
        proof {
            assert(wadd16(wadd16(old(self).regs.sp, 1), 1) == wadd16(old(self).regs.sp, 2));
        }
        ex_make16(hi, lo)
    }

    /// Push a word at SP: SP down by one for the high byte, down by one
    /// more for the low byte.
    pub fn pushword(&mut self, mmu: &mut Mmu, word: u16)
        ensures
            final(mmu)@ == old(mmu)@.write_spec(wsub16(old(self).regs.sp, 1), hi8(word)).write_spec(
                wsub16(old(self).regs.sp, 2),
                lo8(word),
            ),
            *final(self) == (Cpu {
                regs: Registers { sp: wsub16(old(self).regs.sp, 2), ..old(self).regs },
                ..*old(self)
            }),
    {
        self.regs.sp = ex_wsub16(self.regs.sp, 1);
        mmu.write(self.regs.sp, ex_hi8(word));
        self.regs.sp = ex_wsub16(self.regs.sp, 1);
        mmu.write(self.regs.sp, ex_lo8(word));
        proof {
            assert(wsub16(wsub16(old(self).regs.sp, 1), 1) == wsub16(old(self).regs.sp, 2));
        }
    }
}

// ---------------------------------------------------------------------
// The specification-level machine cycle.
// ---------------------------------------------------------------------

/// Running one micro-operation of an instruction and storing the
/// machine's next execution state.
pub open spec fn spec_exec_phase(inst: Instruction, cpu: Cpu, mmu: MmuView) -> (Cpu, MmuView) {
    let r = inst_exec_spec(inst, cpu, mmu);
    (
        Cpu {
            state: match r.2 {
                Some(i) => State::Execute(i),
                None => State::Done,
            },
            ..r.0
        },
        r.1,
    )
}

/// The fetch cycle: reads the opcode at PC, services the halt bug by
/// rolling PC back once, promotes a delayed interrupt enable, decodes,
/// and runs the instruction's first micro-operation in the same cycle.
pub open spec fn spec_fetch_phase(cpu: Cpu, mmu: MmuView) -> (Cpu, MmuView) {
    let fr = spec_fetch8(cpu, mmu);
    let c1 = fr.0;
    let c2 = if cpu.halt_bug {
        Cpu {
            regs: Registers { pc: wsub16(c1.regs.pc, 1), ..c1.regs },
            halt_bug: false,
            ..c1
        }
    } else {
        c1
    };
    let c3 = if c2.ime == Ime::WillEnable {
        Cpu { ime: Ime::Enabled, ..c2 }
    } else {
        c2
    };
    spec_exec_phase(Instruction::of(decode(fr.1)), c3, mmu)
}

/// Leaving `Done`: with the master enable on and a source pending, the
/// source is acknowledged and its service instruction starts this cycle;
/// otherwise the next instruction is fetched this cycle.
pub open spec fn spec_done_phase(cpu: Cpu, mmu: MmuView) -> (Cpu, MmuView) {
    if cpu.ime == Ime::Enabled {
        match first_pending(mmu.ie & mmu.iflag) {
            Some(src) => {
                let m2 = MmuView { iflag: mmu.iflag & !src.mask_spec(), ..mmu };
                spec_exec_phase(Instruction::of(Op::IntSrv { src }), cpu, m2)
            },
            None => spec_fetch_phase(cpu, mmu),
        }
    } else {
        spec_fetch_phase(cpu, mmu)
    }
}

/// One step of the execution state machine, from whatever state the CPU
/// is in.
pub open spec fn spec_state_step(cpu: Cpu, mmu: MmuView) -> (Cpu, MmuView) {
    match cpu.state {
        State::Done => spec_done_phase(cpu, mmu),
        State::Fetch => spec_fetch_phase(cpu, mmu),
        State::Execute(i) => spec_exec_phase(i, cpu, mmu),
    }
}

/// One machine cycle. A stopped CPU only an external wake revives; a
/// halted one stays in `Done` until some source is both enabled and
/// requested, regardless of the master enable.
pub open spec fn spec_cycle(cpu: Cpu, mmu: MmuView) -> (Cpu, MmuView) {
    match cpu.status {
        Status::Stopped => (cpu, mmu),
        Status::Halted => if mmu.pending_spec() {
            spec_state_step(Cpu { status: Status::Enabled, ..cpu }, mmu)
        } else {
            (cpu, mmu)
        },
        Status::Enabled => spec_state_step(cpu, mmu),
    }
}

/// The machine after `n` cycles.
pub open spec fn spec_cycles(cpu: Cpu, mmu: MmuView, n: nat) -> (Cpu, MmuView)
    decreases n,
{
    if n == 0 {
        (cpu, mmu)
    } else {
        let r = spec_cycle(cpu, mmu);
        spec_cycles(r.0, r.1, (n - 1) as nat)
    }
}

/// Runs one micro-operation and returns the machine's next execution
/// state.
fn run_exec_phase(inst: Instruction, cpu: &mut Cpu, mmu: &mut Mmu) -> (next: State)
    requires
        old(cpu).wf(),
    ensures
        ({
            let r = spec_exec_phase(inst, *old(cpu), old(mmu)@);
            &&& (Cpu { state: next, ..*final(cpu) }) == r.0
            &&& final(mmu)@ == r.1
        }),
        final(cpu).wf(),
{
    match inst.exec(cpu, mmu) {
        Some(i) => State::Execute(i),
        None => State::Done,
    }
}

/// Runs a fetch cycle: opcode read, halt-bug service, delayed interrupt
/// enable, decode, and the first micro-operation.
fn run_fetch_phase(cpu: &mut Cpu, mmu: &mut Mmu) -> (next: State)
    requires
        old(cpu).wf(),
    ensures
        ({
            let r = spec_fetch_phase(*old(cpu), old(mmu)@);
            &&& (Cpu { state: next, ..*final(cpu) }) == r.0
            &&& final(mmu)@ == r.1
        }),
        final(cpu).wf(),
{
    let opcode = cpu.fetchbyte(mmu);
    if cpu.halt_bug {
        cpu.regs.pc = ex_wsub16(cpu.regs.pc, 1);
        cpu.halt_bug = false;
    }
    if matches!(cpu.ime, Ime::WillEnable) {
        cpu.ime = Ime::Enabled;
    }
    run_exec_phase(Instruction::new(opcode), cpu, mmu)
}

/// Running one more cycle after `n` is running the cycle on where `n`
/// cycles ended.
pub proof fn lemma_spec_cycles_snoc(cpu: Cpu, mmu: MmuView, n: nat)
    ensures
        spec_cycles(cpu, mmu, n + 1) == ({
            let r = spec_cycles(cpu, mmu, n);
            spec_cycle(r.0, r.1)
        }),
    decreases n,
{
    reveal_with_fuel(spec_cycles, 2);
    if n > 0 {
        let r1 = spec_cycle(cpu, mmu);
        lemma_spec_cycles_snoc(r1.0, r1.1, (n - 1) as nat);
    }
}

impl State {
    /// Executes one machine cycle's worth of the state machine and
    /// returns the next state (stored by the caller).
    #[verifier::rlimit(100)]
    pub fn exec(self, cpu: &mut Cpu, mmu: &mut Mmu) -> (next: State)
        requires
            old(cpu).wf(),
            old(cpu).state == self,
        ensures
            ({
                let r = spec_state_step(*old(cpu), old(mmu)@);
                &&& (Cpu { state: next, ..*final(cpu) }) == r.0
                &&& final(mmu)@ == r.1
            }),
            final(cpu).wf(),
    {
        match self {
            State::Done => {
                let pending = if matches!(cpu.ime, Ime::Enabled) {
                    mmu.irq()
                } else {
                    None
                };
                match pending {
                    Some(src) => {
                        mmu.ack(src);
                        run_exec_phase(Instruction::isr(src), cpu, mmu)
                    },
                    None => run_fetch_phase(cpu, mmu),
                }
            },
            State::Fetch => run_fetch_phase(cpu, mmu),
            State::Execute(inst) => run_exec_phase(inst, cpu, mmu),
        }
    }
}

impl Cpu {
    /// Advances the CPU by one M-cycle, as [`spec_cycle`] describes. The
    /// flag register's low nibble is zero after every cycle.
    pub fn cycle(&mut self, mmu: &mut Mmu)
        requires
            old(self).wf(),
        ensures
            ({
                let r = spec_cycle(*old(self), old(mmu)@);
                *final(self) == r.0 && final(mmu)@ == r.1
            }),
            final(self).wf(),
    {
        match self.status {
            Status::Stopped => {
                return ;
            },
            Status::Halted => {
                if mmu.pending() {
                    self.status = Status::Enabled;
                } else {
                    return ;
                }
            },
            Status::Enabled => {},
        }
        let st = self.state;
        let next = st.exec(self, mmu);
        self.state = next;
    }
}

// ---------------------------------------------------------------------
// The stack and interrupt laws.
// ---------------------------------------------------------------------

/// Pushing a word and popping it back yields the original word and
/// restores SP, for any 16-bit word and any machine whose two stack
/// bytes are backed by writable memory, whose low stack byte's backing
/// is not aliased by the high byte's address, and whose stack bytes are
/// away from the interrupt and boot-disable registers.
pub proof fn lemma_push_pop_round_trip(cpu: Cpu, mmu: MmuView, word: u16)
    requires
        ({
            let a1 = wsub16(cpu.regs.sp, 1);
            let a0 = wsub16(cpu.regs.sp, 2);
            &&& a1 != crate::mmu::IE_ADDR && a1 != crate::mmu::IF_ADDR && a1
                != crate::mmu::BOOT_OFF_ADDR
            &&& a0 != crate::mmu::IE_ADDR && a0 != crate::mmu::IF_ADDR && a0
                != crate::mmu::BOOT_OFF_ADDR
            &&& mmu.bus.writable_at(a1)
            &&& mmu.bus.writable_at(a0)
            &&& mmu.bus.independent(a0, a1)
        }),
    ensures
        ({
            let p = spec_push16(cpu, mmu, word);
            let q = spec_pop16(p.0, p.1);
            &&& q.1 == word
            &&& q.0.regs.sp == cpu.regs.sp
        }),
{
    let sp = cpu.regs.sp;
    let a1 = wsub16(sp, 1);
    let a0 = wsub16(sp, 2);
    assert(a0 != a1);
    assert(wadd16(a0, 1) == a1);
    assert(wadd16(a0, 2) == sp);

    let b0 = mmu.bus;
    let b1 = b0.write_spec(a1, hi8(word));
    let b2 = b1.write_spec(a0, lo8(word));
    let p = spec_push16(cpu, mmu, word);
    assert(p.1.bus == b2);
    assert(p.1.ie == mmu.ie && p.1.iflag == mmu.iflag);

    // The first write keeps the bus shape, so the predicates carry over.
    crate::bus::lemma_write_upto_shape(b0, b0.entries.len() as int, a1, hi8(word));
    crate::bus::lemma_same_shape_winner(b0, b1, b0.entries.len() as int, a0);
    crate::bus::lemma_same_shape_winner(b0, b1, b0.entries.len() as int, a1);

    // Reading the low byte back: it was written last.
    assert(b1.writable_at(a0)) by {
        crate::bus::lemma_winner_props(b0, b0.entries.len() as int, a0);
    }
    crate::bus::lemma_write_then_read(b1, a0, lo8(word));
    assert(b2.read_spec(a0) == lo8(word));

    // Reading the high byte back: the low-byte write cannot touch it.
    assert(b1.independent(a0, a1)) by {
        lemma_same_shape_independent(b0, b1, a0, a1);
    }
    crate::bus::lemma_write_other(b1, a0, a1, lo8(word));
    crate::bus::lemma_write_then_read(b0, a1, hi8(word));
    assert(b2.read_spec(a1) == b1.read_spec(a1));
    assert(b1.read_spec(a1) == hi8(word));

    let q = spec_pop16(p.0, p.1);
    assert(q.1 == make16(hi8(word), lo8(word)));
    assert(make16(hi8(word), lo8(word)) == word);
}

/// A halted CPU stays put — in particular its state machine stays in
/// `Done` — until some interrupt source is both enabled and requested,
/// regardless of the master enable.
pub proof fn lemma_halt_waits(cpu: Cpu, mmu: MmuView)
    requires
        cpu.status == Status::Halted,
        mmu.ie & mmu.iflag == 0,
    ensures
        spec_cycle(cpu, mmu) == (cpu, mmu),
{
}

/// The halt bug, in general: a fetch with the flag set reads and decodes
/// the byte at PC as usual, but PC is not advanced — the same byte will
/// be fetched again — and the flag is cleared. (An ordinary fetch leaves
/// the CPU entering execution with PC one past the opcode.)
pub proof fn lemma_halt_bug_fetch(cpu: Cpu, mmu: MmuView)
    requires
        cpu.halt_bug,
    ensures
        spec_fetch_phase(cpu, mmu) == spec_exec_phase(
            Instruction::of(decode(mmu.read_spec(cpu.regs.pc))),
            Cpu {
                halt_bug: false,
                ime: if cpu.ime == Ime::WillEnable {
                    Ime::Enabled
                } else {
                    cpu.ime
                },
                ..cpu
            },
            mmu,
        ),
{
    assert(wsub16(wadd16(cpu.regs.pc, 1), 1) == cpu.regs.pc);
}

/// Shape-equal buses agree on write/read independence.
proof fn lemma_same_shape_independent(x: crate::bus::BusView, y: crate::bus::BusView, a: u16, b: u16)
    requires
        crate::bus::same_shape(x, y),
        x.independent(a, b),
    ensures
        y.independent(a, b),
{
    crate::bus::lemma_same_shape_winner(x, y, x.entries.len() as int, b);
    let w = y.winner(b);
    if w >= 0 {
        let d = y.entries[w].dev as int;
        let off = b - y.entries[w].base;
        if y.touches(a, d, off) {
            let i = choose|i: int| y.hits(i, a) && y.entries[i].dev == d && a - y.entries[i].base
                == off;
            assert(x.hits(i, a));
            assert(x.touches(a, d, off));
        }
    }
}

/// Any interrupt dispatch: from `Done` with the master enable on and
/// source `src` arbitrated as pending, five machine cycles later SP has
/// gone down by two, PC holds the source's vector, the master enable is
/// off, and the machine is back in `Done`. When the two stack bytes are
/// away from the interrupt registers, the source's request flag is
/// acknowledged and the enable mask is untouched.
#[verifier::rlimit(100)]
pub proof fn lemma_interrupt_dispatch(cpu: Cpu, mmu: MmuView, src: Interrupt)
    requires
        cpu.status == Status::Enabled,
        cpu.state == State::Done,
        cpu.ime == Ime::Enabled,
        first_pending(mmu.ie & mmu.iflag) == Some(src),
    ensures
        ({
            let r = spec_cycles(cpu, mmu, 5);
            &&& r.0.regs.sp == wsub16(cpu.regs.sp, 2)
            &&& r.0.regs.pc == src.vector_spec()
            &&& r.0.ime == Ime::Disabled
            &&& r.0.state == State::Done
            &&& r.0.status == Status::Enabled
            &&& (wsub16(cpu.regs.sp, 1) != crate::mmu::IF_ADDR && wsub16(cpu.regs.sp, 2)
                != crate::mmu::IF_ADDR ==> r.1.iflag == (mmu.iflag & !src.mask_spec()))
            &&& (wsub16(cpu.regs.sp, 1) != crate::mmu::IE_ADDR && wsub16(cpu.regs.sp, 2)
                != crate::mmu::IE_ADDR ==> r.1.ie == mmu.ie)
        }),
{
    reveal(step_jump);
    let i0 = Instruction::of(Op::IntSrv { src });
    let i1 = Instruction { op: i0.op, step: 1, t16: 0 };
    let i2 = Instruction { op: i0.op, step: 2, t16: 0 };
    let i3 = Instruction { op: i0.op, step: 3, t16: 0 };
    let i4 = Instruction { op: i0.op, step: 4, t16: 0 };

    let r1 = spec_cycle(cpu, mmu);
    assert(r1.0.state == State::Execute(i1) && r1.0.ime == Ime::Disabled && r1.0.regs == cpu.regs
        && r1.0.status == Status::Enabled);

    let r2 = spec_cycle(r1.0, r1.1);
    assert(r2.0.state == State::Execute(i2) && r2.0.ime == Ime::Disabled && r2.0.regs == cpu.regs
        && r2.0.status == Status::Enabled);

    let r3 = spec_cycle(r2.0, r2.1);
    assert(r3.0.state == State::Execute(i3) && r3.0.ime == Ime::Disabled && r3.0.regs.sp == wsub16(
        cpu.regs.sp,
        1,
    ) && r3.0.regs.pc == cpu.regs.pc && r3.0.status == Status::Enabled);

    let r4 = spec_cycle(r3.0, r3.1);
    assert(wsub16(wsub16(cpu.regs.sp, 1), 1) == wsub16(cpu.regs.sp, 2));
    assert(r4.0.state == State::Execute(i4) && r4.0.ime == Ime::Disabled && r4.0.regs.sp == wsub16(
        cpu.regs.sp,
        2,
    ) && r4.0.regs.pc == cpu.regs.pc && r4.0.status == Status::Enabled);

    let r5 = spec_cycle(r4.0, r4.1);
    assert(r5.0.state == State::Done && r5.0.ime == Ime::Disabled && r5.0.regs.sp == wsub16(
        cpu.regs.sp,
        2,
    ) && r5.0.regs.pc == src.vector_spec() && r5.0.status == Status::Enabled);

    assert(spec_cycles(cpu, mmu, 5) == r5) by {
        reveal_with_fuel(spec_cycles, 6);
    }
}

/// Waking into an interrupt dispatch: a halted CPU whose master enable
/// is on leaves `Halted` as soon as source `src` becomes both enabled
/// and requested, and the following five machine cycles service it: SP
/// down by two, PC at the vector, the master enable off, the request
/// flag acknowledged.
pub proof fn lemma_halted_wake_dispatch(cpu: Cpu, mmu: MmuView, src: Interrupt)
    requires
        cpu.status == Status::Halted,
        cpu.state == State::Done,
        cpu.ime == Ime::Enabled,
        mmu.ie & mmu.iflag != 0,
        first_pending(mmu.ie & mmu.iflag) == Some(src),
    ensures
        ({
            let r = spec_cycles(cpu, mmu, 5);
            &&& r.0.regs.sp == wsub16(cpu.regs.sp, 2)
            &&& r.0.regs.pc == src.vector_spec()
            &&& r.0.ime == Ime::Disabled
            &&& r.0.state == State::Done
            &&& r.0.status == Status::Enabled
            &&& (wsub16(cpu.regs.sp, 1) != crate::mmu::IF_ADDR && wsub16(cpu.regs.sp, 2)
                != crate::mmu::IF_ADDR ==> r.1.iflag == (mmu.iflag & !src.mask_spec()))
        }),
{
    let woke = Cpu { status: Status::Enabled, ..cpu };
    assert(spec_cycle(cpu, mmu) == spec_cycle(woke, mmu));
    assert(spec_cycles(cpu, mmu, 5) == spec_cycles(woke, mmu, 5)) by {
        reveal_with_fuel(spec_cycles, 2);
    }
    lemma_interrupt_dispatch(woke, mmu, src);
}

} // verus!
