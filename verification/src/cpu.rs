//! The 6502-family CPU core: registers, addressing modes and the
//! instruction interpreter.
//!
//! Every instruction has a mathematical transition function over [`CpuView`];
//! the executable interpreter is proved to follow those transitions step by
//! step.

use vstd::prelude::*;

use crate::memory::spec_read_u16;
use crate::memory::Memory;
use crate::status::StatusFlags;
use crate::status::BREAK_COMMAND;
use crate::status::CARRY;
use crate::status::DECIMAL_MODE;
use crate::status::INTERRUPT_DISABLE;
use crate::status::NEGATIVE;
use crate::status::OVERFLOW;
use crate::status::UNUSED;
use crate::status::ZERO;

verus! {

/// How an instruction finds its operand.
#[derive(Clone, Copy, Debug, PartialEq, Eq, Structural)]
pub enum AddressingMode {
    Accumulator,
    Immediate,
    ZeroPage,
    ZeroPageX,
    ZeroPageY,
    Relative,
    Absolute,
    AbsoluteX,
    AbsoluteY,
    Indirect,
    IndirectX,
    IndirectY,
    Implied,
}

/// The programmer-visible register file.
#[derive(Clone, Copy, Debug, PartialEq, Eq, Structural)]
pub struct Registers {
    pub a: u8,
    pub x: u8,
    pub y: u8,
    pub status: StatusFlags,
    pub pc: u16,
    pub sp: u8,
}

/// The CPU together with its flat 64 KiB memory.
pub struct CPU {
    pub registers: Registers,
    pub memory: Memory,
}

/// The CPU's mathematical state: the register file plus memory as a
/// byte sequence.
pub struct CpuView {
    pub a: u8,
    pub x: u8,
    pub y: u8,
    pub status: u8,
    pub pc: u16,
    pub sp: u8,
    pub mem: Seq<u8>,
}

impl View for CPU {
    type V = CpuView;

    open spec fn view(&self) -> CpuView {
        CpuView {
            a: self.registers.a,
            x: self.registers.x,
            y: self.registers.y,
            status: self.registers.status.bits,
            pc: self.registers.pc,
            sp: self.registers.sp,
            mem: self.memory@,
        }
    }
}

impl CPU {
    pub open spec fn wf(&self) -> bool {
        self.memory.wf()
    }
}

/// Status byte with Z and N updated from `value`: Z iff the value is zero,
/// N iff its top bit is set.
pub open spec fn zn(status: u8, value: u8) -> u8 {
    let s = if value == 0 {
        status | ZERO
    } else {
        status & !ZERO
    };
    if value >= 128 {
        s | NEGATIVE
    } else {
        s & !NEGATIVE
    }
}

/// Status byte with one flag bit set or cleared.
pub open spec fn set_flag(status: u8, mask: u8, value: bool) -> u8 {
    if value {
        status | mask
    } else {
        status & !mask
    }
}

pub open spec fn flag_set(status: u8, mask: u8) -> bool {
    status & mask == mask
}

/// The address `ptr + 1` would reach when the increment wraps inside
/// `ptr`'s page, as the 6502's indirect JMP does.
pub open spec fn page_wrapped_inc(ptr: u16) -> u16 {
    ((ptr / 256) * 256 + (ptr % 256 + 1) % 256) as u16
}

/// Sign extension of an 8-bit branch offset to 16 bits.
pub open spec fn sign_extend(b: u8) -> u16 {
    if b < 128 {
        b as u16
    } else {
        (b + 0xFF00) as u16
    }
}

/// The operand address each addressing mode computes, with the program
/// counter already past the opcode byte.  `Accumulator` and `Implied`
/// take no operand address.
pub open spec fn operand_address(v: CpuView, mode: AddressingMode) -> u16 {
    match mode {
        AddressingMode::Immediate => v.pc,
        AddressingMode::ZeroPage => v.mem[v.pc as int] as u16,
        AddressingMode::ZeroPageX => ((v.mem[v.pc as int] + v.x) % 256) as u16,
        AddressingMode::ZeroPageY => ((v.mem[v.pc as int] + v.y) % 256) as u16,
        AddressingMode::Relative => v.pc.wrapping_add(1).wrapping_add(
            sign_extend(v.mem[v.pc as int]),
        ),
        AddressingMode::Absolute => spec_read_u16(v.mem, v.pc),
        AddressingMode::AbsoluteX => spec_read_u16(v.mem, v.pc).wrapping_add(v.x as u16),
        AddressingMode::AbsoluteY => spec_read_u16(v.mem, v.pc).wrapping_add(v.y as u16),
        AddressingMode::Indirect => {
            // The documented page-wrap quirk: a vector at $xxFF reads its
            // high byte from $xx00.
            let ptr = spec_read_u16(v.mem, v.pc);
            (v.mem[ptr as int] + 256 * v.mem[page_wrapped_inc(ptr) as int]) as u16
        },
        AddressingMode::IndirectX => {
            let p = (v.mem[v.pc as int] + v.x) % 256;
            (v.mem[p as int] + 256 * v.mem[(p + 1) % 256]) as u16
        },
        AddressingMode::IndirectY => {
            let b = v.mem[v.pc as int];
            let base = (v.mem[b as int] + 256 * v.mem[(b + 1) % 256]) as u16;
            base.wrapping_add(v.y as u16)
        },
        AddressingMode::Accumulator => 0,
        AddressingMode::Implied => 0,
    }
}

/// True of the modes that compute an operand address.
pub open spec fn addressed(mode: AddressingMode) -> bool {
    mode != AddressingMode::Accumulator && mode != AddressingMode::Implied
}

impl CPU {
    pub fn new() -> (r: CPU)
        ensures
            r.wf(),
            r@.a == 0 && r@.x == 0 && r@.y == 0,
            r@.status == 0,
            r@.pc == 0x8000,
            r@.sp == 0,
            forall|i: int| 0 <= i < 0x10000 ==> r@.mem[i] == 0u8,
    {
        CPU {
            registers: Registers {
                a: 0,
                x: 0,
                y: 0,
                status: StatusFlags::empty(),
                pc: 0x8000,
                sp: 0x00,
            },
            memory: Memory::new(),
        }
    }

    fn update_zero_and_negative_flags(&mut self, value: u8)
        ensures
            final(self).registers.status.bits == zn(old(self).registers.status.bits, value),
            final(self).registers.a == old(self).registers.a,
            final(self).registers.x == old(self).registers.x,
            final(self).registers.y == old(self).registers.y,
            final(self).registers.pc == old(self).registers.pc,
            final(self).registers.sp == old(self).registers.sp,
            final(self).memory == old(self).memory,
    {
        if value == 0 {
            self.registers.status.insert(ZERO);
        } else {
            self.registers.status.remove(ZERO);
        }
        if value >= 128 {
            self.registers.status.insert(NEGATIVE);
        } else {
            self.registers.status.remove(NEGATIVE);
        }
    }

    fn get_operand_address(&self, mode: AddressingMode) -> (r: u16)
        requires
            self.wf(),
            addressed(mode),
        ensures
            r == operand_address(self@, mode),
    {
        match mode {
            AddressingMode::Immediate => self.registers.pc,
            AddressingMode::ZeroPage => self.memory.read(self.registers.pc) as u16,
            AddressingMode::ZeroPageX => {
                let pos = self.memory.read(self.registers.pc);
                ((pos as u16 + self.registers.x as u16) % 256) as u16
            },
            AddressingMode::ZeroPageY => {
                let pos = self.memory.read(self.registers.pc);
                ((pos as u16 + self.registers.y as u16) % 256) as u16
            },
            AddressingMode::Relative => {
                let offset = self.memory.read(self.registers.pc);
                let ext: u16 = if offset < 128 {
                    offset as u16
                } else {
                    offset as u16 + 0xFF00
                };
                self.registers.pc.wrapping_add(1).wrapping_add(ext)
            },
            AddressingMode::Absolute => self.memory.read_u16(self.registers.pc),
            AddressingMode::AbsoluteX => {
                let base = self.memory.read_u16(self.registers.pc);
                base.wrapping_add(self.registers.x as u16)
            },
            AddressingMode::AbsoluteY => {
                let base = self.memory.read_u16(self.registers.pc);
                base.wrapping_add(self.registers.y as u16)
            },
            AddressingMode::Indirect => {
                let ptr = self.memory.read_u16(self.registers.pc);
                let hi_addr = (ptr / 256) * 256 + (ptr % 256 + 1) % 256;
                let lo = self.memory.read(ptr);
                let hi = self.memory.read(hi_addr);
                lo as u16 + 256 * hi as u16
            },
            AddressingMode::IndirectX => {
                let base = self.memory.read(self.registers.pc);
                let p = ((base as u16 + self.registers.x as u16) % 256) as u8;
                let lo = self.memory.read(p as u16);
                let hi = self.memory.read((p as u16 + 1) % 256);
                lo as u16 + 256 * hi as u16
            },
            AddressingMode::IndirectY => {
                let b = self.memory.read(self.registers.pc);
                let lo = self.memory.read(b as u16);
                let hi = self.memory.read((b as u16 + 1) % 256);
                let base = lo as u16 + 256 * hi as u16;
                base.wrapping_add(self.registers.y as u16)
            },
            AddressingMode::Accumulator | AddressingMode::Implied => 0,
        }
    }
}

// ---------------------------------------------------------------------------
// Value-level arithmetic of the instruction set.
// ---------------------------------------------------------------------------
/// The carry flag as a 0/1 summand.
pub open spec fn carry_bit(status: u8) -> u8 {
    if flag_set(status, CARRY) {
        1
    } else {
        0
    }
}

/// ADC result byte: (a + b + c) mod 256.
pub open spec fn adc_result(a: u8, b: u8, c: u8) -> u8 {
    ((a + b + c) % 256) as u8
}

/// ADC carry out: the true sum exceeds one byte.
pub open spec fn adc_carry(a: u8, b: u8, c: u8) -> bool {
    a + b + c > 255
}

/// ADC two's-complement overflow, by the sign-comparison identity.
pub open spec fn adc_overflow(a: u8, b: u8, c: u8) -> bool {
    (a ^ adc_result(a, b, c)) & (b ^ adc_result(a, b, c)) & 0x80 != 0
}

pub open spec fn asl_value(x: u8) -> u8 {
    ((x * 2) % 256) as u8
}

pub open spec fn lsr_value(x: u8) -> u8 {
    x / 2
}

pub open spec fn rol_value(x: u8, c: u8) -> u8 {
    ((x * 2 + c) % 256) as u8
}

pub open spec fn ror_value(x: u8, c: u8) -> u8 {
    (x / 2 + c * 128) as u8
}

// ---------------------------------------------------------------------------
// Stack discipline: the stack lives at $0100-$01FF; a push writes at
// $0100 + S and decrements S, a pull increments S and reads there.
// ---------------------------------------------------------------------------
pub open spec fn push_spec(v: CpuView, value: u8) -> CpuView {
    CpuView {
        mem: v.mem.update(0x100 + v.sp as int, value),
        sp: v.sp.wrapping_sub(1),
        ..v
    }
}

pub open spec fn pull_spec(v: CpuView) -> (CpuView, u8) {
    let sp1 = v.sp.wrapping_add(1);
    (CpuView { sp: sp1, ..v }, v.mem[0x100 + sp1 as int])
}

// ---------------------------------------------------------------------------
// One transition function per instruction, over the state after the opcode
// byte has been fetched (the program counter points at the first operand
// byte; the interpreter advances it past the operands afterwards).
// ---------------------------------------------------------------------------
pub open spec fn operand(v: CpuView, mode: AddressingMode) -> u8 {
    v.mem[operand_address(v, mode) as int]
}

pub open spec fn adc_spec(v: CpuView, mode: AddressingMode) -> CpuView {
    let b = operand(v, mode);
    let c = carry_bit(v.status);
    let r = adc_result(v.a, b, c);
    let s = set_flag(set_flag(v.status, CARRY, adc_carry(v.a, b, c)), OVERFLOW, adc_overflow(v.a, b, c));
    CpuView { a: r, status: zn(s, r), ..v }
}

/// SBC is ADC of the operand's one's complement.
pub open spec fn sbc_spec(v: CpuView, mode: AddressingMode) -> CpuView {
    let b = (255 - operand(v, mode)) as u8;
    let c = carry_bit(v.status);
    let r = adc_result(v.a, b, c);
    let s = set_flag(set_flag(v.status, CARRY, adc_carry(v.a, b, c)), OVERFLOW, adc_overflow(v.a, b, c));
    CpuView { a: r, status: zn(s, r), ..v }
}

pub open spec fn and_spec(v: CpuView, mode: AddressingMode) -> CpuView {
    let r = v.a & operand(v, mode);
    CpuView { a: r, status: zn(v.status, r), ..v }
}

pub open spec fn eor_spec(v: CpuView, mode: AddressingMode) -> CpuView {
    let r = v.a ^ operand(v, mode);
    CpuView { a: r, status: zn(v.status, r), ..v }
}

pub open spec fn ora_spec(v: CpuView, mode: AddressingMode) -> CpuView {
    let r = v.a | operand(v, mode);
    CpuView { a: r, status: zn(v.status, r), ..v }
}

/// Shared shape of the four shift/rotate instructions: `out` is the new
/// byte, `carry_out` the bit shifted out.
pub open spec fn shift_spec(
    v: CpuView,
    mode: AddressingMode,
    out_acc: u8,
    carry_acc: bool,
    out_mem: u8,
    carry_mem: bool,
) -> CpuView {
    if mode == AddressingMode::Accumulator {
        let s = set_flag(v.status, CARRY, carry_acc);
        CpuView { a: out_acc, status: zn(s, out_acc), ..v }
    } else {
        let addr = operand_address(v, mode);
        let s = set_flag(v.status, CARRY, carry_mem);
        CpuView { mem: v.mem.update(addr as int, out_mem), status: zn(s, out_mem), ..v }
    }
}

pub open spec fn asl_spec(v: CpuView, mode: AddressingMode) -> CpuView {
    let m = operand(v, mode);
    shift_spec(v, mode, asl_value(v.a), v.a >= 128, asl_value(m), m >= 128)
}

pub open spec fn lsr_spec(v: CpuView, mode: AddressingMode) -> CpuView {
    let m = operand(v, mode);
    shift_spec(v, mode, lsr_value(v.a), v.a % 2 == 1, lsr_value(m), m % 2 == 1)
}

pub open spec fn rol_spec(v: CpuView, mode: AddressingMode) -> CpuView {
    let m = operand(v, mode);
    let c = carry_bit(v.status);
    shift_spec(v, mode, rol_value(v.a, c), v.a >= 128, rol_value(m, c), m >= 128)
}

pub open spec fn ror_spec(v: CpuView, mode: AddressingMode) -> CpuView {
    let m = operand(v, mode);
    let c = carry_bit(v.status);
    shift_spec(v, mode, ror_value(v.a, c), v.a % 2 == 1, ror_value(m, c), m % 2 == 1)
}

/// A conditional branch: when taken, the program counter moves to the
/// relative target; when not taken, nothing changes here and the
/// interpreter advances past the operand.
pub open spec fn branch_spec(v: CpuView, mode: AddressingMode, taken: bool) -> CpuView {
    if taken {
        CpuView { pc: operand_address(v, mode), ..v }
    } else {
        v
    }
}

pub open spec fn bit_spec(v: CpuView, mode: AddressingMode) -> CpuView {
    let m = operand(v, mode);
    let s1 = set_flag(v.status, ZERO, v.a & m == 0);
    let s2 = set_flag(s1, OVERFLOW, m & 0x40 != 0);
    let s3 = set_flag(s2, NEGATIVE, m & 0x80 != 0);
    CpuView { status: s3, ..v }
}

/// CMP/CPX/CPY: carry iff the register is at least the operand, Z and N
/// from the wrapped difference.
pub open spec fn compare_spec(v: CpuView, mode: AddressingMode, reg: u8) -> CpuView {
    let m = operand(v, mode);
    let s = set_flag(v.status, CARRY, reg >= m);
    CpuView { status: zn(s, ((reg + 256 - m) % 256) as u8), ..v }
}

pub open spec fn dec_spec(v: CpuView, mode: AddressingMode) -> CpuView {
    let addr = operand_address(v, mode);
    let r = operand(v, mode).wrapping_sub(1);
    CpuView { mem: v.mem.update(addr as int, r), status: zn(v.status, r), ..v }
}

pub open spec fn inc_spec(v: CpuView, mode: AddressingMode) -> CpuView {
    let addr = operand_address(v, mode);
    let r = operand(v, mode).wrapping_add(1);
    CpuView { mem: v.mem.update(addr as int, r), status: zn(v.status, r), ..v }
}

pub open spec fn jmp_spec(v: CpuView, mode: AddressingMode) -> CpuView {
    CpuView { pc: operand_address(v, mode), ..v }
}

/// JSR pushes the address of the instruction's last byte (high byte first)
/// and jumps.
pub open spec fn jsr_spec(v: CpuView, mode: AddressingMode) -> CpuView {
    let target = operand_address(v, mode);
    let ret = v.pc.wrapping_add(1);
    let v1 = push_spec(v, (ret / 256) as u8);
    let v2 = push_spec(v1, (ret % 256) as u8);
    CpuView { pc: target, ..v2 }
}

/// RTS pulls the return address (low byte first) and resumes one past it.
pub open spec fn rts_spec(v: CpuView) -> CpuView {
    let (v1, lo) = pull_spec(v);
    let (v2, hi) = pull_spec(v1);
    CpuView { pc: ((lo + 256 * hi) as u16).wrapping_add(1), ..v2 }
}

pub open spec fn lda_spec(v: CpuView, mode: AddressingMode) -> CpuView {
    let r = operand(v, mode);
    CpuView { a: r, status: zn(v.status, r), ..v }
}

pub open spec fn ldx_spec(v: CpuView, mode: AddressingMode) -> CpuView {
    let r = operand(v, mode);
    CpuView { x: r, status: zn(v.status, r), ..v }
}

pub open spec fn ldy_spec(v: CpuView, mode: AddressingMode) -> CpuView {
    let r = operand(v, mode);
    CpuView { y: r, status: zn(v.status, r), ..v }
}

pub open spec fn sta_spec(v: CpuView, mode: AddressingMode) -> CpuView {
    CpuView { mem: v.mem.update(operand_address(v, mode) as int, v.a), ..v }
}

pub open spec fn stx_spec(v: CpuView, mode: AddressingMode) -> CpuView {
    CpuView { mem: v.mem.update(operand_address(v, mode) as int, v.x), ..v }
}

pub open spec fn sty_spec(v: CpuView, mode: AddressingMode) -> CpuView {
    CpuView { mem: v.mem.update(operand_address(v, mode) as int, v.y), ..v }
}

pub open spec fn pha_spec(v: CpuView) -> CpuView {
    push_spec(v, v.a)
}

/// PHP pushes the status byte with B and U set, as the 6502 documents.
pub open spec fn php_spec(v: CpuView) -> CpuView {
    push_spec(v, v.status | BREAK_COMMAND | UNUSED)
}

pub open spec fn pla_spec(v: CpuView) -> CpuView {
    let (v1, r) = pull_spec(v);
    CpuView { a: r, status: zn(v1.status, r), ..v1 }
}

pub open spec fn plp_spec(v: CpuView) -> CpuView {
    let (v1, r) = pull_spec(v);
    CpuView { status: r, ..v1 }
}

/// BRK pushes the address two past the opcode and the status byte with
/// B and U set, sets the interrupt-disable flag, and jumps through the
/// vector at $FFFE.
pub open spec fn brk_spec(v: CpuView) -> CpuView {
    let ret = v.pc.wrapping_add(1);
    let v1 = push_spec(v, (ret / 256) as u8);
    let v2 = push_spec(v1, (ret % 256) as u8);
    let v3 = push_spec(v2, v.status | BREAK_COMMAND | UNUSED);
    CpuView {
        status: v3.status | INTERRUPT_DISABLE,
        pc: spec_read_u16(v3.mem, 0xFFFE),
        ..v3
    }
}

/// RTI pulls the status byte and then the program counter, without the
/// RTS-style increment.
pub open spec fn rti_spec(v: CpuView) -> CpuView {
    let (v1, s) = pull_spec(v);
    let (v2, lo) = pull_spec(v1);
    let (v3, hi) = pull_spec(v2);
    CpuView { status: s, pc: (lo + 256 * hi) as u16, ..v3 }
}

impl CPU {
    fn stack_push(&mut self, value: u8)
        requires
            old(self).wf(),
        ensures
            final(self).wf(),
            final(self)@ == push_spec(old(self)@, value),
    {
        let addr = 0x0100 + self.registers.sp as u16;
        self.memory.write(addr, value);
        self.registers.sp = self.registers.sp.wrapping_sub(1);
    }

    fn stack_pull(&mut self) -> (r: u8)
        requires
            old(self).wf(),
        ensures
            final(self).wf(),
            final(self)@ == pull_spec(old(self)@).0,
            r == pull_spec(old(self)@).1,
    {
        self.registers.sp = self.registers.sp.wrapping_add(1);
        let addr = 0x0100 + self.registers.sp as u16;
        self.memory.read(addr)
    }

    fn adc(&mut self, mode: AddressingMode)
        requires
            old(self).wf(),
            addressed(mode),
        ensures
            final(self).wf(),
            final(self)@ == adc_spec(old(self)@, mode),
    {
        let addr = self.get_operand_address(mode);
        let value = self.memory.read(addr);
        self.add_to_a(value);
    }

    fn sbc(&mut self, mode: AddressingMode)
        requires
            old(self).wf(),
            addressed(mode),
        ensures
            final(self).wf(),
            final(self)@ == sbc_spec(old(self)@, mode),
    {
        let addr = self.get_operand_address(mode);
        let value = self.memory.read(addr);
        self.add_to_a(255 - value);
    }

    /// The shared ADC/SBC data path: add `value` and the carry into A,
    /// setting C, V, Z and N.
    fn add_to_a(&mut self, value: u8)
        ensures
            final(self).registers.a == adc_result(old(self)@.a, value, carry_bit(old(self)@.status)),
            final(self).registers.status.bits == zn(
                set_flag(
                    set_flag(
                        old(self)@.status,
                        CARRY,
                        adc_carry(old(self)@.a, value, carry_bit(old(self)@.status)),
                    ),
                    OVERFLOW,
                    adc_overflow(old(self)@.a, value, carry_bit(old(self)@.status)),
                ),
                adc_result(old(self)@.a, value, carry_bit(old(self)@.status)),
            ),
            final(self).registers.x == old(self).registers.x,
            final(self).registers.y == old(self).registers.y,
            final(self).registers.pc == old(self).registers.pc,
            final(self).registers.sp == old(self).registers.sp,
            final(self).memory == old(self).memory,
    {
        let carry: u16 = if self.registers.status.contains(CARRY) {
            1
        } else {
            0
        };
        let sum: u16 = self.registers.a as u16 + value as u16 + carry;
        self.registers.status.set(CARRY, sum > 255);
        let result = (sum % 256) as u8;
        self.registers.status.set(
            OVERFLOW,
            (self.registers.a ^ result) & (value ^ result) & 0x80 != 0,
        );
        self.registers.a = result;
        self.update_zero_and_negative_flags(result);
    }

    fn and(&mut self, mode: AddressingMode)
        requires
            old(self).wf(),
            addressed(mode),
        ensures
            final(self).wf(),
            final(self)@ == and_spec(old(self)@, mode),
    {
        let addr = self.get_operand_address(mode);
        let value = self.memory.read(addr);
        self.registers.a = self.registers.a & value;
        let a = self.registers.a;
        self.update_zero_and_negative_flags(a);
    }

    fn eor(&mut self, mode: AddressingMode)
        requires
            old(self).wf(),
            addressed(mode),
        ensures
            final(self).wf(),
            final(self)@ == eor_spec(old(self)@, mode),
    {
        let addr = self.get_operand_address(mode);
        let value = self.memory.read(addr);
        self.registers.a = self.registers.a ^ value;
        let a = self.registers.a;
        self.update_zero_and_negative_flags(a);
    }

    fn ora(&mut self, mode: AddressingMode)
        requires
            old(self).wf(),
            addressed(mode),
        ensures
            final(self).wf(),
            final(self)@ == ora_spec(old(self)@, mode),
    {
        let addr = self.get_operand_address(mode);
        let value = self.memory.read(addr);
        self.registers.a = self.registers.a | value;
        let a = self.registers.a;
        self.update_zero_and_negative_flags(a);
    }

    fn asl(&mut self, mode: AddressingMode)
        requires
            old(self).wf(),
            mode != AddressingMode::Implied,
        ensures
            final(self).wf(),
            final(self)@ == asl_spec(old(self)@, mode),
    {
        if mode == AddressingMode::Accumulator {
            let value = self.registers.a;
            self.registers.status.set(CARRY, value >= 128);
            let result = ((value as u16 * 2) % 256) as u8;
            self.registers.a = result;
            self.update_zero_and_negative_flags(result);
            return ;
        }
        let addr = self.get_operand_address(mode);
        let value = self.memory.read(addr);
        self.registers.status.set(CARRY, value >= 128);
        let result = ((value as u16 * 2) % 256) as u8;
        self.memory.write(addr, result);
        self.update_zero_and_negative_flags(result);
    }

    fn lsr(&mut self, mode: AddressingMode)
        requires
            old(self).wf(),
            mode != AddressingMode::Implied,
        ensures
            final(self).wf(),
            final(self)@ == lsr_spec(old(self)@, mode),
    {
        if mode == AddressingMode::Accumulator {
            let value = self.registers.a;
            self.registers.status.set(CARRY, value % 2 == 1);
            let result = value / 2;
            self.registers.a = result;
            self.update_zero_and_negative_flags(result);
            return ;
        }
        let addr = self.get_operand_address(mode);
        let value = self.memory.read(addr);
        self.registers.status.set(CARRY, value % 2 == 1);
        let result = value / 2;
        self.memory.write(addr, result);
        self.update_zero_and_negative_flags(result);
    }

    fn rol(&mut self, mode: AddressingMode)
        requires
            old(self).wf(),
            mode != AddressingMode::Implied,
        ensures
            final(self).wf(),
            final(self)@ == rol_spec(old(self)@, mode),
    {
        let carry_in: u16 = if self.registers.status.contains(CARRY) {
            1
        } else {
            0
        };
        if mode == AddressingMode::Accumulator {
            let value = self.registers.a;
            self.registers.status.set(CARRY, value >= 128);
            let result = ((value as u16 * 2 + carry_in) % 256) as u8;
            self.registers.a = result;
            self.update_zero_and_negative_flags(result);
            return ;
        }
        let addr = self.get_operand_address(mode);
        let value = self.memory.read(addr);
        self.registers.status.set(CARRY, value >= 128);
        let result = ((value as u16 * 2 + carry_in) % 256) as u8;
        self.memory.write(addr, result);
        self.update_zero_and_negative_flags(result);
    }

    fn ror(&mut self, mode: AddressingMode)
        requires
            old(self).wf(),
            mode != AddressingMode::Implied,
        ensures
            final(self).wf(),
            final(self)@ == ror_spec(old(self)@, mode),
    {
        let carry_in: u8 = if self.registers.status.contains(CARRY) {
            1
        } else {
            0
        };
        if mode == AddressingMode::Accumulator {
            let value = self.registers.a;
            self.registers.status.set(CARRY, value % 2 == 1);
            let result = value / 2 + carry_in * 128;
            self.registers.a = result;
            self.update_zero_and_negative_flags(result);
            return ;
        }
        let addr = self.get_operand_address(mode);
        let value = self.memory.read(addr);
        self.registers.status.set(CARRY, value % 2 == 1);
        let result = value / 2 + carry_in * 128;
        self.memory.write(addr, result);
        self.update_zero_and_negative_flags(result);
    }

    fn branch_if(&mut self, mode: AddressingMode, condition: bool)
        requires
            old(self).wf(),
            addressed(mode),
        ensures
            final(self).wf(),
            final(self)@ == branch_spec(old(self)@, mode, condition),
    {
        let addr = self.get_operand_address(mode);
        if condition {
            self.registers.pc = addr;
        }
    }

    fn bit(&mut self, mode: AddressingMode)
        requires
            old(self).wf(),
            addressed(mode),
        ensures
            final(self).wf(),
            final(self)@ == bit_spec(old(self)@, mode),
    {
        let addr = self.get_operand_address(mode);
        let value = self.memory.read(addr);
        let result = self.registers.a & value;
        self.registers.status.set(ZERO, result == 0);
        self.registers.status.set(OVERFLOW, value & 0x40 != 0);
        self.registers.status.set(NEGATIVE, value & 0x80 != 0);
    }

    fn compare_with(&mut self, mode: AddressingMode, reg: u8)
        requires
            old(self).wf(),
            addressed(mode),
        ensures
            final(self).wf(),
            final(self)@ == (CpuView {
                status: compare_spec(old(self)@, mode, reg).status,
                ..old(self)@
            }),
    {
        let addr = self.get_operand_address(mode);
        let value = self.memory.read(addr);
        self.registers.status.set(CARRY, reg >= value);
        let diff = reg.wrapping_sub(value);
        assert(diff == ((reg + 256 - value) % 256) as u8);
        self.update_zero_and_negative_flags(diff);
    }

    fn dec(&mut self, mode: AddressingMode)
        requires
            old(self).wf(),
            addressed(mode),
        ensures
            final(self).wf(),
            final(self)@ == dec_spec(old(self)@, mode),
    {
        let addr = self.get_operand_address(mode);
        let value = self.memory.read(addr).wrapping_sub(1);
        self.memory.write(addr, value);
        self.update_zero_and_negative_flags(value);
    }

    fn inc(&mut self, mode: AddressingMode)
        requires
            old(self).wf(),
            addressed(mode),
        ensures
            final(self).wf(),
            final(self)@ == inc_spec(old(self)@, mode),
    {
        let addr = self.get_operand_address(mode);
        let value = self.memory.read(addr).wrapping_add(1);
        self.memory.write(addr, value);
        self.update_zero_and_negative_flags(value);
    }

    fn jmp(&mut self, mode: AddressingMode)
        requires
            old(self).wf(),
            addressed(mode),
        ensures
            final(self).wf(),
            final(self)@ == jmp_spec(old(self)@, mode),
    {
        let addr = self.get_operand_address(mode);
        self.registers.pc = addr;
    }

    fn jsr(&mut self, mode: AddressingMode)
        requires
            old(self).wf(),
            addressed(mode),
        ensures
            final(self).wf(),
            final(self)@ == jsr_spec(old(self)@, mode),
    {
        let addr = self.get_operand_address(mode);
        let ret = self.registers.pc.wrapping_add(1);
        self.stack_push((ret / 256) as u8);
        self.stack_push((ret % 256) as u8);
        self.registers.pc = addr;
    }

    fn rts(&mut self)
        requires
            old(self).wf(),
        ensures
            final(self).wf(),
            final(self)@ == rts_spec(old(self)@),
    {
        let lo = self.stack_pull();
        let hi = self.stack_pull();
        self.registers.pc = (lo as u16 + 256 * hi as u16).wrapping_add(1);
    }

    fn lda(&mut self, mode: AddressingMode)
        requires
            old(self).wf(),
            addressed(mode),
        ensures
            final(self).wf(),
            final(self)@ == lda_spec(old(self)@, mode),
    {
        let addr = self.get_operand_address(mode);
        let value = self.memory.read(addr);
        self.registers.a = value;
        self.update_zero_and_negative_flags(value);
    }

    fn ldx(&mut self, mode: AddressingMode)
        requires
            old(self).wf(),
            addressed(mode),
        ensures
            final(self).wf(),
            final(self)@ == ldx_spec(old(self)@, mode),
    {
        let addr = self.get_operand_address(mode);
        let value = self.memory.read(addr);
        self.registers.x = value;
        self.update_zero_and_negative_flags(value);
    }

    fn ldy(&mut self, mode: AddressingMode)
        requires
            old(self).wf(),
            addressed(mode),
        ensures
            final(self).wf(),
            final(self)@ == ldy_spec(old(self)@, mode),
    {
        let addr = self.get_operand_address(mode);
        let value = self.memory.read(addr);
        self.registers.y = value;
        self.update_zero_and_negative_flags(value);
    }

    fn sta(&mut self, mode: AddressingMode)
        requires
            old(self).wf(),
            addressed(mode),
        ensures
            final(self).wf(),
            final(self)@ == sta_spec(old(self)@, mode),
    {
        let addr = self.get_operand_address(mode);
        self.memory.write(addr, self.registers.a);
    }

    fn stx(&mut self, mode: AddressingMode)
        requires
            old(self).wf(),
            addressed(mode),
        ensures
            final(self).wf(),
            final(self)@ == stx_spec(old(self)@, mode),
    {
        let addr = self.get_operand_address(mode);
        self.memory.write(addr, self.registers.x);
    }

    fn sty(&mut self, mode: AddressingMode)
        requires
            old(self).wf(),
            addressed(mode),
        ensures
            final(self).wf(),
            final(self)@ == sty_spec(old(self)@, mode),
    {
        let addr = self.get_operand_address(mode);
        self.memory.write(addr, self.registers.y);
    }

    fn pha(&mut self)
        requires
            old(self).wf(),
        ensures
            final(self).wf(),
            final(self)@ == pha_spec(old(self)@),
    {
        let a = self.registers.a;
        self.stack_push(a);
    }

    fn php(&mut self)
        requires
            old(self).wf(),
        ensures
            final(self).wf(),
            final(self)@ == php_spec(old(self)@),
    {
        let bits = self.registers.status.bits() | BREAK_COMMAND | UNUSED;
        self.stack_push(bits);
    }

    fn pla(&mut self)
        requires
            old(self).wf(),
        ensures
            final(self).wf(),
            final(self)@ == pla_spec(old(self)@),
    {
        let value = self.stack_pull();
        self.registers.a = value;
        self.update_zero_and_negative_flags(value);
    }

    fn plp(&mut self)
        requires
            old(self).wf(),
        ensures
            final(self).wf(),
            final(self)@ == plp_spec(old(self)@),
    {
        let value = self.stack_pull();
        self.registers.status = StatusFlags::from_bits_truncate(value);
    }

    fn brk(&mut self)
        requires
            old(self).wf(),
        ensures
            final(self).wf(),
            final(self)@ == brk_spec(old(self)@),
    {
        let ret = self.registers.pc.wrapping_add(1);
        let bits = self.registers.status.bits() | BREAK_COMMAND | UNUSED;
        self.stack_push((ret / 256) as u8);
        self.stack_push((ret % 256) as u8);
        self.stack_push(bits);
        self.registers.status.insert(INTERRUPT_DISABLE);
        self.registers.pc = self.memory.read_u16(0xFFFE);
    }

    fn rti(&mut self)
        requires
            old(self).wf(),
        ensures
            final(self).wf(),
            final(self)@ == rti_spec(old(self)@),
    {
        let s = self.stack_pull();
        let lo = self.stack_pull();
        let hi = self.stack_pull();
        self.registers.status = StatusFlags::from_bits_truncate(s);
        self.registers.pc = lo as u16 + 256 * hi as u16;
    }

    fn set_status_flag(&mut self, mask: u8, value: bool)
        ensures
            final(self)@ == (CpuView {
                status: set_flag(old(self)@.status, mask, value),
                ..old(self)@
            }),
            final(self).memory == old(self).memory,
    {
        self.registers.status.set(mask, value);
    }

    fn dex(&mut self)
        ensures
            final(self)@ == (CpuView {
                x: old(self)@.x.wrapping_sub(1),
                status: zn(old(self)@.status, old(self)@.x.wrapping_sub(1)),
                ..old(self)@
            }),
            final(self).memory == old(self).memory,
    {
        self.registers.x = self.registers.x.wrapping_sub(1);
        let x = self.registers.x;
        self.update_zero_and_negative_flags(x);
    }

    fn dey(&mut self)
        ensures
            final(self)@ == (CpuView {
                y: old(self)@.y.wrapping_sub(1),
                status: zn(old(self)@.status, old(self)@.y.wrapping_sub(1)),
                ..old(self)@
            }),
            final(self).memory == old(self).memory,
    {
        self.registers.y = self.registers.y.wrapping_sub(1);
        let y = self.registers.y;
        self.update_zero_and_negative_flags(y);
    }

    fn inx(&mut self)
        ensures
            final(self)@ == (CpuView {
                x: old(self)@.x.wrapping_add(1),
                status: zn(old(self)@.status, old(self)@.x.wrapping_add(1)),
                ..old(self)@
            }),
            final(self).memory == old(self).memory,
    {
        self.registers.x = self.registers.x.wrapping_add(1);
        let x = self.registers.x;
        self.update_zero_and_negative_flags(x);
    }

    fn iny(&mut self)
        ensures
            final(self)@ == (CpuView {
                y: old(self)@.y.wrapping_add(1),
                status: zn(old(self)@.status, old(self)@.y.wrapping_add(1)),
                ..old(self)@
            }),
            final(self).memory == old(self).memory,
    {
        self.registers.y = self.registers.y.wrapping_add(1);
        let y = self.registers.y;
        self.update_zero_and_negative_flags(y);
    }

    fn tax(&mut self)
        ensures
            final(self)@ == (CpuView {
                x: old(self)@.a,
                status: zn(old(self)@.status, old(self)@.a),
                ..old(self)@
            }),
            final(self).memory == old(self).memory,
    {
        self.registers.x = self.registers.a;
        let x = self.registers.x;
        self.update_zero_and_negative_flags(x);
    }

    fn tay(&mut self)
        ensures
            final(self)@ == (CpuView {
                y: old(self)@.a,
                status: zn(old(self)@.status, old(self)@.a),
                ..old(self)@
            }),
            final(self).memory == old(self).memory,
    {
        self.registers.y = self.registers.a;
        let y = self.registers.y;
        self.update_zero_and_negative_flags(y);
    }

    fn tsx(&mut self)
        ensures
            final(self)@ == (CpuView {
                x: old(self)@.sp,
                status: zn(old(self)@.status, old(self)@.sp),
                ..old(self)@
            }),
            final(self).memory == old(self).memory,
    {
        self.registers.x = self.registers.sp;
        let x = self.registers.x;
        self.update_zero_and_negative_flags(x);
    }

    fn txa(&mut self)
        ensures
            final(self)@ == (CpuView {
                a: old(self)@.x,
                status: zn(old(self)@.status, old(self)@.x),
                ..old(self)@
            }),
            final(self).memory == old(self).memory,
    {
        self.registers.a = self.registers.x;
        let a = self.registers.a;
        self.update_zero_and_negative_flags(a);
    }

    fn txs(&mut self)
        ensures
            final(self)@ == (CpuView { sp: old(self)@.x, ..old(self)@ }),
            final(self).memory == old(self).memory,
    {
        self.registers.sp = self.registers.x;
    }

    fn tya(&mut self)
        ensures
            final(self)@ == (CpuView {
                a: old(self)@.y,
                status: zn(old(self)@.status, old(self)@.y),
                ..old(self)@
            }),
            final(self).memory == old(self).memory,
    {
        self.registers.a = self.registers.y;
        let a = self.registers.a;
        self.update_zero_and_negative_flags(a);
    }
}

// ---------------------------------------------------------------------------
// The fetch-execute cycle as a mathematical step function.
// ---------------------------------------------------------------------------
use crate::opcodes::decode;
use crate::opcodes::opcode_entry;
use crate::opcodes::Mnemonic;

/// What one instruction does to the machine state, with the program
/// counter already past the opcode byte.
pub open spec fn instr_spec(v: CpuView, m: Mnemonic, mode: AddressingMode) -> CpuView {
    match m {
        Mnemonic::Adc => adc_spec(v, mode),
        Mnemonic::And => and_spec(v, mode),
        Mnemonic::Asl => asl_spec(v, mode),
        Mnemonic::Bcc => branch_spec(v, mode, !flag_set(v.status, CARRY)),
        Mnemonic::Bcs => branch_spec(v, mode, flag_set(v.status, CARRY)),
        Mnemonic::Beq => branch_spec(v, mode, flag_set(v.status, ZERO)),
        Mnemonic::Bit => bit_spec(v, mode),
        Mnemonic::Bmi => branch_spec(v, mode, flag_set(v.status, NEGATIVE)),
        Mnemonic::Bne => branch_spec(v, mode, !flag_set(v.status, ZERO)),
        Mnemonic::Bpl => branch_spec(v, mode, !flag_set(v.status, NEGATIVE)),
        Mnemonic::Brk => brk_spec(v),
        Mnemonic::Bvc => branch_spec(v, mode, !flag_set(v.status, OVERFLOW)),
        Mnemonic::Bvs => branch_spec(v, mode, flag_set(v.status, OVERFLOW)),
        Mnemonic::Clc => CpuView { status: set_flag(v.status, CARRY, false), ..v },
        Mnemonic::Cld => CpuView { status: set_flag(v.status, DECIMAL_MODE, false), ..v },
        Mnemonic::Cli => CpuView { status: set_flag(v.status, INTERRUPT_DISABLE, false), ..v },
        Mnemonic::Clv => CpuView { status: set_flag(v.status, OVERFLOW, false), ..v },
        Mnemonic::Cmp => compare_spec(v, mode, v.a),
        Mnemonic::Cpx => compare_spec(v, mode, v.x),
        Mnemonic::Cpy => compare_spec(v, mode, v.y),
        Mnemonic::Dec => dec_spec(v, mode),
        Mnemonic::Dex => CpuView {
            x: v.x.wrapping_sub(1),
            status: zn(v.status, v.x.wrapping_sub(1)),
            ..v
        },
        Mnemonic::Dey => CpuView {
            y: v.y.wrapping_sub(1),
            status: zn(v.status, v.y.wrapping_sub(1)),
            ..v
        },
        Mnemonic::Eor => eor_spec(v, mode),
        Mnemonic::Inc => inc_spec(v, mode),
        Mnemonic::Inx => CpuView {
            x: v.x.wrapping_add(1),
            status: zn(v.status, v.x.wrapping_add(1)),
            ..v
        },
        Mnemonic::Iny => CpuView {
            y: v.y.wrapping_add(1),
            status: zn(v.status, v.y.wrapping_add(1)),
            ..v
        },
        Mnemonic::Jmp => jmp_spec(v, mode),
        Mnemonic::Jsr => jsr_spec(v, mode),
        Mnemonic::Lda => lda_spec(v, mode),
        Mnemonic::Ldx => ldx_spec(v, mode),
        Mnemonic::Ldy => ldy_spec(v, mode),
        Mnemonic::Lsr => lsr_spec(v, mode),
        Mnemonic::Nop => v,
        Mnemonic::Ora => ora_spec(v, mode),
        Mnemonic::Pha => pha_spec(v),
        Mnemonic::Php => php_spec(v),
        Mnemonic::Pla => pla_spec(v),
        Mnemonic::Plp => plp_spec(v),
        Mnemonic::Rol => rol_spec(v, mode),
        Mnemonic::Ror => ror_spec(v, mode),
        Mnemonic::Rti => rti_spec(v),
        Mnemonic::Rts => rts_spec(v),
        Mnemonic::Sbc => sbc_spec(v, mode),
        Mnemonic::Sec => CpuView { status: set_flag(v.status, CARRY, true), ..v },
        Mnemonic::Sed => CpuView { status: set_flag(v.status, DECIMAL_MODE, true), ..v },
        Mnemonic::Sei => CpuView { status: set_flag(v.status, INTERRUPT_DISABLE, true), ..v },
        Mnemonic::Sta => sta_spec(v, mode),
        Mnemonic::Stx => stx_spec(v, mode),
        Mnemonic::Sty => sty_spec(v, mode),
        Mnemonic::Tax => CpuView { x: v.a, status: zn(v.status, v.a), ..v },
        Mnemonic::Tay => CpuView { y: v.a, status: zn(v.status, v.a), ..v },
        Mnemonic::Tsx => CpuView { x: v.sp, status: zn(v.status, v.sp), ..v },
        Mnemonic::Txa => CpuView { a: v.x, status: zn(v.status, v.x), ..v },
        Mnemonic::Txs => CpuView { sp: v.x, ..v },
        Mnemonic::Tya => CpuView { a: v.y, status: zn(v.status, v.y), ..v },
    }
}

/// The addressing modes each instruction can be dispatched with: the
/// shifts may also work on the accumulator, the implied instructions take
/// no operand, everything else computes an operand address.
pub open spec fn mode_ok(m: Mnemonic, mode: AddressingMode) -> bool {
    match m {
        Mnemonic::Asl | Mnemonic::Lsr | Mnemonic::Rol | Mnemonic::Ror => mode
            != AddressingMode::Implied,
        Mnemonic::Brk | Mnemonic::Clc | Mnemonic::Cld | Mnemonic::Cli | Mnemonic::Clv
            | Mnemonic::Dex | Mnemonic::Dey | Mnemonic::Inx | Mnemonic::Iny | Mnemonic::Nop
            | Mnemonic::Pha | Mnemonic::Php | Mnemonic::Pla | Mnemonic::Plp | Mnemonic::Rti
            | Mnemonic::Rts | Mnemonic::Sec | Mnemonic::Sed | Mnemonic::Sei | Mnemonic::Tax
            | Mnemonic::Tay | Mnemonic::Tsx | Mnemonic::Txa | Mnemonic::Txs | Mnemonic::Tya
            => true,
        _ => addressed(mode),
    }
}

/// Every official decode-table entry pairs its mnemonic with a workable
/// addressing mode and an instruction length of at least one byte.
#[verifier::rlimit(100)]
#[verifier::spinoff_prover]
pub proof fn lemma_opcode_entry_props(c: u8)
    ensures
        opcode_entry(c) matches Some(e) ==> mode_ok(e.mnemonic, e.addressing_mode) && 1 <= e.bytes
            <= 3,
{
}

/// Whether a branch instruction's condition holds in the given state.
pub open spec fn branch_taken(v: CpuView, m: Mnemonic) -> bool {
    match m {
        Mnemonic::Bcc => !flag_set(v.status, CARRY),
        Mnemonic::Bcs => flag_set(v.status, CARRY),
        Mnemonic::Beq => flag_set(v.status, ZERO),
        Mnemonic::Bmi => flag_set(v.status, NEGATIVE),
        Mnemonic::Bne => !flag_set(v.status, ZERO),
        Mnemonic::Bpl => !flag_set(v.status, NEGATIVE),
        Mnemonic::Bvc => !flag_set(v.status, OVERFLOW),
        Mnemonic::Bvs => flag_set(v.status, OVERFLOW),
        _ => false,
    }
}

/// Whether the instruction loads the program counter itself — a jump,
/// call, return, BRK, or a taken branch.  Such an instruction lands
/// exactly on its target; every other instruction is followed by an
/// advance past its operand bytes.
pub open spec fn transfers_control(v: CpuView, m: Mnemonic) -> bool {
    match m {
        Mnemonic::Jmp | Mnemonic::Jsr | Mnemonic::Rts | Mnemonic::Rti | Mnemonic::Brk => true,
        Mnemonic::Bcc | Mnemonic::Bcs | Mnemonic::Beq | Mnemonic::Bmi | Mnemonic::Bne
            | Mnemonic::Bpl | Mnemonic::Bvc | Mnemonic::Bvs => branch_taken(v, m),
        _ => false,
    }
}

/// The outcome of one fetch-decode-execute step.
pub enum StepOutcome {
    /// Execution continues in the given state.
    Next { next: CpuView },
    /// A BRK was executed: its architectural effects are applied and the
    /// interpreter stops.
    Halt { halted: CpuView },
    /// The fetched byte is no official opcode; `at` is its address.
    Fail { failed: CpuView, at: u16, code: u8 },
}

/// One full interpreter step: fetch the opcode at the program counter,
/// decode it, run the instruction, and advance past the operands unless
/// the instruction loaded the program counter itself.
pub open spec fn step_spec(v: CpuView) -> StepOutcome {
    let code = v.mem[v.pc as int];
    let v1 = CpuView { pc: v.pc.wrapping_add(1), ..v };
    match opcode_entry(code) {
        Option::None => StepOutcome::Fail { failed: v1, at: v.pc, code },
        Option::Some(op) => {
            let v2 = instr_spec(v1, op.mnemonic, op.addressing_mode);
            let v3 = if transfers_control(v1, op.mnemonic) {
                v2
            } else {
                CpuView { pc: v2.pc.wrapping_add((op.bytes - 1) as u16), ..v2 }
            };
            if op.mnemonic == Mnemonic::Brk {
                StepOutcome::Halt { halted: v3 }
            } else {
                StepOutcome::Next { next: v3 }
            }
        },
    }
}

/// `v2` is what `n` interpreter steps, all of them ordinary, make of `v1`.
pub open spec fn reaches(v1: CpuView, v2: CpuView, n: nat) -> bool
    decreases n,
{
    if n == 0 {
        v1 == v2
    } else {
        step_spec(v1) is Next && reaches(step_spec(v1)->next, v2, (n - 1) as nat)
    }
}

/// A run of ordinary steps can be extended by one more at its end.
pub proof fn lemma_reaches_snoc(v0: CpuView, m: CpuView, n: nat)
    requires
        reaches(v0, m, n),
        step_spec(m) is Next,
    ensures
        reaches(v0, step_spec(m)->next, (n + 1) as nat),
    decreases n,
{
    if n == 0 {
        assert(v0 == m);
        assert(reaches(step_spec(m)->next, step_spec(m)->next, 0));
        assert(reaches(v0, step_spec(m)->next, 1));
    } else {
        lemma_reaches_snoc(step_spec(v0)->next, m, (n - 1) as nat);
        assert(reaches(v0, step_spec(m)->next, (n + 1) as nat));
    }
}

/// A trace can be split at any intermediate state: what `k` steps reach
/// is what `k - n` further steps reach from the state after `n` of them.
pub proof fn lemma_reaches_decompose(v0: CpuView, m: CpuView, n: nat, x: CpuView, k: nat)
    requires
        reaches(v0, m, n),
        reaches(v0, x, k),
        n <= k,
    ensures
        reaches(m, x, (k - n) as nat),
    decreases n,
{
    if n > 0 {
        lemma_reaches_decompose(step_spec(v0)->next, m, (n - 1) as nat, x, (k - 1) as nat);
    }
}

/// Why `run` stopped.
#[derive(Clone, Copy, Debug, PartialEq, Eq, Structural)]
pub enum StopReason {
    /// A BRK instruction was executed.
    Brk,
    /// The byte at `pc` is no official opcode; emulation halted there.
    UnknownOpcode { pc: u16, opcode: u8 },
    /// The interpreter's internal step budget ran out.
    CycleLimit,
}

/// What `run` guarantees about its stop state: the final state is what the
/// step function makes of the start state after finitely many steps, and a
/// `CycleLimit` stop can only mean the full step budget was spent without
/// a halt — a program that halts within the budget is never cut short.
pub open spec fn run_post(v0: CpuView, r: StopReason, vf: CpuView) -> bool {
    match r {
        StopReason::Brk => exists|n: nat, m: CpuView|
            #![auto]
            reaches(v0, m, n) && step_spec(m) == (StepOutcome::Halt { halted: vf }),
        StopReason::UnknownOpcode { pc, opcode } => exists|n: nat, m: CpuView|
            #![auto]
            reaches(v0, m, n) && step_spec(m) == (StepOutcome::Fail {
                failed: vf,
                at: pc,
                code: opcode,
            }),
        StopReason::CycleLimit => reaches(v0, vf, u64::MAX as nat),
    }
}

/// A run is reported faithfully: when the canonical trace reaches a
/// halting or failing step within the budget, `run`'s outcome names
/// exactly that step — it is never cut short as a `CycleLimit`, never
/// misreported, and its final state is the step's.
pub proof fn lemma_run_outcome_determined(
    v0: CpuView,
    m: CpuView,
    n: nat,
    r: StopReason,
    vf: CpuView,
)
    requires
        reaches(v0, m, n),
        !(step_spec(m) is Next),
        n < u64::MAX,
        run_post(v0, r, vf),
    ensures
        step_spec(m) matches StepOutcome::Halt { halted } ==> r == StopReason::Brk && vf == halted,
        step_spec(m) matches StepOutcome::Fail { failed, at, code } ==> r
            == (StopReason::UnknownOpcode { pc: at, opcode: code }) && vf == failed,
{
    match r {
        StopReason::Brk => {
            let (n2, m2) = choose|n2: nat, m2: CpuView|
                #![auto]
                reaches(v0, m2, n2) && step_spec(m2) == (StepOutcome::Halt { halted: vf });
            if n2 < n {
                lemma_reaches_decompose(v0, m2, n2, m, n);
            } else if n < n2 {
                lemma_reaches_decompose(v0, m, n, m2, n2);
            } else {
                lemma_reaches_decompose(v0, m, n, m2, n2);
                assert(reaches(m, m2, 0));
            }
        },
        StopReason::UnknownOpcode { pc, opcode } => {
            let (n2, m2) = choose|n2: nat, m2: CpuView|
                #![auto]
                reaches(v0, m2, n2) && step_spec(m2) == (StepOutcome::Fail {
                    failed: vf,
                    at: pc,
                    code: opcode,
                });
            if n2 < n {
                lemma_reaches_decompose(v0, m2, n2, m, n);
            } else if n < n2 {
                lemma_reaches_decompose(v0, m, n, m2, n2);
            } else {
                lemma_reaches_decompose(v0, m, n, m2, n2);
                assert(reaches(m, m2, 0));
            }
        },
        StopReason::CycleLimit => {
            lemma_reaches_decompose(v0, m, n, vf, u64::MAX as nat);
        },
    }
}

/// A hardware interrupt entry: the program counter (high byte first) and
/// the status byte with B clear and U set are pushed, the
/// interrupt-disable flag is raised, and execution continues through the
/// given vector.
pub open spec fn interrupt_spec(v: CpuView, vector: u16) -> CpuView {
    let v1 = push_spec(v, (v.pc / 256) as u8);
    let v2 = push_spec(v1, (v.pc % 256) as u8);
    let v3 = push_spec(v2, (v.status & !BREAK_COMMAND) | UNUSED);
    CpuView {
        status: v3.status | INTERRUPT_DISABLE,
        pc: spec_read_u16(v3.mem, vector),
        ..v3
    }
}

impl CPU {
    fn enter_interrupt(&mut self, vector: u16)
        requires
            old(self).wf(),
        ensures
            final(self).wf(),
            final(self)@ == interrupt_spec(old(self)@, vector),
    {
        let pc = self.registers.pc;
        let bits = (self.registers.status.bits() & !BREAK_COMMAND) | UNUSED;
        self.stack_push((pc / 256) as u8);
        self.stack_push((pc % 256) as u8);
        self.stack_push(bits);
        self.registers.status.insert(INTERRUPT_DISABLE);
        self.registers.pc = self.memory.read_u16(vector);
    }

    /// A non-maskable interrupt, taken unconditionally through $FFFA.
    pub fn nmi(&mut self)
        requires
            old(self).wf(),
        ensures
            final(self).wf(),
            final(self)@ == interrupt_spec(old(self)@, 0xFFFA),
    {
        self.enter_interrupt(0xFFFA);
    }

    /// A maskable interrupt request: taken through $FFFE only while the
    /// interrupt-disable flag is clear; returns whether it was taken.
    pub fn irq(&mut self) -> (taken: bool)
        requires
            old(self).wf(),
        ensures
            final(self).wf(),
            taken == !flag_set(old(self)@.status, INTERRUPT_DISABLE),
            taken ==> final(self)@ == interrupt_spec(old(self)@, 0xFFFE),
            !taken ==> final(self)@ == old(self)@,
    {
        if self.registers.status.contains(INTERRUPT_DISABLE) {
            false
        } else {
            self.enter_interrupt(0xFFFE);
            true
        }
    }
}

// ---------------------------------------------------------------------------
// Laws of the instruction set.
// ---------------------------------------------------------------------------
/// A machine state over the full 64 KiB address space.
pub open spec fn view_wf(v: CpuView) -> bool {
    v.mem.len() == 0x10000
}

/// PHA then PLA restores A and leaves X, Y, the program counter and the
/// stack pointer exactly as they were; the flags end up Z/N-updated
/// from the restored accumulator.
pub proof fn lemma_pha_pla_round_trip(v: CpuView)
    requires
        view_wf(v),
    ensures
        pla_spec(pha_spec(v)).a == v.a,
        pla_spec(pha_spec(v)).x == v.x,
        pla_spec(pha_spec(v)).y == v.y,
        pla_spec(pha_spec(v)).sp == v.sp,
        pla_spec(pha_spec(v)).pc == v.pc,
        pla_spec(pha_spec(v)).status == zn(v.status, v.a),
{
}

/// PHP then PLP leaves the status register holding the pushed byte: the
/// old status with B and U set, every other flag bit exactly preserved.
/// A, X, Y, the program counter and the stack pointer are unchanged.
pub proof fn lemma_php_plp_round_trip(v: CpuView)
    requires
        view_wf(v),
    ensures
        plp_spec(php_spec(v)).status == v.status | BREAK_COMMAND | UNUSED,
        plp_spec(php_spec(v)).status & !(BREAK_COMMAND | UNUSED) == v.status & !(BREAK_COMMAND
            | UNUSED),
        plp_spec(php_spec(v)).a == v.a,
        plp_spec(php_spec(v)).x == v.x,
        plp_spec(php_spec(v)).y == v.y,
        plp_spec(php_spec(v)).sp == v.sp,
        plp_spec(php_spec(v)).pc == v.pc,
{
    let s = v.status;
    assert((s | 0x10 | 0x20) & !(0x10u8 | 0x20) == s & !(0x10u8 | 0x20)) by (bit_vector);
}

/// ADC arithmetic: the result byte is the sum modulo 256, the carry out
/// reports a sum past 255, and the overflow flag follows the
/// two's-complement sign rule: it is set exactly when both addends share
/// a sign and the result's sign differs.
pub proof fn lemma_adc_arithmetic(a: u8, b: u8, c: u8)
    requires
        c <= 1,
    ensures
        adc_result(a, b, c) == (a + b + c) % 256,
        adc_carry(a, b, c) <==> a + b + c > 255,
        adc_overflow(a, b, c) <==> ((a >= 128 <==> b >= 128) && !(adc_result(a, b, c) >= 128 <==> a
            >= 128)),
{
    let r = adc_result(a, b, c);
    assert((a ^ r) & (b ^ r) & 0x80 != 0 <==> ((a >= 128 <==> b >= 128) && !(r >= 128 <==> a
        >= 128))) by (bit_vector);
}

/// ROL and ROR are mutually inverse on the 9-bit state of accumulator
/// and carry, so each is a bijection on that domain.
pub proof fn lemma_rol_ror_bijective(a: u8, c: u8)
    requires
        c <= 1,
    ensures
        ror_value(rol_value(a, c), if a >= 128 { 1u8 } else { 0u8 }) == a,
        (rol_value(a, c) % 2 == 1) <==> c == 1,
        rol_value(ror_value(a, c), if a % 2 == 1 { 1u8 } else { 0u8 }) == a,
        (ror_value(a, c) >= 128) <==> c == 1,
{
    if a >= 128 {
        assert((a * 2 + c) % 256 == a * 2 + c - 256);
    } else {
        assert((a * 2 + c) % 256 == a * 2 + c);
    }
    assert(2 * (a / 2) + a % 2 == a);
    assert((a / 2 + c * 128) * 2 + (if a % 2 == 1 { 1int } else { 0int }) == a + 256 * c);
}

/// Memory after a program image has been copied in at `start`; bytes that
/// would fall past the top of the address space are dropped.
pub open spec fn loaded_mem(m: Seq<u8>, program: Seq<u8>, start: u16) -> Seq<u8> {
    Seq::new(m.len(), |i: int| if start <= i < start + program.len() {
        program[i - start]
    } else {
        m[i]
    })
}

/// The state a reset leaves behind: registers cleared, the
/// interrupt-disable flag set, the stack pointer moved down by three
/// without any push, and execution redirected through the vector at $FFFC.
pub open spec fn reset_spec(v: CpuView, mem: Seq<u8>) -> CpuView {
    CpuView {
        a: 0,
        x: 0,
        y: 0,
        status: INTERRUPT_DISABLE,
        sp: v.sp.wrapping_sub(3),
        pc: spec_read_u16(mem, 0xFFFC),
        mem,
    }
}

impl CPU {
    /// Resets the register file (optionally together with memory) and
    /// loads the program counter from the reset vector.
    pub fn reset(&mut self, clear_mem: bool)
        requires
            old(self).wf(),
        ensures
            final(self).wf(),
            final(self)@ == reset_spec(old(self)@, final(self)@.mem),
            !clear_mem ==> final(self)@.mem == old(self)@.mem,
            clear_mem ==> forall|i: int| 0 <= i < 0x10000 ==> final(self)@.mem[i] == 0u8,
    {
        self.registers.a = 0;
        self.registers.x = 0;
        self.registers.y = 0;
        self.registers.status = StatusFlags::from_bits_truncate(INTERRUPT_DISABLE);
        if clear_mem {
            self.memory.clear();
        }
        self.registers.sp = self.registers.sp.wrapping_sub(3);
        self.registers.pc = self.memory.read_u16(0xFFFC);
    }

    /// Copies the program into memory at `start_addr` (default $8000) and
    /// points the reset vector at it.
    pub fn load(&mut self, program: Vec<u8>, start_addr: Option<u16>)
        requires
            old(self).wf(),
        ensures
            final(self).wf(),
            ({
                let la = match start_addr {
                    Option::Some(a) => a,
                    Option::None => 0x8000u16,
                };
                final(self)@ == (CpuView {
                    mem: loaded_mem(old(self)@.mem, program@, la).update(
                        0xFFFC,
                        (la % 256) as u8,
                    ).update(0xFFFD, (la / 256) as u8),
                    ..old(self)@
                })
            }),
    {
        let load_addr: u16 = match start_addr {
            Option::Some(a) => a,
            Option::None => 0x8000,
        };
        self.memory.load(load_addr, &program);
        proof {
            assert(self.memory@ =~= loaded_mem(old(self)@.mem, program@, load_addr));
        }
        self.memory.write_u16(0xFFFC, load_addr);
        proof {
            assert(0xFFFCu16.wrapping_add(1) == 0xFFFDu16);
        }
    }

    /// Loads the program, resets the CPU (keeping memory) and runs it.
    pub fn load_and_run(&mut self, program: Vec<u8>, start_addr: Option<u16>) -> (r: StopReason)
        requires
            old(self).wf(),
        ensures
            final(self).wf(),
            ({
                let la = match start_addr {
                    Option::Some(a) => a,
                    Option::None => 0x8000u16,
                };
                let loaded = loaded_mem(old(self)@.mem, program@, la).update(
                    0xFFFC,
                    (la % 256) as u8,
                ).update(0xFFFD, (la / 256) as u8);
                run_post(reset_spec(old(self)@, loaded), r, final(self)@)
            }),
    {
        self.load(program, start_addr);
        self.reset(false);
        self.run()
    }

    /// Executes one instruction.  `None` means execution continues;
    /// `Some` carries the reason the interpreter must stop.
    pub fn step(&mut self) -> (r: Option<StopReason>)
        requires
            old(self).wf(),
        ensures
            final(self).wf(),
            match r {
                Option::None => step_spec(old(self)@) == (StepOutcome::Next { next: final(self)@ }),
                Option::Some(reason) => match reason {
                    StopReason::Brk => step_spec(old(self)@) == (StepOutcome::Halt {
                        halted: final(self)@,
                    }),
                    StopReason::UnknownOpcode { pc, opcode } => step_spec(old(self)@)
                        == (StepOutcome::Fail { failed: final(self)@, at: pc, code: opcode }),
                    StopReason::CycleLimit => false,
                },
            },
    {
        let pc0 = self.registers.pc;
        let code = self.memory.read(pc0);
        self.registers.pc = self.registers.pc.wrapping_add(1);
        proof {
            lemma_opcode_entry_props(code);
        }
        match decode(code) {
            Option::None => Option::Some(StopReason::UnknownOpcode { pc: pc0, opcode: code }),
            Option::Some(op) => {
                let transferred: bool = match op.mnemonic {
                    Mnemonic::Adc => {
                        self.adc(op.addressing_mode);
                        false
                    },
                    Mnemonic::And => {
                        self.and(op.addressing_mode);
                        false
                    },
                    Mnemonic::Asl => {
                        self.asl(op.addressing_mode);
                        false
                    },
                    Mnemonic::Bcc => {
                        let taken = !self.registers.status.contains(CARRY);
                        self.branch_if(op.addressing_mode, taken);
                        taken
                    },
                    Mnemonic::Bcs => {
                        let taken = self.registers.status.contains(CARRY);
                        self.branch_if(op.addressing_mode, taken);
                        taken
                    },
                    Mnemonic::Beq => {
                        let taken = self.registers.status.contains(ZERO);
                        self.branch_if(op.addressing_mode, taken);
                        taken
                    },
                    Mnemonic::Bit => {
                        self.bit(op.addressing_mode);
                        false
                    },
                    Mnemonic::Bmi => {
                        let taken = self.registers.status.contains(NEGATIVE);
                        self.branch_if(op.addressing_mode, taken);
                        taken
                    },
                    Mnemonic::Bne => {
                        let taken = !self.registers.status.contains(ZERO);
                        self.branch_if(op.addressing_mode, taken);
                        taken
                    },
                    Mnemonic::Bpl => {
                        let taken = !self.registers.status.contains(NEGATIVE);
                        self.branch_if(op.addressing_mode, taken);
                        taken
                    },
                    Mnemonic::Brk => {
                        self.brk();
                        true
                    },
                    Mnemonic::Bvc => {
                        let taken = !self.registers.status.contains(OVERFLOW);
                        self.branch_if(op.addressing_mode, taken);
                        taken
                    },
                    Mnemonic::Bvs => {
                        let taken = self.registers.status.contains(OVERFLOW);
                        self.branch_if(op.addressing_mode, taken);
                        taken
                    },
                    Mnemonic::Clc => {
                        self.set_status_flag(CARRY, false);
                        false
                    },
                    Mnemonic::Cld => {
                        self.set_status_flag(DECIMAL_MODE, false);
                        false
                    },
                    Mnemonic::Cli => {
                        self.set_status_flag(INTERRUPT_DISABLE, false);
                        false
                    },
                    Mnemonic::Clv => {
                        self.set_status_flag(OVERFLOW, false);
                        false
                    },
                    Mnemonic::Cmp => {
                        let reg = self.registers.a;
                        self.compare_with(op.addressing_mode, reg);
                        false
                    },
                    Mnemonic::Cpx => {
                        let reg = self.registers.x;
                        self.compare_with(op.addressing_mode, reg);
                        false
                    },
                    Mnemonic::Cpy => {
                        let reg = self.registers.y;
                        self.compare_with(op.addressing_mode, reg);
                        false
                    },
                    Mnemonic::Dec => {
                        self.dec(op.addressing_mode);
                        false
                    },
                    Mnemonic::Dex => {
                        self.dex();
                        false
                    },
                    Mnemonic::Dey => {
                        self.dey();
                        false
                    },
                    Mnemonic::Eor => {
                        self.eor(op.addressing_mode);
                        false
                    },
                    Mnemonic::Inc => {
                        self.inc(op.addressing_mode);
                        false
                    },
                    Mnemonic::Inx => {
                        self.inx();
                        false
                    },
                    Mnemonic::Iny => {
                        self.iny();
                        false
                    },
                    Mnemonic::Jmp => {
                        self.jmp(op.addressing_mode);
                        true
                    },
                    Mnemonic::Jsr => {
                        self.jsr(op.addressing_mode);
                        true
                    },
                    Mnemonic::Lda => {
                        self.lda(op.addressing_mode);
                        false
                    },
                    Mnemonic::Ldx => {
                        self.ldx(op.addressing_mode);
                        false
                    },
                    Mnemonic::Ldy => {
                        self.ldy(op.addressing_mode);
                        false
                    },
                    Mnemonic::Lsr => {
                        self.lsr(op.addressing_mode);
                        false
                    },
                    Mnemonic::Nop => false,
                    Mnemonic::Ora => {
                        self.ora(op.addressing_mode);
                        false
                    },
                    Mnemonic::Pha => {
                        self.pha();
                        false
                    },
                    Mnemonic::Php => {
                        self.php();
                        false
                    },
                    Mnemonic::Pla => {
                        self.pla();
                        false
                    },
                    Mnemonic::Plp => {
                        self.plp();
                        false
                    },
                    Mnemonic::Rol => {
                        self.rol(op.addressing_mode);
                        false
                    },
                    Mnemonic::Ror => {
                        self.ror(op.addressing_mode);
                        false
                    },
                    Mnemonic::Rti => {
                        self.rti();
                        true
                    },
                    Mnemonic::Rts => {
                        self.rts();
                        true
                    },
                    Mnemonic::Sbc => {
                        self.sbc(op.addressing_mode);
                        false
                    },
                    Mnemonic::Sec => {
                        self.set_status_flag(CARRY, true);
                        false
                    },
                    Mnemonic::Sed => {
                        self.set_status_flag(DECIMAL_MODE, true);
                        false
                    },
                    Mnemonic::Sei => {
                        self.set_status_flag(INTERRUPT_DISABLE, true);
                        false
                    },
                    Mnemonic::Sta => {
                        self.sta(op.addressing_mode);
                        false
                    },
                    Mnemonic::Stx => {
                        self.stx(op.addressing_mode);
                        false
                    },
                    Mnemonic::Sty => {
                        self.sty(op.addressing_mode);
                        false
                    },
                    Mnemonic::Tax => {
                        self.tax();
                        false
                    },
                    Mnemonic::Tay => {
                        self.tay();
                        false
                    },
                    Mnemonic::Tsx => {
                        self.tsx();
                        false
                    },
                    Mnemonic::Txa => {
                        self.txa();
                        false
                    },
                    Mnemonic::Txs => {
                        self.txs();
                        false
                    },
                    Mnemonic::Tya => {
                        self.tya();
                        false
                    },
                };
                if !transferred {
                    self.registers.pc = self.registers.pc.wrapping_add((op.bytes - 1) as u16);
                }
                if op.mnemonic == Mnemonic::Brk {
                    Option::Some(StopReason::Brk)
                } else {
                    Option::None
                }
            },
        }
    }

    /// Runs instructions until a BRK or an unknown opcode stops execution
    /// (or the step budget of `u64::MAX` instructions runs out, far
    /// beyond any practical program length).
    pub fn run(&mut self) -> (r: StopReason)
        requires
            old(self).wf(),
        ensures
            final(self).wf(),
            run_post(old(self)@, r, final(self)@),
    {
        let mut fuel: u64 = u64::MAX;
        proof {
            assert(reaches(old(self)@, self@, 0));
        }
        loop
            invariant
                self.wf(),
                reaches(old(self)@, self@, (u64::MAX - fuel) as nat),
            decreases fuel,
        {
            if fuel == 0 {
                return StopReason::CycleLimit;
            }
            fuel = fuel - 1;
            let ghost steps = (u64::MAX - fuel - 1) as nat;
            let ghost mid = self@;
            let outcome = self.step();
            match outcome {
                Option::None => {
                    proof {
                        lemma_reaches_snoc(old(self)@, mid, steps);
                    }
                },
                Option::Some(reason) => {
                    return reason;
                },
            }
        }
    }
}

} // verus!
