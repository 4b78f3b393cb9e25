//! The decode table for the 151 official 6502 opcodes.

use vstd::prelude::*;

use crate::cpu::AddressingMode;

verus! {

/// Instruction mnemonics of the official 6502 instruction set.
#[derive(Clone, Copy, Debug, PartialEq, Eq, Structural)]
pub enum Mnemonic {
    Adc,
    And,
    Asl,
    Bcc,
    Bcs,
    Beq,
    Bit,
    Bmi,
    Bne,
    Bpl,
    Brk,
    Bvc,
    Bvs,
    Clc,
    Cld,
    Cli,
    Clv,
    Cmp,
    Cpx,
    Cpy,
    Dec,
    Dex,
    Dey,
    Eor,
    Inc,
    Inx,
    Iny,
    Jmp,
    Jsr,
    Lda,
    Ldx,
    Ldy,
    Lsr,
    Nop,
    Ora,
    Pha,
    Php,
    Pla,
    Plp,
    Rol,
    Ror,
    Rti,
    Rts,
    Sbc,
    Sec,
    Sed,
    Sei,
    Sta,
    Stx,
    Sty,
    Tax,
    Tay,
    Tsx,
    Txa,
    Txs,
    Tya,
}

/// One decode-table entry: an opcode byte with its mnemonic, its
/// instruction length in bytes, its base cycle count and its addressing mode.
#[derive(Clone, Copy, Debug, PartialEq, Eq, Structural)]
pub struct Opcode {
    pub code: u8,
    pub mnemonic: Mnemonic,
    pub bytes: u8,
    pub cycles: u8,
    pub addressing_mode: AddressingMode,
}

/// The canonical decode table: what each official opcode byte decodes to,
/// `None` for the unofficial codes.
pub open spec fn opcode_entry(code: u8) -> Option<Opcode> {
    match code {
        0x00 => Some(Opcode { code: 0x00, mnemonic: Mnemonic::Brk, bytes: 1, cycles: 7, addressing_mode: AddressingMode::Implied }),
        0x01 => Some(Opcode { code: 0x01, mnemonic: Mnemonic::Ora, bytes: 2, cycles: 6, addressing_mode: AddressingMode::IndirectX }),
        0x05 => Some(Opcode { code: 0x05, mnemonic: Mnemonic::Ora, bytes: 2, cycles: 3, addressing_mode: AddressingMode::ZeroPage }),
        0x06 => Some(Opcode { code: 0x06, mnemonic: Mnemonic::Asl, bytes: 2, cycles: 5, addressing_mode: AddressingMode::ZeroPage }),
        0x08 => Some(Opcode { code: 0x08, mnemonic: Mnemonic::Php, bytes: 1, cycles: 3, addressing_mode: AddressingMode::Implied }),
        0x09 => Some(Opcode { code: 0x09, mnemonic: Mnemonic::Ora, bytes: 2, cycles: 2, addressing_mode: AddressingMode::Immediate }),
        0x0A => Some(Opcode { code: 0x0A, mnemonic: Mnemonic::Asl, bytes: 1, cycles: 2, addressing_mode: AddressingMode::Accumulator }),
        0x0D => Some(Opcode { code: 0x0D, mnemonic: Mnemonic::Ora, bytes: 3, cycles: 4, addressing_mode: AddressingMode::Absolute }),
        0x0E => Some(Opcode { code: 0x0E, mnemonic: Mnemonic::Asl, bytes: 3, cycles: 6, addressing_mode: AddressingMode::Absolute }),
        0x10 => Some(Opcode { code: 0x10, mnemonic: Mnemonic::Bpl, bytes: 2, cycles: 2, addressing_mode: AddressingMode::Relative }),
        0x11 => Some(Opcode { code: 0x11, mnemonic: Mnemonic::Ora, bytes: 2, cycles: 5, addressing_mode: AddressingMode::IndirectY }),
        0x15 => Some(Opcode { code: 0x15, mnemonic: Mnemonic::Ora, bytes: 2, cycles: 4, addressing_mode: AddressingMode::ZeroPageX }),
        0x16 => Some(Opcode { code: 0x16, mnemonic: Mnemonic::Asl, bytes: 2, cycles: 6, addressing_mode: AddressingMode::ZeroPageX }),
        0x18 => Some(Opcode { code: 0x18, mnemonic: Mnemonic::Clc, bytes: 1, cycles: 2, addressing_mode: AddressingMode::Implied }),
        0x19 => Some(Opcode { code: 0x19, mnemonic: Mnemonic::Ora, bytes: 3, cycles: 4, addressing_mode: AddressingMode::AbsoluteY }),
        0x1D => Some(Opcode { code: 0x1D, mnemonic: Mnemonic::Ora, bytes: 3, cycles: 4, addressing_mode: AddressingMode::AbsoluteX }),
        0x1E => Some(Opcode { code: 0x1E, mnemonic: Mnemonic::Asl, bytes: 3, cycles: 7, addressing_mode: AddressingMode::AbsoluteX }),
        0x20 => Some(Opcode { code: 0x20, mnemonic: Mnemonic::Jsr, bytes: 3, cycles: 6, addressing_mode: AddressingMode::Absolute }),
        0x21 => Some(Opcode { code: 0x21, mnemonic: Mnemonic::And, bytes: 2, cycles: 6, addressing_mode: AddressingMode::IndirectX }),
        0x24 => Some(Opcode { code: 0x24, mnemonic: Mnemonic::Bit, bytes: 2, cycles: 3, addressing_mode: AddressingMode::ZeroPage }),
        0x25 => Some(Opcode { code: 0x25, mnemonic: Mnemonic::And, bytes: 2, cycles: 3, addressing_mode: AddressingMode::ZeroPage }),
        0x26 => Some(Opcode { code: 0x26, mnemonic: Mnemonic::Rol, bytes: 2, cycles: 5, addressing_mode: AddressingMode::ZeroPage }),
        0x28 => Some(Opcode { code: 0x28, mnemonic: Mnemonic::Plp, bytes: 1, cycles: 4, addressing_mode: AddressingMode::Implied }),
        0x29 => Some(Opcode { code: 0x29, mnemonic: Mnemonic::And, bytes: 2, cycles: 2, addressing_mode: AddressingMode::Immediate }),
        0x2A => Some(Opcode { code: 0x2A, mnemonic: Mnemonic::Rol, bytes: 1, cycles: 2, addressing_mode: AddressingMode::Accumulator }),
        0x2C => Some(Opcode { code: 0x2C, mnemonic: Mnemonic::Bit, bytes: 3, cycles: 4, addressing_mode: AddressingMode::Absolute }),
        0x2D => Some(Opcode { code: 0x2D, mnemonic: Mnemonic::And, bytes: 3, cycles: 4, addressing_mode: AddressingMode::Absolute }),
        0x2E => Some(Opcode { code: 0x2E, mnemonic: Mnemonic::Rol, bytes: 3, cycles: 6, addressing_mode: AddressingMode::Absolute }),
        0x30 => Some(Opcode { code: 0x30, mnemonic: Mnemonic::Bmi, bytes: 2, cycles: 2, addressing_mode: AddressingMode::Relative }),
        0x31 => Some(Opcode { code: 0x31, mnemonic: Mnemonic::And, bytes: 2, cycles: 5, addressing_mode: AddressingMode::IndirectY }),
        0x35 => Some(Opcode { code: 0x35, mnemonic: Mnemonic::And, bytes: 2, cycles: 4, addressing_mode: AddressingMode::ZeroPageX }),
        0x36 => Some(Opcode { code: 0x36, mnemonic: Mnemonic::Rol, bytes: 2, cycles: 6, addressing_mode: AddressingMode::ZeroPageX }),
        0x38 => Some(Opcode { code: 0x38, mnemonic: Mnemonic::Sec, bytes: 1, cycles: 2, addressing_mode: AddressingMode::Implied }),
        0x39 => Some(Opcode { code: 0x39, mnemonic: Mnemonic::And, bytes: 3, cycles: 4, addressing_mode: AddressingMode::AbsoluteY }),
        0x3D => Some(Opcode { code: 0x3D, mnemonic: Mnemonic::And, bytes: 3, cycles: 4, addressing_mode: AddressingMode::AbsoluteX }),
        0x3E => Some(Opcode { code: 0x3E, mnemonic: Mnemonic::Rol, bytes: 3, cycles: 7, addressing_mode: AddressingMode::AbsoluteX }),
        0x40 => Some(Opcode { code: 0x40, mnemonic: Mnemonic::Rti, bytes: 1, cycles: 6, addressing_mode: AddressingMode::Implied }),
        0x41 => Some(Opcode { code: 0x41, mnemonic: Mnemonic::Eor, bytes: 2, cycles: 6, addressing_mode: AddressingMode::IndirectX }),
        0x45 => Some(Opcode { code: 0x45, mnemonic: Mnemonic::Eor, bytes: 2, cycles: 3, addressing_mode: AddressingMode::ZeroPage }),
        0x46 => Some(Opcode { code: 0x46, mnemonic: Mnemonic::Lsr, bytes: 2, cycles: 5, addressing_mode: AddressingMode::ZeroPage }),
        0x48 => Some(Opcode { code: 0x48, mnemonic: Mnemonic::Pha, bytes: 1, cycles: 3, addressing_mode: AddressingMode::Implied }),
        0x49 => Some(Opcode { code: 0x49, mnemonic: Mnemonic::Eor, bytes: 2, cycles: 2, addressing_mode: AddressingMode::Immediate }),
        0x4A => Some(Opcode { code: 0x4A, mnemonic: Mnemonic::Lsr, bytes: 1, cycles: 2, addressing_mode: AddressingMode::Accumulator }),
        0x4C => Some(Opcode { code: 0x4C, mnemonic: Mnemonic::Jmp, bytes: 3, cycles: 3, addressing_mode: AddressingMode::Absolute }),
        0x4D => Some(Opcode { code: 0x4D, mnemonic: Mnemonic::Eor, bytes: 3, cycles: 4, addressing_mode: AddressingMode::Absolute }),
        0x4E => Some(Opcode { code: 0x4E, mnemonic: Mnemonic::Lsr, bytes: 3, cycles: 6, addressing_mode: AddressingMode::Absolute }),
        0x50 => Some(Opcode { code: 0x50, mnemonic: Mnemonic::Bvc, bytes: 2, cycles: 2, addressing_mode: AddressingMode::Relative }),
        0x51 => Some(Opcode { code: 0x51, mnemonic: Mnemonic::Eor, bytes: 2, cycles: 5, addressing_mode: AddressingMode::IndirectY }),
        0x55 => Some(Opcode { code: 0x55, mnemonic: Mnemonic::Eor, bytes: 2, cycles: 4, addressing_mode: AddressingMode::ZeroPageX }),
        0x56 => Some(Opcode { code: 0x56, mnemonic: Mnemonic::Lsr, bytes: 2, cycles: 6, addressing_mode: AddressingMode::ZeroPageX }),
        0x58 => Some(Opcode { code: 0x58, mnemonic: Mnemonic::Cli, bytes: 1, cycles: 2, addressing_mode: AddressingMode::Implied }),
        0x59 => Some(Opcode { code: 0x59, mnemonic: Mnemonic::Eor, bytes: 3, cycles: 4, addressing_mode: AddressingMode::AbsoluteY }),
        0x5D => Some(Opcode { code: 0x5D, mnemonic: Mnemonic::Eor, bytes: 3, cycles: 4, addressing_mode: AddressingMode::AbsoluteX }),
        0x5E => Some(Opcode { code: 0x5E, mnemonic: Mnemonic::Lsr, bytes: 3, cycles: 7, addressing_mode: AddressingMode::AbsoluteX }),
        0x60 => Some(Opcode { code: 0x60, mnemonic: Mnemonic::Rts, bytes: 1, cycles: 6, addressing_mode: AddressingMode::Implied }),
        0x61 => Some(Opcode { code: 0x61, mnemonic: Mnemonic::Adc, bytes: 2, cycles: 6, addressing_mode: AddressingMode::IndirectX }),
        0x65 => Some(Opcode { code: 0x65, mnemonic: Mnemonic::Adc, bytes: 2, cycles: 3, addressing_mode: AddressingMode::ZeroPage }),
        0x66 => Some(Opcode { code: 0x66, mnemonic: Mnemonic::Ror, bytes: 2, cycles: 5, addressing_mode: AddressingMode::ZeroPage }),
        0x68 => Some(Opcode { code: 0x68, mnemonic: Mnemonic::Pla, bytes: 1, cycles: 4, addressing_mode: AddressingMode::Implied }),
        0x69 => Some(Opcode { code: 0x69, mnemonic: Mnemonic::Adc, bytes: 2, cycles: 2, addressing_mode: AddressingMode::Immediate }),
        0x6A => Some(Opcode { code: 0x6A, mnemonic: Mnemonic::Ror, bytes: 1, cycles: 2, addressing_mode: AddressingMode::Accumulator }),
        0x6C => Some(Opcode { code: 0x6C, mnemonic: Mnemonic::Jmp, bytes: 3, cycles: 5, addressing_mode: AddressingMode::Indirect }),
        0x6D => Some(Opcode { code: 0x6D, mnemonic: Mnemonic::Adc, bytes: 3, cycles: 4, addressing_mode: AddressingMode::Absolute }),
        0x6E => Some(Opcode { code: 0x6E, mnemonic: Mnemonic::Ror, bytes: 3, cycles: 6, addressing_mode: AddressingMode::Absolute }),
        0x70 => Some(Opcode { code: 0x70, mnemonic: Mnemonic::Bvs, bytes: 2, cycles: 2, addressing_mode: AddressingMode::Relative }),
        0x71 => Some(Opcode { code: 0x71, mnemonic: Mnemonic::Adc, bytes: 2, cycles: 5, addressing_mode: AddressingMode::IndirectY }),
        0x75 => Some(Opcode { code: 0x75, mnemonic: Mnemonic::Adc, bytes: 2, cycles: 4, addressing_mode: AddressingMode::ZeroPageX }),
        0x76 => Some(Opcode { code: 0x76, mnemonic: Mnemonic::Ror, bytes: 2, cycles: 6, addressing_mode: AddressingMode::ZeroPageX }),
        0x78 => Some(Opcode { code: 0x78, mnemonic: Mnemonic::Sei, bytes: 1, cycles: 2, addressing_mode: AddressingMode::Implied }),
        0x79 => Some(Opcode { code: 0x79, mnemonic: Mnemonic::Adc, bytes: 3, cycles: 4, addressing_mode: AddressingMode::AbsoluteY }),
        0x7D => Some(Opcode { code: 0x7D, mnemonic: Mnemonic::Adc, bytes: 3, cycles: 4, addressing_mode: AddressingMode::AbsoluteX }),
        0x7E => Some(Opcode { code: 0x7E, mnemonic: Mnemonic::Ror, bytes: 3, cycles: 7, addressing_mode: AddressingMode::AbsoluteX }),
        0x81 => Some(Opcode { code: 0x81, mnemonic: Mnemonic::Sta, bytes: 2, cycles: 6, addressing_mode: AddressingMode::IndirectX }),
        0x84 => Some(Opcode { code: 0x84, mnemonic: Mnemonic::Sty, bytes: 2, cycles: 3, addressing_mode: AddressingMode::ZeroPage }),
        0x85 => Some(Opcode { code: 0x85, mnemonic: Mnemonic::Sta, bytes: 2, cycles: 3, addressing_mode: AddressingMode::ZeroPage }),
        0x86 => Some(Opcode { code: 0x86, mnemonic: Mnemonic::Stx, bytes: 2, cycles: 3, addressing_mode: AddressingMode::ZeroPage }),
        0x88 => Some(Opcode { code: 0x88, mnemonic: Mnemonic::Dey, bytes: 1, cycles: 2, addressing_mode: AddressingMode::Implied }),
        0x8A => Some(Opcode { code: 0x8A, mnemonic: Mnemonic::Txa, bytes: 1, cycles: 2, addressing_mode: AddressingMode::Implied }),
        0x8C => Some(Opcode { code: 0x8C, mnemonic: Mnemonic::Sty, bytes: 3, cycles: 4, addressing_mode: AddressingMode::Absolute }),
        0x8D => Some(Opcode { code: 0x8D, mnemonic: Mnemonic::Sta, bytes: 3, cycles: 4, addressing_mode: AddressingMode::Absolute }),
        0x8E => Some(Opcode { code: 0x8E, mnemonic: Mnemonic::Stx, bytes: 3, cycles: 4, addressing_mode: AddressingMode::Absolute }),
        0x90 => Some(Opcode { code: 0x90, mnemonic: Mnemonic::Bcc, bytes: 2, cycles: 2, addressing_mode: AddressingMode::Relative }),
        0x91 => Some(Opcode { code: 0x91, mnemonic: Mnemonic::Sta, bytes: 2, cycles: 6, addressing_mode: AddressingMode::IndirectY }),
        0x94 => Some(Opcode { code: 0x94, mnemonic: Mnemonic::Sty, bytes: 2, cycles: 4, addressing_mode: AddressingMode::ZeroPageX }),
        0x95 => Some(Opcode { code: 0x95, mnemonic: Mnemonic::Sta, bytes: 2, cycles: 4, addressing_mode: AddressingMode::ZeroPageX }),
        0x96 => Some(Opcode { code: 0x96, mnemonic: Mnemonic::Stx, bytes: 2, cycles: 4, addressing_mode: AddressingMode::ZeroPageY }),
        0x98 => Some(Opcode { code: 0x98, mnemonic: Mnemonic::Tya, bytes: 1, cycles: 2, addressing_mode: AddressingMode::Implied }),
        0x99 => Some(Opcode { code: 0x99, mnemonic: Mnemonic::Sta, bytes: 3, cycles: 4, addressing_mode: AddressingMode::AbsoluteY }),
        0x9A => Some(Opcode { code: 0x9A, mnemonic: Mnemonic::Txs, bytes: 1, cycles: 2, addressing_mode: AddressingMode::Implied }),
        0x9D => Some(Opcode { code: 0x9D, mnemonic: Mnemonic::Sta, bytes: 3, cycles: 4, addressing_mode: AddressingMode::AbsoluteX }),
        0xA0 => Some(Opcode { code: 0xA0, mnemonic: Mnemonic::Ldy, bytes: 2, cycles: 2, addressing_mode: AddressingMode::Immediate }),
        0xA1 => Some(Opcode { code: 0xA1, mnemonic: Mnemonic::Lda, bytes: 2, cycles: 6, addressing_mode: AddressingMode::IndirectX }),
        0xA2 => Some(Opcode { code: 0xA2, mnemonic: Mnemonic::Ldx, bytes: 2, cycles: 2, addressing_mode: AddressingMode::Immediate }),
        0xA4 => Some(Opcode { code: 0xA4, mnemonic: Mnemonic::Ldy, bytes: 2, cycles: 3, addressing_mode: AddressingMode::ZeroPage }),
        0xA5 => Some(Opcode { code: 0xA5, mnemonic: Mnemonic::Lda, bytes: 2, cycles: 3, addressing_mode: AddressingMode::ZeroPage }),
        0xA6 => Some(Opcode { code: 0xA6, mnemonic: Mnemonic::Ldx, bytes: 2, cycles: 3, addressing_mode: AddressingMode::ZeroPage }),
        0xA8 => Some(Opcode { code: 0xA8, mnemonic: Mnemonic::Tay, bytes: 1, cycles: 2, addressing_mode: AddressingMode::Implied }),
        0xA9 => Some(Opcode { code: 0xA9, mnemonic: Mnemonic::Lda, bytes: 2, cycles: 2, addressing_mode: AddressingMode::Immediate }),
        0xAA => Some(Opcode { code: 0xAA, mnemonic: Mnemonic::Tax, bytes: 1, cycles: 2, addressing_mode: AddressingMode::Implied }),
        0xAC => Some(Opcode { code: 0xAC, mnemonic: Mnemonic::Ldy, bytes: 3, cycles: 4, addressing_mode: AddressingMode::Absolute }),
        0xAD => Some(Opcode { code: 0xAD, mnemonic: Mnemonic::Lda, bytes: 3, cycles: 4, addressing_mode: AddressingMode::Absolute }),
        0xAE => Some(Opcode { code: 0xAE, mnemonic: Mnemonic::Ldx, bytes: 3, cycles: 4, addressing_mode: AddressingMode::Absolute }),
        0xB0 => Some(Opcode { code: 0xB0, mnemonic: Mnemonic::Bcs, bytes: 2, cycles: 2, addressing_mode: AddressingMode::Relative }),
        0xB1 => Some(Opcode { code: 0xB1, mnemonic: Mnemonic::Lda, bytes: 2, cycles: 5, addressing_mode: AddressingMode::IndirectY }),
        0xB4 => Some(Opcode { code: 0xB4, mnemonic: Mnemonic::Ldy, bytes: 2, cycles: 4, addressing_mode: AddressingMode::ZeroPageX }),
        0xB5 => Some(Opcode { code: 0xB5, mnemonic: Mnemonic::Lda, bytes: 2, cycles: 4, addressing_mode: AddressingMode::ZeroPageX }),
        0xB6 => Some(Opcode { code: 0xB6, mnemonic: Mnemonic::Ldx, bytes: 2, cycles: 4, addressing_mode: AddressingMode::ZeroPageY }),
        0xB8 => Some(Opcode { code: 0xB8, mnemonic: Mnemonic::Clv, bytes: 1, cycles: 2, addressing_mode: AddressingMode::Implied }),
        0xB9 => Some(Opcode { code: 0xB9, mnemonic: Mnemonic::Lda, bytes: 3, cycles: 4, addressing_mode: AddressingMode::AbsoluteY }),
        0xBA => Some(Opcode { code: 0xBA, mnemonic: Mnemonic::Tsx, bytes: 1, cycles: 2, addressing_mode: AddressingMode::Implied }),
        0xBC => Some(Opcode { code: 0xBC, mnemonic: Mnemonic::Ldy, bytes: 3, cycles: 4, addressing_mode: AddressingMode::AbsoluteX }),
        0xBD => Some(Opcode { code: 0xBD, mnemonic: Mnemonic::Lda, bytes: 3, cycles: 4, addressing_mode: AddressingMode::AbsoluteX }),
        0xBE => Some(Opcode { code: 0xBE, mnemonic: Mnemonic::Ldx, bytes: 3, cycles: 4, addressing_mode: AddressingMode::AbsoluteY }),
        0xC0 => Some(Opcode { code: 0xC0, mnemonic: Mnemonic::Cpy, bytes: 2, cycles: 2, addressing_mode: AddressingMode::Immediate }),
        0xC1 => Some(Opcode { code: 0xC1, mnemonic: Mnemonic::Cmp, bytes: 2, cycles: 6, addressing_mode: AddressingMode::IndirectX }),
        0xC4 => Some(Opcode { code: 0xC4, mnemonic: Mnemonic::Cpy, bytes: 2, cycles: 3, addressing_mode: AddressingMode::ZeroPage }),
        0xC5 => Some(Opcode { code: 0xC5, mnemonic: Mnemonic::Cmp, bytes: 2, cycles: 3, addressing_mode: AddressingMode::ZeroPage }),
        0xC6 => Some(Opcode { code: 0xC6, mnemonic: Mnemonic::Dec, bytes: 2, cycles: 5, addressing_mode: AddressingMode::ZeroPage }),
        0xC8 => Some(Opcode { code: 0xC8, mnemonic: Mnemonic::Iny, bytes: 1, cycles: 2, addressing_mode: AddressingMode::Implied }),
        0xC9 => Some(Opcode { code: 0xC9, mnemonic: Mnemonic::Cmp, bytes: 2, cycles: 2, addressing_mode: AddressingMode::Immediate }),
        0xCA => Some(Opcode { code: 0xCA, mnemonic: Mnemonic::Dex, bytes: 1, cycles: 2, addressing_mode: AddressingMode::Implied }),
        0xCC => Some(Opcode { code: 0xCC, mnemonic: Mnemonic::Cpy, bytes: 3, cycles: 4, addressing_mode: AddressingMode::Absolute }),
        0xCD => Some(Opcode { code: 0xCD, mnemonic: Mnemonic::Cmp, bytes: 3, cycles: 4, addressing_mode: AddressingMode::Absolute }),
        0xCE => Some(Opcode { code: 0xCE, mnemonic: Mnemonic::Dec, bytes: 3, cycles: 6, addressing_mode: AddressingMode::Absolute }),
        0xD0 => Some(Opcode { code: 0xD0, mnemonic: Mnemonic::Bne, bytes: 2, cycles: 2, addressing_mode: AddressingMode::Relative }),
        0xD1 => Some(Opcode { code: 0xD1, mnemonic: Mnemonic::Cmp, bytes: 2, cycles: 5, addressing_mode: AddressingMode::IndirectY }),
        0xD5 => Some(Opcode { code: 0xD5, mnemonic: Mnemonic::Cmp, bytes: 2, cycles: 4, addressing_mode: AddressingMode::ZeroPageX }),
        0xD6 => Some(Opcode { code: 0xD6, mnemonic: Mnemonic::Dec, bytes: 2, cycles: 6, addressing_mode: AddressingMode::ZeroPageX }),
        0xD8 => Some(Opcode { code: 0xD8, mnemonic: Mnemonic::Cld, bytes: 1, cycles: 2, addressing_mode: AddressingMode::Implied }),
        0xD9 => Some(Opcode { code: 0xD9, mnemonic: Mnemonic::Cmp, bytes: 3, cycles: 4, addressing_mode: AddressingMode::AbsoluteY }),
        0xDD => Some(Opcode { code: 0xDD, mnemonic: Mnemonic::Cmp, bytes: 3, cycles: 4, addressing_mode: AddressingMode::AbsoluteX }),
        0xDE => Some(Opcode { code: 0xDE, mnemonic: Mnemonic::Dec, bytes: 3, cycles: 7, addressing_mode: AddressingMode::AbsoluteX }),
        0xE0 => Some(Opcode { code: 0xE0, mnemonic: Mnemonic::Cpx, bytes: 2, cycles: 2, addressing_mode: AddressingMode::Immediate }),
        0xE1 => Some(Opcode { code: 0xE1, mnemonic: Mnemonic::Sbc, bytes: 2, cycles: 6, addressing_mode: AddressingMode::IndirectX }),
        0xE4 => Some(Opcode { code: 0xE4, mnemonic: Mnemonic::Cpx, bytes: 2, cycles: 3, addressing_mode: AddressingMode::ZeroPage }),
        0xE5 => Some(Opcode { code: 0xE5, mnemonic: Mnemonic::Sbc, bytes: 2, cycles: 3, addressing_mode: AddressingMode::ZeroPage }),
        0xE6 => Some(Opcode { code: 0xE6, mnemonic: Mnemonic::Inc, bytes: 2, cycles: 5, addressing_mode: AddressingMode::ZeroPage }),
        0xE8 => Some(Opcode { code: 0xE8, mnemonic: Mnemonic::Inx, bytes: 1, cycles: 2, addressing_mode: AddressingMode::Implied }),
        0xE9 => Some(Opcode { code: 0xE9, mnemonic: Mnemonic::Sbc, bytes: 2, cycles: 2, addressing_mode: AddressingMode::Immediate }),
        0xEA => Some(Opcode { code: 0xEA, mnemonic: Mnemonic::Nop, bytes: 1, cycles: 2, addressing_mode: AddressingMode::Implied }),
        0xEC => Some(Opcode { code: 0xEC, mnemonic: Mnemonic::Cpx, bytes: 3, cycles: 4, addressing_mode: AddressingMode::Absolute }),
        0xED => Some(Opcode { code: 0xED, mnemonic: Mnemonic::Sbc, bytes: 3, cycles: 4, addressing_mode: AddressingMode::Absolute }),
        0xEE => Some(Opcode { code: 0xEE, mnemonic: Mnemonic::Inc, bytes: 3, cycles: 6, addressing_mode: AddressingMode::Absolute }),
        0xF0 => Some(Opcode { code: 0xF0, mnemonic: Mnemonic::Beq, bytes: 2, cycles: 2, addressing_mode: AddressingMode::Relative }),
        0xF1 => Some(Opcode { code: 0xF1, mnemonic: Mnemonic::Sbc, bytes: 2, cycles: 5, addressing_mode: AddressingMode::IndirectY }),
        0xF5 => Some(Opcode { code: 0xF5, mnemonic: Mnemonic::Sbc, bytes: 2, cycles: 4, addressing_mode: AddressingMode::ZeroPageX }),
        0xF6 => Some(Opcode { code: 0xF6, mnemonic: Mnemonic::Inc, bytes: 2, cycles: 6, addressing_mode: AddressingMode::ZeroPageX }),
        0xF8 => Some(Opcode { code: 0xF8, mnemonic: Mnemonic::Sed, bytes: 1, cycles: 2, addressing_mode: AddressingMode::Implied }),
        0xF9 => Some(Opcode { code: 0xF9, mnemonic: Mnemonic::Sbc, bytes: 3, cycles: 4, addressing_mode: AddressingMode::AbsoluteY }),
        0xFD => Some(Opcode { code: 0xFD, mnemonic: Mnemonic::Sbc, bytes: 3, cycles: 4, addressing_mode: AddressingMode::AbsoluteX }),
        0xFE => Some(Opcode { code: 0xFE, mnemonic: Mnemonic::Inc, bytes: 3, cycles: 7, addressing_mode: AddressingMode::AbsoluteX }),
        _ => None,
    }
}

impl Opcode {
    pub fn new(code: u8, mnemonic: Mnemonic, bytes: u8, cycles: u8, addressing_mode: AddressingMode) -> (r: Opcode)
        ensures
            r == (Opcode { code, mnemonic, bytes, cycles, addressing_mode }),
    {
        Opcode { code, mnemonic, bytes, cycles, addressing_mode }
    }
}

/// Decodes one opcode byte against the canonical table.
pub fn decode(code: u8) -> (r: Option<Opcode>)
    ensures
        r == opcode_entry(code),
{
    match code {
        0x00 => Some(Opcode { code: 0x00, mnemonic: Mnemonic::Brk, bytes: 1, cycles: 7, addressing_mode: AddressingMode::Implied }),
        0x01 => Some(Opcode { code: 0x01, mnemonic: Mnemonic::Ora, bytes: 2, cycles: 6, addressing_mode: AddressingMode::IndirectX }),
        0x05 => Some(Opcode { code: 0x05, mnemonic: Mnemonic::Ora, bytes: 2, cycles: 3, addressing_mode: AddressingMode::ZeroPage }),
        0x06 => Some(Opcode { code: 0x06, mnemonic: Mnemonic::Asl, bytes: 2, cycles: 5, addressing_mode: AddressingMode::ZeroPage }),
        0x08 => Some(Opcode { code: 0x08, mnemonic: Mnemonic::Php, bytes: 1, cycles: 3, addressing_mode: AddressingMode::Implied }),
        0x09 => Some(Opcode { code: 0x09, mnemonic: Mnemonic::Ora, bytes: 2, cycles: 2, addressing_mode: AddressingMode::Immediate }),
        0x0A => Some(Opcode { code: 0x0A, mnemonic: Mnemonic::Asl, bytes: 1, cycles: 2, addressing_mode: AddressingMode::Accumulator }),
        0x0D => Some(Opcode { code: 0x0D, mnemonic: Mnemonic::Ora, bytes: 3, cycles: 4, addressing_mode: AddressingMode::Absolute }),
        0x0E => Some(Opcode { code: 0x0E, mnemonic: Mnemonic::Asl, bytes: 3, cycles: 6, addressing_mode: AddressingMode::Absolute }),
        0x10 => Some(Opcode { code: 0x10, mnemonic: Mnemonic::Bpl, bytes: 2, cycles: 2, addressing_mode: AddressingMode::Relative }),
        0x11 => Some(Opcode { code: 0x11, mnemonic: Mnemonic::Ora, bytes: 2, cycles: 5, addressing_mode: AddressingMode::IndirectY }),
        0x15 => Some(Opcode { code: 0x15, mnemonic: Mnemonic::Ora, bytes: 2, cycles: 4, addressing_mode: AddressingMode::ZeroPageX }),
        0x16 => Some(Opcode { code: 0x16, mnemonic: Mnemonic::Asl, bytes: 2, cycles: 6, addressing_mode: AddressingMode::ZeroPageX }),
        0x18 => Some(Opcode { code: 0x18, mnemonic: Mnemonic::Clc, bytes: 1, cycles: 2, addressing_mode: AddressingMode::Implied }),
        0x19 => Some(Opcode { code: 0x19, mnemonic: Mnemonic::Ora, bytes: 3, cycles: 4, addressing_mode: AddressingMode::AbsoluteY }),
        0x1D => Some(Opcode { code: 0x1D, mnemonic: Mnemonic::Ora, bytes: 3, cycles: 4, addressing_mode: AddressingMode::AbsoluteX }),
        0x1E => Some(Opcode { code: 0x1E, mnemonic: Mnemonic::Asl, bytes: 3, cycles: 7, addressing_mode: AddressingMode::AbsoluteX }),
        0x20 => Some(Opcode { code: 0x20, mnemonic: Mnemonic::Jsr, bytes: 3, cycles: 6, addressing_mode: AddressingMode::Absolute }),
        0x21 => Some(Opcode { code: 0x21, mnemonic: Mnemonic::And, bytes: 2, cycles: 6, addressing_mode: AddressingMode::IndirectX }),
        0x24 => Some(Opcode { code: 0x24, mnemonic: Mnemonic::Bit, bytes: 2, cycles: 3, addressing_mode: AddressingMode::ZeroPage }),
        0x25 => Some(Opcode { code: 0x25, mnemonic: Mnemonic::And, bytes: 2, cycles: 3, addressing_mode: AddressingMode::ZeroPage }),
        0x26 => Some(Opcode { code: 0x26, mnemonic: Mnemonic::Rol, bytes: 2, cycles: 5, addressing_mode: AddressingMode::ZeroPage }),
        0x28 => Some(Opcode { code: 0x28, mnemonic: Mnemonic::Plp, bytes: 1, cycles: 4, addressing_mode: AddressingMode::Implied }),
        0x29 => Some(Opcode { code: 0x29, mnemonic: Mnemonic::And, bytes: 2, cycles: 2, addressing_mode: AddressingMode::Immediate }),
        0x2A => Some(Opcode { code: 0x2A, mnemonic: Mnemonic::Rol, bytes: 1, cycles: 2, addressing_mode: AddressingMode::Accumulator }),
        0x2C => Some(Opcode { code: 0x2C, mnemonic: Mnemonic::Bit, bytes: 3, cycles: 4, addressing_mode: AddressingMode::Absolute }),
        0x2D => Some(Opcode { code: 0x2D, mnemonic: Mnemonic::And, bytes: 3, cycles: 4, addressing_mode: AddressingMode::Absolute }),
        0x2E => Some(Opcode { code: 0x2E, mnemonic: Mnemonic::Rol, bytes: 3, cycles: 6, addressing_mode: AddressingMode::Absolute }),
        0x30 => Some(Opcode { code: 0x30, mnemonic: Mnemonic::Bmi, bytes: 2, cycles: 2, addressing_mode: AddressingMode::Relative }),
        0x31 => Some(Opcode { code: 0x31, mnemonic: Mnemonic::And, bytes: 2, cycles: 5, addressing_mode: AddressingMode::IndirectY }),
        0x35 => Some(Opcode { code: 0x35, mnemonic: Mnemonic::And, bytes: 2, cycles: 4, addressing_mode: AddressingMode::ZeroPageX }),
        0x36 => Some(Opcode { code: 0x36, mnemonic: Mnemonic::Rol, bytes: 2, cycles: 6, addressing_mode: AddressingMode::ZeroPageX }),
        0x38 => Some(Opcode { code: 0x38, mnemonic: Mnemonic::Sec, bytes: 1, cycles: 2, addressing_mode: AddressingMode::Implied }),
        0x39 => Some(Opcode { code: 0x39, mnemonic: Mnemonic::And, bytes: 3, cycles: 4, addressing_mode: AddressingMode::AbsoluteY }),
        0x3D => Some(Opcode { code: 0x3D, mnemonic: Mnemonic::And, bytes: 3, cycles: 4, addressing_mode: AddressingMode::AbsoluteX }),
        0x3E => Some(Opcode { code: 0x3E, mnemonic: Mnemonic::Rol, bytes: 3, cycles: 7, addressing_mode: AddressingMode::AbsoluteX }),
        0x40 => Some(Opcode { code: 0x40, mnemonic: Mnemonic::Rti, bytes: 1, cycles: 6, addressing_mode: AddressingMode::Implied }),
        0x41 => Some(Opcode { code: 0x41, mnemonic: Mnemonic::Eor, bytes: 2, cycles: 6, addressing_mode: AddressingMode::IndirectX }),
        0x45 => Some(Opcode { code: 0x45, mnemonic: Mnemonic::Eor, bytes: 2, cycles: 3, addressing_mode: AddressingMode::ZeroPage }),
        0x46 => Some(Opcode { code: 0x46, mnemonic: Mnemonic::Lsr, bytes: 2, cycles: 5, addressing_mode: AddressingMode::ZeroPage }),
        0x48 => Some(Opcode { code: 0x48, mnemonic: Mnemonic::Pha, bytes: 1, cycles: 3, addressing_mode: AddressingMode::Implied }),
        0x49 => Some(Opcode { code: 0x49, mnemonic: Mnemonic::Eor, bytes: 2, cycles: 2, addressing_mode: AddressingMode::Immediate }),
        0x4A => Some(Opcode { code: 0x4A, mnemonic: Mnemonic::Lsr, bytes: 1, cycles: 2, addressing_mode: AddressingMode::Accumulator }),
        0x4C => Some(Opcode { code: 0x4C, mnemonic: Mnemonic::Jmp, bytes: 3, cycles: 3, addressing_mode: AddressingMode::Absolute }),
        0x4D => Some(Opcode { code: 0x4D, mnemonic: Mnemonic::Eor, bytes: 3, cycles: 4, addressing_mode: AddressingMode::Absolute }),
        0x4E => Some(Opcode { code: 0x4E, mnemonic: Mnemonic::Lsr, bytes: 3, cycles: 6, addressing_mode: AddressingMode::Absolute }),
        0x50 => Some(Opcode { code: 0x50, mnemonic: Mnemonic::Bvc, bytes: 2, cycles: 2, addressing_mode: AddressingMode::Relative }),
        0x51 => Some(Opcode { code: 0x51, mnemonic: Mnemonic::Eor, bytes: 2, cycles: 5, addressing_mode: AddressingMode::IndirectY }),
        0x55 => Some(Opcode { code: 0x55, mnemonic: Mnemonic::Eor, bytes: 2, cycles: 4, addressing_mode: AddressingMode::ZeroPageX }),
        0x56 => Some(Opcode { code: 0x56, mnemonic: Mnemonic::Lsr, bytes: 2, cycles: 6, addressing_mode: AddressingMode::ZeroPageX }),
        0x58 => Some(Opcode { code: 0x58, mnemonic: Mnemonic::Cli, bytes: 1, cycles: 2, addressing_mode: AddressingMode::Implied }),
        0x59 => Some(Opcode { code: 0x59, mnemonic: Mnemonic::Eor, bytes: 3, cycles: 4, addressing_mode: AddressingMode::AbsoluteY }),
        0x5D => Some(Opcode { code: 0x5D, mnemonic: Mnemonic::Eor, bytes: 3, cycles: 4, addressing_mode: AddressingMode::AbsoluteX }),
        0x5E => Some(Opcode { code: 0x5E, mnemonic: Mnemonic::Lsr, bytes: 3, cycles: 7, addressing_mode: AddressingMode::AbsoluteX }),
        0x60 => Some(Opcode { code: 0x60, mnemonic: Mnemonic::Rts, bytes: 1, cycles: 6, addressing_mode: AddressingMode::Implied }),
        0x61 => Some(Opcode { code: 0x61, mnemonic: Mnemonic::Adc, bytes: 2, cycles: 6, addressing_mode: AddressingMode::IndirectX }),
        0x65 => Some(Opcode { code: 0x65, mnemonic: Mnemonic::Adc, bytes: 2, cycles: 3, addressing_mode: AddressingMode::ZeroPage }),
        0x66 => Some(Opcode { code: 0x66, mnemonic: Mnemonic::Ror, bytes: 2, cycles: 5, addressing_mode: AddressingMode::ZeroPage }),
        0x68 => Some(Opcode { code: 0x68, mnemonic: Mnemonic::Pla, bytes: 1, cycles: 4, addressing_mode: AddressingMode::Implied }),
        0x69 => Some(Opcode { code: 0x69, mnemonic: Mnemonic::Adc, bytes: 2, cycles: 2, addressing_mode: AddressingMode::Immediate }),
        0x6A => Some(Opcode { code: 0x6A, mnemonic: Mnemonic::Ror, bytes: 1, cycles: 2, addressing_mode: AddressingMode::Accumulator }),
        0x6C => Some(Opcode { code: 0x6C, mnemonic: Mnemonic::Jmp, bytes: 3, cycles: 5, addressing_mode: AddressingMode::Indirect }),
        0x6D => Some(Opcode { code: 0x6D, mnemonic: Mnemonic::Adc, bytes: 3, cycles: 4, addressing_mode: AddressingMode::Absolute }),
        0x6E => Some(Opcode { code: 0x6E, mnemonic: Mnemonic::Ror, bytes: 3, cycles: 6, addressing_mode: AddressingMode::Absolute }),
        0x70 => Some(Opcode { code: 0x70, mnemonic: Mnemonic::Bvs, bytes: 2, cycles: 2, addressing_mode: AddressingMode::Relative }),
        0x71 => Some(Opcode { code: 0x71, mnemonic: Mnemonic::Adc, bytes: 2, cycles: 5, addressing_mode: AddressingMode::IndirectY }),
        0x75 => Some(Opcode { code: 0x75, mnemonic: Mnemonic::Adc, bytes: 2, cycles: 4, addressing_mode: AddressingMode::ZeroPageX }),
        0x76 => Some(Opcode { code: 0x76, mnemonic: Mnemonic::Ror, bytes: 2, cycles: 6, addressing_mode: AddressingMode::ZeroPageX }),
        0x78 => Some(Opcode { code: 0x78, mnemonic: Mnemonic::Sei, bytes: 1, cycles: 2, addressing_mode: AddressingMode::Implied }),
        0x79 => Some(Opcode { code: 0x79, mnemonic: Mnemonic::Adc, bytes: 3, cycles: 4, addressing_mode: AddressingMode::AbsoluteY }),
        0x7D => Some(Opcode { code: 0x7D, mnemonic: Mnemonic::Adc, bytes: 3, cycles: 4, addressing_mode: AddressingMode::AbsoluteX }),
        0x7E => Some(Opcode { code: 0x7E, mnemonic: Mnemonic::Ror, bytes: 3, cycles: 7, addressing_mode: AddressingMode::AbsoluteX }),
        0x81 => Some(Opcode { code: 0x81, mnemonic: Mnemonic::Sta, bytes: 2, cycles: 6, addressing_mode: AddressingMode::IndirectX }),
        0x84 => Some(Opcode { code: 0x84, mnemonic: Mnemonic::Sty, bytes: 2, cycles: 3, addressing_mode: AddressingMode::ZeroPage }),
        0x85 => Some(Opcode { code: 0x85, mnemonic: Mnemonic::Sta, bytes: 2, cycles: 3, addressing_mode: AddressingMode::ZeroPage }),
        0x86 => Some(Opcode { code: 0x86, mnemonic: Mnemonic::Stx, bytes: 2, cycles: 3, addressing_mode: AddressingMode::ZeroPage }),
        0x88 => Some(Opcode { code: 0x88, mnemonic: Mnemonic::Dey, bytes: 1, cycles: 2, addressing_mode: AddressingMode::Implied }),
        0x8A => Some(Opcode { code: 0x8A, mnemonic: Mnemonic::Txa, bytes: 1, cycles: 2, addressing_mode: AddressingMode::Implied }),
        0x8C => Some(Opcode { code: 0x8C, mnemonic: Mnemonic::Sty, bytes: 3, cycles: 4, addressing_mode: AddressingMode::Absolute }),
        0x8D => Some(Opcode { code: 0x8D, mnemonic: Mnemonic::Sta, bytes: 3, cycles: 4, addressing_mode: AddressingMode::Absolute }),
        0x8E => Some(Opcode { code: 0x8E, mnemonic: Mnemonic::Stx, bytes: 3, cycles: 4, addressing_mode: AddressingMode::Absolute }),
        0x90 => Some(Opcode { code: 0x90, mnemonic: Mnemonic::Bcc, bytes: 2, cycles: 2, addressing_mode: AddressingMode::Relative }),
        0x91 => Some(Opcode { code: 0x91, mnemonic: Mnemonic::Sta, bytes: 2, cycles: 6, addressing_mode: AddressingMode::IndirectY }),
        0x94 => Some(Opcode { code: 0x94, mnemonic: Mnemonic::Sty, bytes: 2, cycles: 4, addressing_mode: AddressingMode::ZeroPageX }),
        0x95 => Some(Opcode { code: 0x95, mnemonic: Mnemonic::Sta, bytes: 2, cycles: 4, addressing_mode: AddressingMode::ZeroPageX }),
        0x96 => Some(Opcode { code: 0x96, mnemonic: Mnemonic::Stx, bytes: 2, cycles: 4, addressing_mode: AddressingMode::ZeroPageY }),
        0x98 => Some(Opcode { code: 0x98, mnemonic: Mnemonic::Tya, bytes: 1, cycles: 2, addressing_mode: AddressingMode::Implied }),
        0x99 => Some(Opcode { code: 0x99, mnemonic: Mnemonic::Sta, bytes: 3, cycles: 4, addressing_mode: AddressingMode::AbsoluteY }),
        0x9A => Some(Opcode { code: 0x9A, mnemonic: Mnemonic::Txs, bytes: 1, cycles: 2, addressing_mode: AddressingMode::Implied }),
        0x9D => Some(Opcode { code: 0x9D, mnemonic: Mnemonic::Sta, bytes: 3, cycles: 4, addressing_mode: AddressingMode::AbsoluteX }),
        0xA0 => Some(Opcode { code: 0xA0, mnemonic: Mnemonic::Ldy, bytes: 2, cycles: 2, addressing_mode: AddressingMode::Immediate }),
        0xA1 => Some(Opcode { code: 0xA1, mnemonic: Mnemonic::Lda, bytes: 2, cycles: 6, addressing_mode: AddressingMode::IndirectX }),
        0xA2 => Some(Opcode { code: 0xA2, mnemonic: Mnemonic::Ldx, bytes: 2, cycles: 2, addressing_mode: AddressingMode::Immediate }),
        0xA4 => Some(Opcode { code: 0xA4, mnemonic: Mnemonic::Ldy, bytes: 2, cycles: 3, addressing_mode: AddressingMode::ZeroPage }),
        0xA5 => Some(Opcode { code: 0xA5, mnemonic: Mnemonic::Lda, bytes: 2, cycles: 3, addressing_mode: AddressingMode::ZeroPage }),
        0xA6 => Some(Opcode { code: 0xA6, mnemonic: Mnemonic::Ldx, bytes: 2, cycles: 3, addressing_mode: AddressingMode::ZeroPage }),
        0xA8 => Some(Opcode { code: 0xA8, mnemonic: Mnemonic::Tay, bytes: 1, cycles: 2, addressing_mode: AddressingMode::Implied }),
        0xA9 => Some(Opcode { code: 0xA9, mnemonic: Mnemonic::Lda, bytes: 2, cycles: 2, addressing_mode: AddressingMode::Immediate }),
        0xAA => Some(Opcode { code: 0xAA, mnemonic: Mnemonic::Tax, bytes: 1, cycles: 2, addressing_mode: AddressingMode::Implied }),
        0xAC => Some(Opcode { code: 0xAC, mnemonic: Mnemonic::Ldy, bytes: 3, cycles: 4, addressing_mode: AddressingMode::Absolute }),
        0xAD => Some(Opcode { code: 0xAD, mnemonic: Mnemonic::Lda, bytes: 3, cycles: 4, addressing_mode: AddressingMode::Absolute }),
        0xAE => Some(Opcode { code: 0xAE, mnemonic: Mnemonic::Ldx, bytes: 3, cycles: 4, addressing_mode: AddressingMode::Absolute }),
        0xB0 => Some(Opcode { code: 0xB0, mnemonic: Mnemonic::Bcs, bytes: 2, cycles: 2, addressing_mode: AddressingMode::Relative }),
        0xB1 => Some(Opcode { code: 0xB1, mnemonic: Mnemonic::Lda, bytes: 2, cycles: 5, addressing_mode: AddressingMode::IndirectY }),
        0xB4 => Some(Opcode { code: 0xB4, mnemonic: Mnemonic::Ldy, bytes: 2, cycles: 4, addressing_mode: AddressingMode::ZeroPageX }),
        0xB5 => Some(Opcode { code: 0xB5, mnemonic: Mnemonic::Lda, bytes: 2, cycles: 4, addressing_mode: AddressingMode::ZeroPageX }),
        0xB6 => Some(Opcode { code: 0xB6, mnemonic: Mnemonic::Ldx, bytes: 2, cycles: 4, addressing_mode: AddressingMode::ZeroPageY }),
        0xB8 => Some(Opcode { code: 0xB8, mnemonic: Mnemonic::Clv, bytes: 1, cycles: 2, addressing_mode: AddressingMode::Implied }),
        0xB9 => Some(Opcode { code: 0xB9, mnemonic: Mnemonic::Lda, bytes: 3, cycles: 4, addressing_mode: AddressingMode::AbsoluteY }),
        0xBA => Some(Opcode { code: 0xBA, mnemonic: Mnemonic::Tsx, bytes: 1, cycles: 2, addressing_mode: AddressingMode::Implied }),
        0xBC => Some(Opcode { code: 0xBC, mnemonic: Mnemonic::Ldy, bytes: 3, cycles: 4, addressing_mode: AddressingMode::AbsoluteX }),
        0xBD => Some(Opcode { code: 0xBD, mnemonic: Mnemonic::Lda, bytes: 3, cycles: 4, addressing_mode: AddressingMode::AbsoluteX }),
        0xBE => Some(Opcode { code: 0xBE, mnemonic: Mnemonic::Ldx, bytes: 3, cycles: 4, addressing_mode: AddressingMode::AbsoluteY }),
        0xC0 => Some(Opcode { code: 0xC0, mnemonic: Mnemonic::Cpy, bytes: 2, cycles: 2, addressing_mode: AddressingMode::Immediate }),
        0xC1 => Some(Opcode { code: 0xC1, mnemonic: Mnemonic::Cmp, bytes: 2, cycles: 6, addressing_mode: AddressingMode::IndirectX }),
        0xC4 => Some(Opcode { code: 0xC4, mnemonic: Mnemonic::Cpy, bytes: 2, cycles: 3, addressing_mode: AddressingMode::ZeroPage }),
        0xC5 => Some(Opcode { code: 0xC5, mnemonic: Mnemonic::Cmp, bytes: 2, cycles: 3, addressing_mode: AddressingMode::ZeroPage }),
        0xC6 => Some(Opcode { code: 0xC6, mnemonic: Mnemonic::Dec, bytes: 2, cycles: 5, addressing_mode: AddressingMode::ZeroPage }),
        0xC8 => Some(Opcode { code: 0xC8, mnemonic: Mnemonic::Iny, bytes: 1, cycles: 2, addressing_mode: AddressingMode::Implied }),
        0xC9 => Some(Opcode { code: 0xC9, mnemonic: Mnemonic::Cmp, bytes: 2, cycles: 2, addressing_mode: AddressingMode::Immediate }),
        0xCA => Some(Opcode { code: 0xCA, mnemonic: Mnemonic::Dex, bytes: 1, cycles: 2, addressing_mode: AddressingMode::Implied }),
        0xCC => Some(Opcode { code: 0xCC, mnemonic: Mnemonic::Cpy, bytes: 3, cycles: 4, addressing_mode: AddressingMode::Absolute }),
        0xCD => Some(Opcode { code: 0xCD, mnemonic: Mnemonic::Cmp, bytes: 3, cycles: 4, addressing_mode: AddressingMode::Absolute }),
        0xCE => Some(Opcode { code: 0xCE, mnemonic: Mnemonic::Dec, bytes: 3, cycles: 6, addressing_mode: AddressingMode::Absolute }),
        0xD0 => Some(Opcode { code: 0xD0, mnemonic: Mnemonic::Bne, bytes: 2, cycles: 2, addressing_mode: AddressingMode::Relative }),
        0xD1 => Some(Opcode { code: 0xD1, mnemonic: Mnemonic::Cmp, bytes: 2, cycles: 5, addressing_mode: AddressingMode::IndirectY }),
        0xD5 => Some(Opcode { code: 0xD5, mnemonic: Mnemonic::Cmp, bytes: 2, cycles: 4, addressing_mode: AddressingMode::ZeroPageX }),
        0xD6 => Some(Opcode { code: 0xD6, mnemonic: Mnemonic::Dec, bytes: 2, cycles: 6, addressing_mode: AddressingMode::ZeroPageX }),
        0xD8 => Some(Opcode { code: 0xD8, mnemonic: Mnemonic::Cld, bytes: 1, cycles: 2, addressing_mode: AddressingMode::Implied }),
        0xD9 => Some(Opcode { code: 0xD9, mnemonic: Mnemonic::Cmp, bytes: 3, cycles: 4, addressing_mode: AddressingMode::AbsoluteY }),
        0xDD => Some(Opcode { code: 0xDD, mnemonic: Mnemonic::Cmp, bytes: 3, cycles: 4, addressing_mode: AddressingMode::AbsoluteX }),
        0xDE => Some(Opcode { code: 0xDE, mnemonic: Mnemonic::Dec, bytes: 3, cycles: 7, addressing_mode: AddressingMode::AbsoluteX }),
        0xE0 => Some(Opcode { code: 0xE0, mnemonic: Mnemonic::Cpx, bytes: 2, cycles: 2, addressing_mode: AddressingMode::Immediate }),
        0xE1 => Some(Opcode { code: 0xE1, mnemonic: Mnemonic::Sbc, bytes: 2, cycles: 6, addressing_mode: AddressingMode::IndirectX }),
        0xE4 => Some(Opcode { code: 0xE4, mnemonic: Mnemonic::Cpx, bytes: 2, cycles: 3, addressing_mode: AddressingMode::ZeroPage }),
        0xE5 => Some(Opcode { code: 0xE5, mnemonic: Mnemonic::Sbc, bytes: 2, cycles: 3, addressing_mode: AddressingMode::ZeroPage }),
        0xE6 => Some(Opcode { code: 0xE6, mnemonic: Mnemonic::Inc, bytes: 2, cycles: 5, addressing_mode: AddressingMode::ZeroPage }),
        0xE8 => Some(Opcode { code: 0xE8, mnemonic: Mnemonic::Inx, bytes: 1, cycles: 2, addressing_mode: AddressingMode::Implied }),
        0xE9 => Some(Opcode { code: 0xE9, mnemonic: Mnemonic::Sbc, bytes: 2, cycles: 2, addressing_mode: AddressingMode::Immediate }),
        0xEA => Some(Opcode { code: 0xEA, mnemonic: Mnemonic::Nop, bytes: 1, cycles: 2, addressing_mode: AddressingMode::Implied }),
        0xEC => Some(Opcode { code: 0xEC, mnemonic: Mnemonic::Cpx, bytes: 3, cycles: 4, addressing_mode: AddressingMode::Absolute }),
        0xED => Some(Opcode { code: 0xED, mnemonic: Mnemonic::Sbc, bytes: 3, cycles: 4, addressing_mode: AddressingMode::Absolute }),
        0xEE => Some(Opcode { code: 0xEE, mnemonic: Mnemonic::Inc, bytes: 3, cycles: 6, addressing_mode: AddressingMode::Absolute }),
        0xF0 => Some(Opcode { code: 0xF0, mnemonic: Mnemonic::Beq, bytes: 2, cycles: 2, addressing_mode: AddressingMode::Relative }),
        0xF1 => Some(Opcode { code: 0xF1, mnemonic: Mnemonic::Sbc, bytes: 2, cycles: 5, addressing_mode: AddressingMode::IndirectY }),
        0xF5 => Some(Opcode { code: 0xF5, mnemonic: Mnemonic::Sbc, bytes: 2, cycles: 4, addressing_mode: AddressingMode::ZeroPageX }),
        0xF6 => Some(Opcode { code: 0xF6, mnemonic: Mnemonic::Inc, bytes: 2, cycles: 6, addressing_mode: AddressingMode::ZeroPageX }),
        0xF8 => Some(Opcode { code: 0xF8, mnemonic: Mnemonic::Sed, bytes: 1, cycles: 2, addressing_mode: AddressingMode::Implied }),
        0xF9 => Some(Opcode { code: 0xF9, mnemonic: Mnemonic::Sbc, bytes: 3, cycles: 4, addressing_mode: AddressingMode::AbsoluteY }),
        0xFD => Some(Opcode { code: 0xFD, mnemonic: Mnemonic::Sbc, bytes: 3, cycles: 4, addressing_mode: AddressingMode::AbsoluteX }),
        0xFE => Some(Opcode { code: 0xFE, mnemonic: Mnemonic::Inc, bytes: 3, cycles: 7, addressing_mode: AddressingMode::AbsoluteX }),
        _ => None,
    }
}

/// Every table entry carries the code byte it is filed under.
#[verifier::rlimit(100)]
#[verifier::spinoff_prover]
pub proof fn lemma_opcode_entry_code(c: u8)
    ensures
        opcode_entry(c) matches Some(e) ==> e.code == c,
{
}

/// The decode table materialized as a vector, ordered by opcode byte.
pub struct OpcodeMap {
    opcodes: Vec<Opcode>,
}

impl OpcodeMap {
    /// The table's contents, for specifications.
    pub closed spec fn entries(&self) -> Seq<Opcode> {
        self.opcodes@
    }

    /// The vector holds exactly the official opcodes: every entry is
    /// canonical, the codes are strictly increasing (hence each official
    /// code appears at most once), and every official code appears.
    pub open spec fn wf(&self) -> bool {
        &&& forall|i: int|
            0 <= i < self.entries().len() ==> opcode_entry(#[trigger] self.entries()[i].code)
                == Some(self.entries()[i])
        &&& forall|i: int, j: int|
            0 <= i < j < self.entries().len() ==> #[trigger] self.entries()[i].code
                < #[trigger] self.entries()[j].code
        &&& forall|c: u8|
            #[trigger] opcode_entry(c) is Some ==> exists|i: int|
                0 <= i < self.entries().len() && self.entries()[i].code == c
    }

    pub fn new() -> (r: OpcodeMap)
        ensures
            r.wf(),
    {
        let mut opcodes: Vec<Opcode> = Vec::new();
        let mut c: u16 = 0;
        while c < 256
            invariant
                c <= 256,
                forall|i: int|
                    0 <= i < opcodes@.len() ==> opcode_entry(#[trigger] opcodes@[i].code) == Some(
                        opcodes@[i],
                    ) && opcodes@[i].code < c,
                forall|i: int, j: int|
                    0 <= i < j < opcodes@.len() ==> #[trigger] opcodes@[i].code
                        < #[trigger] opcodes@[j].code,
                forall|k: u8|
                    k < c && #[trigger] opcode_entry(k) is Some ==> exists|i: int|
                        0 <= i < opcodes@.len() && opcodes@[i].code == k,
            decreases 256 - c,
        {
            let ghost prev = opcodes@;
            proof {
                lemma_opcode_entry_code(c as u8);
            }
            if let Some(op) = decode(c as u8) {
                opcodes.push(op);
                proof {
                    assert(opcodes@ == prev.push(op));
                    assert(op.code == c as u8);
                    assert forall|k: u8| k < c + 1 && #[trigger] opcode_entry(k) is Some implies exists|
                        i: int,
                    | 0 <= i < opcodes@.len() && opcodes@[i].code == k by {
                        if k < c {
                            let i = choose|i: int| 0 <= i < prev.len() && prev[i].code == k;
                            assert(opcodes@[i].code == k);
                        } else {
                            assert(opcodes@[prev.len() as int].code == k);
                        }
                    }
                }
            } else {
                proof {
                    assert forall|k: u8| k < c + 1 && #[trigger] opcode_entry(k) is Some implies exists|
                        i: int,
                    | 0 <= i < opcodes@.len() && opcodes@[i].code == k by {
                        assert(k < c || k == c);
                    }
                }
            }
            c = c + 1;
        }
        OpcodeMap { opcodes }
    }

    /// Looks an opcode byte up; `Some` exactly on the official opcodes.
    pub fn find_by_code(&self, code: u8) -> (r: Option<&Opcode>)
        requires
            self.wf(),
        ensures
            match r {
                Some(op) => opcode_entry(code) == Some(*op),
                None => opcode_entry(code) is None,
            },
    {
        let mut i: usize = 0;
        while i < self.opcodes.len()
            invariant
                self.wf(),
                i <= self.opcodes@.len(),
                forall|k: int| 0 <= k < i ==> #[trigger] self.opcodes@[k].code != code,
            decreases self.opcodes@.len() - i,
        {
            if self.opcodes[i].code == code {
                return Some(&self.opcodes[i]);
            }
            i = i + 1;
        }
        None
    }

    pub fn get_opcodes(&self) -> (r: &Vec<Opcode>)
        ensures
            r@ == self.entries(),
    {
        &self.opcodes
    }
}

/// Every code the table documents as official decodes to exactly one entry:
/// an official code occurs in a well-formed table at exactly one index, and
/// that index holds the canonical entry for it.
pub proof fn lemma_official_opcode_decodes_uniquely(m: OpcodeMap, c: u8)
    requires
        m.wf(),
        opcode_entry(c) is Some,
    ensures
        exists|i: int| 0 <= i < m.entries().len() && #[trigger] m.entries()[i].code == c,
        forall|i: int, j: int|
            0 <= i < m.entries().len() && 0 <= j < m.entries().len() && #[trigger] m.entries()[i].code
                == c && #[trigger] m.entries()[j].code == c ==> i == j,
        forall|i: int|
            0 <= i < m.entries().len() && #[trigger] m.entries()[i].code == c ==> Some(
                m.entries()[i],
            ) == opcode_entry(c),
{
    assert forall|i: int, j: int|
        0 <= i < m.entries().len() && 0 <= j < m.entries().len() && #[trigger] m.entries()[i].code
            == c && #[trigger] m.entries()[j].code == c implies i == j by {
        if i < j {
            assert(m.entries()[i].code < m.entries()[j].code);
        }
        if j < i {
            assert(m.entries()[j].code < m.entries()[i].code);
        }
    }
}

} // verus!
