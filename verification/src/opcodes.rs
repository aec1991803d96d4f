//! The opcode table: what each of the 256 opcode bytes stands for.
//!
//! The 151 documented opcodes are defined. The undocumented ones are marked
//! illegal; none of them is implemented.

use vstd::prelude::*;
use crate::addressing::AddrMode;

verus! {

/// The 56 instructions.
#[derive(Clone, Copy, PartialEq, Eq, Structural, Debug)]
pub enum Mnemonic {
    Adc,
    And,
    Asl,
    Bcc,
    Bcs,
    Beq,
    Bit,
    Bmi,
    Bne,
    Bpl,
    Brk,
    Bvc,
    Bvs,
    Clc,
    Cld,
    Cli,
    Clv,
    Cmp,
    Cpx,
    Cpy,
    Dec,
    Dex,
    Dey,
    Eor,
    Inc,
    Inx,
    Iny,
    Jmp,
    Jsr,
    Lda,
    Ldx,
    Ldy,
    Lsr,
    Nop,
    Ora,
    Pha,
    Php,
    Pla,
    Plp,
    Rol,
    Ror,
    Rti,
    Rts,
    Sbc,
    Sec,
    Sed,
    Sei,
    Sta,
    Stx,
    Sty,
    Tax,
    Tay,
    Tsx,
    Txa,
    Txs,
    Tya,
}

/// When an instruction takes longer than its base cycles.
#[derive(Clone, Copy, PartialEq, Eq, Structural, Debug)]
pub enum Penalty {
    /// Never.
    Never,
    /// One cycle more when the operand's address crosses a page.
    PageCross,
    /// One cycle more when the branch is taken, and one more when its
    /// target lies on another page.
    BranchTaken,
}

/// What an instruction does with its operand, which decides its timing.
#[derive(Clone, Copy, PartialEq, Eq, Structural, Debug)]
pub enum Access {
    /// Reads the operand.
    Read,
    /// Writes the operand.
    Write,
    /// Reads the operand, changes it and writes it back.
    Modify,
    /// Jumps to the operand's address if a flag says so.
    Branch,
    /// Jumps to the operand's address.
    Jump,
    /// Has no operand and works on the stack.
    Stack,
    /// Has no operand and works on the registers A, X, Y and SP.
    Register,
    /// Has no operand and sets or clears a flag, or does nothing.
    Status,
}

/// One entry of the opcode table.
#[derive(Clone, Copy, PartialEq, Eq, Structural, Debug)]
pub struct OpInfo {
    pub mnemonic: Mnemonic,
    pub mode: AddrMode,
    /// Cycles consumed when no penalty applies.
    pub cycles: u8,
    pub penalty: Penalty,
    /// The opcode is undocumented.
    pub illegal: bool,
}

/// The cycles that a penalty adds.
pub open spec fn penalty_cycles(penalty: Penalty, crossed: bool, taken: bool) -> u8 {
    match penalty {
        Penalty::Never => 0,
        Penalty::PageCross => if crossed {
            1
        } else {
            0
        },
        Penalty::BranchTaken => if !taken {
            0
        } else if crossed {
            2
        } else {
            1
        },
    }
}

/// The entry of a documented opcode.
pub open spec fn official(mnemonic: Mnemonic, mode: AddrMode, cycles: u8, penalty: Penalty) -> OpInfo {
    OpInfo { mnemonic, mode, cycles, penalty, illegal: false }
}

/// The entry of every undocumented opcode: it runs as a NOP of one byte
/// and two cycles.
pub open spec fn undefined() -> OpInfo {
    OpInfo {
        mnemonic: Mnemonic::Nop,
        mode: AddrMode::Implied,
        cycles: 2,
        penalty: Penalty::Never,
        illegal: true,
    }
}

/// The opcode table.
#[verifier::opaque]
pub open spec fn entry(opcode: u8) -> OpInfo {
    match opcode {
        0x00 => official(Mnemonic::Brk, AddrMode::Implied, 7, Penalty::Never),
        0x01 => official(Mnemonic::Ora, AddrMode::IndexedIndirect, 6, Penalty::Never),
        0x05 => official(Mnemonic::Ora, AddrMode::ZeroPage, 3, Penalty::Never),
        0x06 => official(Mnemonic::Asl, AddrMode::ZeroPage, 5, Penalty::Never),
        0x08 => official(Mnemonic::Php, AddrMode::Implied, 3, Penalty::Never),
        0x09 => official(Mnemonic::Ora, AddrMode::Immediate, 2, Penalty::Never),
        0x0A => official(Mnemonic::Asl, AddrMode::Accumulator, 2, Penalty::Never),
        0x0D => official(Mnemonic::Ora, AddrMode::Absolute, 4, Penalty::Never),
        0x0E => official(Mnemonic::Asl, AddrMode::Absolute, 6, Penalty::Never),
        0x10 => official(Mnemonic::Bpl, AddrMode::Relative, 2, Penalty::BranchTaken),
        0x11 => official(Mnemonic::Ora, AddrMode::IndirectIndexed, 5, Penalty::PageCross),
        0x15 => official(Mnemonic::Ora, AddrMode::ZeroPageX, 4, Penalty::Never),
        0x16 => official(Mnemonic::Asl, AddrMode::ZeroPageX, 6, Penalty::Never),
        0x18 => official(Mnemonic::Clc, AddrMode::Implied, 2, Penalty::Never),
        0x19 => official(Mnemonic::Ora, AddrMode::AbsoluteY, 4, Penalty::PageCross),
        0x1D => official(Mnemonic::Ora, AddrMode::AbsoluteX, 4, Penalty::PageCross),
        0x1E => official(Mnemonic::Asl, AddrMode::AbsoluteX, 7, Penalty::Never),
        0x20 => official(Mnemonic::Jsr, AddrMode::Absolute, 6, Penalty::Never),
        0x21 => official(Mnemonic::And, AddrMode::IndexedIndirect, 6, Penalty::Never),
        0x24 => official(Mnemonic::Bit, AddrMode::ZeroPage, 3, Penalty::Never),
        0x25 => official(Mnemonic::And, AddrMode::ZeroPage, 3, Penalty::Never),
        0x26 => official(Mnemonic::Rol, AddrMode::ZeroPage, 5, Penalty::Never),
        0x28 => official(Mnemonic::Plp, AddrMode::Implied, 4, Penalty::Never),
        0x29 => official(Mnemonic::And, AddrMode::Immediate, 2, Penalty::Never),
        0x2A => official(Mnemonic::Rol, AddrMode::Accumulator, 2, Penalty::Never),
        0x2C => official(Mnemonic::Bit, AddrMode::Absolute, 4, Penalty::Never),
        0x2D => official(Mnemonic::And, AddrMode::Absolute, 4, Penalty::Never),
        0x2E => official(Mnemonic::Rol, AddrMode::Absolute, 6, Penalty::Never),
        0x30 => official(Mnemonic::Bmi, AddrMode::Relative, 2, Penalty::BranchTaken),
        0x31 => official(Mnemonic::And, AddrMode::IndirectIndexed, 5, Penalty::PageCross),
        0x35 => official(Mnemonic::And, AddrMode::ZeroPageX, 4, Penalty::Never),
        0x36 => official(Mnemonic::Rol, AddrMode::ZeroPageX, 6, Penalty::Never),
        0x38 => official(Mnemonic::Sec, AddrMode::Implied, 2, Penalty::Never),
        0x39 => official(Mnemonic::And, AddrMode::AbsoluteY, 4, Penalty::PageCross),
        0x3D => official(Mnemonic::And, AddrMode::AbsoluteX, 4, Penalty::PageCross),
        0x3E => official(Mnemonic::Rol, AddrMode::AbsoluteX, 7, Penalty::Never),
        0x40 => official(Mnemonic::Rti, AddrMode::Implied, 6, Penalty::Never),
        0x41 => official(Mnemonic::Eor, AddrMode::IndexedIndirect, 6, Penalty::Never),
        0x45 => official(Mnemonic::Eor, AddrMode::ZeroPage, 3, Penalty::Never),
        0x46 => official(Mnemonic::Lsr, AddrMode::ZeroPage, 5, Penalty::Never),
        0x48 => official(Mnemonic::Pha, AddrMode::Implied, 3, Penalty::Never),
        0x49 => official(Mnemonic::Eor, AddrMode::Immediate, 2, Penalty::Never),
        0x4A => official(Mnemonic::Lsr, AddrMode::Accumulator, 2, Penalty::Never),
        0x4C => official(Mnemonic::Jmp, AddrMode::Absolute, 3, Penalty::Never),
        0x4D => official(Mnemonic::Eor, AddrMode::Absolute, 4, Penalty::Never),
        0x4E => official(Mnemonic::Lsr, AddrMode::Absolute, 6, Penalty::Never),
        0x50 => official(Mnemonic::Bvc, AddrMode::Relative, 2, Penalty::BranchTaken),
        0x51 => official(Mnemonic::Eor, AddrMode::IndirectIndexed, 5, Penalty::PageCross),
        0x55 => official(Mnemonic::Eor, AddrMode::ZeroPageX, 4, Penalty::Never),
        0x56 => official(Mnemonic::Lsr, AddrMode::ZeroPageX, 6, Penalty::Never),
        0x58 => official(Mnemonic::Cli, AddrMode::Implied, 2, Penalty::Never),
        0x59 => official(Mnemonic::Eor, AddrMode::AbsoluteY, 4, Penalty::PageCross),
        0x5D => official(Mnemonic::Eor, AddrMode::AbsoluteX, 4, Penalty::PageCross),
        0x5E => official(Mnemonic::Lsr, AddrMode::AbsoluteX, 7, Penalty::Never),
        0x60 => official(Mnemonic::Rts, AddrMode::Implied, 6, Penalty::Never),
        0x61 => official(Mnemonic::Adc, AddrMode::IndexedIndirect, 6, Penalty::Never),
        0x65 => official(Mnemonic::Adc, AddrMode::ZeroPage, 3, Penalty::Never),
        0x66 => official(Mnemonic::Ror, AddrMode::ZeroPage, 5, Penalty::Never),
        0x68 => official(Mnemonic::Pla, AddrMode::Implied, 4, Penalty::Never),
        0x69 => official(Mnemonic::Adc, AddrMode::Immediate, 2, Penalty::Never),
        0x6A => official(Mnemonic::Ror, AddrMode::Accumulator, 2, Penalty::Never),
        0x6C => official(Mnemonic::Jmp, AddrMode::Indirect, 5, Penalty::Never),
        0x6D => official(Mnemonic::Adc, AddrMode::Absolute, 4, Penalty::Never),
        0x6E => official(Mnemonic::Ror, AddrMode::Absolute, 6, Penalty::Never),
        0x70 => official(Mnemonic::Bvs, AddrMode::Relative, 2, Penalty::BranchTaken),
        0x71 => official(Mnemonic::Adc, AddrMode::IndirectIndexed, 5, Penalty::PageCross),
        0x75 => official(Mnemonic::Adc, AddrMode::ZeroPageX, 4, Penalty::Never),
        0x76 => official(Mnemonic::Ror, AddrMode::ZeroPageX, 6, Penalty::Never),
        0x78 => official(Mnemonic::Sei, AddrMode::Implied, 2, Penalty::Never),
        0x79 => official(Mnemonic::Adc, AddrMode::AbsoluteY, 4, Penalty::PageCross),
        0x7D => official(Mnemonic::Adc, AddrMode::AbsoluteX, 4, Penalty::PageCross),
        0x7E => official(Mnemonic::Ror, AddrMode::AbsoluteX, 7, Penalty::Never),
        0x81 => official(Mnemonic::Sta, AddrMode::IndexedIndirect, 6, Penalty::Never),
        0x84 => official(Mnemonic::Sty, AddrMode::ZeroPage, 3, Penalty::Never),
        0x85 => official(Mnemonic::Sta, AddrMode::ZeroPage, 3, Penalty::Never),
        0x86 => official(Mnemonic::Stx, AddrMode::ZeroPage, 3, Penalty::Never),
        0x88 => official(Mnemonic::Dey, AddrMode::Implied, 2, Penalty::Never),
        0x8A => official(Mnemonic::Txa, AddrMode::Implied, 2, Penalty::Never),
        0x8C => official(Mnemonic::Sty, AddrMode::Absolute, 4, Penalty::Never),
        0x8D => official(Mnemonic::Sta, AddrMode::Absolute, 4, Penalty::Never),
        0x8E => official(Mnemonic::Stx, AddrMode::Absolute, 4, Penalty::Never),
        0x90 => official(Mnemonic::Bcc, AddrMode::Relative, 2, Penalty::BranchTaken),
        0x91 => official(Mnemonic::Sta, AddrMode::IndirectIndexed, 6, Penalty::Never),
        0x94 => official(Mnemonic::Sty, AddrMode::ZeroPageX, 4, Penalty::Never),
        0x95 => official(Mnemonic::Sta, AddrMode::ZeroPageX, 4, Penalty::Never),
        0x96 => official(Mnemonic::Stx, AddrMode::ZeroPageY, 4, Penalty::Never),
        0x98 => official(Mnemonic::Tya, AddrMode::Implied, 2, Penalty::Never),
        0x99 => official(Mnemonic::Sta, AddrMode::AbsoluteY, 5, Penalty::Never),
        0x9A => official(Mnemonic::Txs, AddrMode::Implied, 2, Penalty::Never),
        0x9D => official(Mnemonic::Sta, AddrMode::AbsoluteX, 5, Penalty::Never),
        0xA0 => official(Mnemonic::Ldy, AddrMode::Immediate, 2, Penalty::Never),
        0xA1 => official(Mnemonic::Lda, AddrMode::IndexedIndirect, 6, Penalty::Never),
        0xA2 => official(Mnemonic::Ldx, AddrMode::Immediate, 2, Penalty::Never),
        0xA4 => official(Mnemonic::Ldy, AddrMode::ZeroPage, 3, Penalty::Never),
        0xA5 => official(Mnemonic::Lda, AddrMode::ZeroPage, 3, Penalty::Never),
        0xA6 => official(Mnemonic::Ldx, AddrMode::ZeroPage, 3, Penalty::Never),
        0xA8 => official(Mnemonic::Tay, AddrMode::Implied, 2, Penalty::Never),
        0xA9 => official(Mnemonic::Lda, AddrMode::Immediate, 2, Penalty::Never),
        0xAA => official(Mnemonic::Tax, AddrMode::Implied, 2, Penalty::Never),
        0xAC => official(Mnemonic::Ldy, AddrMode::Absolute, 4, Penalty::Never),
        0xAD => official(Mnemonic::Lda, AddrMode::Absolute, 4, Penalty::Never),
        0xAE => official(Mnemonic::Ldx, AddrMode::Absolute, 4, Penalty::Never),
        0xB0 => official(Mnemonic::Bcs, AddrMode::Relative, 2, Penalty::BranchTaken),
        0xB1 => official(Mnemonic::Lda, AddrMode::IndirectIndexed, 5, Penalty::PageCross),
        0xB4 => official(Mnemonic::Ldy, AddrMode::ZeroPageX, 4, Penalty::Never),
        0xB5 => official(Mnemonic::Lda, AddrMode::ZeroPageX, 4, Penalty::Never),
        0xB6 => official(Mnemonic::Ldx, AddrMode::ZeroPageY, 4, Penalty::Never),
        0xB8 => official(Mnemonic::Clv, AddrMode::Implied, 2, Penalty::Never),
        0xB9 => official(Mnemonic::Lda, AddrMode::AbsoluteY, 4, Penalty::PageCross),
        0xBA => official(Mnemonic::Tsx, AddrMode::Implied, 2, Penalty::Never),
        0xBC => official(Mnemonic::Ldy, AddrMode::AbsoluteX, 4, Penalty::PageCross),
        0xBD => official(Mnemonic::Lda, AddrMode::AbsoluteX, 4, Penalty::PageCross),
        0xBE => official(Mnemonic::Ldx, AddrMode::AbsoluteY, 4, Penalty::PageCross),
        0xC0 => official(Mnemonic::Cpy, AddrMode::Immediate, 2, Penalty::Never),
        0xC1 => official(Mnemonic::Cmp, AddrMode::IndexedIndirect, 6, Penalty::Never),
        0xC4 => official(Mnemonic::Cpy, AddrMode::ZeroPage, 3, Penalty::Never),
        0xC5 => official(Mnemonic::Cmp, AddrMode::ZeroPage, 3, Penalty::Never),
        0xC6 => official(Mnemonic::Dec, AddrMode::ZeroPage, 5, Penalty::Never),
        0xC8 => official(Mnemonic::Iny, AddrMode::Implied, 2, Penalty::Never),
        0xC9 => official(Mnemonic::Cmp, AddrMode::Immediate, 2, Penalty::Never),
        0xCA => official(Mnemonic::Dex, AddrMode::Implied, 2, Penalty::Never),
        0xCC => official(Mnemonic::Cpy, AddrMode::Absolute, 4, Penalty::Never),
        0xCD => official(Mnemonic::Cmp, AddrMode::Absolute, 4, Penalty::Never),
        0xCE => official(Mnemonic::Dec, AddrMode::Absolute, 6, Penalty::Never),
        0xD0 => official(Mnemonic::Bne, AddrMode::Relative, 2, Penalty::BranchTaken),
        0xD1 => official(Mnemonic::Cmp, AddrMode::IndirectIndexed, 5, Penalty::PageCross),
        0xD5 => official(Mnemonic::Cmp, AddrMode::ZeroPageX, 4, Penalty::Never),
        0xD6 => official(Mnemonic::Dec, AddrMode::ZeroPageX, 6, Penalty::Never),
        0xD8 => official(Mnemonic::Cld, AddrMode::Implied, 2, Penalty::Never),
        0xD9 => official(Mnemonic::Cmp, AddrMode::AbsoluteY, 4, Penalty::PageCross),
        0xDD => official(Mnemonic::Cmp, AddrMode::AbsoluteX, 4, Penalty::PageCross),
        0xDE => official(Mnemonic::Dec, AddrMode::AbsoluteX, 7, Penalty::Never),
        0xE0 => official(Mnemonic::Cpx, AddrMode::Immediate, 2, Penalty::Never),
        0xE1 => official(Mnemonic::Sbc, AddrMode::IndexedIndirect, 6, Penalty::Never),
        0xE4 => official(Mnemonic::Cpx, AddrMode::ZeroPage, 3, Penalty::Never),
        0xE5 => official(Mnemonic::Sbc, AddrMode::ZeroPage, 3, Penalty::Never),
        0xE6 => official(Mnemonic::Inc, AddrMode::ZeroPage, 5, Penalty::Never),
        0xE8 => official(Mnemonic::Inx, AddrMode::Implied, 2, Penalty::Never),
        0xE9 => official(Mnemonic::Sbc, AddrMode::Immediate, 2, Penalty::Never),
        0xEA => official(Mnemonic::Nop, AddrMode::Implied, 2, Penalty::Never),
        0xEC => official(Mnemonic::Cpx, AddrMode::Absolute, 4, Penalty::Never),
        0xED => official(Mnemonic::Sbc, AddrMode::Absolute, 4, Penalty::Never),
        0xEE => official(Mnemonic::Inc, AddrMode::Absolute, 6, Penalty::Never),
        0xF0 => official(Mnemonic::Beq, AddrMode::Relative, 2, Penalty::BranchTaken),
        0xF1 => official(Mnemonic::Sbc, AddrMode::IndirectIndexed, 5, Penalty::PageCross),
        0xF5 => official(Mnemonic::Sbc, AddrMode::ZeroPageX, 4, Penalty::Never),
        0xF6 => official(Mnemonic::Inc, AddrMode::ZeroPageX, 6, Penalty::Never),
        0xF8 => official(Mnemonic::Sed, AddrMode::Implied, 2, Penalty::Never),
        0xF9 => official(Mnemonic::Sbc, AddrMode::AbsoluteY, 4, Penalty::PageCross),
        0xFD => official(Mnemonic::Sbc, AddrMode::AbsoluteX, 4, Penalty::PageCross),
        0xFE => official(Mnemonic::Inc, AddrMode::AbsoluteX, 7, Penalty::Never),
        _ => undefined(),
    }
}

impl Mnemonic {
    /// What the instruction does with its operand.
    pub open spec fn spec_access(self) -> Access {
        match self {
            Mnemonic::Adc
            | Mnemonic::And
            | Mnemonic::Bit
            | Mnemonic::Cmp
            | Mnemonic::Cpx
            | Mnemonic::Cpy
            | Mnemonic::Eor
            | Mnemonic::Lda
            | Mnemonic::Ldx
            | Mnemonic::Ldy
            | Mnemonic::Ora
            | Mnemonic::Sbc => Access::Read,
            Mnemonic::Sta | Mnemonic::Stx | Mnemonic::Sty => Access::Write,
            Mnemonic::Asl
            | Mnemonic::Dec
            | Mnemonic::Inc
            | Mnemonic::Lsr
            | Mnemonic::Rol
            | Mnemonic::Ror => Access::Modify,
            Mnemonic::Bcc
            | Mnemonic::Bcs
            | Mnemonic::Beq
            | Mnemonic::Bmi
            | Mnemonic::Bne
            | Mnemonic::Bpl
            | Mnemonic::Bvc
            | Mnemonic::Bvs => Access::Branch,
            Mnemonic::Jmp | Mnemonic::Jsr => Access::Jump,
            Mnemonic::Brk
            | Mnemonic::Pha
            | Mnemonic::Php
            | Mnemonic::Pla
            | Mnemonic::Plp
            | Mnemonic::Rti
            | Mnemonic::Rts => Access::Stack,
            Mnemonic::Dex
            | Mnemonic::Dey
            | Mnemonic::Inx
            | Mnemonic::Iny
            | Mnemonic::Tax
            | Mnemonic::Tay
            | Mnemonic::Tsx
            | Mnemonic::Txa
            | Mnemonic::Txs
            | Mnemonic::Tya => Access::Register,
            Mnemonic::Clc
            | Mnemonic::Cld
            | Mnemonic::Cli
            | Mnemonic::Clv
            | Mnemonic::Nop
            | Mnemonic::Sec
            | Mnemonic::Sed
            | Mnemonic::Sei => Access::Status,
        }
    }

    /// What the instruction does with its operand.
    #[verifier::when_used_as_spec(spec_access)]
    pub fn access(self) -> (access: Access)
        ensures
            access == self.spec_access(),
    {
        match self {
            Mnemonic::Adc
            | Mnemonic::And
            | Mnemonic::Bit
            | Mnemonic::Cmp
            | Mnemonic::Cpx
            | Mnemonic::Cpy
            | Mnemonic::Eor
            | Mnemonic::Lda
            | Mnemonic::Ldx
            | Mnemonic::Ldy
            | Mnemonic::Ora
            | Mnemonic::Sbc => Access::Read,
            Mnemonic::Sta | Mnemonic::Stx | Mnemonic::Sty => Access::Write,
            Mnemonic::Asl
            | Mnemonic::Dec
            | Mnemonic::Inc
            | Mnemonic::Lsr
            | Mnemonic::Rol
            | Mnemonic::Ror => Access::Modify,
            Mnemonic::Bcc
            | Mnemonic::Bcs
            | Mnemonic::Beq
            | Mnemonic::Bmi
            | Mnemonic::Bne
            | Mnemonic::Bpl
            | Mnemonic::Bvc
            | Mnemonic::Bvs => Access::Branch,
            Mnemonic::Jmp | Mnemonic::Jsr => Access::Jump,
            Mnemonic::Brk
            | Mnemonic::Pha
            | Mnemonic::Php
            | Mnemonic::Pla
            | Mnemonic::Plp
            | Mnemonic::Rti
            | Mnemonic::Rts => Access::Stack,
            Mnemonic::Dex
            | Mnemonic::Dey
            | Mnemonic::Inx
            | Mnemonic::Iny
            | Mnemonic::Tax
            | Mnemonic::Tay
            | Mnemonic::Tsx
            | Mnemonic::Txa
            | Mnemonic::Txs
            | Mnemonic::Tya => Access::Register,
            Mnemonic::Clc
            | Mnemonic::Cld
            | Mnemonic::Cli
            | Mnemonic::Clv
            | Mnemonic::Nop
            | Mnemonic::Sec
            | Mnemonic::Sed
            | Mnemonic::Sei => Access::Status,
        }
    }
}

impl OpInfo {
    /// The mode suits the instruction, and the timing is that of the
    /// instruction's kind of access in that mode.
    pub open spec fn well_formed(self) -> bool {
        &&& 2 <= self.cycles <= 7
        &&& match self.mnemonic.access() {
            Access::Read => self.mode.has_data() && self.penalty == if self.mode.can_cross() {
                Penalty::PageCross
            } else {
                Penalty::Never
            },
            Access::Write => self.mode.has_data() && self.penalty == Penalty::Never,
            Access::Modify => (self.mode.has_data() || self.mode == AddrMode::Accumulator)
                && self.penalty == Penalty::Never,
            Access::Branch => self.mode == AddrMode::Relative && self.penalty
                == Penalty::BranchTaken,
            Access::Jump => self.mode.has_address() && self.mode != AddrMode::Relative
                && self.penalty == Penalty::Never,
            Access::Stack | Access::Register | Access::Status => self.mode == AddrMode::Implied
                && self.penalty == Penalty::Never,
        }
    }

    /// The most cycles that the instruction can take.
    pub open spec fn most_cycles(self) -> int {
        self.cycles + match self.penalty {
            Penalty::Never => 0int,
            Penalty::PageCross => 1int,
            Penalty::BranchTaken => 2int,
        }
    }

    /// The entry of a documented opcode, timed by what the instruction does
    /// with its operand: an instruction takes one cycle for each byte it
    /// fetches, reads or writes, and some internal cycles on top.
    pub fn timed(mnemonic: Mnemonic, mode: AddrMode) -> (info: OpInfo)
        ensures
            info.mnemonic == mnemonic,
            info.mode == mode,
            !info.illegal,
            info.cycles == 2 + match mnemonic.access() {
                Access::Read => operand_cycles(mode),
                Access::Write => operand_cycles(mode) + if mode.can_cross() {
                    1int
                } else {
                    0int
                },
                Access::Modify => if mode == AddrMode::Accumulator {
                    0int
                } else {
                    operand_cycles(mode) + 2 + if mode.can_cross() {
                        1int
                    } else {
                        0int
                    }
                },
                Access::Branch => 0,
                Access::Jump => if mnemonic == Mnemonic::Jsr {
                    4
                } else if mode == AddrMode::Indirect {
                    3
                } else {
                    1
                },
                Access::Stack => stack_cycles(mnemonic),
                Access::Register | Access::Status => 0,
            },
            info.penalty == match mnemonic.access() {
                Access::Read => if mode.can_cross() {
                    Penalty::PageCross
                } else {
                    Penalty::Never
                },
                Access::Branch => Penalty::BranchTaken,
                _ => Penalty::Never,
            },
    {
        let access = mnemonic.access();
        let fetch: u8 = match mode {
            AddrMode::ZeroPage => 1,
            AddrMode::ZeroPageX | AddrMode::ZeroPageY | AddrMode::Absolute => 2,
            AddrMode::AbsoluteX | AddrMode::AbsoluteY => 2,
            AddrMode::IndirectIndexed => 3,
            AddrMode::IndexedIndirect => 4,
            _ => 0,
        };
        let indexed = matches!(
            mode,
            AddrMode::AbsoluteX | AddrMode::AbsoluteY | AddrMode::IndirectIndexed
        );
        let fixup: u8 = if indexed {
            1
        } else {
            0
        };
        let cycles: u8 = match access {
            Access::Read => 2 + fetch,
            Access::Write => 2 + fetch + fixup,
            Access::Modify => match mode {
                AddrMode::Accumulator => 2,
                _ => 4 + fetch + fixup,
            },
            Access::Branch => 2,
            Access::Jump => match (mnemonic, mode) {
                (Mnemonic::Jsr, _) => 6,
                (_, AddrMode::Indirect) => 5,
                _ => 3,
            },
            Access::Stack => match mnemonic {
                Mnemonic::Brk => 7,
                Mnemonic::Rti | Mnemonic::Rts => 6,
                Mnemonic::Pla | Mnemonic::Plp => 4,
                _ => 3,
            },
            Access::Register | Access::Status => 2,
        };
        let penalty = match access {
            Access::Read => if indexed {
                Penalty::PageCross
            } else {
                Penalty::Never
            },
            Access::Branch => Penalty::BranchTaken,
            _ => Penalty::Never,
        };
        OpInfo { mnemonic, mode, cycles, penalty, illegal: false }
    }
}

/// The cycles that a reading instruction spends on its operand beyond the
/// two that every instruction takes.
pub open spec fn operand_cycles(mode: AddrMode) -> int {
    match mode {
        AddrMode::ZeroPage => 1,
        AddrMode::ZeroPageX | AddrMode::ZeroPageY | AddrMode::Absolute => 2,
        AddrMode::AbsoluteX | AddrMode::AbsoluteY => 2,
        AddrMode::IndirectIndexed => 3,
        AddrMode::IndexedIndirect => 4,
        _ => 0,
    }
}

/// The cycles that an instruction on the stack takes beyond the first two.
pub open spec fn stack_cycles(mnemonic: Mnemonic) -> int {
    match mnemonic {
        Mnemonic::Brk => 5,
        Mnemonic::Rti | Mnemonic::Rts => 4,
        Mnemonic::Pla | Mnemonic::Plp => 2,
        _ => 1,
    }
}

/// The entry of the undocumented opcodes.
fn undefined_entry() -> (info: OpInfo)
    ensures
        info == undefined(),
{
    OpInfo {
        mnemonic: Mnemonic::Nop,
        mode: AddrMode::Implied,
        cycles: 2,
        penalty: Penalty::Never,
        illegal: true,
    }
}

/// The opcodes whose two low bits are 00: flow of control, flags, stack,
/// and the instructions on Y.
fn decode_control(opcode: u8) -> (info: OpInfo)
    requires
        opcode % 4 == 0,
    ensures
        info == entry(opcode),
{
    proof {
        reveal(entry);
    }
    match opcode {
        0x00 => OpInfo::timed(Mnemonic::Brk, AddrMode::Implied),
        0x08 => OpInfo::timed(Mnemonic::Php, AddrMode::Implied),
        0x10 => OpInfo::timed(Mnemonic::Bpl, AddrMode::Relative),
        0x18 => OpInfo::timed(Mnemonic::Clc, AddrMode::Implied),
        0x20 => OpInfo::timed(Mnemonic::Jsr, AddrMode::Absolute),
        0x24 => OpInfo::timed(Mnemonic::Bit, AddrMode::ZeroPage),
        0x28 => OpInfo::timed(Mnemonic::Plp, AddrMode::Implied),
        0x2C => OpInfo::timed(Mnemonic::Bit, AddrMode::Absolute),
        0x30 => OpInfo::timed(Mnemonic::Bmi, AddrMode::Relative),
        0x38 => OpInfo::timed(Mnemonic::Sec, AddrMode::Implied),
        0x40 => OpInfo::timed(Mnemonic::Rti, AddrMode::Implied),
        0x48 => OpInfo::timed(Mnemonic::Pha, AddrMode::Implied),
        0x4C => OpInfo::timed(Mnemonic::Jmp, AddrMode::Absolute),
        0x50 => OpInfo::timed(Mnemonic::Bvc, AddrMode::Relative),
        0x58 => OpInfo::timed(Mnemonic::Cli, AddrMode::Implied),
        0x60 => OpInfo::timed(Mnemonic::Rts, AddrMode::Implied),
        0x68 => OpInfo::timed(Mnemonic::Pla, AddrMode::Implied),
        0x6C => OpInfo::timed(Mnemonic::Jmp, AddrMode::Indirect),
        0x70 => OpInfo::timed(Mnemonic::Bvs, AddrMode::Relative),
        0x78 => OpInfo::timed(Mnemonic::Sei, AddrMode::Implied),
        0x84 => OpInfo::timed(Mnemonic::Sty, AddrMode::ZeroPage),
        0x88 => OpInfo::timed(Mnemonic::Dey, AddrMode::Implied),
        0x8C => OpInfo::timed(Mnemonic::Sty, AddrMode::Absolute),
        0x90 => OpInfo::timed(Mnemonic::Bcc, AddrMode::Relative),
        0x94 => OpInfo::timed(Mnemonic::Sty, AddrMode::ZeroPageX),
        0x98 => OpInfo::timed(Mnemonic::Tya, AddrMode::Implied),
        0xA0 => OpInfo::timed(Mnemonic::Ldy, AddrMode::Immediate),
        0xA4 => OpInfo::timed(Mnemonic::Ldy, AddrMode::ZeroPage),
        0xA8 => OpInfo::timed(Mnemonic::Tay, AddrMode::Implied),
        0xAC => OpInfo::timed(Mnemonic::Ldy, AddrMode::Absolute),
        0xB0 => OpInfo::timed(Mnemonic::Bcs, AddrMode::Relative),
        0xB4 => OpInfo::timed(Mnemonic::Ldy, AddrMode::ZeroPageX),
        0xB8 => OpInfo::timed(Mnemonic::Clv, AddrMode::Implied),
        0xBC => OpInfo::timed(Mnemonic::Ldy, AddrMode::AbsoluteX),
        0xC0 => OpInfo::timed(Mnemonic::Cpy, AddrMode::Immediate),
        0xC4 => OpInfo::timed(Mnemonic::Cpy, AddrMode::ZeroPage),
        0xC8 => OpInfo::timed(Mnemonic::Iny, AddrMode::Implied),
        0xCC => OpInfo::timed(Mnemonic::Cpy, AddrMode::Absolute),
        0xD0 => OpInfo::timed(Mnemonic::Bne, AddrMode::Relative),
        0xD8 => OpInfo::timed(Mnemonic::Cld, AddrMode::Implied),
        0xE0 => OpInfo::timed(Mnemonic::Cpx, AddrMode::Immediate),
        0xE4 => OpInfo::timed(Mnemonic::Cpx, AddrMode::ZeroPage),
        0xE8 => OpInfo::timed(Mnemonic::Inx, AddrMode::Implied),
        0xEC => OpInfo::timed(Mnemonic::Cpx, AddrMode::Absolute),
        0xF0 => OpInfo::timed(Mnemonic::Beq, AddrMode::Relative),
        0xF8 => OpInfo::timed(Mnemonic::Sed, AddrMode::Implied),
        _ => undefined_entry(),
    }
}

/// The opcodes whose two low bits are 01: arithmetic and logic on the
/// accumulator. The three high bits select the instruction and the three
/// bits in the middle the addressing mode.
fn decode_accumulator(opcode: u8) -> (info: OpInfo)
    requires
        opcode % 4 == 1,
    ensures
        info == entry(opcode),
{
    proof {
        reveal(entry);
    }
    let mnemonic = match opcode / 32 {
        0 => Mnemonic::Ora,
        1 => Mnemonic::And,
        2 => Mnemonic::Eor,
        3 => Mnemonic::Adc,
        4 => Mnemonic::Sta,
        5 => Mnemonic::Lda,
        6 => Mnemonic::Cmp,
        _ => Mnemonic::Sbc,
    };
    let mode = match (opcode / 4) % 8 {
        0 => AddrMode::IndexedIndirect,
        1 => AddrMode::ZeroPage,
        2 => AddrMode::Immediate,
        3 => AddrMode::Absolute,
        4 => AddrMode::IndirectIndexed,
        5 => AddrMode::ZeroPageX,
        6 => AddrMode::AbsoluteY,
        _ => AddrMode::AbsoluteX,
    };
    if opcode == 0x89 {
        // There is no store to an immediate operand.
        undefined_entry()
    } else {
        OpInfo::timed(mnemonic, mode)
    }
}

/// The opcodes whose two low bits are 10: shifts, increments, and the
/// instructions on X.
fn decode_modify(opcode: u8) -> (info: OpInfo)
    requires
        opcode % 4 == 2,
    ensures
        info == entry(opcode),
{
    proof {
        reveal(entry);
    }
    match opcode {
        0x06 => OpInfo::timed(Mnemonic::Asl, AddrMode::ZeroPage),
        0x0A => OpInfo::timed(Mnemonic::Asl, AddrMode::Accumulator),
        0x0E => OpInfo::timed(Mnemonic::Asl, AddrMode::Absolute),
        0x16 => OpInfo::timed(Mnemonic::Asl, AddrMode::ZeroPageX),
        0x1E => OpInfo::timed(Mnemonic::Asl, AddrMode::AbsoluteX),
        0x26 => OpInfo::timed(Mnemonic::Rol, AddrMode::ZeroPage),
        0x2A => OpInfo::timed(Mnemonic::Rol, AddrMode::Accumulator),
        0x2E => OpInfo::timed(Mnemonic::Rol, AddrMode::Absolute),
        0x36 => OpInfo::timed(Mnemonic::Rol, AddrMode::ZeroPageX),
        0x3E => OpInfo::timed(Mnemonic::Rol, AddrMode::AbsoluteX),
        0x46 => OpInfo::timed(Mnemonic::Lsr, AddrMode::ZeroPage),
        0x4A => OpInfo::timed(Mnemonic::Lsr, AddrMode::Accumulator),
        0x4E => OpInfo::timed(Mnemonic::Lsr, AddrMode::Absolute),
        0x56 => OpInfo::timed(Mnemonic::Lsr, AddrMode::ZeroPageX),
        0x5E => OpInfo::timed(Mnemonic::Lsr, AddrMode::AbsoluteX),
        0x66 => OpInfo::timed(Mnemonic::Ror, AddrMode::ZeroPage),
        0x6A => OpInfo::timed(Mnemonic::Ror, AddrMode::Accumulator),
        0x6E => OpInfo::timed(Mnemonic::Ror, AddrMode::Absolute),
        0x76 => OpInfo::timed(Mnemonic::Ror, AddrMode::ZeroPageX),
        0x7E => OpInfo::timed(Mnemonic::Ror, AddrMode::AbsoluteX),
        0x86 => OpInfo::timed(Mnemonic::Stx, AddrMode::ZeroPage),
        0x8A => OpInfo::timed(Mnemonic::Txa, AddrMode::Implied),
        0x8E => OpInfo::timed(Mnemonic::Stx, AddrMode::Absolute),
        0x96 => OpInfo::timed(Mnemonic::Stx, AddrMode::ZeroPageY),
        0x9A => OpInfo::timed(Mnemonic::Txs, AddrMode::Implied),
        0xA2 => OpInfo::timed(Mnemonic::Ldx, AddrMode::Immediate),
        0xA6 => OpInfo::timed(Mnemonic::Ldx, AddrMode::ZeroPage),
        0xAA => OpInfo::timed(Mnemonic::Tax, AddrMode::Implied),
        0xAE => OpInfo::timed(Mnemonic::Ldx, AddrMode::Absolute),
        0xB6 => OpInfo::timed(Mnemonic::Ldx, AddrMode::ZeroPageY),
        0xBA => OpInfo::timed(Mnemonic::Tsx, AddrMode::Implied),
        0xBE => OpInfo::timed(Mnemonic::Ldx, AddrMode::AbsoluteY),
        0xC6 => OpInfo::timed(Mnemonic::Dec, AddrMode::ZeroPage),
        0xCA => OpInfo::timed(Mnemonic::Dex, AddrMode::Implied),
        0xCE => OpInfo::timed(Mnemonic::Dec, AddrMode::Absolute),
        0xD6 => OpInfo::timed(Mnemonic::Dec, AddrMode::ZeroPageX),
        0xDE => OpInfo::timed(Mnemonic::Dec, AddrMode::AbsoluteX),
        0xE6 => OpInfo::timed(Mnemonic::Inc, AddrMode::ZeroPage),
        0xEA => OpInfo::timed(Mnemonic::Nop, AddrMode::Implied),
        0xEE => OpInfo::timed(Mnemonic::Inc, AddrMode::Absolute),
        0xF6 => OpInfo::timed(Mnemonic::Inc, AddrMode::ZeroPageX),
        0xFE => OpInfo::timed(Mnemonic::Inc, AddrMode::AbsoluteX),
        _ => undefined_entry(),
    }
}

/// Looks an opcode up in the table.
pub fn decode(opcode: u8) -> (info: OpInfo)
    ensures
        info == entry(opcode),
{
    proof {
        reveal(entry);
    }
    match opcode % 4 {
        0 => decode_control(opcode),
        1 => decode_accumulator(opcode),
        2 => decode_modify(opcode),
        _ => undefined_entry(),
    }
}

/// Every entry of the table is well formed, and no instruction takes more
/// than seven cycles.
pub proof fn lemma_entry_well_formed(opcode: u8)
    ensures
        entry(opcode).well_formed(),
        entry(opcode).most_cycles() <= 7,
{
    reveal(entry);
    if opcode < 0x40 {
        assert(entry(opcode).well_formed() && entry(opcode).most_cycles() <= 7);
    } else if opcode < 0x80 {
        assert(entry(opcode).well_formed() && entry(opcode).most_cycles() <= 7);
    } else if opcode < 0xC0 {
        assert(entry(opcode).well_formed() && entry(opcode).most_cycles() <= 7);
    } else {
        assert(entry(opcode).well_formed() && entry(opcode).most_cycles() <= 7);
    }
}

} // verus!
