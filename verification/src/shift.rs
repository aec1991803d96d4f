//! Shifts and rotations of the accumulator or of memory: ASL, LSR, ROL, ROR.

use vstd::prelude::*;
use crate::addressing::AddrMode;
use crate::bytes::{rotate_left, rotate_right, shifted_left, shifted_right};
use crate::cpu_6502::MOS6502;
use crate::cpu_bus::Bus;
use crate::machine::{machine, Machine};
use crate::status::{Flags, flag};

verus! {

impl Machine {
    /// The operand replaced by `result`, with C set to the bit that fell
    /// out, and Z and N from `result`.
    pub open spec fn shift(self, mode: AddrMode, result: u8, carry_out: bool) -> Machine {
        self.past(mode).store(self.resolve(mode).operand, result).with_flag(
            Flags::Carry,
            carry_out,
        ).with_zn(result)
    }

    /// ASL: the operand doubled, modulo 256; bit 7 falls into C.
    pub open spec fn asl(self, mode: AddrMode) -> Machine {
        let byte = self.value(self.resolve(mode).operand);
        self.shift(mode, shifted_left(byte, false), byte >= 0x80)
    }

    /// LSR: the operand halved; bit 0 falls into C.
    pub open spec fn lsr(self, mode: AddrMode) -> Machine {
        let byte = self.value(self.resolve(mode).operand);
        self.shift(mode, shifted_right(byte, false), byte % 2 == 1)
    }

    /// ROL: the operand moved left, C coming in as bit 0; bit 7 falls into C.
    pub open spec fn rol(self, mode: AddrMode) -> Machine {
        let byte = self.value(self.resolve(mode).operand);
        self.shift(mode, shifted_left(byte, flag(self.cpu.p, Flags::Carry)), byte >= 0x80)
    }

    /// ROR: the operand moved right, C coming in as bit 7; bit 0 falls into C.
    pub open spec fn ror(self, mode: AddrMode) -> Machine {
        let byte = self.value(self.resolve(mode).operand);
        self.shift(mode, shifted_right(byte, flag(self.cpu.p, Flags::Carry)), byte % 2 == 1)
    }
}

impl MOS6502 {
    /// ASL - Arithmetic Shift Left. All bits of the accumulator or of the
    /// byte in memory move one place to the left. Bit 0 becomes 0 and bit 7
    /// goes to the carry flag.
    pub fn opcode_asl(&mut self, bus: &mut Bus, mode: AddrMode) -> (extra: u8)
        requires
            old(bus).wf(),
            mode != AddrMode::Implied,
        ensures
            final(bus).wf(),
            machine(*final(self), *final(bus)) == machine(*old(self), *old(bus)).asl(mode),
            extra == 0,
    {
        let res = self.resolve(bus, mode);
        let byte = self.load(bus, res.operand);
        let (result, carry) = rotate_left(byte, false);
        self.store(bus, res.operand, result);
        self.set_flag(Flags::Carry, carry);
        self.set_zn(result);
        0
    }

    /// LSR - Logical Shift Right. Bit 7 becomes 0 and bit 0 goes to the
    /// carry flag.
    pub fn opcode_lsr(&mut self, bus: &mut Bus, mode: AddrMode) -> (extra: u8)
        requires
            old(bus).wf(),
            mode != AddrMode::Implied,
        ensures
            final(bus).wf(),
            machine(*final(self), *final(bus)) == machine(*old(self), *old(bus)).lsr(mode),
            extra == 0,
    {
        let res = self.resolve(bus, mode);
        let byte = self.load(bus, res.operand);
        let (result, carry) = rotate_right(byte, false);
        self.store(bus, res.operand, result);
        self.set_flag(Flags::Carry, carry);
        self.set_zn(result);
        0
    }

    /// ROL - Rotate Left through the carry flag.
    pub fn opcode_rol(&mut self, bus: &mut Bus, mode: AddrMode) -> (extra: u8)
        requires
            old(bus).wf(),
            mode != AddrMode::Implied,
        ensures
            final(bus).wf(),
            machine(*final(self), *final(bus)) == machine(*old(self), *old(bus)).rol(mode),
            extra == 0,
    {
        let res = self.resolve(bus, mode);
        let byte = self.load(bus, res.operand);
        let (result, carry) = rotate_left(byte, self.get_flag(Flags::Carry));
        self.store(bus, res.operand, result);
        self.set_flag(Flags::Carry, carry);
        self.set_zn(result);
        0
    }

    /// ROR - Rotate Right through the carry flag.
    pub fn opcode_ror(&mut self, bus: &mut Bus, mode: AddrMode) -> (extra: u8)
        requires
            old(bus).wf(),
            mode != AddrMode::Implied,
        ensures
            final(bus).wf(),
            machine(*final(self), *final(bus)) == machine(*old(self), *old(bus)).ror(mode),
            extra == 0,
    {
        let res = self.resolve(bus, mode);
        let byte = self.load(bus, res.operand);
        let (result, carry) = rotate_right(byte, self.get_flag(Flags::Carry));
        self.store(bus, res.operand, result);
        self.set_flag(Flags::Carry, carry);
        self.set_zn(result);
        0
    }
}

} // verus!
