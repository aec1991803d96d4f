//! Binary arithmetic and comparison: ADC, SBC, CMP, CPX, CPY.

use vstd::prelude::*;
use crate::addressing::AddrMode;
use crate::cpu_6502::MOS6502;
use crate::cpu_bus::Bus;
use crate::machine::{machine, Machine};
use crate::status::{Flags, flag, with_flag, with_zn};

verus! {

/// The carry flag of `p` as a number.
pub open spec fn carry_in(p: u8) -> int {
    if flag(p, Flags::Carry) {
        1
    } else {
        0
    }
}

impl MOS6502 {
    /// A := A + `byte` + C in binary, whatever the D flag says. C is the
    /// carry out of bit 7, V the signed overflow, Z and N follow A.
    pub open spec fn sum_with(self, byte: u8) -> MOS6502 {
        let sum = self.a + byte + carry_in(self.p);
        let result = (sum % 256) as u8;
        let overflow = (self.a ^ result) & (byte ^ result) & 0x80 != 0;
        MOS6502 {
            a: result,
            p: with_zn(
                with_flag(with_flag(self.p, Flags::Carry, sum > 0xFF), Flags::Overflow, overflow),
                result,
            ),
            ..self
        }
    }

    /// The flags of `reg` - `byte`: C says `reg >= byte`, Z says
    /// `reg == byte`, N is bit 7 of the difference modulo 256.
    pub open spec fn compared(self, reg: u8, byte: u8) -> MOS6502 {
        MOS6502 {
            p: with_flag(
                with_flag(with_flag(self.p, Flags::Carry, reg >= byte), Flags::Zero, reg == byte),
                Flags::Negative,
                reg.wrapping_sub(byte) >= 0x80,
            ),
            ..self
        }
    }
}

impl Machine {
    /// The accumulator added to.
    pub open spec fn add(self, byte: u8) -> Machine {
        Machine { cpu: self.cpu.sum_with(byte), ..self }
    }

    /// The flags of a comparison.
    pub open spec fn compare(self, reg: u8, byte: u8) -> Machine {
        Machine { cpu: self.cpu.compared(reg, byte), ..self }
    }

    /// ADC: A := A + M + C.
    pub open spec fn adc(self, mode: AddrMode) -> Machine {
        self.past(mode).add(self.value(self.resolve(mode).operand))
    }

    /// SBC: A := A + (M ^ $FF) + C, which is A - M - (1 - C).
    pub open spec fn sbc(self, mode: AddrMode) -> Machine {
        self.past(mode).add(self.value(self.resolve(mode).operand) ^ 0xFF)
    }

    /// CMP: the flags of A - M.
    pub open spec fn cmp(self, mode: AddrMode) -> Machine {
        self.past(mode).compare(self.cpu.a, self.value(self.resolve(mode).operand))
    }

    /// CPX: the flags of X - M.
    pub open spec fn cpx(self, mode: AddrMode) -> Machine {
        self.past(mode).compare(self.cpu.x, self.value(self.resolve(mode).operand))
    }

    /// CPY: the flags of Y - M.
    pub open spec fn cpy(self, mode: AddrMode) -> Machine {
        self.past(mode).compare(self.cpu.y, self.value(self.resolve(mode).operand))
    }
}

impl MOS6502 {
    /// Adds `byte` and the carry to the accumulator.
    pub fn add_with_carry(&mut self, byte: u8)
        ensures
            *final(self) == old(self).sum_with(byte),
    {
        let carry: u16 = if self.get_flag(Flags::Carry) {
            1
        } else {
            0
        };
        let sum: u16 = self.a as u16 + byte as u16 + carry;
        let result: u8 = (sum % 256) as u8;
        self.set_flag(Flags::Carry, sum > 0xFF);
        self.set_flag(Flags::Overflow, (self.a ^ result) & (byte ^ result) & 0x80 != 0);
        self.a = result;
        self.set_zn(result);
    }

    /// Sets C, Z and N as the comparison of `reg` with `byte` has them.
    pub fn compare(&mut self, reg: u8, byte: u8)
        ensures
            *final(self) == old(self).compared(reg, byte),
    {
        self.set_flag(Flags::Carry, reg >= byte);
        self.set_zn(reg.wrapping_sub(byte));
    }

    /// ADC - Add with Carry. Returns the cycle that a page crossing costs.
    pub fn opcode_adc(&mut self, bus: &mut Bus, mode: AddrMode) -> (extra: u8)
        requires
            old(bus).wf(),
            mode != AddrMode::Implied,
        ensures
            final(bus).wf(),
            machine(*final(self), *final(bus)) == machine(*old(self), *old(bus)).adc(mode),
            extra == machine(*old(self), *old(bus)).page_cross_cycle(mode),
    {
        let res = self.resolve(bus, mode);
        let byte = self.load(bus, res.operand);
        self.add_with_carry(byte);
        if res.cycle {
            1
        } else {
            0
        }
    }

    /// SBC - Subtract with Carry: the addition of the operand's complement.
    /// Returns the cycle that a page crossing costs.
    pub fn opcode_sbc(&mut self, bus: &mut Bus, mode: AddrMode) -> (extra: u8)
        requires
            old(bus).wf(),
            mode != AddrMode::Implied,
        ensures
            final(bus).wf(),
            machine(*final(self), *final(bus)) == machine(*old(self), *old(bus)).sbc(mode),
            extra == machine(*old(self), *old(bus)).page_cross_cycle(mode),
    {
        let res = self.resolve(bus, mode);
        let byte = self.load(bus, res.operand);
        self.add_with_carry(byte ^ 0xFF);
        if res.cycle {
            1
        } else {
            0
        }
    }

    /// CMP - Compare Accumulator. Returns the cycle that a page crossing
    /// costs.
    pub fn opcode_cmp(&mut self, bus: &mut Bus, mode: AddrMode) -> (extra: u8)
        requires
            old(bus).wf(),
            mode != AddrMode::Implied,
        ensures
            final(bus).wf(),
            machine(*final(self), *final(bus)) == machine(*old(self), *old(bus)).cmp(mode),
            extra == machine(*old(self), *old(bus)).page_cross_cycle(mode),
    {
        let res = self.resolve(bus, mode);
        let byte = self.load(bus, res.operand);
        self.compare(self.a, byte);
        if res.cycle {
            1
        } else {
            0
        }
    }

    /// CPX - Compare X Register.
    pub fn opcode_cpx(&mut self, bus: &mut Bus, mode: AddrMode) -> (extra: u8)
        requires
            old(bus).wf(),
            mode != AddrMode::Implied,
        ensures
            final(bus).wf(),
            machine(*final(self), *final(bus)) == machine(*old(self), *old(bus)).cpx(mode),
            extra == machine(*old(self), *old(bus)).page_cross_cycle(mode),
    {
        let res = self.resolve(bus, mode);
        let byte = self.load(bus, res.operand);
        self.compare(self.x, byte);
        if res.cycle {
            1
        } else {
            0
        }
    }

    /// CPY - Compare Y Register.
    pub fn opcode_cpy(&mut self, bus: &mut Bus, mode: AddrMode) -> (extra: u8)
        requires
            old(bus).wf(),
            mode != AddrMode::Implied,
        ensures
            final(bus).wf(),
            machine(*final(self), *final(bus)) == machine(*old(self), *old(bus)).cpy(mode),
            extra == machine(*old(self), *old(bus)).page_cross_cycle(mode),
    {
        let res = self.resolve(bus, mode);
        let byte = self.load(bus, res.operand);
        self.compare(self.y, byte);
        if res.cycle {
            1
        } else {
            0
        }
    }
}

} // verus!
