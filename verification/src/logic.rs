//! Logic on the accumulator: AND, ORA, EOR, BIT.

use vstd::prelude::*;
use crate::addressing::AddrMode;
use crate::cpu_6502::MOS6502;
use crate::cpu_bus::Bus;
use crate::machine::{machine, Machine};
use crate::status::Flags;

verus! {

impl Machine {
    /// AND: A := A & M, with Z and N from A.
    pub open spec fn and(self, mode: AddrMode) -> Machine {
        self.past(mode).with_a(self.cpu.a & self.value(self.resolve(mode).operand))
    }

    /// ORA: A := A | M, with Z and N from A.
    pub open spec fn ora(self, mode: AddrMode) -> Machine {
        self.past(mode).with_a(self.cpu.a | self.value(self.resolve(mode).operand))
    }

    /// EOR: A := A ^ M, with Z and N from A.
    pub open spec fn eor(self, mode: AddrMode) -> Machine {
        self.past(mode).with_a(self.cpu.a ^ self.value(self.resolve(mode).operand))
    }

    /// BIT: Z says whether A & M is zero; V and N are bits 6 and 7 of M.
    /// Nothing but P changes.
    pub open spec fn bit(self, mode: AddrMode) -> Machine {
        let byte = self.value(self.resolve(mode).operand);
        self.past(mode).with_flag(Flags::Zero, self.cpu.a & byte == 0).with_flag(
            Flags::Overflow,
            byte & 0x40 != 0,
        ).with_flag(Flags::Negative, byte & 0x80 != 0)
    }
}

impl MOS6502 {
    /// AND - Logical AND. Returns the cycle that a page crossing costs.
    pub fn opcode_and(&mut self, bus: &mut Bus, mode: AddrMode) -> (extra: u8)
        requires
            old(bus).wf(),
            mode != AddrMode::Implied,
        ensures
            final(bus).wf(),
            machine(*final(self), *final(bus)) == machine(*old(self), *old(bus)).and(mode),
            extra == machine(*old(self), *old(bus)).page_cross_cycle(mode),
    {
        let res = self.resolve(bus, mode);
        let byte = self.load(bus, res.operand);
        self.a = self.a & byte;
        self.set_zn(self.a);
        if res.cycle {
            1
        } else {
            0
        }
    }

    /// ORA - Logical Inclusive OR. Returns the cycle that a page crossing
    /// costs.
    pub fn opcode_ora(&mut self, bus: &mut Bus, mode: AddrMode) -> (extra: u8)
        requires
            old(bus).wf(),
            mode != AddrMode::Implied,
        ensures
            final(bus).wf(),
            machine(*final(self), *final(bus)) == machine(*old(self), *old(bus)).ora(mode),
            extra == machine(*old(self), *old(bus)).page_cross_cycle(mode),
    {
        let res = self.resolve(bus, mode);
        let byte = self.load(bus, res.operand);
        self.a = self.a | byte;
        self.set_zn(self.a);
        if res.cycle {
            1
        } else {
            0
        }
    }

    /// EOR - Exclusive OR. Returns the cycle that a page crossing costs.
    pub fn opcode_eor(&mut self, bus: &mut Bus, mode: AddrMode) -> (extra: u8)
        requires
            old(bus).wf(),
            mode != AddrMode::Implied,
        ensures
            final(bus).wf(),
            machine(*final(self), *final(bus)) == machine(*old(self), *old(bus)).eor(mode),
            extra == machine(*old(self), *old(bus)).page_cross_cycle(mode),
    {
        let res = self.resolve(bus, mode);
        let byte = self.load(bus, res.operand);
        self.a = self.a ^ byte;
        self.set_zn(self.a);
        if res.cycle {
            1
        } else {
            0
        }
    }

    /// BIT - Bit Test. A is ANDed with the byte in memory to set or clear
    /// Z; the result is not kept. Bits 7 and 6 of the byte are copied into N
    /// and V.
    pub fn opcode_bit(&mut self, bus: &mut Bus, mode: AddrMode) -> (extra: u8)
        requires
            old(bus).wf(),
            mode != AddrMode::Implied,
        ensures
            final(bus).wf(),
            machine(*final(self), *final(bus)) == machine(*old(self), *old(bus)).bit(mode),
            extra == machine(*old(self), *old(bus)).page_cross_cycle(mode),
    {
        let res = self.resolve(bus, mode);
        let byte = self.load(bus, res.operand);
        self.set_flag(Flags::Zero, self.a & byte == 0);
        self.set_flag(Flags::Overflow, byte & 0x40 != 0);
        self.set_flag(Flags::Negative, byte & 0x80 != 0);
        if res.cycle {
            1
        } else {
            0
        }
    }
}

} // verus!
