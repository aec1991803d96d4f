//! Loads and stores: LDA, LDX, LDY, STA, STX, STY.

use vstd::prelude::*;
use crate::addressing::AddrMode;
use crate::cpu_6502::MOS6502;
use crate::cpu_bus::Bus;
use crate::machine::{machine, Machine};

verus! {

impl Machine {
    /// LDA: A := M, with Z and N from the loaded byte.
    pub open spec fn lda(self, mode: AddrMode) -> Machine {
        self.past(mode).with_a(self.value(self.resolve(mode).operand))
    }

    /// LDX: X := M, with Z and N from the loaded byte.
    pub open spec fn ldx(self, mode: AddrMode) -> Machine {
        self.past(mode).with_x(self.value(self.resolve(mode).operand))
    }

    /// LDY: Y := M, with Z and N from the loaded byte.
    pub open spec fn ldy(self, mode: AddrMode) -> Machine {
        self.past(mode).with_y(self.value(self.resolve(mode).operand))
    }

    /// STA: M := A. No flag changes.
    pub open spec fn sta(self, mode: AddrMode) -> Machine {
        self.past(mode).store(self.resolve(mode).operand, self.cpu.a)
    }

    /// STX: M := X. No flag changes.
    pub open spec fn stx(self, mode: AddrMode) -> Machine {
        self.past(mode).store(self.resolve(mode).operand, self.cpu.x)
    }

    /// STY: M := Y. No flag changes.
    pub open spec fn sty(self, mode: AddrMode) -> Machine {
        self.past(mode).store(self.resolve(mode).operand, self.cpu.y)
    }
}

impl MOS6502 {
    /// LDA - Load Accumulator. Returns the cycle that a page crossing costs.
    pub fn opcode_lda(&mut self, bus: &mut Bus, mode: AddrMode) -> (extra: u8)
        requires
            old(bus).wf(),
            mode != AddrMode::Implied,
        ensures
            final(bus).wf(),
            machine(*final(self), *final(bus)) == machine(*old(self), *old(bus)).lda(mode),
            extra == machine(*old(self), *old(bus)).page_cross_cycle(mode),
    {
        let res = self.resolve(bus, mode);
        let byte = self.load(bus, res.operand);
        self.a = byte;
        self.set_zn(byte);
        if res.cycle {
            1
        } else {
            0
        }
    }

    /// LDX - Load X Register. Returns the cycle that a page crossing costs.
    pub fn opcode_ldx(&mut self, bus: &mut Bus, mode: AddrMode) -> (extra: u8)
        requires
            old(bus).wf(),
            mode != AddrMode::Implied,
        ensures
            final(bus).wf(),
            machine(*final(self), *final(bus)) == machine(*old(self), *old(bus)).ldx(mode),
            extra == machine(*old(self), *old(bus)).page_cross_cycle(mode),
    {
        let res = self.resolve(bus, mode);
        let byte = self.load(bus, res.operand);
        self.x = byte;
        self.set_zn(byte);
        if res.cycle {
            1
        } else {
            0
        }
    }

    /// LDY - Load Y Register. Returns the cycle that a page crossing costs.
    pub fn opcode_ldy(&mut self, bus: &mut Bus, mode: AddrMode) -> (extra: u8)
        requires
            old(bus).wf(),
            mode != AddrMode::Implied,
        ensures
            final(bus).wf(),
            machine(*final(self), *final(bus)) == machine(*old(self), *old(bus)).ldy(mode),
            extra == machine(*old(self), *old(bus)).page_cross_cycle(mode),
    {
        let res = self.resolve(bus, mode);
        let byte = self.load(bus, res.operand);
        self.y = byte;
        self.set_zn(byte);
        if res.cycle {
            1
        } else {
            0
        }
    }

    /// STA - Store Accumulator. A store never takes an extra cycle.
    pub fn opcode_sta(&mut self, bus: &mut Bus, mode: AddrMode) -> (extra: u8)
        requires
            old(bus).wf(),
            mode != AddrMode::Implied,
        ensures
            final(bus).wf(),
            machine(*final(self), *final(bus)) == machine(*old(self), *old(bus)).sta(mode),
            extra == 0,
    {
        let res = self.resolve(bus, mode);
        self.store(bus, res.operand, self.a);
        0
    }

    /// STX - Store X Register. A store never takes an extra cycle.
    pub fn opcode_stx(&mut self, bus: &mut Bus, mode: AddrMode) -> (extra: u8)
        requires
            old(bus).wf(),
            mode != AddrMode::Implied,
        ensures
            final(bus).wf(),
            machine(*final(self), *final(bus)) == machine(*old(self), *old(bus)).stx(mode),
            extra == 0,
    {
        let res = self.resolve(bus, mode);
        self.store(bus, res.operand, self.x);
        0
    }

    /// STY - Store Y Register. A store never takes an extra cycle.
    pub fn opcode_sty(&mut self, bus: &mut Bus, mode: AddrMode) -> (extra: u8)
        requires
            old(bus).wf(),
            mode != AddrMode::Implied,
        ensures
            final(bus).wf(),
            machine(*final(self), *final(bus)) == machine(*old(self), *old(bus)).sty(mode),
            extra == 0,
    {
        let res = self.resolve(bus, mode);
        self.store(bus, res.operand, self.y);
        0
    }
}

} // verus!
