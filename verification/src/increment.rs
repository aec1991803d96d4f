//! Increments and decrements, modulo 256: INC, DEC, INX, INY, DEX, DEY.

use vstd::prelude::*;
use crate::addressing::AddrMode;
use crate::cpu_6502::MOS6502;
use crate::cpu_bus::Bus;
use crate::machine::{machine, Machine};

verus! {

impl Machine {
    /// The operand replaced by `result`, with Z and N from `result`.
    pub open spec fn replace(self, mode: AddrMode, result: u8) -> Machine {
        self.past(mode).store(self.resolve(mode).operand, result).with_zn(result)
    }

    /// INC: M := M + 1.
    pub open spec fn inc(self, mode: AddrMode) -> Machine {
        self.replace(mode, self.value(self.resolve(mode).operand).wrapping_add(1))
    }

    /// DEC: M := M - 1.
    pub open spec fn dec(self, mode: AddrMode) -> Machine {
        self.replace(mode, self.value(self.resolve(mode).operand).wrapping_sub(1))
    }

    /// INX: X := X + 1.
    pub open spec fn inx(self, mode: AddrMode) -> Machine {
        self.past(mode).with_x(self.cpu.x.wrapping_add(1))
    }

    /// INY: Y := Y + 1.
    pub open spec fn iny(self, mode: AddrMode) -> Machine {
        self.past(mode).with_y(self.cpu.y.wrapping_add(1))
    }

    /// DEX: X := X - 1.
    pub open spec fn dex(self, mode: AddrMode) -> Machine {
        self.past(mode).with_x(self.cpu.x.wrapping_sub(1))
    }

    /// DEY: Y := Y - 1.
    pub open spec fn dey(self, mode: AddrMode) -> Machine {
        self.past(mode).with_y(self.cpu.y.wrapping_sub(1))
    }
}

impl MOS6502 {
    /// INC - Increment Memory.
    pub fn opcode_inc(&mut self, bus: &mut Bus, mode: AddrMode) -> (extra: u8)
        requires
            old(bus).wf(),
            mode != AddrMode::Implied,
        ensures
            final(bus).wf(),
            machine(*final(self), *final(bus)) == machine(*old(self), *old(bus)).inc(mode),
            extra == 0,
    {
        let res = self.resolve(bus, mode);
        let result = self.load(bus, res.operand).wrapping_add(1);
        self.store(bus, res.operand, result);
        self.set_zn(result);
        0
    }

    /// DEC - Decrement Memory.
    pub fn opcode_dec(&mut self, bus: &mut Bus, mode: AddrMode) -> (extra: u8)
        requires
            old(bus).wf(),
            mode != AddrMode::Implied,
        ensures
            final(bus).wf(),
            machine(*final(self), *final(bus)) == machine(*old(self), *old(bus)).dec(mode),
            extra == 0,
    {
        let res = self.resolve(bus, mode);
        let result = self.load(bus, res.operand).wrapping_sub(1);
        self.store(bus, res.operand, result);
        self.set_zn(result);
        0
    }

    /// INX - Increment X Register.
    pub fn opcode_inx(&mut self, bus: &mut Bus, mode: AddrMode) -> (extra: u8)
        requires
            old(bus).wf(),
        ensures
            final(bus).wf(),
            machine(*final(self), *final(bus)) == machine(*old(self), *old(bus)).inx(mode),
            extra == 0,
    {
        self.resolve(bus, mode);
        self.x = self.x.wrapping_add(1);
        self.set_zn(self.x);
        0
    }

    /// INY - Increment Y Register.
    pub fn opcode_iny(&mut self, bus: &mut Bus, mode: AddrMode) -> (extra: u8)
        requires
            old(bus).wf(),
        ensures
            final(bus).wf(),
            machine(*final(self), *final(bus)) == machine(*old(self), *old(bus)).iny(mode),
            extra == 0,
    {
        self.resolve(bus, mode);
        self.y = self.y.wrapping_add(1);
        self.set_zn(self.y);
        0
    }

    /// DEX - Decrement X Register.
    pub fn opcode_dex(&mut self, bus: &mut Bus, mode: AddrMode) -> (extra: u8)
        requires
            old(bus).wf(),
        ensures
            final(bus).wf(),
            machine(*final(self), *final(bus)) == machine(*old(self), *old(bus)).dex(mode),
            extra == 0,
    {
        self.resolve(bus, mode);
        self.x = self.x.wrapping_sub(1);
        self.set_zn(self.x);
        0
    }

    /// DEY - Decrement Y Register.
    pub fn opcode_dey(&mut self, bus: &mut Bus, mode: AddrMode) -> (extra: u8)
        requires
            old(bus).wf(),
        ensures
            final(bus).wf(),
            machine(*final(self), *final(bus)) == machine(*old(self), *old(bus)).dey(mode),
            extra == 0,
    {
        self.resolve(bus, mode);
        self.y = self.y.wrapping_sub(1);
        self.set_zn(self.y);
        0
    }
}

} // verus!
