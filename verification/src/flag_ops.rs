//! Flag operations: CLC, SEC, CLI, SEI, CLV, CLD, SED.

use vstd::prelude::*;
use crate::addressing::AddrMode;
use crate::cpu_6502::MOS6502;
use crate::cpu_bus::Bus;
use crate::machine::{machine, Machine};
use crate::status::Flags;

verus! {

impl Machine {
    /// CLC: carry cleared.
    pub open spec fn clc(self, mode: AddrMode) -> Machine {
        self.past(mode).with_flag(Flags::Carry, false)
    }

    /// SEC: carry set.
    pub open spec fn sec(self, mode: AddrMode) -> Machine {
        self.past(mode).with_flag(Flags::Carry, true)
    }

    /// CLI: interrupt disable cleared.
    pub open spec fn cli(self, mode: AddrMode) -> Machine {
        self.past(mode).with_flag(Flags::Interrupt, false)
    }

    /// SEI: interrupt disable set.
    pub open spec fn sei(self, mode: AddrMode) -> Machine {
        self.past(mode).with_flag(Flags::Interrupt, true)
    }

    /// CLV: overflow cleared.
    pub open spec fn clv(self, mode: AddrMode) -> Machine {
        self.past(mode).with_flag(Flags::Overflow, false)
    }

    /// CLD: decimal cleared.
    pub open spec fn cld(self, mode: AddrMode) -> Machine {
        self.past(mode).with_flag(Flags::Decimal, false)
    }

    /// SED: decimal set.
    pub open spec fn sed(self, mode: AddrMode) -> Machine {
        self.past(mode).with_flag(Flags::Decimal, true)
    }
}

impl MOS6502 {
    /// CLC - Clear Carry Flag.
    pub fn opcode_clc(&mut self, bus: &mut Bus, mode: AddrMode) -> (extra: u8)
        requires
            old(bus).wf(),
        ensures
            final(bus).wf(),
            machine(*final(self), *final(bus)) == machine(*old(self), *old(bus)).clc(mode),
            extra == 0,
    {
        self.resolve(bus, mode);
        self.set_flag(Flags::Carry, false);
        0
    }

    /// SEC - Set Carry Flag.
    pub fn opcode_sec(&mut self, bus: &mut Bus, mode: AddrMode) -> (extra: u8)
        requires
            old(bus).wf(),
        ensures
            final(bus).wf(),
            machine(*final(self), *final(bus)) == machine(*old(self), *old(bus)).sec(mode),
            extra == 0,
    {
        self.resolve(bus, mode);
        self.set_flag(Flags::Carry, true);
        0
    }

    /// CLI - Clear Interrupt Disable.
    pub fn opcode_cli(&mut self, bus: &mut Bus, mode: AddrMode) -> (extra: u8)
        requires
            old(bus).wf(),
        ensures
            final(bus).wf(),
            machine(*final(self), *final(bus)) == machine(*old(self), *old(bus)).cli(mode),
            extra == 0,
    {
        self.resolve(bus, mode);
        self.set_flag(Flags::Interrupt, false);
        0
    }

    /// SEI - Set Interrupt Disable.
    pub fn opcode_sei(&mut self, bus: &mut Bus, mode: AddrMode) -> (extra: u8)
        requires
            old(bus).wf(),
        ensures
            final(bus).wf(),
            machine(*final(self), *final(bus)) == machine(*old(self), *old(bus)).sei(mode),
            extra == 0,
    {
        self.resolve(bus, mode);
        self.set_flag(Flags::Interrupt, true);
        0
    }

    /// CLV - Clear Overflow Flag.
    pub fn opcode_clv(&mut self, bus: &mut Bus, mode: AddrMode) -> (extra: u8)
        requires
            old(bus).wf(),
        ensures
            final(bus).wf(),
            machine(*final(self), *final(bus)) == machine(*old(self), *old(bus)).clv(mode),
            extra == 0,
    {
        self.resolve(bus, mode);
        self.set_flag(Flags::Overflow, false);
        0
    }

    /// CLD - Clear Decimal Mode.
    pub fn opcode_cld(&mut self, bus: &mut Bus, mode: AddrMode) -> (extra: u8)
        requires
            old(bus).wf(),
        ensures
            final(bus).wf(),
            machine(*final(self), *final(bus)) == machine(*old(self), *old(bus)).cld(mode),
            extra == 0,
    {
        self.resolve(bus, mode);
        self.set_flag(Flags::Decimal, false);
        0
    }

    /// SED - Set Decimal Mode.
    pub fn opcode_sed(&mut self, bus: &mut Bus, mode: AddrMode) -> (extra: u8)
        requires
            old(bus).wf(),
        ensures
            final(bus).wf(),
            machine(*final(self), *final(bus)) == machine(*old(self), *old(bus)).sed(mode),
            extra == 0,
    {
        self.resolve(bus, mode);
        self.set_flag(Flags::Decimal, true);
        0
    }
}

} // verus!
