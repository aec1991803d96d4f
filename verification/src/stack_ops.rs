//! Stack instructions: PHA, PHP, PLA, PLP.

use vstd::prelude::*;
use crate::addressing::AddrMode;
use crate::cpu_6502::MOS6502;
use crate::cpu_bus::Bus;
use crate::machine::{machine, Machine};
use crate::status::{Flags, pulled, pushed, status_with};

verus! {

impl Machine {
    /// PHA: A is pushed.
    pub open spec fn pha(self, mode: AddrMode) -> Machine {
        self.past(mode).push(self.cpu.a)
    }

    /// PHP: P is pushed with B and U set.
    pub open spec fn php(self, mode: AddrMode) -> Machine {
        self.past(mode).push(pushed(self.cpu.p, true))
    }

    /// PLA: A is pulled, with Z and N from the pulled byte.
    pub open spec fn pla(self, mode: AddrMode) -> Machine {
        self.past(mode).popped().with_a(self.top())
    }

    /// PLP: P is pulled; B is dropped and U set.
    pub open spec fn plp(self, mode: AddrMode) -> Machine {
        self.past(mode).popped().with_p(pulled(self.top()))
    }
}

/// The copy of the status register that goes on the stack.
pub fn pushed_status(p: u8, software: bool) -> (byte: u8)
    ensures
        byte == pushed(p, software),
{
    status_with(status_with(p, Flags::Break, software), Flags::Unused, true)
}

/// The status register that a pulled byte leaves.
pub fn pulled_status(byte: u8) -> (p: u8)
    ensures
        p == pulled(byte),
{
    status_with(status_with(byte, Flags::Break, false), Flags::Unused, true)
}

impl MOS6502 {
    /// PHA - Push Accumulator.
    pub fn opcode_pha(&mut self, bus: &mut Bus, mode: AddrMode) -> (extra: u8)
        requires
            old(bus).wf(),
        ensures
            final(bus).wf(),
            machine(*final(self), *final(bus)) == machine(*old(self), *old(bus)).pha(mode),
            extra == 0,
    {
        self.resolve(bus, mode);
        self.stack_push(self.a, bus);
        0
    }

    /// PHP - Push Processor Status. The pushed copy has B and U set.
    pub fn opcode_php(&mut self, bus: &mut Bus, mode: AddrMode) -> (extra: u8)
        requires
            old(bus).wf(),
        ensures
            final(bus).wf(),
            machine(*final(self), *final(bus)) == machine(*old(self), *old(bus)).php(mode),
            extra == 0,
    {
        self.resolve(bus, mode);
        self.stack_push(pushed_status(self.p, true), bus);
        0
    }

    /// PLA - Pull Accumulator.
    pub fn opcode_pla(&mut self, bus: &mut Bus, mode: AddrMode) -> (extra: u8)
        requires
            old(bus).wf(),
        ensures
            final(bus).wf(),
            machine(*final(self), *final(bus)) == machine(*old(self), *old(bus)).pla(mode),
            extra == 0,
    {
        self.resolve(bus, mode);
        let byte = self.stack_pop(bus);
        self.a = byte;
        self.set_zn(byte);
        0
    }

    /// PLP - Pull Processor Status. B does not reach the register, and U
    /// reads as one.
    pub fn opcode_plp(&mut self, bus: &mut Bus, mode: AddrMode) -> (extra: u8)
        requires
            old(bus).wf(),
        ensures
            final(bus).wf(),
            machine(*final(self), *final(bus)) == machine(*old(self), *old(bus)).plp(mode),
            extra == 0,
    {
        self.resolve(bus, mode);
        let byte = self.stack_pop(bus);
        self.p = pulled_status(byte);
        0
    }
}

} // verus!
