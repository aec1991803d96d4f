//! Conditional branches: BCC, BCS, BNE, BEQ, BPL, BMI, BVC, BVS.

use vstd::prelude::*;
use crate::addressing::AddrMode;
use crate::cpu_6502::{MOS6502, Operand};
use crate::cpu_bus::Bus;
use crate::machine::{machine, Machine};
use crate::opcodes::{Penalty, penalty_cycles};
use crate::status::{Flags, flag};

verus! {

impl Machine {
    /// The address that a jump in `mode` goes to.
    pub open spec fn target(self, mode: AddrMode) -> u16
        recommends
            mode.has_address(),
    {
        match self.resolve(mode).operand {
            Operand::Memory(addr) => addr,
            _ => self.past(mode).cpu.pc,
        }
    }

    /// A branch: the program counter goes to the target if the branch is
    /// taken, and to the next instruction if not.
    pub open spec fn branch(self, mode: AddrMode, taken: bool) -> Machine {
        if taken {
            self.with_pc(self.target(mode))
        } else {
            self.past(mode)
        }
    }

    /// What a branch costs beyond its two base cycles: one cycle if it is
    /// taken, and one more if its target lies on another page than the next
    /// instruction.
    pub open spec fn branch_cycles(self, mode: AddrMode, taken: bool) -> u8 {
        penalty_cycles(Penalty::BranchTaken, self.resolve(mode).cycle, taken)
    }

    /// BCC: branch if C is clear.
    pub open spec fn bcc(self, mode: AddrMode) -> Machine {
        self.branch(mode, !flag(self.cpu.p, Flags::Carry))
    }

    /// BCS: branch if C is set.
    pub open spec fn bcs(self, mode: AddrMode) -> Machine {
        self.branch(mode, flag(self.cpu.p, Flags::Carry))
    }

    /// BNE: branch if Z is clear.
    pub open spec fn bne(self, mode: AddrMode) -> Machine {
        self.branch(mode, !flag(self.cpu.p, Flags::Zero))
    }

    /// BEQ: branch if Z is set.
    pub open spec fn beq(self, mode: AddrMode) -> Machine {
        self.branch(mode, flag(self.cpu.p, Flags::Zero))
    }

    /// BPL: branch if N is clear.
    pub open spec fn bpl(self, mode: AddrMode) -> Machine {
        self.branch(mode, !flag(self.cpu.p, Flags::Negative))
    }

    /// BMI: branch if N is set.
    pub open spec fn bmi(self, mode: AddrMode) -> Machine {
        self.branch(mode, flag(self.cpu.p, Flags::Negative))
    }

    /// BVC: branch if V is clear.
    pub open spec fn bvc(self, mode: AddrMode) -> Machine {
        self.branch(mode, !flag(self.cpu.p, Flags::Overflow))
    }

    /// BVS: branch if V is set.
    pub open spec fn bvs(self, mode: AddrMode) -> Machine {
        self.branch(mode, flag(self.cpu.p, Flags::Overflow))
    }
}

impl MOS6502 {
    /// Decodes the target of a jump.
    pub fn jump_target(&mut self, bus: &Bus, mode: AddrMode) -> (res: (u16, bool))
        requires
            bus.wf(),
            mode.has_address(),
        ensures
            res.0 == machine(*old(self), *bus).target(mode),
            res.1 == machine(*old(self), *bus).resolve(mode).cycle,
            machine(*final(self), *bus) == machine(*old(self), *bus).past(mode),
    {
        let res = self.resolve(bus, mode);
        match res.operand {
            Operand::Memory(addr) => (addr, res.cycle),
            _ => unreached(),
        }
    }

    /// Branches if `taken`. Returns the cycles that the branch adds: none
    /// if it is not taken, one if it is, two if it also leaves the page of
    /// the next instruction.
    pub fn branch(&mut self, bus: &Bus, mode: AddrMode, taken: bool) -> (extra: u8)
        requires
            bus.wf(),
            mode.has_address(),
        ensures
            machine(*final(self), *bus) == machine(*old(self), *bus).branch(mode, taken),
            extra == machine(*old(self), *bus).branch_cycles(mode, taken),
    {
        let (target, crossed) = self.jump_target(bus, mode);
        if !taken {
            return 0;
        }
        self.pc = target;
        if crossed {
            2
        } else {
            1
        }
    }

    /// BCC - Branch if Carry Clear.
    pub fn opcode_bcc(&mut self, bus: &mut Bus, mode: AddrMode) -> (extra: u8)
        requires
            old(bus).wf(),
            mode.has_address(),
        ensures
            final(bus).wf(),
            machine(*final(self), *final(bus)) == machine(*old(self), *old(bus)).bcc(mode),
            extra == machine(*old(self), *old(bus)).branch_cycles(
                mode,
                !flag(old(self).p, Flags::Carry),
            ),
    {
        let taken = !self.get_flag(Flags::Carry);
        self.branch(bus, mode, taken)
    }

    /// BCS - Branch if Carry Set.
    pub fn opcode_bcs(&mut self, bus: &mut Bus, mode: AddrMode) -> (extra: u8)
        requires
            old(bus).wf(),
            mode.has_address(),
        ensures
            final(bus).wf(),
            machine(*final(self), *final(bus)) == machine(*old(self), *old(bus)).bcs(mode),
            extra == machine(*old(self), *old(bus)).branch_cycles(
                mode,
                flag(old(self).p, Flags::Carry),
            ),
    {
        let taken = self.get_flag(Flags::Carry);
        self.branch(bus, mode, taken)
    }

    /// BNE - Branch if Not Equal, that is if the zero flag is clear.
    pub fn opcode_bne(&mut self, bus: &mut Bus, mode: AddrMode) -> (extra: u8)
        requires
            old(bus).wf(),
            mode.has_address(),
        ensures
            final(bus).wf(),
            machine(*final(self), *final(bus)) == machine(*old(self), *old(bus)).bne(mode),
            extra == machine(*old(self), *old(bus)).branch_cycles(
                mode,
                !flag(old(self).p, Flags::Zero),
            ),
    {
        let taken = !self.get_flag(Flags::Zero);
        self.branch(bus, mode, taken)
    }

    /// BEQ - Branch if Equal, that is if the zero flag is set.
    pub fn opcode_beq(&mut self, bus: &mut Bus, mode: AddrMode) -> (extra: u8)
        requires
            old(bus).wf(),
            mode.has_address(),
        ensures
            final(bus).wf(),
            machine(*final(self), *final(bus)) == machine(*old(self), *old(bus)).beq(mode),
            extra == machine(*old(self), *old(bus)).branch_cycles(
                mode,
                flag(old(self).p, Flags::Zero),
            ),
    {
        let taken = self.get_flag(Flags::Zero);
        self.branch(bus, mode, taken)
    }

    /// BPL - Branch if Positive, that is if the negative flag is clear.
    pub fn opcode_bpl(&mut self, bus: &mut Bus, mode: AddrMode) -> (extra: u8)
        requires
            old(bus).wf(),
            mode.has_address(),
        ensures
            final(bus).wf(),
            machine(*final(self), *final(bus)) == machine(*old(self), *old(bus)).bpl(mode),
            extra == machine(*old(self), *old(bus)).branch_cycles(
                mode,
                !flag(old(self).p, Flags::Negative),
            ),
    {
        let taken = !self.get_flag(Flags::Negative);
        self.branch(bus, mode, taken)
    }

    /// BMI - Branch if Minus, that is if the negative flag is set.
    pub fn opcode_bmi(&mut self, bus: &mut Bus, mode: AddrMode) -> (extra: u8)
        requires
            old(bus).wf(),
            mode.has_address(),
        ensures
            final(bus).wf(),
            machine(*final(self), *final(bus)) == machine(*old(self), *old(bus)).bmi(mode),
            extra == machine(*old(self), *old(bus)).branch_cycles(
                mode,
                flag(old(self).p, Flags::Negative),
            ),
    {
        let taken = self.get_flag(Flags::Negative);
        self.branch(bus, mode, taken)
    }

    /// BVC - Branch if Overflow Clear.
    pub fn opcode_bvc(&mut self, bus: &mut Bus, mode: AddrMode) -> (extra: u8)
        requires
            old(bus).wf(),
            mode.has_address(),
        ensures
            final(bus).wf(),
            machine(*final(self), *final(bus)) == machine(*old(self), *old(bus)).bvc(mode),
            extra == machine(*old(self), *old(bus)).branch_cycles(
                mode,
                !flag(old(self).p, Flags::Overflow),
            ),
    {
        let taken = !self.get_flag(Flags::Overflow);
        self.branch(bus, mode, taken)
    }

    /// BVS - Branch if Overflow Set.
    pub fn opcode_bvs(&mut self, bus: &mut Bus, mode: AddrMode) -> (extra: u8)
        requires
            old(bus).wf(),
            mode.has_address(),
        ensures
            final(bus).wf(),
            machine(*final(self), *final(bus)) == machine(*old(self), *old(bus)).bvs(mode),
            extra == machine(*old(self), *old(bus)).branch_cycles(
                mode,
                flag(old(self).p, Flags::Overflow),
            ),
    {
        let taken = self.get_flag(Flags::Overflow);
        self.branch(bus, mode, taken)
    }
}

} // verus!
