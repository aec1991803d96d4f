//! Jumps, subroutines and the software interrupt: JMP, JSR, RTS, RTI, BRK,
//! and NOP.

use vstd::prelude::*;
use crate::addressing::AddrMode;
use crate::cpu_6502::{Interrupt, MOS6502};
use crate::cpu_bus::Bus;
use crate::interrupts::{IRQ_VECTOR, NMI_VECTOR};
use crate::machine::{machine, Machine};
use crate::stack_ops::pulled_status;
use crate::status::pulled;

verus! {

impl Machine {
    /// JMP: the program counter goes to the operand's address.
    pub open spec fn jmp(self, mode: AddrMode) -> Machine {
        self.with_pc(self.target(mode))
    }

    /// JSR: the address of the last byte of the instruction is pushed, and
    /// the program counter goes to the operand's address.
    pub open spec fn jsr(self, mode: AddrMode) -> Machine {
        self.past(mode).push_word(self.past(mode).cpu.pc.wrapping_sub(1)).with_pc(
            self.target(mode),
        )
    }

    /// RTS: the program counter is pulled and stepped by one.
    pub open spec fn rts(self, mode: AddrMode) -> Machine {
        let m = self.past(mode);
        m.popped().popped().with_pc(m.top_word().wrapping_add(1))
    }

    /// RTI: P is pulled as PLP pulls it, then the program counter, which
    /// is not stepped.
    pub open spec fn rti(self, mode: AddrMode) -> Machine {
        let m = self.past(mode);
        m.popped().popped().popped().with_p(pulled(m.top())).with_pc(m.popped().top_word())
    }

    /// BRK: the byte after the opcode is skipped and the handler at $FFFE
    /// is entered, with B set in the pushed P. An NMI that is pending at that
    /// moment takes the entry over: the handler at $FFFA is entered instead,
    /// and the NMI is pending no more.
    pub open spec fn brk(self, mode: AddrMode) -> Machine {
        let m = self.past(mode);
        let ret = m.cpu.pc.wrapping_add(1);
        if self.cpu.pending_interrupt == Some(Interrupt::Nmi) {
            let entered = m.enter(ret, true, NMI_VECTOR);
            Machine { cpu: entered.cpu.with_pending(None), ..entered }
        } else {
            m.enter(ret, true, IRQ_VECTOR)
        }
    }

    /// NOP: nothing but the program counter changes.
    pub open spec fn nop(self, mode: AddrMode) -> Machine {
        self.past(mode)
    }
}

impl MOS6502 {
    /// JMP - Jump.
    pub fn opcode_jmp(&mut self, bus: &mut Bus, mode: AddrMode) -> (extra: u8)
        requires
            old(bus).wf(),
            mode.has_address(),
        ensures
            final(bus).wf(),
            machine(*final(self), *final(bus)) == machine(*old(self), *old(bus)).jmp(mode),
            extra == 0,
    {
        let (target, _) = self.jump_target(bus, mode);
        self.pc = target;
        0
    }

    /// JSR - Jump to Subroutine. The pushed address is that of the
    /// instruction's last byte, one short of the return point.
    pub fn opcode_jsr(&mut self, bus: &mut Bus, mode: AddrMode) -> (extra: u8)
        requires
            old(bus).wf(),
            mode.has_address(),
        ensures
            final(bus).wf(),
            machine(*final(self), *final(bus)) == machine(*old(self), *old(bus)).jsr(mode),
            extra == 0,
    {
        let (target, _) = self.jump_target(bus, mode);
        self.stack_push16(self.pc.wrapping_sub(1), bus);
        self.pc = target;
        0
    }

    /// RTS - Return from Subroutine.
    pub fn opcode_rts(&mut self, bus: &mut Bus, mode: AddrMode) -> (extra: u8)
        requires
            old(bus).wf(),
        ensures
            final(bus).wf(),
            machine(*final(self), *final(bus)) == machine(*old(self), *old(bus)).rts(mode),
            extra == 0,
    {
        self.resolve(bus, mode);
        let ret = self.stack_pop16(bus);
        self.pc = ret.wrapping_add(1);
        0
    }

    /// RTI - Return from Interrupt.
    pub fn opcode_rti(&mut self, bus: &mut Bus, mode: AddrMode) -> (extra: u8)
        requires
            old(bus).wf(),
        ensures
            final(bus).wf(),
            machine(*final(self), *final(bus)) == machine(*old(self), *old(bus)).rti(mode),
            extra == 0,
    {
        self.resolve(bus, mode);
        let status = self.stack_pop(bus);
        self.p = pulled_status(status);
        self.pc = self.stack_pop16(bus);
        0
    }

    /// BRK - Force Interrupt. The instruction is two bytes long: the byte
    /// after the opcode is padding.
    pub fn opcode_brk(&mut self, bus: &mut Bus, mode: AddrMode) -> (extra: u8)
        requires
            old(bus).wf(),
        ensures
            final(bus).wf(),
            machine(*final(self), *final(bus)) == machine(*old(self), *old(bus)).brk(mode),
            extra == 0,
    {
        self.resolve(bus, mode);
        let ret = self.pc.wrapping_add(1);
        match self.pending_interrupt {
            Some(Interrupt::Nmi) => {
                self.enter_handler(bus, ret, true, NMI_VECTOR);
                self.pending_interrupt = None;
            },
            _ => {
                self.enter_handler(bus, ret, true, IRQ_VECTOR);
            },
        }
        0
    }

    /// NOP - No Operation.
    pub fn opcode_nop(&mut self, bus: &mut Bus, mode: AddrMode) -> (extra: u8)
        requires
            old(bus).wf(),
        ensures
            final(bus).wf(),
            machine(*final(self), *final(bus)) == machine(*old(self), *old(bus)).nop(mode),
            extra == 0,
    {
        self.resolve(bus, mode);
        0
    }
}

} // verus!
