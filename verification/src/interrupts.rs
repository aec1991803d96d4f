//! Reset, the two interrupt inputs, and the entry sequence that interrupts
//! share with BRK.

use vstd::prelude::*;
use crate::cpu_6502::{Interrupt, MOS6502};
use crate::cpu_bus::Bus;
use crate::machine::{machine, Machine};
use crate::stack_ops::pushed_status;
use crate::status::{Flags, flag, pushed, with_flag};

verus! {

/// Where the address of the NMI handler is kept.
pub const NMI_VECTOR: u16 = 0xFFFA;

/// Where the address of the reset handler is kept.
pub const RESET_VECTOR: u16 = 0xFFFC;

/// Where the address of the IRQ and BRK handler is kept.
pub const IRQ_VECTOR: u16 = 0xFFFE;

/// The stack pointer after a reset.
pub const RESET_SP: u8 = 0xFD;

/// The cycles that a reset or the entry into an interrupt handler takes.
pub const INTERRUPT_CYCLES: u8 = 7;

impl MOS6502 {
    /// The processor with `pending` waiting for service.
    pub open spec fn with_pending(self, pending: Option<Interrupt>) -> MOS6502 {
        MOS6502 { pending_interrupt: pending, ..self }
    }

    /// The processor after the NMI input was sampled at `asserted`. The
    /// input is edge-triggered: an NMI is latched when the input goes from
    /// released to asserted, unless a reset is pending.
    pub open spec fn nmi_sampled(self, asserted: bool) -> MOS6502 {
        MOS6502 {
            pending_interrupt: if asserted && !self.nmi_edge_latch && self.pending_interrupt
                != Some(Interrupt::Reset) {
                Some(Interrupt::Nmi)
            } else {
                self.pending_interrupt
            },
            nmi_edge_latch: asserted,
            ..self
        }
    }

    /// The processor after the IRQ input was sampled at `asserted`. The
    /// input is level-triggered: the request is pending while the input is
    /// asserted and nothing of higher priority waits.
    pub open spec fn irq_sampled(self, asserted: bool) -> MOS6502 {
        MOS6502 {
            pending_interrupt: match self.pending_interrupt {
                None | Some(Interrupt::Irq) => if asserted {
                    Some(Interrupt::Irq)
                } else {
                    None
                },
                higher => higher,
            },
            ..self
        }
    }

    /// The interrupt that is serviced before the next instruction is
    /// fetched, if any: a pending IRQ waits while the I flag is set.
    pub open spec fn due(self) -> Option<Interrupt> {
        match self.pending_interrupt {
            Some(Interrupt::Irq) => if flag(self.p, Flags::Interrupt) {
                None
            } else {
                Some(Interrupt::Irq)
            },
            other => other,
        }
    }
}

impl Machine {
    /// The entry into a handler: the return address `ret` and P are pushed,
    /// P with B set if software asked for it. Then I is set and the program
    /// counter is loaded from `vector`.
    pub open spec fn enter(self, ret: u16, software: bool, vector: u16) -> Machine {
        let stacked = self.push_word(ret).push(pushed(self.cpu.p, software)).with_flag(
            Flags::Interrupt,
            true,
        );
        stacked.with_pc(stacked.read_word(vector))
    }

    /// Reset: SP := $FD, I is set and no other flag changes, the program
    /// counter is loaded from $FFFC, and nothing is pending any more. A, X,
    /// Y and memory are kept.
    pub open spec fn reset(self) -> Machine {
        Machine {
            cpu: MOS6502 {
                sp: RESET_SP,
                p: with_flag(self.cpu.p, Flags::Interrupt, true),
                pc: self.read_word(RESET_VECTOR),
                pending_interrupt: None,
                ..self.cpu
            },
            ..self
        }
    }

    /// The service of an NMI: the handler at $FFFA is entered and the NMI
    /// is pending no more.
    pub open spec fn nmi(self) -> Machine {
        let entered = self.enter(self.cpu.pc, false, NMI_VECTOR);
        Machine { cpu: entered.cpu.with_pending(None), ..entered }
    }

    /// The service of an IRQ: the handler at $FFFE is entered. The request
    /// stays pending, masked by I, until the device releases the line.
    pub open spec fn irq(self) -> Machine {
        self.enter(self.cpu.pc, false, IRQ_VECTOR)
    }
}

impl MOS6502 {
    /// Pushes the return address and P, sets I and jumps through `vector`.
    pub fn enter_handler(&mut self, bus: &mut Bus, ret: u16, software: bool, vector: u16)
        requires
            old(bus).wf(),
        ensures
            final(bus).wf(),
            machine(*final(self), *final(bus)) == machine(*old(self), *old(bus)).enter(
                ret,
                software,
                vector,
            ),
    {
        self.stack_push16(ret, bus);
        self.stack_push(pushed_status(self.p, software), bus);
        self.set_flag(Flags::Interrupt, true);
        self.pc = bus.read_word(vector);
    }

    /// Performs a reset. Returns the seven cycles it takes.
    pub fn reset(&mut self, bus: &Bus) -> (cycles: u8)
        requires
            bus.wf(),
        ensures
            machine(*final(self), *bus) == machine(*old(self), *bus).reset(),
            cycles == INTERRUPT_CYCLES,
    {
        self.sp = RESET_SP;
        self.set_flag(Flags::Interrupt, true);
        self.pc = bus.read_word(RESET_VECTOR);
        self.pending_interrupt = None;
        INTERRUPT_CYCLES
    }

    /// Services a non-maskable interrupt. Returns the seven cycles it takes.
    pub fn nmi(&mut self, bus: &mut Bus) -> (cycles: u8)
        requires
            old(bus).wf(),
        ensures
            final(bus).wf(),
            machine(*final(self), *final(bus)) == machine(*old(self), *old(bus)).nmi(),
            cycles == INTERRUPT_CYCLES,
    {
        self.enter_handler(bus, self.pc, false, NMI_VECTOR);
        self.pending_interrupt = None;
        INTERRUPT_CYCLES
    }

    /// Services a maskable interrupt, whatever the I flag says: the caller
    /// has looked at it. Returns the seven cycles it takes.
    pub fn irq(&mut self, bus: &mut Bus) -> (cycles: u8)
        requires
            old(bus).wf(),
        ensures
            final(bus).wf(),
            machine(*final(self), *final(bus)) == machine(*old(self), *old(bus)).irq(),
            cycles == INTERRUPT_CYCLES,
    {
        self.enter_handler(bus, self.pc, false, IRQ_VECTOR);
        INTERRUPT_CYCLES
    }

    /// Tells the processor the level of its NMI input. An NMI is latched
    /// when the input goes from released to asserted.
    pub fn set_nmi_line(&mut self, asserted: bool)
        ensures
            *final(self) == old(self).nmi_sampled(asserted),
    {
        if asserted && !self.nmi_edge_latch {
            match self.pending_interrupt {
                Some(Interrupt::Reset) => {},
                _ => {
                    self.pending_interrupt = Some(Interrupt::Nmi);
                },
            }
        }
        self.nmi_edge_latch = asserted;
    }

    /// Tells the processor the level of its IRQ input. The request is
    /// pending for as long as the input is asserted.
    pub fn set_irq_line(&mut self, asserted: bool)
        ensures
            *final(self) == old(self).irq_sampled(asserted),
    {
        match self.pending_interrupt {
            None | Some(Interrupt::Irq) => {
                self.pending_interrupt = if asserted {
                    Some(Interrupt::Irq)
                } else {
                    None
                };
            },
            _ => {},
        }
    }

    /// Asks for a reset before the next instruction.
    pub fn request_reset(&mut self)
        ensures
            *final(self) == old(self).with_pending(Some(Interrupt::Reset)),
    {
        self.pending_interrupt = Some(Interrupt::Reset);
    }

    /// The interrupt to service before the next instruction is fetched.
    pub fn interrupt_due(&self) -> (due: Option<Interrupt>)
        ensures
            due == self.due(),
    {
        match self.pending_interrupt {
            Some(Interrupt::Irq) => if self.get_flag(Flags::Interrupt) {
                None
            } else {
                Some(Interrupt::Irq)
            },
            other => other,
        }
    }
}

} // verus!
