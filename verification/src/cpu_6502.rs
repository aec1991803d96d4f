//! The processor: its registers, the status flags and the stack.

use vstd::prelude::*;
use crate::bytes::{high_byte, low_byte, make_word};
use crate::cpu_bus::Bus;
use crate::machine::machine;
use crate::status::{Flags, flag, status_has, status_with, with_flag, with_zn};

verus! {

/// What waits to be serviced before the next instruction is fetched.
#[derive(Clone, Copy, PartialEq, Eq, Structural, Debug)]
pub enum Interrupt {
    /// Maskable request. The input is a level: it stays pending while the
    /// device holds the line, and the I flag masks it.
    Irq,
    /// Non-maskable request, latched when its input falls from high to low.
    Nmi,
    /// Reset.
    Reset,
}

/// What an instruction operates on.
#[derive(Clone, Copy, PartialEq, Eq, Structural, Debug)]
pub enum Operand {
    /// Nothing: the instruction says it all.
    Implied,
    /// The accumulator.
    Accumulator,
    /// The byte at an address.
    Memory(u16),
}

/// What an addressing mode yields: the operand, and whether finding it
/// crossed a page boundary in a way that can cost a cycle.
#[derive(Clone, Copy, PartialEq, Eq, Structural, Debug)]
pub struct AddrRes {
    pub operand: Operand,
    pub cycle: bool,
}

impl AddrRes {
    /// An operand in memory.
    pub fn new(addr: u16, cycle: bool) -> (res: Self)
        ensures
            res == (AddrRes { operand: Operand::Memory(addr), cycle }),
    {
        Self { operand: Operand::Memory(addr), cycle }
    }

    /// An operand that is no address: the accumulator or none.
    pub fn register(operand: Operand) -> (res: Self)
        ensures
            res == (AddrRes { operand, cycle: false }),
    {
        Self { operand, cycle: false }
    }
}

/// The MOS 6502 of the NES. Decimal mode is not wired: the D flag can be
/// set and cleared but changes no arithmetic.
#[derive(Clone, Copy, PartialEq, Eq, Debug)]
pub struct MOS6502 {
    /// Accumulator.
    pub a: u8,
    /// X index register.
    pub x: u8,
    /// Y index register.
    pub y: u8,
    /// Stack pointer; the stack lives at $0100 + SP.
    pub sp: u8,
    /// Status register P.
    pub p: u8,
    /// Program counter.
    pub pc: u16,
    /// Cycles consumed so far. The counter stops at its maximum.
    pub cycles: u64,
    /// The interrupt that waits for service, if any.
    pub pending_interrupt: Option<Interrupt>,
    /// The level the edge detector last saw on the NMI input: true while
    /// the input is asserted.
    pub nmi_edge_latch: bool,
    /// Cycles that the instruction in flight still owes to `tick`.
    pub clk: u8,
    /// Whether an undocumented opcode is reported as an error; otherwise it
    /// runs as a two-cycle NOP.
    pub strict: bool,
}

impl MOS6502 {
    /// The processor as it is switched on.
    pub open spec fn power_on() -> MOS6502 {
        MOS6502 {
            a: 0,
            x: 0,
            y: 0,
            sp: 0xFF,
            p: 0,
            pc: 0,
            cycles: 0,
            pending_interrupt: Some(Interrupt::Reset),
            nmi_edge_latch: false,
            clk: 0,
            strict: false,
        }
    }

    /// A processor with cleared registers, an empty stack and a reset
    /// pending: its first step loads the program counter from the reset
    /// vector.
    pub fn new() -> (cpu: Self)
        ensures
            cpu == Self::power_on(),
    {
        Self {
            a: 0x00,
            x: 0x00,
            y: 0x00,
            sp: 0xFF,
            p: 0x00,
            pc: 0x0000,
            cycles: 0,
            pending_interrupt: Some(Interrupt::Reset),
            nmi_edge_latch: false,
            clk: 0,
            strict: false,
        }
    }

    /// Sets or clears one flag of the status register.
    pub fn set_flag(&mut self, flag: Flags, val: bool)
        ensures
            *final(self) == (MOS6502 { p: with_flag(old(self).p, flag, val), ..*old(self) }),
    {
        self.p = status_with(self.p, flag, val);
    }

    /// The state of one flag of the status register.
    pub fn get_flag(&self, which: Flags) -> (set: bool)
        ensures
            set == flag(self.p, which),
    {
        status_has(self.p, which)
    }

    /// Sets Z if `byte` is zero and N if its bit 7 is set.
    pub fn set_zn(&mut self, byte: u8)
        ensures
            *final(self) == (MOS6502 { p: with_zn(old(self).p, byte), ..*old(self) }),
    {
        assert((byte & 0x80 != 0) == (byte >= 0x80)) by (bit_vector);
        self.set_flag(Flags::Zero, byte == 0);
        self.set_flag(Flags::Negative, byte & 0x80 != 0);
    }

    /// Pushes a byte on the stack. The stack pointer wraps from $00 to $FF.
    pub fn stack_push(&mut self, byte: u8, bus: &mut Bus)
        requires
            old(bus).wf(),
        ensures
            final(bus).wf(),
            machine(*final(self), *final(bus)) == machine(*old(self), *old(bus)).push(byte),
    {
        bus.write(0x100 + self.sp as u16, byte);
        self.sp = self.sp.wrapping_sub(1);
    }

    /// Pulls a byte from the stack. The stack pointer wraps from $FF to $00.
    pub fn stack_pop(&mut self, bus: &Bus) -> (byte: u8)
        requires
            bus.wf(),
        ensures
            byte == machine(*old(self), *bus).top(),
            machine(*final(self), *bus) == machine(*old(self), *bus).popped(),
    {
        self.sp = self.sp.wrapping_add(1);
        bus.read(0x100 + self.sp as u16)
    }

    /// Pushes a word, high byte first.
    pub fn stack_push16(&mut self, w: u16, bus: &mut Bus)
        requires
            old(bus).wf(),
        ensures
            final(bus).wf(),
            machine(*final(self), *final(bus)) == machine(*old(self), *old(bus)).push_word(w),
    {
        self.stack_push(high_byte(w), bus);
        self.stack_push(low_byte(w), bus);
    }

    /// Pulls a word, low byte first.
    pub fn stack_pop16(&mut self, bus: &Bus) -> (w: u16)
        requires
            bus.wf(),
        ensures
            w == machine(*old(self), *bus).top_word(),
            machine(*final(self), *bus) == machine(*old(self), *bus).popped().popped(),
    {
        let lo = self.stack_pop(bus);
        let hi = self.stack_pop(bus);
        make_word(lo, hi)
    }

    /// Reads what an instruction operates on.
    pub fn load(&self, bus: &Bus, operand: Operand) -> (byte: u8)
        requires
            bus.wf(),
            operand != Operand::Implied,
        ensures
            byte == machine(*self, *bus).value(operand),
    {
        match operand {
            Operand::Memory(addr) => bus.read(addr),
            Operand::Accumulator => self.a,
            Operand::Implied => unreached(),
        }
    }

    /// Writes what an instruction operates on. No flag changes.
    pub fn store(&mut self, bus: &mut Bus, operand: Operand, byte: u8)
        requires
            old(bus).wf(),
            operand != Operand::Implied,
        ensures
            final(bus).wf(),
            machine(*final(self), *final(bus)) == machine(*old(self), *old(bus)).store(
                operand,
                byte,
            ),
    {
        match operand {
            Operand::Memory(addr) => bus.write(addr, byte),
            Operand::Accumulator => {
                self.a = byte;
            },
            Operand::Implied => unreached(),
        }
    }

    /// Reads the byte at the program counter and steps past it.
    pub fn read_opcode(&mut self, bus: &Bus) -> (opcode: u8)
        requires
            bus.wf(),
        ensures
            opcode == bus@[old(self).pc as int],
            *final(self) == (MOS6502 { pc: old(self).pc.wrapping_add(1), ..*old(self) }),
    {
        let opcode = bus.read(self.pc);
        self.pc = self.pc.wrapping_add(1);
        opcode
    }
}

} // verus!
