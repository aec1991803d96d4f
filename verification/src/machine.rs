//! The mathematical state of the machine: the processor's registers and the
//! 64 KiB of memory behind the bus. The contracts of the executable functions
//! are stated over the functions of this type.

use vstd::prelude::*;
use crate::bytes::{high, low, word};
use crate::cpu_6502::{MOS6502, Operand};
use crate::cpu_bus::{Bus, word_at, word_in_page};
use crate::status::{Flags, with_flag, with_zn};

verus! {

/// Processor and memory at one instant.
pub struct Machine {
    pub cpu: MOS6502,
    pub mem: Seq<u8>,
}

/// The machine made of a processor and the memory of a bus.
pub open spec fn machine(cpu: MOS6502, bus: Bus) -> Machine {
    Machine { cpu, mem: bus@ }
}

/// Where the stack pointer `sp` points: the stack is the page $0100..$01FF.
pub open spec fn stack_address(sp: u8) -> u16 {
    (0x100 + sp) as u16
}

impl Machine {
    /// Every address has a byte behind it.
    pub open spec fn wf(self) -> bool {
        self.mem.len() == 0x10000
    }

    /// The byte at `addr`.
    pub open spec fn read(self, addr: u16) -> u8 {
        self.mem[addr as int]
    }

    /// The little-endian word at `addr` and the address after it.
    pub open spec fn read_word(self, addr: u16) -> u16 {
        word_at(self.mem, addr)
    }

    /// The little-endian word at `ptr` whose high byte is taken from the page
    /// of `ptr`: after $xxFF comes $xx00.
    pub open spec fn read_word_in_page(self, ptr: u16) -> u16 {
        word_in_page(self.mem, ptr)
    }

    /// Memory with `byte` at `addr`.
    pub open spec fn write(self, addr: u16, byte: u8) -> Machine {
        Machine { mem: self.mem.update(addr as int, byte), ..self }
    }

    /// The program counter set to `pc`.
    pub open spec fn with_pc(self, pc: u16) -> Machine {
        Machine { cpu: MOS6502 { pc, ..self.cpu }, ..self }
    }

    /// The status register set to `p`.
    pub open spec fn with_p(self, p: u8) -> Machine {
        Machine { cpu: MOS6502 { p, ..self.cpu }, ..self }
    }

    /// One flag of the status register set to `val`.
    pub open spec fn with_flag(self, flag: Flags, val: bool) -> Machine {
        self.with_p(with_flag(self.cpu.p, flag, val))
    }

    /// Z and N set from `byte`.
    pub open spec fn with_zn(self, byte: u8) -> Machine {
        self.with_p(with_zn(self.cpu.p, byte))
    }

    /// `byte` loaded into A, with Z and N set from it.
    pub open spec fn with_a(self, byte: u8) -> Machine {
        Machine { cpu: MOS6502 { a: byte, ..self.cpu }, ..self }.with_zn(byte)
    }

    /// `byte` loaded into X, with Z and N set from it.
    pub open spec fn with_x(self, byte: u8) -> Machine {
        Machine { cpu: MOS6502 { x: byte, ..self.cpu }, ..self }.with_zn(byte)
    }

    /// `byte` loaded into Y, with Z and N set from it.
    pub open spec fn with_y(self, byte: u8) -> Machine {
        Machine { cpu: MOS6502 { y: byte, ..self.cpu }, ..self }.with_zn(byte)
    }

    /// `byte` written to the stack and the stack pointer moved down, modulo 256.
    pub open spec fn push(self, byte: u8) -> Machine {
        Machine {
            cpu: MOS6502 { sp: self.cpu.sp.wrapping_sub(1), ..self.cpu },
            mem: self.mem.update(stack_address(self.cpu.sp) as int, byte),
        }
    }

    /// `w` pushed high byte first, so that the low byte is pulled first.
    pub open spec fn push_word(self, w: u16) -> Machine {
        self.push(high(w)).push(low(w))
    }

    /// The byte that a pull returns.
    pub open spec fn top(self) -> u8 {
        self.read(stack_address(self.cpu.sp.wrapping_add(1)))
    }

    /// The stack pointer moved up by one pull, modulo 256.
    pub open spec fn popped(self) -> Machine {
        Machine { cpu: MOS6502 { sp: self.cpu.sp.wrapping_add(1), ..self.cpu }, ..self }
    }

    /// The word that two pulls return, low byte first.
    pub open spec fn top_word(self) -> u16 {
        word(self.top(), self.popped().top())
    }

    /// The cycle that an indexed read costs when it crosses a page.
    pub open spec fn page_cross_cycle(self, mode: crate::addressing::AddrMode) -> u8 {
        if self.resolve(mode).cycle {
            1
        } else {
            0
        }
    }

    /// What an instruction reads through `operand`.
    pub open spec fn value(self, operand: Operand) -> u8
        recommends
            operand != Operand::Implied,
    {
        match operand {
            Operand::Memory(addr) => self.read(addr),
            _ => self.cpu.a,
        }
    }

    /// `byte` stored through `operand`; no flag changes.
    pub open spec fn store(self, operand: Operand, byte: u8) -> Machine
        recommends
            operand != Operand::Implied,
    {
        match operand {
            Operand::Memory(addr) => self.write(addr, byte),
            _ => Machine { cpu: MOS6502 { a: byte, ..self.cpu }, ..self },
        }
    }
}

} // verus!
