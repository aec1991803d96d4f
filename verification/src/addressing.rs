//! The thirteen addressing modes.
//!
//! A mode is decoded with the program counter on the first operand byte. It
//! steps the program counter past the operand bytes and yields the operand.

use vstd::prelude::*;
use crate::bytes::{crosses_page, displace, displaced, make_word, page_differs, word};
use crate::cpu_6502::{AddrRes, MOS6502, Operand};
use crate::cpu_bus::Bus;
use crate::machine::{machine, Machine};

verus! {

/// How an instruction finds its operand.
#[derive(Clone, Copy, PartialEq, Eq, Structural, Debug)]
pub enum AddrMode {
    /// No operand.
    Implied,
    /// The accumulator is the operand.
    Accumulator,
    /// The byte after the opcode is the operand.
    Immediate,
    /// The byte after the opcode is an address in page zero.
    ZeroPage,
    /// Zero page, indexed by X within page zero.
    ZeroPageX,
    /// Zero page, indexed by Y within page zero.
    ZeroPageY,
    /// The byte after the opcode is a signed displacement from the next
    /// instruction.
    Relative,
    /// The two bytes after the opcode are the address.
    Absolute,
    /// Absolute, indexed by X.
    AbsoluteX,
    /// Absolute, indexed by Y.
    AbsoluteY,
    /// The two bytes after the opcode point to the address.
    Indirect,
    /// The byte after the opcode plus X points, within page zero, to the
    /// address.
    IndexedIndirect,
    /// The byte after the opcode points, within page zero, to an address
    /// that is then indexed by Y.
    IndirectIndexed,
}

impl AddrMode {
    /// The number of operand bytes that follow the opcode.
    pub open spec fn operand_bytes(self) -> u16 {
        match self {
            AddrMode::Implied | AddrMode::Accumulator => 0,
            AddrMode::Absolute | AddrMode::AbsoluteX | AddrMode::AbsoluteY | AddrMode::Indirect => 2,
            _ => 1,
        }
    }

    /// The mode yields an address.
    pub open spec fn has_address(self) -> bool {
        self != AddrMode::Implied && self != AddrMode::Accumulator
    }

    /// The mode yields the address of a byte of data.
    pub open spec fn has_data(self) -> bool {
        self.has_address() && self != AddrMode::Relative && self != AddrMode::Indirect
    }

    /// The mode adds an index to a full address, which can carry into the
    /// high byte.
    pub open spec fn can_cross(self) -> bool {
        self == AddrMode::AbsoluteX || self == AddrMode::AbsoluteY || self
            == AddrMode::IndirectIndexed
    }
}

/// An operand in memory.
pub open spec fn at(addr: u16, cycle: bool) -> AddrRes {
    AddrRes { operand: Operand::Memory(addr), cycle }
}

/// The operand at `base` indexed by `index`; the index may carry into the
/// next page.
pub open spec fn indexed(base: u16, index: u8) -> AddrRes {
    at(base.wrapping_add(index as u16), page_differs(base, base.wrapping_add(index as u16)))
}

impl Machine {
    /// What `mode` yields when the program counter stands on the first
    /// operand byte.
    pub open spec fn resolve(self, mode: AddrMode) -> AddrRes {
        let pc = self.cpu.pc;
        let first = self.read(pc);
        let second = self.read(pc.wrapping_add(1));
        match mode {
            AddrMode::Implied => AddrRes { operand: Operand::Implied, cycle: false },
            AddrMode::Accumulator => AddrRes { operand: Operand::Accumulator, cycle: false },
            AddrMode::Immediate => at(pc, false),
            AddrMode::ZeroPage => at(word(first, 0), false),
            AddrMode::ZeroPageX => at(word(first.wrapping_add(self.cpu.x), 0), false),
            AddrMode::ZeroPageY => at(word(first.wrapping_add(self.cpu.y), 0), false),
            AddrMode::Relative => at(
                displaced(pc.wrapping_add(1), first),
                page_differs(pc.wrapping_add(1), displaced(pc.wrapping_add(1), first)),
            ),
            AddrMode::Absolute => at(word(first, second), false),
            AddrMode::AbsoluteX => indexed(word(first, second), self.cpu.x),
            AddrMode::AbsoluteY => indexed(word(first, second), self.cpu.y),
            AddrMode::Indirect => at(self.read_word_in_page(word(first, second)), false),
            AddrMode::IndexedIndirect => at(
                self.read_word_in_page(word(first.wrapping_add(self.cpu.x), 0)),
                false,
            ),
            AddrMode::IndirectIndexed => indexed(
                self.read_word_in_page(word(first, 0)),
                self.cpu.y,
            ),
        }
    }

    /// The program counter moved past the operand bytes of `mode`.
    pub open spec fn past(self, mode: AddrMode) -> Machine {
        self.with_pc(self.cpu.pc.wrapping_add(mode.operand_bytes()))
    }
}

impl MOS6502 {
    /// Reads the byte at the program counter and steps past it.
    fn read_operand(&mut self, bus: &Bus) -> (byte: u8)
        requires
            bus.wf(),
        ensures
            byte == bus@[old(self).pc as int],
            *final(self) == (MOS6502 { pc: old(self).pc.wrapping_add(1), ..*old(self) }),
    {
        self.read_opcode(bus)
    }

    /// Reads the word at the program counter and steps past it.
    fn read_operand16(&mut self, bus: &Bus) -> (w: u16)
        requires
            bus.wf(),
        ensures
            w == machine(*old(self), *bus).read_word(old(self).pc),
            *final(self) == (MOS6502 { pc: old(self).pc.wrapping_add(2), ..*old(self) }),
    {
        let lo = self.read_operand(bus);
        let hi = self.read_operand(bus);
        make_word(lo, hi)
    }

    /// Implied addressing: the instruction has no operand.
    pub fn addr_implied(&mut self, bus: &Bus) -> (res: AddrRes)
        requires
            bus.wf(),
        ensures
            res == machine(*old(self), *bus).resolve(AddrMode::Implied),
            machine(*final(self), *bus) == machine(*old(self), *bus).past(AddrMode::Implied),
    {
        AddrRes::register(Operand::Implied)
    }

    /// Accumulator addressing: the instruction works on A.
    pub fn addr_acc(&mut self, bus: &Bus) -> (res: AddrRes)
        requires
            bus.wf(),
        ensures
            res == machine(*old(self), *bus).resolve(AddrMode::Accumulator),
            machine(*final(self), *bus) == machine(*old(self), *bus).past(AddrMode::Accumulator),
    {
        AddrRes::register(Operand::Accumulator)
    }

    /// Immediate addressing: the operand is the byte after the opcode.
    pub fn addr_immediate(&mut self, bus: &Bus) -> (res: AddrRes)
        requires
            bus.wf(),
        ensures
            res == machine(*old(self), *bus).resolve(AddrMode::Immediate),
            machine(*final(self), *bus) == machine(*old(self), *bus).past(AddrMode::Immediate),
    {
        let addr = self.pc;
        self.pc = self.pc.wrapping_add(1);
        AddrRes::new(addr, false)
    }

    /// Relative addressing: the byte after the opcode is a signed
    /// displacement from the instruction that follows. A page is crossed
    /// when the target lies on another page than that instruction.
    pub fn addr_relative(&mut self, bus: &Bus) -> (res: AddrRes)
        requires
            bus.wf(),
        ensures
            res == machine(*old(self), *bus).resolve(AddrMode::Relative),
            machine(*final(self), *bus) == machine(*old(self), *bus).past(AddrMode::Relative),
    {
        let offset = self.read_operand(bus);
        let target = displace(self.pc, offset);
        AddrRes::new(target, crosses_page(self.pc, target))
    }

    /// Zero page addressing: the byte after the opcode is an address in
    /// $0000..$00FF.
    pub fn addr_zero_pg(&mut self, bus: &Bus) -> (res: AddrRes)
        requires
            bus.wf(),
        ensures
            res == machine(*old(self), *bus).resolve(AddrMode::ZeroPage),
            machine(*final(self), *bus) == machine(*old(self), *bus).past(AddrMode::ZeroPage),
    {
        let addr = self.read_operand(bus);
        AddrRes::new(make_word(addr, 0), false)
    }

    /// Absolute addressing: the two bytes after the opcode are the address,
    /// low byte first.
    pub fn addr_absolute(&mut self, bus: &Bus) -> (res: AddrRes)
        requires
            bus.wf(),
        ensures
            res == machine(*old(self), *bus).resolve(AddrMode::Absolute),
            machine(*final(self), *bus) == machine(*old(self), *bus).past(AddrMode::Absolute),
    {
        let addr = self.read_operand16(bus);
        AddrRes::new(addr, false)
    }

    /// Indirect addressing, for JMP alone: the two bytes after the opcode
    /// point to the low byte of the address. The high byte is fetched from
    /// the same page: after a pointer $xxFF it comes from $xx00.
    pub fn addr_indirect(&mut self, bus: &Bus) -> (res: AddrRes)
        requires
            bus.wf(),
        ensures
            res == machine(*old(self), *bus).resolve(AddrMode::Indirect),
            machine(*final(self), *bus) == machine(*old(self), *bus).past(AddrMode::Indirect),
    {
        let ptr = self.read_operand16(bus);
        AddrRes::new(bus.read_word_in_page(ptr), false)
    }

    /// Zero page addressing indexed by X; the sum stays in page zero.
    pub fn addr_zero_pg_x(&mut self, bus: &Bus) -> (res: AddrRes)
        requires
            bus.wf(),
        ensures
            res == machine(*old(self), *bus).resolve(AddrMode::ZeroPageX),
            machine(*final(self), *bus) == machine(*old(self), *bus).past(AddrMode::ZeroPageX),
    {
        let addr = self.read_operand(bus).wrapping_add(self.x);
        AddrRes::new(make_word(addr, 0), false)
    }

    /// Zero page addressing indexed by Y; the sum stays in page zero.
    pub fn addr_zero_pg_y(&mut self, bus: &Bus) -> (res: AddrRes)
        requires
            bus.wf(),
        ensures
            res == machine(*old(self), *bus).resolve(AddrMode::ZeroPageY),
            machine(*final(self), *bus) == machine(*old(self), *bus).past(AddrMode::ZeroPageY),
    {
        let addr = self.read_operand(bus).wrapping_add(self.y);
        AddrRes::new(make_word(addr, 0), false)
    }

    /// Absolute addressing indexed by X. A page is crossed when the index
    /// carries into the high byte.
    pub fn addr_absolute_x(&mut self, bus: &Bus) -> (res: AddrRes)
        requires
            bus.wf(),
        ensures
            res == machine(*old(self), *bus).resolve(AddrMode::AbsoluteX),
            machine(*final(self), *bus) == machine(*old(self), *bus).past(AddrMode::AbsoluteX),
    {
        let base = self.read_operand16(bus);
        let addr = base.wrapping_add(self.x as u16);
        AddrRes::new(addr, crosses_page(base, addr))
    }

    /// Absolute addressing indexed by Y. A page is crossed when the index
    /// carries into the high byte.
    pub fn addr_absolute_y(&mut self, bus: &Bus) -> (res: AddrRes)
        requires
            bus.wf(),
        ensures
            res == machine(*old(self), *bus).resolve(AddrMode::AbsoluteY),
            machine(*final(self), *bus) == machine(*old(self), *bus).past(AddrMode::AbsoluteY),
    {
        let base = self.read_operand16(bus);
        let addr = base.wrapping_add(self.y as u16);
        AddrRes::new(addr, crosses_page(base, addr))
    }

    /// Indexed indirect addressing: the byte after the opcode plus X points,
    /// within page zero, to the address.
    pub fn addr_idx_indirect(&mut self, bus: &Bus) -> (res: AddrRes)
        requires
            bus.wf(),
        ensures
            res == machine(*old(self), *bus).resolve(AddrMode::IndexedIndirect),
            machine(*final(self), *bus) == machine(*old(self), *bus).past(
                AddrMode::IndexedIndirect,
            ),
    {
        let ptr = self.read_operand(bus).wrapping_add(self.x);
        AddrRes::new(bus.read_word_in_page(make_word(ptr, 0)), false)
    }

    /// Indirect indexed addressing: the byte after the opcode points, within
    /// page zero, to an address, to which Y is added. A page is crossed when
    /// Y carries into the high byte.
    pub fn addr_indirect_idx(&mut self, bus: &Bus) -> (res: AddrRes)
        requires
            bus.wf(),
        ensures
            res == machine(*old(self), *bus).resolve(AddrMode::IndirectIndexed),
            machine(*final(self), *bus) == machine(*old(self), *bus).past(
                AddrMode::IndirectIndexed,
            ),
    {
        let ptr = self.read_operand(bus);
        let base = bus.read_word_in_page(make_word(ptr, 0));
        let addr = base.wrapping_add(self.y as u16);
        AddrRes::new(addr, crosses_page(base, addr))
    }

    /// Decodes the operand of an instruction in the given mode.
    pub fn resolve(&mut self, bus: &Bus, mode: AddrMode) -> (res: AddrRes)
        requires
            bus.wf(),
        ensures
            res == machine(*old(self), *bus).resolve(mode),
            machine(*final(self), *bus) == machine(*old(self), *bus).past(mode),
            res.operand is Memory <==> mode.has_address(),
            res.operand is Implied <==> mode == AddrMode::Implied,
            res.cycle ==> mode.can_cross() || mode == AddrMode::Relative,
    {
        match mode {
            AddrMode::Implied => self.addr_implied(bus),
            AddrMode::Accumulator => self.addr_acc(bus),
            AddrMode::Immediate => self.addr_immediate(bus),
            AddrMode::ZeroPage => self.addr_zero_pg(bus),
            AddrMode::ZeroPageX => self.addr_zero_pg_x(bus),
            AddrMode::ZeroPageY => self.addr_zero_pg_y(bus),
            AddrMode::Relative => self.addr_relative(bus),
            AddrMode::Absolute => self.addr_absolute(bus),
            AddrMode::AbsoluteX => self.addr_absolute_x(bus),
            AddrMode::AbsoluteY => self.addr_absolute_y(bus),
            AddrMode::Indirect => self.addr_indirect(bus),
            AddrMode::IndexedIndirect => self.addr_idx_indirect(bus),
            AddrMode::IndirectIndexed => self.addr_indirect_idx(bus),
        }
    }
}

} // verus!
