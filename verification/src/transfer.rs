//! Register transfers: TAX, TAY, TXA, TYA, TSX, TXS.

use vstd::prelude::*;
use crate::addressing::AddrMode;
use crate::cpu_6502::MOS6502;
use crate::cpu_bus::Bus;
use crate::machine::{machine, Machine};

verus! {

impl Machine {
    /// TAX: X := A, with Z and N from X.
    pub open spec fn tax(self, mode: AddrMode) -> Machine {
        self.past(mode).with_x(self.cpu.a)
    }

    /// TAY: Y := A, with Z and N from Y.
    pub open spec fn tay(self, mode: AddrMode) -> Machine {
        self.past(mode).with_y(self.cpu.a)
    }

    /// TXA: A := X, with Z and N from A.
    pub open spec fn txa(self, mode: AddrMode) -> Machine {
        self.past(mode).with_a(self.cpu.x)
    }

    /// TYA: A := Y, with Z and N from A.
    pub open spec fn tya(self, mode: AddrMode) -> Machine {
        self.past(mode).with_a(self.cpu.y)
    }

    /// TSX: X := SP, with Z and N from X.
    pub open spec fn tsx(self, mode: AddrMode) -> Machine {
        self.past(mode).with_x(self.cpu.sp)
    }

    /// TXS: SP := X. No flag changes.
    pub open spec fn txs(self, mode: AddrMode) -> Machine {
        Machine { cpu: MOS6502 { sp: self.cpu.x, ..self.past(mode).cpu }, ..self }
    }
}

impl MOS6502 {
    /// TAX - Transfer Accumulator to X.
    pub fn opcode_tax(&mut self, bus: &mut Bus, mode: AddrMode) -> (extra: u8)
        requires
            old(bus).wf(),
        ensures
            final(bus).wf(),
            machine(*final(self), *final(bus)) == machine(*old(self), *old(bus)).tax(mode),
            extra == 0,
    {
        self.resolve(bus, mode);
        self.x = self.a;
        self.set_zn(self.x);
        0
    }

    /// TAY - Transfer Accumulator to Y.
    pub fn opcode_tay(&mut self, bus: &mut Bus, mode: AddrMode) -> (extra: u8)
        requires
            old(bus).wf(),
        ensures
            final(bus).wf(),
            machine(*final(self), *final(bus)) == machine(*old(self), *old(bus)).tay(mode),
            extra == 0,
    {
        self.resolve(bus, mode);
        self.y = self.a;
        self.set_zn(self.y);
        0
    }

    /// TXA - Transfer X to Accumulator.
    pub fn opcode_txa(&mut self, bus: &mut Bus, mode: AddrMode) -> (extra: u8)
        requires
            old(bus).wf(),
        ensures
            final(bus).wf(),
            machine(*final(self), *final(bus)) == machine(*old(self), *old(bus)).txa(mode),
            extra == 0,
    {
        self.resolve(bus, mode);
        self.a = self.x;
        self.set_zn(self.a);
        0
    }

    /// TYA - Transfer Y to Accumulator.
    pub fn opcode_tya(&mut self, bus: &mut Bus, mode: AddrMode) -> (extra: u8)
        requires
            old(bus).wf(),
        ensures
            final(bus).wf(),
            machine(*final(self), *final(bus)) == machine(*old(self), *old(bus)).tya(mode),
            extra == 0,
    {
        self.resolve(bus, mode);
        self.a = self.y;
        self.set_zn(self.a);
        0
    }

    /// TSX - Transfer Stack Pointer to X.
    pub fn opcode_tsx(&mut self, bus: &mut Bus, mode: AddrMode) -> (extra: u8)
        requires
            old(bus).wf(),
        ensures
            final(bus).wf(),
            machine(*final(self), *final(bus)) == machine(*old(self), *old(bus)).tsx(mode),
            extra == 0,
    {
        self.resolve(bus, mode);
        self.x = self.sp;
        self.set_zn(self.x);
        0
    }

    /// TXS - Transfer X to Stack Pointer. The only transfer that leaves the flags
    /// alone.
    pub fn opcode_txs(&mut self, bus: &mut Bus, mode: AddrMode) -> (extra: u8)
        requires
            old(bus).wf(),
        ensures
            final(bus).wf(),
            machine(*final(self), *final(bus)) == machine(*old(self), *old(bus)).txs(mode),
            extra == 0,
    {
        self.resolve(bus, mode);
        self.sp = self.x;
        0
    }
}

} // verus!
