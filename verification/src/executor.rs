//! The executor: one instruction, or one interrupt entry, at a time.

use vstd::prelude::*;
use crate::addressing::AddrMode;
use crate::cpu_6502::{Interrupt, MOS6502};
use crate::cpu_bus::Bus;
use crate::interrupts::INTERRUPT_CYCLES;
use crate::machine::{machine, Machine};
use crate::opcodes::{Access, Mnemonic, OpInfo, decode, entry, lemma_entry_well_formed, penalty_cycles};
use crate::status::{Flags, flag};

verus! {

/// Why a step did not run.
#[derive(Clone, Copy, PartialEq, Eq, Structural, Debug)]
pub enum CpuError {
    /// The opcode at the program counter is undocumented, and the processor
    /// was told to be strict about that.
    IllegalOpcode(u8),
}

impl MOS6502 {
    /// The cycle counter moved on by `n`; it stops at its maximum.
    pub open spec fn counted(self, n: u8) -> MOS6502 {
        MOS6502 { cycles: self.cycles.saturating_add(n as u64), ..self }
    }
}

impl Machine {
    /// What the instruction of `info` does, with the program counter on the
    /// byte after the opcode.
    pub open spec fn execute(self, info: OpInfo) -> Machine {
        match info.mnemonic {
            Mnemonic::Adc => self.adc(info.mode),
            Mnemonic::And => self.and(info.mode),
            Mnemonic::Asl => self.asl(info.mode),
            Mnemonic::Bcc => self.bcc(info.mode),
            Mnemonic::Bcs => self.bcs(info.mode),
            Mnemonic::Beq => self.beq(info.mode),
            Mnemonic::Bit => self.bit(info.mode),
            Mnemonic::Bmi => self.bmi(info.mode),
            Mnemonic::Bne => self.bne(info.mode),
            Mnemonic::Bpl => self.bpl(info.mode),
            Mnemonic::Brk => self.brk(info.mode),
            Mnemonic::Bvc => self.bvc(info.mode),
            Mnemonic::Bvs => self.bvs(info.mode),
            Mnemonic::Clc => self.clc(info.mode),
            Mnemonic::Cld => self.cld(info.mode),
            Mnemonic::Cli => self.cli(info.mode),
            Mnemonic::Clv => self.clv(info.mode),
            Mnemonic::Cmp => self.cmp(info.mode),
            Mnemonic::Cpx => self.cpx(info.mode),
            Mnemonic::Cpy => self.cpy(info.mode),
            Mnemonic::Dec => self.dec(info.mode),
            Mnemonic::Dex => self.dex(info.mode),
            Mnemonic::Dey => self.dey(info.mode),
            Mnemonic::Eor => self.eor(info.mode),
            Mnemonic::Inc => self.inc(info.mode),
            Mnemonic::Inx => self.inx(info.mode),
            Mnemonic::Iny => self.iny(info.mode),
            Mnemonic::Jmp => self.jmp(info.mode),
            Mnemonic::Jsr => self.jsr(info.mode),
            Mnemonic::Lda => self.lda(info.mode),
            Mnemonic::Ldx => self.ldx(info.mode),
            Mnemonic::Ldy => self.ldy(info.mode),
            Mnemonic::Lsr => self.lsr(info.mode),
            Mnemonic::Nop => self.nop(info.mode),
            Mnemonic::Ora => self.ora(info.mode),
            Mnemonic::Pha => self.pha(info.mode),
            Mnemonic::Php => self.php(info.mode),
            Mnemonic::Pla => self.pla(info.mode),
            Mnemonic::Plp => self.plp(info.mode),
            Mnemonic::Rol => self.rol(info.mode),
            Mnemonic::Ror => self.ror(info.mode),
            Mnemonic::Rti => self.rti(info.mode),
            Mnemonic::Rts => self.rts(info.mode),
            Mnemonic::Sbc => self.sbc(info.mode),
            Mnemonic::Sec => self.sec(info.mode),
            Mnemonic::Sed => self.sed(info.mode),
            Mnemonic::Sei => self.sei(info.mode),
            Mnemonic::Sta => self.sta(info.mode),
            Mnemonic::Stx => self.stx(info.mode),
            Mnemonic::Sty => self.sty(info.mode),
            Mnemonic::Tax => self.tax(info.mode),
            Mnemonic::Tay => self.tay(info.mode),
            Mnemonic::Tsx => self.tsx(info.mode),
            Mnemonic::Txa => self.txa(info.mode),
            Mnemonic::Txs => self.txs(info.mode),
            Mnemonic::Tya => self.tya(info.mode),
        }
    }

    /// Whether the instruction is a branch that is taken.
    pub open spec fn branch_taken(self, mnemonic: Mnemonic) -> bool {
        let p = self.cpu.p;
        match mnemonic {
            Mnemonic::Bcc => !flag(p, Flags::Carry),
            Mnemonic::Bcs => flag(p, Flags::Carry),
            Mnemonic::Bne => !flag(p, Flags::Zero),
            Mnemonic::Beq => flag(p, Flags::Zero),
            Mnemonic::Bpl => !flag(p, Flags::Negative),
            Mnemonic::Bmi => flag(p, Flags::Negative),
            Mnemonic::Bvc => !flag(p, Flags::Overflow),
            Mnemonic::Bvs => flag(p, Flags::Overflow),
            _ => false,
        }
    }

    /// The cycles that the instruction of `info` takes: the base cycles of
    /// the table, and the penalty that the table names where it applies.
    pub open spec fn cycles(self, info: OpInfo) -> int {
        info.cycles + penalty_cycles(
            info.penalty,
            self.resolve(info.mode).cycle,
            self.branch_taken(info.mnemonic),
        )
    }

    /// The table's entry for the opcode at the program counter.
    pub open spec fn fetched(self) -> OpInfo {
        entry(self.read(self.cpu.pc))
    }

    /// The opcode at the program counter is refused: it is undocumented and
    /// the processor is strict.
    pub open spec fn refused(self) -> bool {
        self.cpu.strict && self.fetched().illegal
    }

    /// The cycle counter moved on by `n`.
    pub open spec fn elapsed(self, n: u8) -> Machine {
        Machine { cpu: self.cpu.counted(n), ..self }
    }

    /// What one step returns: the cycles consumed, or the opcode refused.
    pub open spec fn step_result(self) -> Result<u8, CpuError> {
        if self.cpu.due() is Some {
            Ok(INTERRUPT_CYCLES)
        } else if self.refused() {
            Err(CpuError::IllegalOpcode(self.read(self.cpu.pc)))
        } else {
            Ok(self.with_pc(self.cpu.pc.wrapping_add(1)).cycles(self.fetched()) as u8)
        }
    }

    /// The machine after one step. An interrupt that is due is serviced in
    /// place of the next instruction. Otherwise the instruction at the
    /// program counter is executed, unless it is refused: then nothing
    /// changes.
    pub open spec fn step(self) -> Machine {
        match self.cpu.due() {
            Some(Interrupt::Reset) => self.reset().elapsed(INTERRUPT_CYCLES),
            Some(Interrupt::Nmi) => self.nmi().elapsed(INTERRUPT_CYCLES),
            Some(Interrupt::Irq) => self.irq().elapsed(INTERRUPT_CYCLES),
            None => match self.step_result() {
                Ok(cycles) => self.with_pc(self.cpu.pc.wrapping_add(1)).execute(
                    self.fetched(),
                ).elapsed(cycles),
                Err(_) => self,
            },
        }
    }

    /// The cycles still owed to `tick` set to `clk`.
    pub open spec fn owing(self, clk: u8) -> Machine {
        Machine { cpu: MOS6502 { clk, ..self.cpu }, ..self }
    }

    /// What one clock tick returns: the opcode refused, if the tick has to
    /// start an instruction and cannot.
    pub open spec fn tick_result(self) -> Result<(), CpuError> {
        if self.cpu.clk > 0 {
            Ok(())
        } else {
            match self.step_result() {
                Ok(_) => Ok(()),
                Err(e) => Err(e),
            }
        }
    }

    /// The machine after one clock tick: a cycle of the instruction in
    /// flight is paid off, or, when none is owed, the next step is taken and
    /// its first cycle paid.
    pub open spec fn tick(self) -> Machine {
        if self.cpu.clk > 0 {
            self.owing((self.cpu.clk - 1) as u8)
        } else {
            match self.step_result() {
                Ok(cycles) => self.step().owing((cycles - 1) as u8),
                Err(_) => self,
            }
        }
    }
}

/// An addressing mode reports a page crossing only where an index or a
/// displacement is added to a full address.
pub proof fn lemma_crossing_modes(m: Machine, mode: AddrMode)
    ensures
        m.resolve(mode).cycle ==> mode.can_cross() || mode == AddrMode::Relative,
{
}

impl MOS6502 {
    /// An instruction that reads its operand.
    fn execute_read(&mut self, bus: &mut Bus, info: OpInfo) -> (cycles: u8)
        requires
            old(bus).wf(),
            info.well_formed(),
            info.mnemonic.access() == Access::Read,
        ensures
            final(bus).wf(),
            machine(*final(self), *final(bus)) == machine(*old(self), *old(bus)).execute(info),
            cycles == machine(*old(self), *old(bus)).cycles(info),
    {
        proof {
            lemma_crossing_modes(machine(*self, *bus), info.mode);
        }
        let extra = match info.mnemonic {
            Mnemonic::Adc => self.opcode_adc(bus, info.mode),
            Mnemonic::And => self.opcode_and(bus, info.mode),
            Mnemonic::Bit => self.opcode_bit(bus, info.mode),
            Mnemonic::Cmp => self.opcode_cmp(bus, info.mode),
            Mnemonic::Cpx => self.opcode_cpx(bus, info.mode),
            Mnemonic::Cpy => self.opcode_cpy(bus, info.mode),
            Mnemonic::Eor => self.opcode_eor(bus, info.mode),
            Mnemonic::Lda => self.opcode_lda(bus, info.mode),
            Mnemonic::Ldx => self.opcode_ldx(bus, info.mode),
            Mnemonic::Ldy => self.opcode_ldy(bus, info.mode),
            Mnemonic::Ora => self.opcode_ora(bus, info.mode),
            Mnemonic::Sbc => self.opcode_sbc(bus, info.mode),
            _ => unreached(),
        };
        info.cycles + extra
    }

    /// An instruction that writes its operand.
    fn execute_write(&mut self, bus: &mut Bus, info: OpInfo) -> (cycles: u8)
        requires
            old(bus).wf(),
            info.well_formed(),
            info.mnemonic.access() == Access::Write,
        ensures
            final(bus).wf(),
            machine(*final(self), *final(bus)) == machine(*old(self), *old(bus)).execute(info),
            cycles == machine(*old(self), *old(bus)).cycles(info),
    {
        proof {
            lemma_crossing_modes(machine(*self, *bus), info.mode);
        }
        let extra = match info.mnemonic {
            Mnemonic::Sta => self.opcode_sta(bus, info.mode),
            Mnemonic::Stx => self.opcode_stx(bus, info.mode),
            Mnemonic::Sty => self.opcode_sty(bus, info.mode),
            _ => unreached(),
        };
        info.cycles + extra
    }

    /// An instruction that changes its operand in place.
    fn execute_modify(&mut self, bus: &mut Bus, info: OpInfo) -> (cycles: u8)
        requires
            old(bus).wf(),
            info.well_formed(),
            info.mnemonic.access() == Access::Modify,
        ensures
            final(bus).wf(),
            machine(*final(self), *final(bus)) == machine(*old(self), *old(bus)).execute(info),
            cycles == machine(*old(self), *old(bus)).cycles(info),
    {
        proof {
            lemma_crossing_modes(machine(*self, *bus), info.mode);
        }
        let extra = match info.mnemonic {
            Mnemonic::Asl => self.opcode_asl(bus, info.mode),
            Mnemonic::Dec => self.opcode_dec(bus, info.mode),
            Mnemonic::Inc => self.opcode_inc(bus, info.mode),
            Mnemonic::Lsr => self.opcode_lsr(bus, info.mode),
            Mnemonic::Rol => self.opcode_rol(bus, info.mode),
            Mnemonic::Ror => self.opcode_ror(bus, info.mode),
            _ => unreached(),
        };
        info.cycles + extra
    }

    /// A conditional branch.
    fn execute_branch(&mut self, bus: &mut Bus, info: OpInfo) -> (cycles: u8)
        requires
            old(bus).wf(),
            info.well_formed(),
            info.mnemonic.access() == Access::Branch,
        ensures
            final(bus).wf(),
            machine(*final(self), *final(bus)) == machine(*old(self), *old(bus)).execute(info),
            cycles == machine(*old(self), *old(bus)).cycles(info),
    {
        proof {
            lemma_crossing_modes(machine(*self, *bus), info.mode);
        }
        let extra = match info.mnemonic {
            Mnemonic::Bcc => self.opcode_bcc(bus, info.mode),
            Mnemonic::Bcs => self.opcode_bcs(bus, info.mode),
            Mnemonic::Beq => self.opcode_beq(bus, info.mode),
            Mnemonic::Bmi => self.opcode_bmi(bus, info.mode),
            Mnemonic::Bne => self.opcode_bne(bus, info.mode),
            Mnemonic::Bpl => self.opcode_bpl(bus, info.mode),
            Mnemonic::Bvc => self.opcode_bvc(bus, info.mode),
            Mnemonic::Bvs => self.opcode_bvs(bus, info.mode),
            _ => unreached(),
        };
        info.cycles + extra
    }

    /// A jump.
    fn execute_jump(&mut self, bus: &mut Bus, info: OpInfo) -> (cycles: u8)
        requires
            old(bus).wf(),
            info.well_formed(),
            info.mnemonic.access() == Access::Jump,
        ensures
            final(bus).wf(),
            machine(*final(self), *final(bus)) == machine(*old(self), *old(bus)).execute(info),
            cycles == machine(*old(self), *old(bus)).cycles(info),
    {
        proof {
            lemma_crossing_modes(machine(*self, *bus), info.mode);
        }
        let extra = match info.mnemonic {
            Mnemonic::Jmp => self.opcode_jmp(bus, info.mode),
            Mnemonic::Jsr => self.opcode_jsr(bus, info.mode),
            _ => unreached(),
        };
        info.cycles + extra
    }

    /// An instruction on the stack.
    fn execute_stack(&mut self, bus: &mut Bus, info: OpInfo) -> (cycles: u8)
        requires
            old(bus).wf(),
            info.well_formed(),
            info.mnemonic.access() == Access::Stack,
        ensures
            final(bus).wf(),
            machine(*final(self), *final(bus)) == machine(*old(self), *old(bus)).execute(info),
            cycles == machine(*old(self), *old(bus)).cycles(info),
    {
        let extra = match info.mnemonic {
            Mnemonic::Brk => self.opcode_brk(bus, info.mode),
            Mnemonic::Pha => self.opcode_pha(bus, info.mode),
            Mnemonic::Php => self.opcode_php(bus, info.mode),
            Mnemonic::Pla => self.opcode_pla(bus, info.mode),
            Mnemonic::Plp => self.opcode_plp(bus, info.mode),
            Mnemonic::Rti => self.opcode_rti(bus, info.mode),
            Mnemonic::Rts => self.opcode_rts(bus, info.mode),
            _ => unreached(),
        };
        info.cycles + extra
    }

    /// An instruction on the registers.
    fn execute_register(&mut self, bus: &mut Bus, info: OpInfo) -> (cycles: u8)
        requires
            old(bus).wf(),
            info.well_formed(),
            info.mnemonic.access() == Access::Register,
        ensures
            final(bus).wf(),
            machine(*final(self), *final(bus)) == machine(*old(self), *old(bus)).execute(info),
            cycles == machine(*old(self), *old(bus)).cycles(info),
    {
        let extra = match info.mnemonic {
            Mnemonic::Dex => self.opcode_dex(bus, info.mode),
            Mnemonic::Dey => self.opcode_dey(bus, info.mode),
            Mnemonic::Inx => self.opcode_inx(bus, info.mode),
            Mnemonic::Iny => self.opcode_iny(bus, info.mode),
            Mnemonic::Tax => self.opcode_tax(bus, info.mode),
            Mnemonic::Tay => self.opcode_tay(bus, info.mode),
            Mnemonic::Tsx => self.opcode_tsx(bus, info.mode),
            Mnemonic::Txa => self.opcode_txa(bus, info.mode),
            Mnemonic::Txs => self.opcode_txs(bus, info.mode),
            Mnemonic::Tya => self.opcode_tya(bus, info.mode),
            _ => unreached(),
        };
        info.cycles + extra
    }

    /// A flag operation, or NOP.
    fn execute_status(&mut self, bus: &mut Bus, info: OpInfo) -> (cycles: u8)
        requires
            old(bus).wf(),
            info.well_formed(),
            info.mnemonic.access() == Access::Status,
        ensures
            final(bus).wf(),
            machine(*final(self), *final(bus)) == machine(*old(self), *old(bus)).execute(info),
            cycles == machine(*old(self), *old(bus)).cycles(info),
    {
        let extra = match info.mnemonic {
            Mnemonic::Clc => self.opcode_clc(bus, info.mode),
            Mnemonic::Cld => self.opcode_cld(bus, info.mode),
            Mnemonic::Cli => self.opcode_cli(bus, info.mode),
            Mnemonic::Clv => self.opcode_clv(bus, info.mode),
            Mnemonic::Nop => self.opcode_nop(bus, info.mode),
            Mnemonic::Sec => self.opcode_sec(bus, info.mode),
            Mnemonic::Sed => self.opcode_sed(bus, info.mode),
            Mnemonic::Sei => self.opcode_sei(bus, info.mode),
            _ => unreached(),
        };
        info.cycles + extra
    }

    /// Executes the instruction of `info`, with the program counter on the
    /// byte after the opcode. Returns the cycles it takes.
    pub fn execute(&mut self, bus: &mut Bus, info: OpInfo) -> (cycles: u8)
        requires
            old(bus).wf(),
            info.well_formed(),
        ensures
            final(bus).wf(),
            machine(*final(self), *final(bus)) == machine(*old(self), *old(bus)).execute(info),
            cycles == machine(*old(self), *old(bus)).cycles(info),
    {
        match info.mnemonic.access() {
            Access::Read => self.execute_read(bus, info),
            Access::Write => self.execute_write(bus, info),
            Access::Modify => self.execute_modify(bus, info),
            Access::Branch => self.execute_branch(bus, info),
            Access::Jump => self.execute_jump(bus, info),
            Access::Stack => self.execute_stack(bus, info),
            Access::Register => self.execute_register(bus, info),
            Access::Status => self.execute_status(bus, info),
        }
    }

    /// Counts `n` cycles.
    fn count(&mut self, n: u8)
        ensures
            *final(self) == old(self).counted(n),
    {
        self.cycles = self.cycles.saturating_add(n as u64);
    }

    /// Runs one step: services the interrupt that is due, or else executes
    /// the instruction at the program counter. Returns the cycles consumed.
    /// An undocumented opcode runs as a NOP of two cycles, unless the
    /// processor is strict: then it is reported and nothing changes.
    pub fn step(&mut self, bus: &mut Bus) -> (result: Result<u8, CpuError>)
        requires
            old(bus).wf(),
        ensures
            final(bus).wf(),
            result == machine(*old(self), *old(bus)).step_result(),
            machine(*final(self), *final(bus)) == machine(*old(self), *old(bus)).step(),
            result matches Ok(cycles) ==> 2 <= cycles <= 7,
    {
        let cycles = match self.interrupt_due() {
            Some(Interrupt::Reset) => self.reset(bus),
            Some(Interrupt::Nmi) => self.nmi(bus),
            Some(Interrupt::Irq) => self.irq(bus),
            None => {
                let opcode = bus.read(self.pc);
                let info = decode(opcode);
                if self.strict && info.illegal {
                    return Err(CpuError::IllegalOpcode(opcode));
                }
                proof {
                    lemma_entry_well_formed(opcode);
                }
                self.pc = self.pc.wrapping_add(1);
                self.execute(bus, info)
            },
        };
        self.count(cycles);
        Ok(cycles)
    }

    /// Advances the processor by one clock cycle. An instruction runs as a
    /// whole on its first cycle; the ticks that follow pay off the rest of
    /// its cycles.
    pub fn tick(&mut self, bus: &mut Bus) -> (result: Result<(), CpuError>)
        requires
            old(bus).wf(),
        ensures
            final(bus).wf(),
            machine(*final(self), *final(bus)) == machine(*old(self), *old(bus)).tick(),
            result == machine(*old(self), *old(bus)).tick_result(),
    {
        if self.clk == 0 {
            match self.step(bus) {
                Ok(cycles) => {
                    self.clk = cycles - 1;
                },
                Err(e) => {
                    return Err(e);
                },
            }
        } else {
            self.clk = self.clk - 1;
        }
        Ok(())
    }
}

} // verus!
