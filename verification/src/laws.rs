//! What holds of every run of the processor.

use vstd::prelude::*;
use crate::addressing::{indexed, AddrMode};
use crate::arithmetic::carry_in;
use crate::bytes::{displaced, high, low, signed, word};
use crate::cpu_6502::{Interrupt, MOS6502, Operand};
use crate::interrupts::{INTERRUPT_CYCLES, NMI_VECTOR};
use crate::machine::{stack_address, Machine};
use crate::executor::CpuError;
use crate::opcodes::{entry, lemma_entry_well_formed, Access, Mnemonic, OpInfo, Penalty};
use crate::status::{flag, lemma_flag_of_with_flag, pulled, pushed, with_flag, Flags};

verus! {

/// The opcode of PHA.
pub const PHA: u8 = 0x48;

/// The opcode of PLA.
pub const PLA: u8 = 0x68;

/// The opcode of PHP.
pub const PHP: u8 = 0x08;

/// The opcode of PLP.
pub const PLP: u8 = 0x28;

/// The opcode of JSR.
pub const JSR: u8 = 0x20;

/// The opcode of RTS.
pub const RTS: u8 = 0x60;

/// The opcode of JMP with an indirect operand.
pub const JMP_INDIRECT: u8 = 0x6C;

impl Machine {
    /// The next step executes the instruction with opcode `opcode`: no
    /// interrupt is due and the opcode stands at the program counter.
    pub open spec fn runs(self, opcode: u8) -> bool {
        self.cpu.due() is None && self.read(self.cpu.pc) == opcode
    }
}

/// PHA followed by PLA leaves A and the stack pointer as they were.
pub proof fn lemma_pha_pla(m: Machine)
    requires
        m.wf(),
        m.runs(PHA),
        m.step().runs(PLA),
    ensures
        m.step().step().cpu.a == m.cpu.a,
        m.step().step().cpu.sp == m.cpu.sp,
{
    reveal(entry);
}

/// PHP followed by PLP leaves the stack pointer as it was and P equal but
/// for B, which the register never holds. This is so where U reads as one in
/// P, as it does after every PLP and RTI.
pub proof fn lemma_php_plp(m: Machine)
    requires
        m.wf(),
        m.runs(PHP),
        m.step().runs(PLP),
        flag(m.cpu.p, Flags::Unused),
    ensures
        m.step().step().cpu.sp == m.cpu.sp,
        with_flag(m.step().step().cpu.p, Flags::Break, false) == with_flag(
            m.cpu.p,
            Flags::Break,
            false,
        ),
        !flag(m.step().step().cpu.p, Flags::Break),
{
    lemma_php_plp_normalises(m);
    let p = m.cpu.p;
    assert(((p & !0x10u8) | 0x20) & !0x10u8 == p & !0x10u8) by (bit_vector)
        requires
            p & 0x20 != 0,
    ;
}

/// PHP followed by PLP, whatever P holds: the stack pointer is as it was,
/// and P is as it was but for B, which is clear, and U, which is set.
pub proof fn lemma_php_plp_normalises(m: Machine)
    requires
        m.wf(),
        m.runs(PHP),
        m.step().runs(PLP),
    ensures
        m.step().step().cpu.sp == m.cpu.sp,
        m.step().step().cpu.p == pulled(m.cpu.p),
        forall|f: Flags|
            f != Flags::Break && f != Flags::Unused ==> #[trigger] flag(m.step().step().cpu.p, f)
                == flag(m.cpu.p, f),
        !flag(m.step().step().cpu.p, Flags::Break),
        flag(m.step().step().cpu.p, Flags::Unused),
{
    reveal(entry);
    broadcast use lemma_flag_of_with_flag;

    let p = m.cpu.p;
    assert(m.step().step().cpu.p == pulled(pushed(p, true)));
    assert(pulled(pushed(p, true)) == pulled(p)) by {
        lemma_push_pull(p);
    }
}

/// What is pulled from a pushed copy of `p` is what is pulled from `p`.
proof fn lemma_push_pull(p: u8)
    ensures
        pulled(pushed(p, true)) == pulled(p),
        pulled(pushed(p, false)) == pulled(p),
{
    assert((((p | 0x10) | 0x20) & !0x10u8) | 0x20 == (p & !0x10u8) | 0x20) by (bit_vector);
    assert((((p & !0x10u8) | 0x20) & !0x10u8) | 0x20 == (p & !0x10u8) | 0x20) by (bit_vector);
}

/// JSR at any address followed by RTS brings the program counter to the
/// third byte after the JSR opcode, modulo the address space.
pub proof fn lemma_jsr_rts(m: Machine)
    requires
        m.wf(),
        m.runs(JSR),
        m.step().runs(RTS),
    ensures
        m.step().step().cpu.pc == m.cpu.pc.wrapping_add(3),
        m.step().step().cpu.sp == m.cpu.sp,
{
    reveal(entry);
    let ret = m.cpu.pc.wrapping_add(2);
    assert(word(low(ret), high(ret)) == ret);
}

/// The indirect JMP takes the low byte of its target from the pointer and
/// the high byte from the same page: after a pointer $xxFF the high byte
/// comes from $xx00, not from the next page.
pub proof fn lemma_jmp_indirect(m: Machine)
    requires
        m.wf(),
        m.runs(JMP_INDIRECT),
    ensures
        ({
            let ptr = m.read_word(m.cpu.pc.wrapping_add(1));
            let next = if low(ptr) == 0xFF {
                word(0x00, high(ptr))
            } else {
                (ptr + 1) as u16
            };
            m.step().cpu.pc == word(m.read(ptr), m.read(next))
        }),
        m.step_result() == Ok::<u8, CpuError>(5),
{
    reveal(entry);
}

/// An NMI is not lost. Once the input has gone from released to asserted, the
/// next step fetches no instruction: it enters the handler whose address is
/// kept at $FFFA, pushes the program counter and P with B clear, and takes
/// seven cycles. Only a reset that is pending at that moment comes first.
pub proof fn lemma_nmi_is_serviced(m: Machine)
    requires
        m.wf(),
        !m.cpu.nmi_edge_latch,
        m.cpu.pending_interrupt != Some(Interrupt::Reset),
    ensures
        ({
            let asserted = Machine { cpu: m.cpu.nmi_sampled(true), ..m };
            &&& asserted.step_result() == Ok::<u8, CpuError>(INTERRUPT_CYCLES)
            &&& asserted.step() == asserted.nmi().elapsed(INTERRUPT_CYCLES)
            &&& asserted.step().cpu.pc == m.read_word(NMI_VECTOR)
            &&& asserted.step().cpu.pending_interrupt is None
            &&& asserted.step().cpu.sp == m.cpu.sp.wrapping_sub(3)
            &&& asserted.step().read(stack_address(m.cpu.sp)) == high(m.cpu.pc)
            &&& asserted.step().read(stack_address(m.cpu.sp.wrapping_sub(1))) == low(m.cpu.pc)
            &&& asserted.step().read(stack_address(m.cpu.sp.wrapping_sub(2))) == pushed(
                m.cpu.p,
                false,
            )
            &&& flag(asserted.step().cpu.p, Flags::Interrupt)
        }),
{
    broadcast use lemma_flag_of_with_flag;

}

/// An NMI that is latched stays latched until it is serviced: neither the
/// release of its input nor the IRQ input drops it.
pub proof fn lemma_nmi_stays_latched(m: Machine, nmi: bool, irq: bool)
    requires
        m.cpu.pending_interrupt == Some(Interrupt::Nmi),
    ensures
        m.cpu.nmi_sampled(nmi).pending_interrupt == Some(Interrupt::Nmi),
        m.cpu.irq_sampled(irq).pending_interrupt == Some(Interrupt::Nmi),
        m.cpu.due() == Some(Interrupt::Nmi),
{
}

/// No instruction touches the cycle counter, the cycles owed to the clock,
/// the edge detector of the NMI input or the choice between strict and
/// liberal.
pub proof fn lemma_execute_keeps_bookkeeping(m: Machine, info: OpInfo)
    ensures
        m.execute(info).cpu.cycles == m.cpu.cycles,
        m.execute(info).cpu.clk == m.cpu.clk,
        m.execute(info).cpu.nmi_edge_latch == m.cpu.nmi_edge_latch,
        m.execute(info).cpu.strict == m.cpu.strict,
{
    let after = m.execute(info).cpu;
    let kept = after.cycles == m.cpu.cycles && after.clk == m.cpu.clk && after.nmi_edge_latch
        == m.cpu.nmi_edge_latch && after.strict == m.cpu.strict;
    match info.mnemonic {
        Mnemonic::Adc => assert(kept),
        Mnemonic::And => assert(kept),
        Mnemonic::Asl => assert(kept),
        Mnemonic::Bcc => assert(kept),
        Mnemonic::Bcs => assert(kept),
        Mnemonic::Beq => assert(kept),
        Mnemonic::Bit => assert(kept),
        Mnemonic::Bmi => assert(kept),
        Mnemonic::Bne => assert(kept),
        Mnemonic::Bpl => assert(kept),
        Mnemonic::Brk => assert(kept),
        Mnemonic::Bvc => assert(kept),
        Mnemonic::Bvs => assert(kept),
        Mnemonic::Clc => assert(kept),
        Mnemonic::Cld => assert(kept),
        Mnemonic::Cli => assert(kept),
        Mnemonic::Clv => assert(kept),
        Mnemonic::Cmp => assert(kept),
        Mnemonic::Cpx => assert(kept),
        Mnemonic::Cpy => assert(kept),
        Mnemonic::Dec => assert(kept),
        Mnemonic::Dex => assert(kept),
        Mnemonic::Dey => assert(kept),
        Mnemonic::Eor => assert(kept),
        Mnemonic::Inc => assert(kept),
        Mnemonic::Inx => assert(kept),
        Mnemonic::Iny => assert(kept),
        Mnemonic::Jmp => assert(kept),
        Mnemonic::Jsr => assert(kept),
        Mnemonic::Lda => assert(kept),
        Mnemonic::Ldx => assert(kept),
        Mnemonic::Ldy => assert(kept),
        Mnemonic::Lsr => assert(kept),
        Mnemonic::Nop => assert(kept),
        Mnemonic::Ora => assert(kept),
        Mnemonic::Pha => assert(kept),
        Mnemonic::Php => assert(kept),
        Mnemonic::Pla => assert(kept),
        Mnemonic::Plp => assert(kept),
        Mnemonic::Rol => assert(kept),
        Mnemonic::Ror => assert(kept),
        Mnemonic::Rti => assert(kept),
        Mnemonic::Rts => assert(kept),
        Mnemonic::Sbc => assert(kept),
        Mnemonic::Sec => assert(kept),
        Mnemonic::Sed => assert(kept),
        Mnemonic::Sei => assert(kept),
        Mnemonic::Sta => assert(kept),
        Mnemonic::Stx => assert(kept),
        Mnemonic::Sty => assert(kept),
        Mnemonic::Tax => assert(kept),
        Mnemonic::Tay => assert(kept),
        Mnemonic::Tsx => assert(kept),
        Mnemonic::Txa => assert(kept),
        Mnemonic::Txs => assert(kept),
        Mnemonic::Tya => assert(kept),
    }
}

/// The cycle counter never runs backwards.
pub proof fn lemma_cycles_monotonic(m: Machine)
    ensures
        m.step().cpu.cycles >= m.cpu.cycles,
        m.tick().cpu.cycles >= m.cpu.cycles,
{
    lemma_execute_keeps_bookkeeping(m.with_pc(m.cpu.pc.wrapping_add(1)), m.fetched());
}

/// Z and N say of `byte` whether it is zero and whether its bit 7 is set.
pub open spec fn reflects(p: u8, byte: u8) -> bool {
    flag(p, Flags::Zero) == (byte == 0) && flag(p, Flags::Negative) == (byte >= 0x80)
}

impl OpInfo {
    /// The instruction changes its operand in place, and the operand is
    /// the accumulator.
    pub open spec fn modifies_a(self) -> bool {
        self.mnemonic.access() == Access::Modify && self.mode == AddrMode::Accumulator
    }

    /// The instruction writes a result to A.
    pub open spec fn writes_a(self) -> bool {
        self.modifies_a() || self.mnemonic == Mnemonic::Adc || self.mnemonic == Mnemonic::And
            || self.mnemonic == Mnemonic::Eor || self.mnemonic == Mnemonic::Lda || self.mnemonic
            == Mnemonic::Ora || self.mnemonic == Mnemonic::Pla || self.mnemonic == Mnemonic::Sbc
            || self.mnemonic == Mnemonic::Txa || self.mnemonic == Mnemonic::Tya
    }

    /// The instruction writes a result to X.
    pub open spec fn writes_x(self) -> bool {
        self.mnemonic == Mnemonic::Dex || self.mnemonic == Mnemonic::Inx || self.mnemonic
            == Mnemonic::Ldx || self.mnemonic == Mnemonic::Tax || self.mnemonic == Mnemonic::Tsx
    }

    /// The instruction writes a result to Y.
    pub open spec fn writes_y(self) -> bool {
        self.mnemonic == Mnemonic::Dey || self.mnemonic == Mnemonic::Iny || self.mnemonic
            == Mnemonic::Ldy || self.mnemonic == Mnemonic::Tay
    }
}

/// After an instruction that writes a result to A, X or Y, or that changes
/// a byte of memory in place, Z and N reflect the byte that was stored.
pub proof fn lemma_zn_reflect_result(m: Machine, info: OpInfo)
    requires
        m.wf(),
    ensures
        info.writes_a() ==> reflects(m.execute(info).cpu.p, m.execute(info).cpu.a),
        info.writes_x() ==> reflects(m.execute(info).cpu.p, m.execute(info).cpu.x),
        info.writes_y() ==> reflects(m.execute(info).cpu.p, m.execute(info).cpu.y),
        info.mnemonic.access() == Access::Modify ==> forall|addr: u16|
            m.resolve(info.mode).operand == Operand::Memory(addr) ==> reflects(
                m.execute(info).cpu.p,
                #[trigger] m.execute(info).read(addr),
            ),
{
    broadcast use lemma_flag_of_with_flag;

    let after = m.execute(info);
    let holds = {
        &&& info.writes_a() ==> reflects(after.cpu.p, after.cpu.a)
        &&& info.writes_x() ==> reflects(after.cpu.p, after.cpu.x)
        &&& info.writes_y() ==> reflects(after.cpu.p, after.cpu.y)
        &&& info.mnemonic.access() == Access::Modify ==> forall|addr: u16|
            m.resolve(info.mode).operand == Operand::Memory(addr) ==> reflects(
                after.cpu.p,
                #[trigger] after.read(addr),
            )
    };
    match info.mnemonic {
        Mnemonic::Adc => assert(holds),
        Mnemonic::And => assert(holds),
        Mnemonic::Asl => assert(holds),
        Mnemonic::Bcc => assert(holds),
        Mnemonic::Bcs => assert(holds),
        Mnemonic::Beq => assert(holds),
        Mnemonic::Bit => assert(holds),
        Mnemonic::Bmi => assert(holds),
        Mnemonic::Bne => assert(holds),
        Mnemonic::Bpl => assert(holds),
        Mnemonic::Brk => assert(holds),
        Mnemonic::Bvc => assert(holds),
        Mnemonic::Bvs => assert(holds),
        Mnemonic::Clc => assert(holds),
        Mnemonic::Cld => assert(holds),
        Mnemonic::Cli => assert(holds),
        Mnemonic::Clv => assert(holds),
        Mnemonic::Cmp => assert(holds),
        Mnemonic::Cpx => assert(holds),
        Mnemonic::Cpy => assert(holds),
        Mnemonic::Dec => assert(holds),
        Mnemonic::Dex => assert(holds),
        Mnemonic::Dey => assert(holds),
        Mnemonic::Eor => assert(holds),
        Mnemonic::Inc => assert(holds),
        Mnemonic::Inx => assert(holds),
        Mnemonic::Iny => assert(holds),
        Mnemonic::Jmp => assert(holds),
        Mnemonic::Jsr => assert(holds),
        Mnemonic::Lda => assert(holds),
        Mnemonic::Ldx => assert(holds),
        Mnemonic::Ldy => assert(holds),
        Mnemonic::Lsr => assert(holds),
        Mnemonic::Nop => assert(holds),
        Mnemonic::Ora => assert(holds),
        Mnemonic::Pha => assert(holds),
        Mnemonic::Php => assert(holds),
        Mnemonic::Pla => assert(holds),
        Mnemonic::Plp => assert(holds),
        Mnemonic::Rol => assert(holds),
        Mnemonic::Ror => assert(holds),
        Mnemonic::Rti => assert(holds),
        Mnemonic::Rts => assert(holds),
        Mnemonic::Sbc => assert(holds),
        Mnemonic::Sec => assert(holds),
        Mnemonic::Sed => assert(holds),
        Mnemonic::Sei => assert(holds),
        Mnemonic::Sta => assert(holds),
        Mnemonic::Stx => assert(holds),
        Mnemonic::Sty => assert(holds),
        Mnemonic::Tax => assert(holds),
        Mnemonic::Tay => assert(holds),
        Mnemonic::Tsx => assert(holds),
        Mnemonic::Txa => assert(holds),
        Mnemonic::Txs => assert(holds),
        Mnemonic::Tya => assert(holds),
    }
}

/// Stores, jumps, branches, pushes, TXS, RTS and NOP leave every flag as it
/// was.
pub proof fn lemma_status_kept(m: Machine, info: OpInfo)
    requires
        info.mnemonic.access() == Access::Write || info.mnemonic.access() == Access::Branch
            || info.mnemonic.access() == Access::Jump || info.mnemonic == Mnemonic::Txs
            || info.mnemonic == Mnemonic::Pha || info.mnemonic == Mnemonic::Php
            || info.mnemonic == Mnemonic::Rts || info.mnemonic == Mnemonic::Nop,
    ensures
        m.execute(info).cpu.p == m.cpu.p,
{
    let holds = m.execute(info).cpu.p == m.cpu.p;
    match info.mnemonic {
        Mnemonic::Adc => assert(holds),
        Mnemonic::And => assert(holds),
        Mnemonic::Asl => assert(holds),
        Mnemonic::Bcc => assert(holds),
        Mnemonic::Bcs => assert(holds),
        Mnemonic::Beq => assert(holds),
        Mnemonic::Bit => assert(holds),
        Mnemonic::Bmi => assert(holds),
        Mnemonic::Bne => assert(holds),
        Mnemonic::Bpl => assert(holds),
        Mnemonic::Brk => assert(holds),
        Mnemonic::Bvc => assert(holds),
        Mnemonic::Bvs => assert(holds),
        Mnemonic::Clc => assert(holds),
        Mnemonic::Cld => assert(holds),
        Mnemonic::Cli => assert(holds),
        Mnemonic::Clv => assert(holds),
        Mnemonic::Cmp => assert(holds),
        Mnemonic::Cpx => assert(holds),
        Mnemonic::Cpy => assert(holds),
        Mnemonic::Dec => assert(holds),
        Mnemonic::Dex => assert(holds),
        Mnemonic::Dey => assert(holds),
        Mnemonic::Eor => assert(holds),
        Mnemonic::Inc => assert(holds),
        Mnemonic::Inx => assert(holds),
        Mnemonic::Iny => assert(holds),
        Mnemonic::Jmp => assert(holds),
        Mnemonic::Jsr => assert(holds),
        Mnemonic::Lda => assert(holds),
        Mnemonic::Ldx => assert(holds),
        Mnemonic::Ldy => assert(holds),
        Mnemonic::Lsr => assert(holds),
        Mnemonic::Nop => assert(holds),
        Mnemonic::Ora => assert(holds),
        Mnemonic::Pha => assert(holds),
        Mnemonic::Php => assert(holds),
        Mnemonic::Pla => assert(holds),
        Mnemonic::Plp => assert(holds),
        Mnemonic::Rol => assert(holds),
        Mnemonic::Ror => assert(holds),
        Mnemonic::Rti => assert(holds),
        Mnemonic::Rts => assert(holds),
        Mnemonic::Sbc => assert(holds),
        Mnemonic::Sec => assert(holds),
        Mnemonic::Sed => assert(holds),
        Mnemonic::Sei => assert(holds),
        Mnemonic::Sta => assert(holds),
        Mnemonic::Stx => assert(holds),
        Mnemonic::Sty => assert(holds),
        Mnemonic::Tax => assert(holds),
        Mnemonic::Tay => assert(holds),
        Mnemonic::Tsx => assert(holds),
        Mnemonic::Txa => assert(holds),
        Mnemonic::Txs => assert(holds),
        Mnemonic::Tya => assert(holds),
    }
}

/// The comparisons and BIT write no register but P, and no memory.
pub proof fn lemma_compare_writes_nothing(m: Machine, info: OpInfo)
    requires
        info.mnemonic == Mnemonic::Cmp || info.mnemonic == Mnemonic::Cpx || info.mnemonic
            == Mnemonic::Cpy || info.mnemonic == Mnemonic::Bit,
    ensures
        m.execute(info) == m.past(info.mode).with_p(m.execute(info).cpu.p),
{
}

impl Mnemonic {
    /// The instruction defines C: the additions, the comparisons, the
    /// shifts, CLC and SEC, and the two that pull P.
    pub open spec fn defines_carry(self) -> bool {
        self == Mnemonic::Adc || self == Mnemonic::Sbc || self == Mnemonic::Cmp || self
            == Mnemonic::Cpx || self == Mnemonic::Cpy || self == Mnemonic::Asl || self
            == Mnemonic::Lsr || self == Mnemonic::Rol || self == Mnemonic::Ror || self
            == Mnemonic::Clc || self == Mnemonic::Sec || self == Mnemonic::Plp || self
            == Mnemonic::Rti
    }

    /// The instruction defines V: the additions, BIT, CLV, and the two
    /// that pull P.
    pub open spec fn defines_overflow(self) -> bool {
        self == Mnemonic::Adc || self == Mnemonic::Sbc || self == Mnemonic::Bit || self
            == Mnemonic::Clv || self == Mnemonic::Plp || self == Mnemonic::Rti
    }
}

/// C and V are touched only by the instructions that define them.
pub proof fn lemma_carry_and_overflow_kept(m: Machine, info: OpInfo)
    ensures
        !info.mnemonic.defines_carry() ==> flag(m.execute(info).cpu.p, Flags::Carry) == flag(
            m.cpu.p,
            Flags::Carry,
        ),
        !info.mnemonic.defines_overflow() ==> flag(m.execute(info).cpu.p, Flags::Overflow)
            == flag(m.cpu.p, Flags::Overflow),
{
    broadcast use lemma_flag_of_with_flag;

    let after = m.execute(info).cpu.p;
    let holds = {
        &&& !info.mnemonic.defines_carry() ==> flag(after, Flags::Carry) == flag(
            m.cpu.p,
            Flags::Carry,
        )
        &&& !info.mnemonic.defines_overflow() ==> flag(after, Flags::Overflow) == flag(
            m.cpu.p,
            Flags::Overflow,
        )
    };
    match info.mnemonic {
        Mnemonic::Adc => assert(holds),
        Mnemonic::And => assert(holds),
        Mnemonic::Asl => assert(holds),
        Mnemonic::Bcc => assert(holds),
        Mnemonic::Bcs => assert(holds),
        Mnemonic::Beq => assert(holds),
        Mnemonic::Bit => assert(holds),
        Mnemonic::Bmi => assert(holds),
        Mnemonic::Bne => assert(holds),
        Mnemonic::Bpl => assert(holds),
        Mnemonic::Brk => assert(holds),
        Mnemonic::Bvc => assert(holds),
        Mnemonic::Bvs => assert(holds),
        Mnemonic::Clc => assert(holds),
        Mnemonic::Cld => assert(holds),
        Mnemonic::Cli => assert(holds),
        Mnemonic::Clv => assert(holds),
        Mnemonic::Cmp => assert(holds),
        Mnemonic::Cpx => assert(holds),
        Mnemonic::Cpy => assert(holds),
        Mnemonic::Dec => assert(holds),
        Mnemonic::Dex => assert(holds),
        Mnemonic::Dey => assert(holds),
        Mnemonic::Eor => assert(holds),
        Mnemonic::Inc => assert(holds),
        Mnemonic::Inx => assert(holds),
        Mnemonic::Iny => assert(holds),
        Mnemonic::Jmp => assert(holds),
        Mnemonic::Jsr => assert(holds),
        Mnemonic::Lda => assert(holds),
        Mnemonic::Ldx => assert(holds),
        Mnemonic::Ldy => assert(holds),
        Mnemonic::Lsr => assert(holds),
        Mnemonic::Nop => assert(holds),
        Mnemonic::Ora => assert(holds),
        Mnemonic::Pha => assert(holds),
        Mnemonic::Php => assert(holds),
        Mnemonic::Pla => assert(holds),
        Mnemonic::Plp => assert(holds),
        Mnemonic::Rol => assert(holds),
        Mnemonic::Ror => assert(holds),
        Mnemonic::Rti => assert(holds),
        Mnemonic::Rts => assert(holds),
        Mnemonic::Sbc => assert(holds),
        Mnemonic::Sec => assert(holds),
        Mnemonic::Sed => assert(holds),
        Mnemonic::Sei => assert(holds),
        Mnemonic::Sta => assert(holds),
        Mnemonic::Stx => assert(holds),
        Mnemonic::Sty => assert(holds),
        Mnemonic::Tax => assert(holds),
        Mnemonic::Tay => assert(holds),
        Mnemonic::Tsx => assert(holds),
        Mnemonic::Txa => assert(holds),
        Mnemonic::Txs => assert(holds),
        Mnemonic::Tya => assert(holds),
    }
}

/// The cycles of a step that executes an instruction are the base cycles
/// of the table and the penalty that the table names: for a read through an
/// indexed mode, one cycle if the index carries into the high byte of the
/// address; for a branch, one cycle if it is taken and one more if its target
/// lies on another page than the instruction after it.
pub proof fn lemma_step_cycles(m: Machine)
    requires
        m.cpu.due() is None,
        !m.refused(),
    ensures
        ({
            let info = m.fetched();
            let operand = m.with_pc(m.cpu.pc.wrapping_add(1)).resolve(info.mode);
            let taken = m.branch_taken(info.mnemonic);
            m.step_result() == Ok::<u8, CpuError>(
                (info.cycles + match info.penalty {
                    Penalty::Never => 0int,
                    Penalty::PageCross => if operand.cycle {
                        1int
                    } else {
                        0int
                    },
                    Penalty::BranchTaken => if !taken {
                        0int
                    } else if operand.cycle {
                        2int
                    } else {
                        1int
                    },
                }) as u8,
            )
        }),
        m.step_result() matches Ok(cycles) && 2 <= cycles <= 7,
        m.step().cpu.cycles == m.cpu.cycles.saturating_add(m.step_result()->Ok_0 as u64),
{
    lemma_entry_well_formed(m.read(m.cpu.pc));
    lemma_execute_keeps_bookkeeping(m.with_pc(m.cpu.pc.wrapping_add(1)), m.fetched());
}

impl Machine {
    /// The machine after `n` clock ticks that all succeed.
    pub open spec fn ticks(self, n: nat) -> Machine
        decreases n,
    {
        if n == 0 {
            self
        } else {
            self.tick().ticks((n - 1) as nat)
        }
    }
}

/// While cycles are owed, ticks do nothing but pay them off.
pub proof fn lemma_ticks_pay_off(m: Machine, n: nat)
    requires
        n <= m.cpu.clk,
    ensures
        m.ticks(n) == m.owing((m.cpu.clk - n) as u8),
    decreases n,
{
    if n > 0 {
        lemma_ticks_pay_off(m.tick(), (n - 1) as nat);
    }
}

/// The two drivers agree: where a step takes `n` cycles, `n` clock ticks
/// do what the step does, and then no cycle is owed.
pub proof fn lemma_ticks_of_a_step(m: Machine)
    requires
        m.cpu.clk == 0,
        m.step_result() is Ok,
    ensures
        m.ticks(m.step_result()->Ok_0 as nat) == m.step(),
{
    let n = m.step_result()->Ok_0;
    if m.cpu.due() is None {
        lemma_step_cycles(m);
        lemma_execute_keeps_bookkeeping(m.with_pc(m.cpu.pc.wrapping_add(1)), m.fetched());
    }
    assert(m.step().cpu.clk == 0);
    lemma_ticks_pay_off(m.tick(), (n - 1) as nat);
}

/// An index crosses a page exactly when adding it to the low byte of the
/// address carries.
pub proof fn lemma_page_cross_is_carry(base: u16, index: u8)
    requires
        base + index <= 0xFFFF,
    ensures
        indexed(base, index).cycle <==> low(base) + index > 0xFF,
{
}

/// A branch crosses a page exactly when its target and the instruction
/// after the branch have different high bytes.
pub proof fn lemma_branch_page_cross(m: Machine)
    ensures
        m.resolve(AddrMode::Relative).cycle <==> high(m.target(AddrMode::Relative)) != high(
            m.past(AddrMode::Relative).cpu.pc,
        ),
        m.target(AddrMode::Relative) == displaced(
            m.past(AddrMode::Relative).cpu.pc,
            m.read(m.cpu.pc),
        ),
{
}

/// V after an addition says that the sum of the operands, read as signed
/// numbers, does not fit in a signed byte. C says that the sum of the
/// operands, read as unsigned numbers, does not fit in a byte.
pub proof fn lemma_add_flags(cpu: MOS6502, byte: u8)
    ensures
        cpu.sum_with(byte).a == (cpu.a + byte + carry_in(cpu.p)) % 256,
        flag(cpu.sum_with(byte).p, Flags::Carry) <==> cpu.a + byte + carry_in(cpu.p) > 255,
        flag(cpu.sum_with(byte).p, Flags::Overflow) <==> !(-128 <= signed(cpu.a) + signed(byte)
            + carry_in(cpu.p) <= 127),
        reflects(cpu.sum_with(byte).p, cpu.sum_with(byte).a),
{
    broadcast use lemma_flag_of_with_flag;

    let a = cpu.a;
    let r = ((a + byte + carry_in(cpu.p)) % 256) as u8;
    assert(((a ^ r) & (byte ^ r) & 0x80u8 != 0) <==> ((a >= 128) == (byte >= 128) && (a >= 128)
        != (r >= 128))) by (bit_vector);
}

/// SBC subtracts: with the carry as an inverted borrow, A becomes
/// A - M - (1 - C) modulo 256, and C says that no borrow was needed.
pub proof fn lemma_sbc_subtracts(cpu: MOS6502, byte: u8)
    ensures
        cpu.sum_with(byte ^ 0xFF).a == (cpu.a - byte - (1 - carry_in(cpu.p))) % 256,
        flag(cpu.sum_with(byte ^ 0xFF).p, Flags::Carry) <==> cpu.a - byte - (1 - carry_in(cpu.p))
            >= 0,
{
    broadcast use lemma_flag_of_with_flag;

    assert(byte ^ 0xFF == 255 - byte) by (bit_vector);
}

} // verus!
