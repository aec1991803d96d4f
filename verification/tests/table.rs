use mos6502::addressing::AddrMode;
use mos6502::cpu_6502::MOS6502;
use mos6502::cpu_bus::Bus;
use mos6502::executor::CpuError;
use mos6502::opcodes::{decode, Access, Mnemonic, OpInfo, Penalty};

fn documented() -> Vec<(u8, Mnemonic, AddrMode, u8, Penalty)> {
    vec![
        (0x00, Mnemonic::Brk, AddrMode::Implied, 7, Penalty::Never),
        (0x01, Mnemonic::Ora, AddrMode::IndexedIndirect, 6, Penalty::Never),
        (0x05, Mnemonic::Ora, AddrMode::ZeroPage, 3, Penalty::Never),
        (0x06, Mnemonic::Asl, AddrMode::ZeroPage, 5, Penalty::Never),
        (0x08, Mnemonic::Php, AddrMode::Implied, 3, Penalty::Never),
        (0x09, Mnemonic::Ora, AddrMode::Immediate, 2, Penalty::Never),
        (0x0A, Mnemonic::Asl, AddrMode::Accumulator, 2, Penalty::Never),
        (0x0D, Mnemonic::Ora, AddrMode::Absolute, 4, Penalty::Never),
        (0x0E, Mnemonic::Asl, AddrMode::Absolute, 6, Penalty::Never),
        (0x10, Mnemonic::Bpl, AddrMode::Relative, 2, Penalty::BranchTaken),
        (0x11, Mnemonic::Ora, AddrMode::IndirectIndexed, 5, Penalty::PageCross),
        (0x15, Mnemonic::Ora, AddrMode::ZeroPageX, 4, Penalty::Never),
        (0x16, Mnemonic::Asl, AddrMode::ZeroPageX, 6, Penalty::Never),
        (0x18, Mnemonic::Clc, AddrMode::Implied, 2, Penalty::Never),
        (0x19, Mnemonic::Ora, AddrMode::AbsoluteY, 4, Penalty::PageCross),
        (0x1D, Mnemonic::Ora, AddrMode::AbsoluteX, 4, Penalty::PageCross),
        (0x1E, Mnemonic::Asl, AddrMode::AbsoluteX, 7, Penalty::Never),
        (0x20, Mnemonic::Jsr, AddrMode::Absolute, 6, Penalty::Never),
        (0x21, Mnemonic::And, AddrMode::IndexedIndirect, 6, Penalty::Never),
        (0x24, Mnemonic::Bit, AddrMode::ZeroPage, 3, Penalty::Never),
        (0x25, Mnemonic::And, AddrMode::ZeroPage, 3, Penalty::Never),
        (0x26, Mnemonic::Rol, AddrMode::ZeroPage, 5, Penalty::Never),
        (0x28, Mnemonic::Plp, AddrMode::Implied, 4, Penalty::Never),
        (0x29, Mnemonic::And, AddrMode::Immediate, 2, Penalty::Never),
        (0x2A, Mnemonic::Rol, AddrMode::Accumulator, 2, Penalty::Never),
        (0x2C, Mnemonic::Bit, AddrMode::Absolute, 4, Penalty::Never),
        (0x2D, Mnemonic::And, AddrMode::Absolute, 4, Penalty::Never),
        (0x2E, Mnemonic::Rol, AddrMode::Absolute, 6, Penalty::Never),
        (0x30, Mnemonic::Bmi, AddrMode::Relative, 2, Penalty::BranchTaken),
        (0x31, Mnemonic::And, AddrMode::IndirectIndexed, 5, Penalty::PageCross),
        (0x35, Mnemonic::And, AddrMode::ZeroPageX, 4, Penalty::Never),
        (0x36, Mnemonic::Rol, AddrMode::ZeroPageX, 6, Penalty::Never),
        (0x38, Mnemonic::Sec, AddrMode::Implied, 2, Penalty::Never),
        (0x39, Mnemonic::And, AddrMode::AbsoluteY, 4, Penalty::PageCross),
        (0x3D, Mnemonic::And, AddrMode::AbsoluteX, 4, Penalty::PageCross),
        (0x3E, Mnemonic::Rol, AddrMode::AbsoluteX, 7, Penalty::Never),
        (0x40, Mnemonic::Rti, AddrMode::Implied, 6, Penalty::Never),
        (0x41, Mnemonic::Eor, AddrMode::IndexedIndirect, 6, Penalty::Never),
        (0x45, Mnemonic::Eor, AddrMode::ZeroPage, 3, Penalty::Never),
        (0x46, Mnemonic::Lsr, AddrMode::ZeroPage, 5, Penalty::Never),
        (0x48, Mnemonic::Pha, AddrMode::Implied, 3, Penalty::Never),
        (0x49, Mnemonic::Eor, AddrMode::Immediate, 2, Penalty::Never),
        (0x4A, Mnemonic::Lsr, AddrMode::Accumulator, 2, Penalty::Never),
        (0x4C, Mnemonic::Jmp, AddrMode::Absolute, 3, Penalty::Never),
        (0x4D, Mnemonic::Eor, AddrMode::Absolute, 4, Penalty::Never),
        (0x4E, Mnemonic::Lsr, AddrMode::Absolute, 6, Penalty::Never),
        (0x50, Mnemonic::Bvc, AddrMode::Relative, 2, Penalty::BranchTaken),
        (0x51, Mnemonic::Eor, AddrMode::IndirectIndexed, 5, Penalty::PageCross),
        (0x55, Mnemonic::Eor, AddrMode::ZeroPageX, 4, Penalty::Never),
        (0x56, Mnemonic::Lsr, AddrMode::ZeroPageX, 6, Penalty::Never),
        (0x58, Mnemonic::Cli, AddrMode::Implied, 2, Penalty::Never),
        (0x59, Mnemonic::Eor, AddrMode::AbsoluteY, 4, Penalty::PageCross),
        (0x5D, Mnemonic::Eor, AddrMode::AbsoluteX, 4, Penalty::PageCross),
        (0x5E, Mnemonic::Lsr, AddrMode::AbsoluteX, 7, Penalty::Never),
        (0x60, Mnemonic::Rts, AddrMode::Implied, 6, Penalty::Never),
        (0x61, Mnemonic::Adc, AddrMode::IndexedIndirect, 6, Penalty::Never),
        (0x65, Mnemonic::Adc, AddrMode::ZeroPage, 3, Penalty::Never),
        (0x66, Mnemonic::Ror, AddrMode::ZeroPage, 5, Penalty::Never),
        (0x68, Mnemonic::Pla, AddrMode::Implied, 4, Penalty::Never),
        (0x69, Mnemonic::Adc, AddrMode::Immediate, 2, Penalty::Never),
        (0x6A, Mnemonic::Ror, AddrMode::Accumulator, 2, Penalty::Never),
        (0x6C, Mnemonic::Jmp, AddrMode::Indirect, 5, Penalty::Never),
        (0x6D, Mnemonic::Adc, AddrMode::Absolute, 4, Penalty::Never),
        (0x6E, Mnemonic::Ror, AddrMode::Absolute, 6, Penalty::Never),
        (0x70, Mnemonic::Bvs, AddrMode::Relative, 2, Penalty::BranchTaken),
        (0x71, Mnemonic::Adc, AddrMode::IndirectIndexed, 5, Penalty::PageCross),
        (0x75, Mnemonic::Adc, AddrMode::ZeroPageX, 4, Penalty::Never),
        (0x76, Mnemonic::Ror, AddrMode::ZeroPageX, 6, Penalty::Never),
        (0x78, Mnemonic::Sei, AddrMode::Implied, 2, Penalty::Never),
        (0x79, Mnemonic::Adc, AddrMode::AbsoluteY, 4, Penalty::PageCross),
        (0x7D, Mnemonic::Adc, AddrMode::AbsoluteX, 4, Penalty::PageCross),
        (0x7E, Mnemonic::Ror, AddrMode::AbsoluteX, 7, Penalty::Never),
        (0x81, Mnemonic::Sta, AddrMode::IndexedIndirect, 6, Penalty::Never),
        (0x84, Mnemonic::Sty, AddrMode::ZeroPage, 3, Penalty::Never),
        (0x85, Mnemonic::Sta, AddrMode::ZeroPage, 3, Penalty::Never),
        (0x86, Mnemonic::Stx, AddrMode::ZeroPage, 3, Penalty::Never),
        (0x88, Mnemonic::Dey, AddrMode::Implied, 2, Penalty::Never),
        (0x8A, Mnemonic::Txa, AddrMode::Implied, 2, Penalty::Never),
        (0x8C, Mnemonic::Sty, AddrMode::Absolute, 4, Penalty::Never),
        (0x8D, Mnemonic::Sta, AddrMode::Absolute, 4, Penalty::Never),
        (0x8E, Mnemonic::Stx, AddrMode::Absolute, 4, Penalty::Never),
        (0x90, Mnemonic::Bcc, AddrMode::Relative, 2, Penalty::BranchTaken),
        (0x91, Mnemonic::Sta, AddrMode::IndirectIndexed, 6, Penalty::Never),
        (0x94, Mnemonic::Sty, AddrMode::ZeroPageX, 4, Penalty::Never),
        (0x95, Mnemonic::Sta, AddrMode::ZeroPageX, 4, Penalty::Never),
        (0x96, Mnemonic::Stx, AddrMode::ZeroPageY, 4, Penalty::Never),
        (0x98, Mnemonic::Tya, AddrMode::Implied, 2, Penalty::Never),
        (0x99, Mnemonic::Sta, AddrMode::AbsoluteY, 5, Penalty::Never),
        (0x9A, Mnemonic::Txs, AddrMode::Implied, 2, Penalty::Never),
        (0x9D, Mnemonic::Sta, AddrMode::AbsoluteX, 5, Penalty::Never),
        (0xA0, Mnemonic::Ldy, AddrMode::Immediate, 2, Penalty::Never),
        (0xA1, Mnemonic::Lda, AddrMode::IndexedIndirect, 6, Penalty::Never),
        (0xA2, Mnemonic::Ldx, AddrMode::Immediate, 2, Penalty::Never),
        (0xA4, Mnemonic::Ldy, AddrMode::ZeroPage, 3, Penalty::Never),
        (0xA5, Mnemonic::Lda, AddrMode::ZeroPage, 3, Penalty::Never),
        (0xA6, Mnemonic::Ldx, AddrMode::ZeroPage, 3, Penalty::Never),
        (0xA8, Mnemonic::Tay, AddrMode::Implied, 2, Penalty::Never),
        (0xA9, Mnemonic::Lda, AddrMode::Immediate, 2, Penalty::Never),
        (0xAA, Mnemonic::Tax, AddrMode::Implied, 2, Penalty::Never),
        (0xAC, Mnemonic::Ldy, AddrMode::Absolute, 4, Penalty::Never),
        (0xAD, Mnemonic::Lda, AddrMode::Absolute, 4, Penalty::Never),
        (0xAE, Mnemonic::Ldx, AddrMode::Absolute, 4, Penalty::Never),
        (0xB0, Mnemonic::Bcs, AddrMode::Relative, 2, Penalty::BranchTaken),
        (0xB1, Mnemonic::Lda, AddrMode::IndirectIndexed, 5, Penalty::PageCross),
        (0xB4, Mnemonic::Ldy, AddrMode::ZeroPageX, 4, Penalty::Never),
        (0xB5, Mnemonic::Lda, AddrMode::ZeroPageX, 4, Penalty::Never),
        (0xB6, Mnemonic::Ldx, AddrMode::ZeroPageY, 4, Penalty::Never),
        (0xB8, Mnemonic::Clv, AddrMode::Implied, 2, Penalty::Never),
        (0xB9, Mnemonic::Lda, AddrMode::AbsoluteY, 4, Penalty::PageCross),
        (0xBA, Mnemonic::Tsx, AddrMode::Implied, 2, Penalty::Never),
        (0xBC, Mnemonic::Ldy, AddrMode::AbsoluteX, 4, Penalty::PageCross),
        (0xBD, Mnemonic::Lda, AddrMode::AbsoluteX, 4, Penalty::PageCross),
        (0xBE, Mnemonic::Ldx, AddrMode::AbsoluteY, 4, Penalty::PageCross),
        (0xC0, Mnemonic::Cpy, AddrMode::Immediate, 2, Penalty::Never),
        (0xC1, Mnemonic::Cmp, AddrMode::IndexedIndirect, 6, Penalty::Never),
        (0xC4, Mnemonic::Cpy, AddrMode::ZeroPage, 3, Penalty::Never),
        (0xC5, Mnemonic::Cmp, AddrMode::ZeroPage, 3, Penalty::Never),
        (0xC6, Mnemonic::Dec, AddrMode::ZeroPage, 5, Penalty::Never),
        (0xC8, Mnemonic::Iny, AddrMode::Implied, 2, Penalty::Never),
        (0xC9, Mnemonic::Cmp, AddrMode::Immediate, 2, Penalty::Never),
        (0xCA, Mnemonic::Dex, AddrMode::Implied, 2, Penalty::Never),
        (0xCC, Mnemonic::Cpy, AddrMode::Absolute, 4, Penalty::Never),
        (0xCD, Mnemonic::Cmp, AddrMode::Absolute, 4, Penalty::Never),
        (0xCE, Mnemonic::Dec, AddrMode::Absolute, 6, Penalty::Never),
        (0xD0, Mnemonic::Bne, AddrMode::Relative, 2, Penalty::BranchTaken),
        (0xD1, Mnemonic::Cmp, AddrMode::IndirectIndexed, 5, Penalty::PageCross),
        (0xD5, Mnemonic::Cmp, AddrMode::ZeroPageX, 4, Penalty::Never),
        (0xD6, Mnemonic::Dec, AddrMode::ZeroPageX, 6, Penalty::Never),
        (0xD8, Mnemonic::Cld, AddrMode::Implied, 2, Penalty::Never),
        (0xD9, Mnemonic::Cmp, AddrMode::AbsoluteY, 4, Penalty::PageCross),
        (0xDD, Mnemonic::Cmp, AddrMode::AbsoluteX, 4, Penalty::PageCross),
        (0xDE, Mnemonic::Dec, AddrMode::AbsoluteX, 7, Penalty::Never),
        (0xE0, Mnemonic::Cpx, AddrMode::Immediate, 2, Penalty::Never),
        (0xE1, Mnemonic::Sbc, AddrMode::IndexedIndirect, 6, Penalty::Never),
        (0xE4, Mnemonic::Cpx, AddrMode::ZeroPage, 3, Penalty::Never),
        (0xE5, Mnemonic::Sbc, AddrMode::ZeroPage, 3, Penalty::Never),
        (0xE6, Mnemonic::Inc, AddrMode::ZeroPage, 5, Penalty::Never),
        (0xE8, Mnemonic::Inx, AddrMode::Implied, 2, Penalty::Never),
        (0xE9, Mnemonic::Sbc, AddrMode::Immediate, 2, Penalty::Never),
        (0xEA, Mnemonic::Nop, AddrMode::Implied, 2, Penalty::Never),
        (0xEC, Mnemonic::Cpx, AddrMode::Absolute, 4, Penalty::Never),
        (0xED, Mnemonic::Sbc, AddrMode::Absolute, 4, Penalty::Never),
        (0xEE, Mnemonic::Inc, AddrMode::Absolute, 6, Penalty::Never),
        (0xF0, Mnemonic::Beq, AddrMode::Relative, 2, Penalty::BranchTaken),
        (0xF1, Mnemonic::Sbc, AddrMode::IndirectIndexed, 5, Penalty::PageCross),
        (0xF5, Mnemonic::Sbc, AddrMode::ZeroPageX, 4, Penalty::Never),
        (0xF6, Mnemonic::Inc, AddrMode::ZeroPageX, 6, Penalty::Never),
        (0xF8, Mnemonic::Sed, AddrMode::Implied, 2, Penalty::Never),
        (0xF9, Mnemonic::Sbc, AddrMode::AbsoluteY, 4, Penalty::PageCross),
        (0xFD, Mnemonic::Sbc, AddrMode::AbsoluteX, 4, Penalty::PageCross),
        (0xFE, Mnemonic::Inc, AddrMode::AbsoluteX, 7, Penalty::Never),
    ]
}

#[test]
fn the_table_holds_the_documented_opcodes() {
    let table = documented();
    assert_eq!(table.len(), 151);
    for (opcode, mnemonic, mode, cycles, penalty) in table {
        let info = decode(opcode);
        assert_eq!(
            info,
            OpInfo { mnemonic, mode, cycles, penalty, illegal: false },
            "opcode {:02X}",
            opcode
        );
    }
}

#[test]
fn the_other_opcodes_are_illegal() {
    let table = documented();
    let mut illegal = 0;
    for opcode in 0..=255u8 {
        if table.iter().any(|row| row.0 == opcode) {
            continue;
        }
        illegal += 1;
        assert_eq!(
            decode(opcode),
            OpInfo {
                mnemonic: Mnemonic::Nop,
                mode: AddrMode::Implied,
                cycles: 2,
                penalty: Penalty::Never,
                illegal: true,
            }
        );
    }
    assert_eq!(illegal, 105);
}

#[test]
fn timed_follows_the_kind_of_access() {
    assert_eq!(OpInfo::timed(Mnemonic::Lda, AddrMode::IndirectIndexed).cycles, 5);
    assert_eq!(OpInfo::timed(Mnemonic::Lda, AddrMode::IndirectIndexed).penalty, Penalty::PageCross);
    assert_eq!(OpInfo::timed(Mnemonic::Sta, AddrMode::IndirectIndexed).cycles, 6);
    assert_eq!(OpInfo::timed(Mnemonic::Sta, AddrMode::IndirectIndexed).penalty, Penalty::Never);
    assert_eq!(OpInfo::timed(Mnemonic::Inc, AddrMode::AbsoluteX).cycles, 7);
    assert_eq!(OpInfo::timed(Mnemonic::Ror, AddrMode::Accumulator).cycles, 2);
    assert_eq!(OpInfo::timed(Mnemonic::Beq, AddrMode::Relative).penalty, Penalty::BranchTaken);
    assert_eq!(OpInfo::timed(Mnemonic::Jmp, AddrMode::Indirect).cycles, 5);
    assert_eq!(OpInfo::timed(Mnemonic::Brk, AddrMode::Implied).cycles, 7);
    assert!(!OpInfo::timed(Mnemonic::Brk, AddrMode::Implied).illegal);
}

#[test]
fn access_sorts_the_instructions() {
    assert_eq!(Mnemonic::Cmp.access(), Access::Read);
    assert_eq!(Mnemonic::Bit.access(), Access::Read);
    assert_eq!(Mnemonic::Sty.access(), Access::Write);
    assert_eq!(Mnemonic::Dec.access(), Access::Modify);
    assert_eq!(Mnemonic::Bvs.access(), Access::Branch);
    assert_eq!(Mnemonic::Jsr.access(), Access::Jump);
    assert_eq!(Mnemonic::Rti.access(), Access::Stack);
    assert_eq!(Mnemonic::Txs.access(), Access::Register);
    assert_eq!(Mnemonic::Nop.access(), Access::Status);
}

#[test]
fn every_documented_opcode_takes_its_base_cycles() {
    // With zeroed registers and memory no index crosses a page, and the
    // flags are set so that no branch is taken.
    for (opcode, mnemonic, _, cycles, _) in documented() {
        let mut bus = Bus::new();
        bus.write(0x8000, opcode);
        let mut cpu = MOS6502::new();
        cpu.pending_interrupt = None;
        cpu.pc = 0x8000;
        cpu.p = match mnemonic {
            Mnemonic::Bcs | Mnemonic::Beq | Mnemonic::Bmi | Mnemonic::Bvs => 0x00,
            _ => 0xC3,
        };
        assert_eq!(cpu.step(&mut bus), Ok(cycles), "opcode {:02X}", opcode);
        assert_eq!(cpu.cycles, cycles as u64);
    }
}

#[test]
fn only_reads_pay_for_a_page_crossing() {
    // Every index carries into the high byte here.
    for (opcode, _, mode, cycles, penalty) in documented() {
        let crossing = matches!(
            mode,
            AddrMode::AbsoluteX | AddrMode::AbsoluteY | AddrMode::IndirectIndexed
        );
        if !crossing {
            continue;
        }
        let mut bus = Bus::new();
        bus.write(0x8000, opcode);
        bus.write(0x8001, 0xFF);
        bus.write(0x8002, 0x20);
        bus.write(0x00FF, 0xFF);
        bus.write(0x0000, 0x20);
        let mut cpu = MOS6502::new();
        cpu.pending_interrupt = None;
        cpu.pc = 0x8000;
        cpu.x = 1;
        cpu.y = 1;
        let expected = if penalty == Penalty::PageCross { cycles + 1 } else { cycles };
        assert_eq!(cpu.step(&mut bus), Ok(expected), "opcode {:02X}", opcode);
    }
}

#[test]
fn no_step_takes_more_than_seven_cycles() {
    for opcode in 0..=255u8 {
        for p in [0x00u8, 0xFF] {
            let mut bus = Bus::new();
            bus.write(0x80FD, opcode);
            bus.write(0x80FE, 0xFF);
            bus.write(0x80FF, 0x20);
            bus.write(0x00FF, 0xFF);
            bus.write(0x0000, 0x20);
            let mut cpu = MOS6502::new();
            cpu.pending_interrupt = None;
            cpu.pc = 0x80FD;
            cpu.x = 0xFF;
            cpu.y = 0xFF;
            cpu.p = p;
            let cycles = cpu.step(&mut bus).unwrap();
            assert!(2 <= cycles && cycles <= 7, "opcode {:02X}", opcode);
        }
    }
}

#[test]
fn an_undocumented_opcode_runs_as_a_nop_by_default() {
    let mut bus = Bus::new();
    bus.write(0x8000, 0x02);
    let mut cpu = MOS6502::new();
    cpu.pending_interrupt = None;
    cpu.pc = 0x8000;
    cpu.a = 0x11;
    cpu.p = 0xC3;
    assert_eq!(cpu.step(&mut bus), Ok(2));
    assert_eq!(cpu.pc, 0x8001);
    assert_eq!((cpu.a, cpu.x, cpu.y, cpu.p, cpu.sp), (0x11, 0, 0, 0xC3, 0xFF));
    assert_eq!(cpu.cycles, 2);
}

#[test]
fn a_strict_processor_reports_an_undocumented_opcode() {
    let mut bus = Bus::new();
    bus.write(0x8000, 0x02);
    bus.write(0x8001, 0xEA);
    let mut cpu = MOS6502::new();
    cpu.pending_interrupt = None;
    cpu.strict = true;
    cpu.pc = 0x8000;
    let before = cpu;
    assert_eq!(cpu.step(&mut bus), Err(CpuError::IllegalOpcode(0x02)));
    assert_eq!(cpu, before);
    assert_eq!(cpu.tick(&mut bus), Err(CpuError::IllegalOpcode(0x02)));
    assert_eq!(cpu, before);
    cpu.pc = 0x8001;
    assert_eq!(cpu.step(&mut bus), Ok(2));
    assert_eq!(cpu.pc, 0x8002);
}

#[test]
fn execute_runs_a_decoded_instruction() {
    let mut bus = Bus::new();
    bus.write(0x8000, 0xF0);
    bus.write(0x8001, 0x12);
    bus.write(0x1300, 0x5A);
    let mut cpu = MOS6502::new();
    cpu.pc = 0x8000;
    cpu.y = 0x10;
    assert_eq!(cpu.execute(&mut bus, decode(0xB9)), 5);
    assert_eq!(cpu.a, 0x5A);
    assert_eq!(cpu.pc, 0x8002);
    assert_eq!(cpu.cycles, 0);
}
