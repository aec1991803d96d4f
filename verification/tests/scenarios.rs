use mos6502::cpu_6502::MOS6502;
use mos6502::cpu_bus::Bus;
use mos6502::status::Flags;

fn start(pc: u16, program: &[u8]) -> (MOS6502, Bus) {
    let mut bus = Bus::new();
    let mut addr = pc;
    for byte in program {
        bus.write(addr, *byte);
        addr = addr.wrapping_add(1);
    }
    let mut cpu = MOS6502::new();
    cpu.pending_interrupt = None;
    cpu.pc = pc;
    (cpu, bus)
}

#[test]
fn adc_immediate_no_carry_in() {
    let (mut cpu, mut bus) = start(0x8000, &[0x69, 0x10]);
    cpu.a = 0x50;
    cpu.p = 0x00;
    assert_eq!(cpu.step(&mut bus), Ok(2));
    assert_eq!(cpu.a, 0x60);
    assert!(!cpu.get_flag(Flags::Carry));
    assert!(!cpu.get_flag(Flags::Zero));
    assert!(!cpu.get_flag(Flags::Overflow));
    assert!(!cpu.get_flag(Flags::Negative));
    assert_eq!(cpu.pc, 0x8002);
    assert_eq!(cpu.cycles, 2);
}

#[test]
fn adc_immediate_signed_overflow() {
    let (mut cpu, mut bus) = start(0x8000, &[0x69, 0x50]);
    cpu.a = 0x50;
    cpu.p = 0x00;
    assert_eq!(cpu.step(&mut bus), Ok(2));
    assert_eq!(cpu.a, 0xA0);
    assert!(!cpu.get_flag(Flags::Carry));
    assert!(cpu.get_flag(Flags::Overflow));
    assert!(cpu.get_flag(Flags::Negative));
    assert!(!cpu.get_flag(Flags::Zero));
    assert_eq!(cpu.p, 0xC0);
}

#[test]
fn branch_not_taken() {
    let (mut cpu, mut bus) = start(0x8000, &[0xB0, 0x05]);
    cpu.set_flag(Flags::Carry, false);
    assert_eq!(cpu.step(&mut bus), Ok(2));
    assert_eq!(cpu.pc, 0x8002);
    assert_eq!(cpu.cycles, 2);
}

#[test]
fn branch_taken_same_page() {
    let (mut cpu, mut bus) = start(0x8000, &[0xB0, 0x05]);
    cpu.set_flag(Flags::Carry, true);
    assert_eq!(cpu.step(&mut bus), Ok(3));
    assert_eq!(cpu.pc, 0x8007);
    assert_eq!(cpu.cycles, 3);
}

#[test]
fn branch_taken_crosses_page() {
    let (mut cpu, mut bus) = start(0x80FD, &[0xB0, 0x05]);
    cpu.set_flag(Flags::Carry, true);
    assert_eq!(cpu.step(&mut bus), Ok(4));
    assert_eq!(cpu.pc, 0x8104);
    assert_eq!(cpu.cycles, 4);
}

#[test]
fn indirect_jmp_page_wrap_bug() {
    let (mut cpu, mut bus) = start(0x8000, &[0x6C, 0xFF, 0x10]);
    bus.write(0x10FF, 0x80);
    bus.write(0x1100, 0x50);
    bus.write(0x1000, 0xA0);
    assert_eq!(cpu.step(&mut bus), Ok(5));
    assert_eq!(cpu.pc, 0xA080);
    assert_eq!(cpu.cycles, 5);
}
