use mos6502::addressing::AddrMode;
use mos6502::cpu_6502::{Interrupt, MOS6502};
use mos6502::cpu_bus::Bus;
use mos6502::status::Flags;

fn start(pc: u16, program: &[u8]) -> (MOS6502, Bus) {
    let mut bus = Bus::new();
    let mut addr = pc;
    for byte in program {
        bus.write(addr, *byte);
        addr = addr.wrapping_add(1);
    }
    bus.write(0xFFFA, 0x00);
    bus.write(0xFFFB, 0x90);
    bus.write(0xFFFC, 0x00);
    bus.write(0xFFFD, 0x80);
    bus.write(0xFFFE, 0x00);
    bus.write(0xFFFF, 0xA0);
    let mut cpu = MOS6502::new();
    cpu.pending_interrupt = None;
    cpu.pc = pc;
    (cpu, bus)
}

#[test]
fn the_first_step_of_a_new_processor_is_the_reset() {
    let (_, mut bus) = start(0x8000, &[0xA9, 0x01]);
    let mut cpu = MOS6502::new();
    assert_eq!(cpu.step(&mut bus), Ok(7));
    assert_eq!(cpu.pc, 0x8000);
    assert_eq!(cpu.sp, 0xFD);
    assert_eq!(cpu.p, 0x04);
    assert_eq!(cpu.cycles, 7);
    assert_eq!(cpu.pending_interrupt, None);
    assert_eq!(cpu.step(&mut bus), Ok(2));
    assert_eq!(cpu.a, 0x01);
    assert_eq!(cpu.cycles, 9);
}

#[test]
fn reset_keeps_the_registers_and_the_other_flags() {
    let (mut cpu, mut bus) = start(0x1234, &[]);
    cpu.a = 0x11;
    cpu.x = 0x22;
    cpu.y = 0x33;
    cpu.p = 0xC3;
    cpu.sp = 0x40;
    bus.write(0x0140, 0x77);
    cpu.request_reset();
    assert_eq!(cpu.pending_interrupt, Some(Interrupt::Reset));
    assert_eq!(cpu.step(&mut bus), Ok(7));
    assert_eq!((cpu.a, cpu.x, cpu.y), (0x11, 0x22, 0x33));
    assert_eq!(cpu.p, 0xC7);
    assert_eq!(cpu.sp, 0xFD);
    assert_eq!(cpu.pc, 0x8000);
    assert_eq!(bus.read(0x0140), 0x77);
    assert_eq!(bus.read(0x013F), 0x00);
}

#[test]
fn reset_called_directly() {
    let (mut cpu, bus) = start(0x1234, &[]);
    assert_eq!(cpu.reset(&bus), 7);
    assert_eq!(cpu.pc, 0x8000);
    assert_eq!(cpu.sp, 0xFD);
    assert_eq!(cpu.p, 0x04);
    assert_eq!(cpu.cycles, 0);
}

#[test]
fn nmi_is_serviced_before_the_next_fetch() {
    let (mut cpu, mut bus) = start(0x8123, &[0xA9, 0x55]);
    cpu.sp = 0xFD;
    cpu.p = 0xD1;
    cpu.set_nmi_line(true);
    assert_eq!(cpu.pending_interrupt, Some(Interrupt::Nmi));
    assert_eq!(cpu.step(&mut bus), Ok(7));
    assert_eq!(cpu.a, 0x00);
    assert_eq!(cpu.pc, 0x9000);
    assert_eq!(cpu.sp, 0xFA);
    assert_eq!(bus.read(0x01FD), 0x81);
    assert_eq!(bus.read(0x01FC), 0x23);
    assert_eq!(bus.read(0x01FB), 0xE1);
    assert_eq!(cpu.p, 0xD5);
    assert_eq!(cpu.pending_interrupt, None);
    assert_eq!(cpu.cycles, 7);
}

#[test]
fn nmi_is_not_masked_by_the_i_flag() {
    let (mut cpu, mut bus) = start(0x8000, &[0xEA]);
    cpu.p = 0x04;
    cpu.set_nmi_line(true);
    assert_eq!(cpu.step(&mut bus), Ok(7));
    assert_eq!(cpu.pc, 0x9000);
}

#[test]
fn nmi_triggers_on_the_edge_only() {
    let (mut cpu, mut bus) = start(0x8000, &[0xEA]);
    bus.write(0x9000, 0xEA);
    bus.write(0x9001, 0xEA);
    cpu.set_nmi_line(true);
    assert_eq!(cpu.step(&mut bus), Ok(7));
    // the input is still asserted: no new edge
    cpu.set_nmi_line(true);
    assert_eq!(cpu.pending_interrupt, None);
    assert_eq!(cpu.step(&mut bus), Ok(2));
    assert_eq!(cpu.pc, 0x9001);
    cpu.set_nmi_line(false);
    assert_eq!(cpu.pending_interrupt, None);
    cpu.set_nmi_line(true);
    assert_eq!(cpu.pending_interrupt, Some(Interrupt::Nmi));
    assert_eq!(cpu.step(&mut bus), Ok(7));
    assert_eq!(cpu.pc, 0x9000);
}

#[test]
fn a_latched_nmi_outlives_the_release_of_its_input() {
    let (mut cpu, mut bus) = start(0x8000, &[0xEA]);
    cpu.set_nmi_line(true);
    cpu.set_nmi_line(false);
    cpu.set_irq_line(true);
    cpu.set_irq_line(false);
    assert_eq!(cpu.pending_interrupt, Some(Interrupt::Nmi));
    assert_eq!(cpu.step(&mut bus), Ok(7));
    assert_eq!(cpu.pc, 0x9000);
}

#[test]
fn irq_waits_while_i_is_set() {
    let (mut cpu, mut bus) = start(0x8000, &[0xEA, 0x58, 0xEA]);
    cpu.p = 0x04;
    cpu.set_irq_line(true);
    assert_eq!(cpu.interrupt_due(), None);
    assert_eq!(cpu.step(&mut bus), Ok(2));
    assert_eq!(cpu.pc, 0x8001);
    assert_eq!(cpu.step(&mut bus), Ok(2));
    assert_eq!(cpu.p, 0x00);
    assert_eq!(cpu.interrupt_due(), Some(Interrupt::Irq));
    assert_eq!(cpu.step(&mut bus), Ok(7));
    assert_eq!(cpu.pc, 0xA000);
}

#[test]
fn irq_is_serviced_through_its_vector() {
    let (mut cpu, mut bus) = start(0x8123, &[0xEA]);
    bus.write(0xA000, 0xEA);
    cpu.sp = 0xFF;
    cpu.p = 0x13;
    cpu.set_irq_line(true);
    assert_eq!(cpu.step(&mut bus), Ok(7));
    assert_eq!(cpu.pc, 0xA000);
    assert_eq!(bus.read(0x01FF), 0x81);
    assert_eq!(bus.read(0x01FE), 0x23);
    assert_eq!(bus.read(0x01FD), 0x23);
    assert_eq!(cpu.p, 0x17);
    assert_eq!(cpu.sp, 0xFC);
    // the line is a level: the request stays, masked by I
    assert_eq!(cpu.pending_interrupt, Some(Interrupt::Irq));
    assert_eq!(cpu.step(&mut bus), Ok(2));
    assert_eq!(cpu.pc, 0xA001);
    cpu.set_irq_line(false);
    assert_eq!(cpu.pending_interrupt, None);
}

#[test]
fn nmi_wins_over_irq() {
    let (mut cpu, mut bus) = start(0x8000, &[0xEA]);
    cpu.set_irq_line(true);
    cpu.set_nmi_line(true);
    assert_eq!(cpu.step(&mut bus), Ok(7));
    assert_eq!(cpu.pc, 0x9000);
    let (mut cpu, mut bus) = start(0x8000, &[0xEA]);
    cpu.set_nmi_line(true);
    cpu.set_irq_line(true);
    assert_eq!(cpu.pending_interrupt, Some(Interrupt::Nmi));
    assert_eq!(cpu.step(&mut bus), Ok(7));
    assert_eq!(cpu.pc, 0x9000);
}

#[test]
fn a_pending_reset_comes_before_everything() {
    let (_, mut bus) = start(0x8000, &[0xEA]);
    let mut cpu = MOS6502::new();
    cpu.set_nmi_line(true);
    cpu.set_irq_line(true);
    assert_eq!(cpu.pending_interrupt, Some(Interrupt::Reset));
    assert!(cpu.nmi_edge_latch);
    assert_eq!(cpu.step(&mut bus), Ok(7));
    assert_eq!(cpu.pc, 0x8000);
    assert_eq!(cpu.pending_interrupt, None);
}

#[test]
fn nmi_and_irq_called_directly() {
    let (mut cpu, mut bus) = start(0x8123, &[]);
    cpu.sp = 0x01;
    assert_eq!(cpu.nmi(&mut bus), 7);
    assert_eq!(cpu.pc, 0x9000);
    assert_eq!(cpu.sp, 0xFE);
    assert_eq!(bus.read(0x0101), 0x81);
    assert_eq!(bus.read(0x0100), 0x23);
    assert_eq!(bus.read(0x01FF), 0x20);
    assert_eq!(cpu.irq(&mut bus), 7);
    assert_eq!(cpu.pc, 0xA000);
    assert_eq!(bus.read(0x01FE), 0x90);
    assert_eq!(bus.read(0x01FD), 0x00);
    assert_eq!(bus.read(0x01FC), 0x24);
    assert_eq!(cpu.cycles, 0);
}

#[test]
fn brk_pushes_the_address_two_past_the_opcode() {
    let (mut cpu, mut bus) = start(0x8123, &[0x00, 0xFF, 0xEA]);
    cpu.sp = 0xFF;
    cpu.p = 0xC1;
    assert_eq!(cpu.step(&mut bus), Ok(7));
    assert_eq!(cpu.pc, 0xA000);
    assert_eq!(bus.read(0x01FF), 0x81);
    assert_eq!(bus.read(0x01FE), 0x25);
    assert_eq!(bus.read(0x01FD), 0xF1);
    assert_eq!(cpu.p, 0xC5);
    assert_eq!(cpu.sp, 0xFC);
}

#[test]
fn brk_then_rti_resumes_behind_the_padding() {
    let (mut cpu, mut bus) = start(0x8123, &[0x00, 0xFF, 0xEA]);
    bus.write(0xA000, 0x40);
    cpu.p = 0xC1;
    assert_eq!(cpu.step(&mut bus), Ok(7));
    assert_eq!(cpu.step(&mut bus), Ok(6));
    assert_eq!(cpu.pc, 0x8125);
    assert_eq!(cpu.p, 0xE1);
    assert_eq!(cpu.sp, 0xFF);
}

#[test]
fn brk_with_an_nmi_pending_takes_the_nmi_vector() {
    let (mut cpu, mut bus) = start(0x8001, &[0xFF]);
    cpu.pending_interrupt = Some(Interrupt::Nmi);
    cpu.sp = 0xFF;
    assert_eq!(cpu.opcode_brk(&mut bus, AddrMode::Implied), 0);
    assert_eq!(cpu.pc, 0x9000);
    assert_eq!(cpu.pending_interrupt, None);
    assert_eq!(bus.read(0x01FF), 0x80);
    assert_eq!(bus.read(0x01FE), 0x02);
    assert_eq!(bus.read(0x01FD), 0x30);
    assert!(cpu.get_flag(Flags::Interrupt));
}

#[test]
fn enter_handler_reads_the_vector_after_the_pushes() {
    let (mut cpu, mut bus) = start(0x8000, &[]);
    cpu.sp = 0x02;
    cpu.enter_handler(&mut bus, 0x1234, true, 0x0100);
    assert_eq!(bus.read(0x0102), 0x12);
    assert_eq!(bus.read(0x0101), 0x34);
    assert_eq!(bus.read(0x0100), 0x30);
    assert_eq!(cpu.pc, 0x3430);
    assert_eq!(cpu.sp, 0xFF);
    assert_eq!(cpu.p, 0x04);
}

#[test]
fn tick_runs_an_instruction_on_its_first_cycle() {
    let (mut cpu, mut bus) = start(0x8000, &[0xA9, 0x11, 0xAD, 0x00, 0x02]);
    bus.write(0x0200, 0x22);
    assert_eq!(cpu.tick(&mut bus), Ok(()));
    assert_eq!(cpu.a, 0x11);
    assert_eq!(cpu.clk, 1);
    assert_eq!(cpu.cycles, 2);
    assert_eq!(cpu.tick(&mut bus), Ok(()));
    assert_eq!(cpu.a, 0x11);
    assert_eq!(cpu.pc, 0x8002);
    assert_eq!(cpu.clk, 0);
    assert_eq!(cpu.tick(&mut bus), Ok(()));
    assert_eq!(cpu.a, 0x22);
    assert_eq!(cpu.clk, 3);
    for _ in 0..3 {
        assert_eq!(cpu.tick(&mut bus), Ok(()));
    }
    assert_eq!(cpu.clk, 0);
    assert_eq!(cpu.pc, 0x8005);
    assert_eq!(cpu.cycles, 6);
}

#[test]
fn ticks_add_up_to_the_cycles_of_the_steps() {
    let program = [0xA2, 0x10, 0xBD, 0xF0, 0x12, 0x20, 0x00, 0x90];
    let (mut stepped, mut bus_a) = start(0x8000, &program);
    let (mut ticked, mut bus_b) = start(0x8000, &program);
    let mut total = 0u64;
    for _ in 0..3 {
        total += stepped.step(&mut bus_a).unwrap() as u64;
    }
    assert_eq!(total, 2 + 5 + 6);
    for _ in 0..total {
        ticked.tick(&mut bus_b).unwrap();
    }
    assert_eq!(ticked, stepped);
}

#[test]
fn the_cycle_counter_stops_at_its_maximum() {
    let (mut cpu, mut bus) = start(0x8000, &[0xEA, 0xEA]);
    cpu.cycles = u64::MAX - 1;
    assert_eq!(cpu.step(&mut bus), Ok(2));
    assert_eq!(cpu.cycles, u64::MAX);
    assert_eq!(cpu.step(&mut bus), Ok(2));
    assert_eq!(cpu.cycles, u64::MAX);
}

#[test]
fn the_cycle_counter_never_runs_backwards() {
    let (mut cpu, mut bus) = start(0x8000, &[0xA9, 0x01, 0x48, 0x00, 0x00]);
    bus.write(0xA000, 0x40);
    let mut last = cpu.cycles;
    for _ in 0..6 {
        cpu.step(&mut bus).unwrap();
        assert!(cpu.cycles > last);
        last = cpu.cycles;
    }
}
