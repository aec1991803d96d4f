use mos6502::cpu_6502::{AddrRes, Interrupt, Operand, MOS6502};
use mos6502::cpu_bus::Bus;
use mos6502::status::{status_has, status_with, Flags};
use mos6502::stack_ops::{pulled_status, pushed_status};
use mos6502::bytes::{crosses_page, displace, high_byte, low_byte, make_word, rotate_left, rotate_right};

#[test]
fn new_is_the_power_on_state() {
    let cpu = MOS6502::new();
    assert_eq!(cpu.a, 0);
    assert_eq!(cpu.x, 0);
    assert_eq!(cpu.y, 0);
    assert_eq!(cpu.p, 0);
    assert_eq!(cpu.pc, 0);
    assert_eq!(cpu.sp, 0xFF);
    assert_eq!(cpu.cycles, 0);
    assert_eq!(cpu.clk, 0);
    assert_eq!(cpu.pending_interrupt, Some(Interrupt::Reset));
    assert!(!cpu.nmi_edge_latch);
    assert!(!cpu.strict);
}

#[test]
fn addr_res_new_holds_a_memory_operand() {
    let res = AddrRes::new(0x1234, true);
    assert_eq!(res.operand, Operand::Memory(0x1234));
    assert!(res.cycle);
    let res = AddrRes::new(0xFFFF, false);
    assert_eq!(res.operand, Operand::Memory(0xFFFF));
    assert!(!res.cycle);
}

#[test]
fn addr_res_register_never_crosses() {
    let res = AddrRes::register(Operand::Accumulator);
    assert_eq!(res, AddrRes { operand: Operand::Accumulator, cycle: false });
}

#[test]
fn bus_starts_zeroed_and_reads_back_writes() {
    let mut bus = Bus::new();
    assert_eq!(bus.read(0x0000), 0);
    assert_eq!(bus.read(0x8000), 0);
    assert_eq!(bus.read(0xFFFF), 0);
    bus.write(0xFFFF, 0xAB);
    bus.write(0x0000, 0xCD);
    assert_eq!(bus.read(0xFFFF), 0xAB);
    assert_eq!(bus.read(0x0000), 0xCD);
    assert_eq!(bus.read(0xFFFE), 0);
    bus.write(0xFFFF, 0x01);
    assert_eq!(bus.read(0xFFFF), 0x01);
}

#[test]
fn bus_read_word_is_little_endian_and_wraps() {
    let mut bus = Bus::new();
    bus.write(0x1000, 0x34);
    bus.write(0x1001, 0x12);
    assert_eq!(bus.read_word(0x1000), 0x1234);
    bus.write(0xFFFF, 0xCD);
    bus.write(0x0000, 0xAB);
    assert_eq!(bus.read_word(0xFFFF), 0xABCD);
}

#[test]
fn bus_read_word_in_page_stays_in_the_page() {
    let mut bus = Bus::new();
    bus.write(0x02FF, 0x11);
    bus.write(0x0200, 0x22);
    bus.write(0x0300, 0x33);
    assert_eq!(bus.read_word_in_page(0x02FF), 0x2211);
    bus.write(0x02FE, 0x44);
    assert_eq!(bus.read_word_in_page(0x02FE), 0x1144);
}

#[test]
fn flag_masks_are_the_canonical_bits() {
    assert_eq!(Flags::Carry.mask(), 0x01);
    assert_eq!(Flags::Zero.mask(), 0x02);
    assert_eq!(Flags::Interrupt.mask(), 0x04);
    assert_eq!(Flags::Decimal.mask(), 0x08);
    assert_eq!(Flags::Break.mask(), 0x10);
    assert_eq!(Flags::Unused.mask(), 0x20);
    assert_eq!(Flags::Overflow.mask(), 0x40);
    assert_eq!(Flags::Negative.mask(), 0x80);
}

#[test]
fn set_flag_changes_one_bit() {
    let mut cpu = MOS6502::new();
    cpu.set_flag(Flags::Carry, true);
    assert_eq!(cpu.p, 0x01);
    cpu.set_flag(Flags::Negative, true);
    assert_eq!(cpu.p, 0x81);
    cpu.set_flag(Flags::Overflow, true);
    assert_eq!(cpu.p, 0xC1);
    cpu.set_flag(Flags::Carry, false);
    assert_eq!(cpu.p, 0xC0);
    cpu.set_flag(Flags::Carry, false);
    assert_eq!(cpu.p, 0xC0);
    assert!(cpu.get_flag(Flags::Negative));
    assert!(cpu.get_flag(Flags::Overflow));
    assert!(!cpu.get_flag(Flags::Carry));
    assert!(!cpu.get_flag(Flags::Zero));
}

#[test]
fn a_flag_reads_back_and_leaves_the_others() {
    let all = [
        Flags::Carry,
        Flags::Zero,
        Flags::Interrupt,
        Flags::Decimal,
        Flags::Break,
        Flags::Unused,
        Flags::Overflow,
        Flags::Negative,
    ];
    for p in [0x00u8, 0xFF, 0xA5, 0x5A] {
        for f in all {
            for val in [false, true] {
                let q = status_with(p, f, val);
                for g in all {
                    if g == f {
                        assert_eq!(status_has(q, g), val);
                    } else {
                        assert_eq!(status_has(q, g), status_has(p, g));
                    }
                }
            }
        }
    }
}

#[test]
fn set_zn_follows_the_byte() {
    let mut cpu = MOS6502::new();
    cpu.p = 0x41;
    cpu.set_zn(0x00);
    assert_eq!(cpu.p, 0x43);
    cpu.set_zn(0x80);
    assert_eq!(cpu.p, 0xC1);
    cpu.set_zn(0x7F);
    assert_eq!(cpu.p, 0x41);
    cpu.set_zn(0xFF);
    assert_eq!(cpu.p, 0xC1);
}

#[test]
fn pushed_status_sets_b_for_software_only() {
    assert_eq!(pushed_status(0x00, true), 0x30);
    assert_eq!(pushed_status(0x00, false), 0x20);
    assert_eq!(pushed_status(0xFF, true), 0xFF);
    assert_eq!(pushed_status(0xFF, false), 0xEF);
    assert_eq!(pushed_status(0xC3, false), 0xE3);
}

#[test]
fn pulled_status_drops_b_and_sets_u() {
    assert_eq!(pulled_status(0x00), 0x20);
    assert_eq!(pulled_status(0xFF), 0xEF);
    assert_eq!(pulled_status(0x30), 0x20);
    assert_eq!(pulled_status(0x10), 0x20);
    assert_eq!(pulled_status(0xC1), 0xE1);
}

#[test]
fn stack_push_writes_then_moves_down() {
    let mut cpu = MOS6502::new();
    let mut bus = Bus::new();
    cpu.sp = 0xFD;
    cpu.stack_push(0x42, &mut bus);
    assert_eq!(bus.read(0x01FD), 0x42);
    assert_eq!(cpu.sp, 0xFC);
}

#[test]
fn stack_pointer_wraps_without_fault() {
    let mut cpu = MOS6502::new();
    let mut bus = Bus::new();
    cpu.sp = 0x00;
    cpu.stack_push(0x11, &mut bus);
    assert_eq!(bus.read(0x0100), 0x11);
    assert_eq!(cpu.sp, 0xFF);
    bus.write(0x0100, 0x77);
    assert_eq!(cpu.stack_pop(&bus), 0x77);
    assert_eq!(cpu.sp, 0x00);
    cpu.sp = 0xFF;
    bus.write(0x0100, 0x99);
    assert_eq!(cpu.stack_pop(&bus), 0x99);
    assert_eq!(cpu.sp, 0x00);
}

#[test]
fn push16_puts_the_high_byte_first() {
    let mut cpu = MOS6502::new();
    let mut bus = Bus::new();
    cpu.sp = 0xFF;
    cpu.stack_push16(0x1234, &mut bus);
    assert_eq!(bus.read(0x01FF), 0x12);
    assert_eq!(bus.read(0x01FE), 0x34);
    assert_eq!(cpu.sp, 0xFD);
    assert_eq!(cpu.stack_pop(&bus), 0x34);
    assert_eq!(cpu.stack_pop(&bus), 0x12);
    assert_eq!(cpu.sp, 0xFF);
}

#[test]
fn pop16_returns_what_push16_pushed_across_the_wrap() {
    let mut cpu = MOS6502::new();
    let mut bus = Bus::new();
    cpu.sp = 0x00;
    cpu.stack_push16(0xBEEF, &mut bus);
    assert_eq!(bus.read(0x0100), 0xBE);
    assert_eq!(bus.read(0x01FF), 0xEF);
    assert_eq!(cpu.sp, 0xFE);
    assert_eq!(cpu.stack_pop16(&bus), 0xBEEF);
    assert_eq!(cpu.sp, 0x00);
}

#[test]
fn read_opcode_steps_the_program_counter() {
    let mut cpu = MOS6502::new();
    let mut bus = Bus::new();
    bus.write(0xFFFF, 0xEA);
    bus.write(0x0000, 0x18);
    cpu.pc = 0xFFFF;
    assert_eq!(cpu.read_opcode(&bus), 0xEA);
    assert_eq!(cpu.pc, 0x0000);
    assert_eq!(cpu.read_opcode(&bus), 0x18);
    assert_eq!(cpu.pc, 0x0001);
}

#[test]
fn load_and_store_go_through_the_operand() {
    let mut cpu = MOS6502::new();
    let mut bus = Bus::new();
    cpu.a = 0x3C;
    bus.write(0x0200, 0x5A);
    assert_eq!(cpu.load(&bus, Operand::Memory(0x0200)), 0x5A);
    assert_eq!(cpu.load(&bus, Operand::Accumulator), 0x3C);
    cpu.store(&mut bus, Operand::Memory(0x0201), 0x77);
    assert_eq!(bus.read(0x0201), 0x77);
    assert_eq!(cpu.a, 0x3C);
    cpu.store(&mut bus, Operand::Accumulator, 0x88);
    assert_eq!(cpu.a, 0x88);
    assert_eq!(cpu.p, 0x00);
}

#[test]
fn words_and_bytes() {
    assert_eq!(make_word(0x34, 0x12), 0x1234);
    assert_eq!(make_word(0xFF, 0xFF), 0xFFFF);
    assert_eq!(low_byte(0x1234), 0x34);
    assert_eq!(high_byte(0x1234), 0x12);
    assert!(crosses_page(0x10FF, 0x1100));
    assert!(!crosses_page(0x1000, 0x10FF));
}

#[test]
fn displace_adds_a_signed_byte() {
    assert_eq!(displace(0x8002, 0x05), 0x8007);
    assert_eq!(displace(0x8002, 0xFE), 0x8000);
    assert_eq!(displace(0x8002, 0x80), 0x7F82);
    assert_eq!(displace(0x8002, 0x7F), 0x8081);
    assert_eq!(displace(0x0000, 0xFF), 0xFFFF);
    assert_eq!(displace(0xFFFF, 0x01), 0x0000);
}

#[test]
fn rotations_pass_through_the_carry() {
    assert_eq!(rotate_left(0x81, false), (0x02, true));
    assert_eq!(rotate_left(0x81, true), (0x03, true));
    assert_eq!(rotate_left(0x40, true), (0x81, false));
    assert_eq!(rotate_right(0x81, false), (0x40, true));
    assert_eq!(rotate_right(0x81, true), (0xC0, true));
    assert_eq!(rotate_right(0x02, true), (0x81, false));
}
