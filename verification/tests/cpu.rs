use gameboy::cpu::{add_displacement, daa_adjust, displaced, fields, Cpu, CpuError};
use gameboy::memory::Mmu;
use gameboy::primary::is_defined;
use gameboy::register::Flag;

const CODE: u16 = 0xC000;

/// A processor that runs `program` from work RAM, on a bus whose LCD
/// controller raises no request of its own.
fn machine(program: &[u8]) -> Cpu {
    let mut mem = Mmu::new();
    mem.write(0xFF41, 0x00);
    mem.write(0xFFFF, 0x00);
    for (i, byte) in program.iter().enumerate() {
        mem.write(CODE + i as u16, *byte);
    }
    let mut cpu = Cpu::from(mem);
    cpu.reg.pc = CODE;
    cpu
}

fn flags(cpu: &Cpu) -> (bool, bool, bool, bool) {
    (cpu.reg.flag(Flag::Z), cpu.reg.flag(Flag::N), cpu.reg.flag(Flag::H), cpu.reg.flag(Flag::C))
}

fn step(cpu: &mut Cpu) -> u32 {
    let (_, outcome) = cpu.cycle();
    outcome.unwrap()
}

#[test]
fn processor_after_boot() {
    let cpu = Cpu::from(Mmu::new());
    assert_eq!(cpu.reg.a, 0x01);
    assert_eq!(cpu.reg.f, 0xB0);
    assert_eq!(cpu.reg.bc(), 0x0013);
    assert_eq!(cpu.reg.de(), 0x00D8);
    assert_eq!(cpu.reg.hl(), 0x014D);
    assert_eq!(cpu.reg.sp, 0xFFFE);
    assert_eq!(cpu.reg.pc, 0x0100);
    assert!(!cpu.ime);
    assert!(!cpu.ime_next);
    assert!(!cpu.halted);
    assert_eq!(cpu.membus.read(0xFFFF), 0xE1);
}

#[test]
fn add_with_carry_out_of_both_nibbles() {
    let mut cpu = machine(&[]);
    cpu.reg.a = 0xFF;
    cpu.reg.b = 0x01;
    cpu.alu_add(cpu.reg.b);
    assert_eq!(cpu.reg.a, 0x00);
    assert_eq!(flags(&cpu), (true, false, true, true));
    assert_eq!(cpu.reg.f & 0x0F, 0);
}

#[test]
fn adc_takes_the_carry_in() {
    let mut cpu = machine(&[]);
    cpu.reg.a = 0xFF;
    cpu.reg.b = 0x00;
    cpu.reg.set_flags(false, false, false, true);
    cpu.alu_adc(cpu.reg.b);
    assert_eq!(cpu.reg.a, 0x00);
    assert_eq!(flags(&cpu), (true, false, true, true));
    cpu.reg.a = 0x0E;
    cpu.reg.set_flags(false, false, false, true);
    cpu.alu_adc(0x01);
    assert_eq!(cpu.reg.a, 0x10);
    assert_eq!(flags(&cpu), (false, false, true, false));
    cpu.alu_adc(0x01);
    assert_eq!(cpu.reg.a, 0x11);
    assert_eq!(flags(&cpu), (false, false, false, false));
}

#[test]
fn sub_below_zero() {
    let mut cpu = machine(&[]);
    cpu.reg.a = 0x00;
    cpu.reg.b = 0x01;
    cpu.alu_sub(cpu.reg.b);
    assert_eq!(cpu.reg.a, 0xFF);
    assert_eq!(flags(&cpu), (false, true, true, true));
    cpu.reg.a = 0x42;
    cpu.alu_sub(0x42);
    assert_eq!(cpu.reg.a, 0x00);
    assert_eq!(flags(&cpu), (true, true, false, false));
}

#[test]
fn sbc_takes_the_carry_in() {
    let mut cpu = machine(&[]);
    cpu.reg.a = 0x10;
    cpu.reg.set_flags(false, false, false, true);
    cpu.alu_sbc(0x0F);
    assert_eq!(cpu.reg.a, 0x00);
    assert_eq!(flags(&cpu), (true, true, true, false));
    cpu.reg.a = 0x00;
    cpu.reg.set_flags(false, false, false, true);
    cpu.alu_sbc(0xFF);
    assert_eq!(cpu.reg.a, 0x00);
    assert_eq!(flags(&cpu), (true, true, true, true));
    cpu.reg.a = 0x05;
    cpu.reg.set_flags(false, false, false, false);
    cpu.alu_sbc(0x03);
    assert_eq!(cpu.reg.a, 0x02);
    assert_eq!(flags(&cpu), (false, true, false, false));
}

#[test]
fn and_xor_or_cp() {
    let mut cpu = machine(&[]);
    cpu.reg.a = 0xF0;
    cpu.alu_and(0x0F);
    assert_eq!(cpu.reg.a, 0x00);
    assert_eq!(flags(&cpu), (true, false, true, false));
    cpu.reg.a = 0xF0;
    cpu.alu_and(0x3C);
    assert_eq!(cpu.reg.a, 0x30);
    assert_eq!(flags(&cpu), (false, false, true, false));
    cpu.alu_xor(0x30);
    assert_eq!(cpu.reg.a, 0x00);
    assert_eq!(flags(&cpu), (true, false, false, false));
    cpu.alu_xor(0x81);
    assert_eq!(cpu.reg.a, 0x81);
    assert_eq!(flags(&cpu), (false, false, false, false));
    cpu.alu_or(0x0E);
    assert_eq!(cpu.reg.a, 0x8F);
    assert_eq!(flags(&cpu), (false, false, false, false));
    cpu.reg.a = 0;
    cpu.alu_or(0);
    assert_eq!(flags(&cpu), (true, false, false, false));
    cpu.reg.a = 0x10;
    cpu.alu_cp(0x01);
    assert_eq!(cpu.reg.a, 0x10);
    assert_eq!(flags(&cpu), (false, true, true, false));
    cpu.alu_cp(0x10);
    assert_eq!(cpu.reg.a, 0x10);
    assert_eq!(flags(&cpu), (true, true, false, false));
    cpu.alu_cp(0x20);
    assert_eq!(cpu.reg.a, 0x10);
    assert_eq!(flags(&cpu), (false, true, false, true));
}

#[test]
fn daa_after_an_addition() {
    let mut cpu = machine(&[]);
    cpu.reg.a = 0x45;
    cpu.reg.b = 0x38;
    cpu.alu_add(cpu.reg.b);
    assert_eq!(cpu.reg.a, 0x7D);
    cpu.alu_daa();
    assert_eq!(cpu.reg.a, 0x83);
    assert_eq!(flags(&cpu), (false, false, false, false));
}

#[test]
fn daa_in_its_other_cases() {
    let mut cpu = machine(&[]);
    // 0x99 + 0x01 = 0x9A, corrected to 0x00 with carry.
    cpu.reg.a = 0x99;
    cpu.alu_add(0x01);
    cpu.alu_daa();
    assert_eq!(cpu.reg.a, 0x00);
    assert_eq!(flags(&cpu), (true, false, false, true));
    // 0x08 + 0x08 = 0x10 with half carry, corrected to 0x16.
    cpu.reg.a = 0x08;
    cpu.alu_add(0x08);
    cpu.alu_daa();
    assert_eq!(cpu.reg.a, 0x16);
    assert_eq!(flags(&cpu), (false, false, false, false));
    // 0x42 - 0x13 = 0x2F with half borrow, corrected to 0x29.
    cpu.reg.a = 0x42;
    cpu.alu_sub(0x13);
    cpu.alu_daa();
    assert_eq!(cpu.reg.a, 0x29);
    assert_eq!(flags(&cpu), (false, true, false, false));
    // 0x10 - 0x20 = 0xF0 with borrow, corrected to 0x90, carry kept.
    cpu.reg.a = 0x10;
    cpu.alu_sub(0x20);
    cpu.alu_daa();
    assert_eq!(cpu.reg.a, 0x90);
    assert_eq!(flags(&cpu), (false, true, false, true));
    assert_eq!(daa_adjust(0x7D, false, false, false), (0x83, false));
    assert_eq!(daa_adjust(0x9A, false, false, false), (0x00, true));
    assert_eq!(daa_adjust(0x00, true, true, true), (0x9A, true));
}

#[test]
fn dec_of_zero() {
    for carry in [false, true] {
        let mut cpu = machine(&[]);
        cpu.reg.set_flags(true, false, false, carry);
        assert_eq!(cpu.alu_dec(0x00), 0xFF);
        assert_eq!(flags(&cpu), (false, true, true, carry));
    }
}

#[test]
fn inc_and_dec_keep_the_carry() {
    for carry in [false, true] {
        let mut cpu = machine(&[]);
        cpu.reg.set_flags(false, true, false, carry);
        assert_eq!(cpu.alu_inc(0xFF), 0x00);
        assert_eq!(flags(&cpu), (true, false, true, carry));
        assert_eq!(cpu.alu_inc(0x0F), 0x10);
        assert_eq!(flags(&cpu), (false, false, true, carry));
        assert_eq!(cpu.alu_inc(0x10), 0x11);
        assert_eq!(flags(&cpu), (false, false, false, carry));
        assert_eq!(cpu.alu_dec(0x01), 0x00);
        assert_eq!(flags(&cpu), (true, true, false, carry));
        assert_eq!(cpu.alu_dec(0x10), 0x0F);
        assert_eq!(flags(&cpu), (false, true, true, carry));
    }
}

#[test]
fn inc_then_dec_restores_every_register() {
    // INC r; DEC r for B, C, D, E, H, L, A.
    for (inc, dec) in [(0x04u8, 0x05u8), (0x0C, 0x0D), (0x14, 0x15), (0x1C, 0x1D), (0x24, 0x25), (0x2C, 0x2D), (0x3C, 0x3D)] {
        for value in [0x00u8, 0x0F, 0x7F, 0xFF] {
            let mut cpu = machine(&[inc, dec]);
            cpu.reg.a = value;
            cpu.reg.set_bc(u16::from(value) << 8 | u16::from(value));
            cpu.reg.set_de(u16::from(value) << 8 | u16::from(value));
            cpu.reg.set_hl(u16::from(value) << 8 | u16::from(value));
            assert_eq!(step(&mut cpu), 1);
            assert_eq!(step(&mut cpu), 1);
            assert_eq!(cpu.reg.a, value);
            assert_eq!(cpu.reg.b, value);
            assert_eq!(cpu.reg.c, value);
            assert_eq!(cpu.reg.d, value);
            assert_eq!(cpu.reg.e, value);
            assert_eq!(cpu.reg.h, value);
            assert_eq!(cpu.reg.l, value);
            assert!(cpu.reg.flag(Flag::N));
        }
    }
}

#[test]
fn inc_and_dec_of_the_byte_at_hl() {
    let mut cpu = machine(&[0x34, 0x35, 0x35]);
    cpu.reg.set_hl(0xC100);
    cpu.membus.write(0xC100, 0xFF);
    assert_eq!(step(&mut cpu), 3);
    assert_eq!(cpu.membus.read(0xC100), 0x00);
    assert!(cpu.reg.flag(Flag::Z));
    assert_eq!(step(&mut cpu), 3);
    assert_eq!(cpu.membus.read(0xC100), 0xFF);
    step(&mut cpu);
    assert_eq!(cpu.membus.read(0xC100), 0xFE);
}

#[test]
fn swap_twice_is_identity() {
    for value in [0x00u8, 0x01, 0xA5, 0xF0, 0xFF] {
        let mut cpu = machine(&[0xCB, 0x30, 0xCB, 0x30]);
        cpu.reg.b = value;
        cpu.reg.set_flags(true, true, true, true);
        assert_eq!(step(&mut cpu), 2);
        assert_eq!(cpu.reg.b, value << 4 | value >> 4);
        assert_eq!(step(&mut cpu), 2);
        assert_eq!(cpu.reg.b, value);
        assert_eq!(flags(&cpu), (value == 0, false, false, false));
    }
    let mut cpu = machine(&[]);
    assert_eq!(cpu.alu_swap(0x12), 0x21);
    assert_eq!(flags(&cpu), (false, false, false, false));
}

#[test]
fn res_then_set_and_set_then_res() {
    for n in 0..8u8 {
        for value in [0x00u8, 0xFF, 0x5A] {
            // RES n,D; SET n,D.
            let mut cpu = machine(&[0xCB, 0x82 + 8 * n, 0xCB, 0xC2 + 8 * n]);
            cpu.reg.d = value;
            let f = cpu.reg.f;
            assert_eq!(step(&mut cpu), 2);
            assert_eq!(cpu.reg.d, value & !(1 << n));
            assert_eq!(step(&mut cpu), 2);
            assert_eq!(cpu.reg.d, value | 1 << n);
            assert_eq!(cpu.reg.f, f);
            // SET n,D; RES n,D.
            let mut cpu = machine(&[0xCB, 0xC2 + 8 * n, 0xCB, 0x82 + 8 * n]);
            cpu.reg.d = value;
            step(&mut cpu);
            step(&mut cpu);
            assert_eq!(cpu.reg.d, value & !(1 << n));
        }
    }
}

#[test]
fn bit_tests_one_bit_and_keeps_the_carry() {
    for carry in [false, true] {
        let mut cpu = machine(&[]);
        cpu.reg.set_flags(false, true, false, carry);
        cpu.alu_bit(7, 0x80);
        assert_eq!(flags(&cpu), (false, false, true, carry));
        cpu.alu_bit(6, 0x80);
        assert_eq!(flags(&cpu), (true, false, true, carry));
        cpu.alu_bit(0, 0x01);
        assert_eq!(flags(&cpu), (false, false, true, carry));
    }
}

#[test]
fn rotates_and_shifts() {
    let mut cpu = machine(&[]);
    cpu.reg.set_flags(false, false, false, false);
    assert_eq!(cpu.alu_rlc(0x85), 0x0B);
    assert_eq!(flags(&cpu), (false, false, false, true));
    assert_eq!(cpu.alu_rlc(0x00), 0x00);
    assert_eq!(flags(&cpu), (true, false, false, false));
    assert_eq!(cpu.alu_rrc(0x01), 0x80);
    assert_eq!(flags(&cpu), (false, false, false, true));
    assert_eq!(cpu.alu_rl(0x80), 0x01);
    assert_eq!(flags(&cpu), (false, false, false, true));
    assert_eq!(cpu.alu_rl(0x80), 0x01);
    cpu.reg.set_flags(false, false, false, false);
    assert_eq!(cpu.alu_rl(0x80), 0x00);
    assert_eq!(flags(&cpu), (true, false, false, true));
    assert_eq!(cpu.alu_rr(0x01), 0x80);
    assert_eq!(flags(&cpu), (false, false, false, true));
    cpu.reg.set_flags(false, false, false, false);
    assert_eq!(cpu.alu_rr(0x01), 0x00);
    assert_eq!(flags(&cpu), (true, false, false, true));
    assert_eq!(cpu.alu_sla(0xC1), 0x82);
    assert_eq!(flags(&cpu), (false, false, false, true));
    assert_eq!(cpu.alu_sra(0x81), 0xC0);
    assert_eq!(flags(&cpu), (false, false, false, true));
    assert_eq!(cpu.alu_srl(0x81), 0x40);
    assert_eq!(flags(&cpu), (false, false, false, true));
    assert_eq!(cpu.alu_srl(0x01), 0x00);
    assert_eq!(flags(&cpu), (true, false, false, true));
}

#[test]
fn the_rotates_of_a_clear_z() {
    // RLCA, RRCA, RLA, RRA on A = 0.
    for opcode in [0x07u8, 0x0F, 0x17, 0x1F] {
        let mut cpu = machine(&[opcode]);
        cpu.reg.a = 0x00;
        cpu.reg.set_flags(true, true, true, false);
        assert_eq!(step(&mut cpu), 1);
        assert_eq!(cpu.reg.a, 0x00);
        assert_eq!(flags(&cpu), (false, false, false, false));
    }
    // RLC A of the CB table computes Z.
    let mut cpu = machine(&[0xCB, 0x07]);
    cpu.reg.a = 0x00;
    assert_eq!(step(&mut cpu), 2);
    assert_eq!(flags(&cpu), (true, false, false, false));
    let mut cpu = machine(&[0x07]);
    cpu.reg.a = 0x80;
    step(&mut cpu);
    assert_eq!(cpu.reg.a, 0x01);
    assert_eq!(flags(&cpu), (false, false, false, true));
}

#[test]
fn cpl_scf_ccf() {
    let mut cpu = machine(&[0x2F, 0x37, 0x3F, 0x3F]);
    cpu.reg.a = 0x35;
    cpu.reg.set_flags(true, false, false, false);
    assert_eq!(step(&mut cpu), 1);
    assert_eq!(cpu.reg.a, 0xCA);
    assert_eq!(flags(&cpu), (true, true, true, false));
    assert_eq!(step(&mut cpu), 1);
    assert_eq!(flags(&cpu), (true, false, false, true));
    assert_eq!(step(&mut cpu), 1);
    assert_eq!(flags(&cpu), (true, false, false, false));
    assert_eq!(step(&mut cpu), 1);
    assert_eq!(flags(&cpu), (true, false, false, true));
}

#[test]
fn add_hl_carries_from_bit_11_and_bit_15() {
    let mut cpu = machine(&[]);
    cpu.reg.set_hl(0x0FFF);
    cpu.reg.set_flags(true, true, false, false);
    cpu.alu_add16(0x0001);
    assert_eq!(cpu.reg.hl(), 0x1000);
    assert_eq!(flags(&cpu), (true, false, true, false));
    cpu.reg.set_hl(0xFFFF);
    cpu.reg.set_flags(false, true, false, false);
    cpu.alu_add16(0x0001);
    assert_eq!(cpu.reg.hl(), 0x0000);
    assert_eq!(flags(&cpu), (false, false, true, true));
    cpu.reg.set_hl(0x8000);
    cpu.alu_add16(0x8000);
    assert_eq!(cpu.reg.hl(), 0x0000);
    assert_eq!(flags(&cpu), (false, false, false, true));
    cpu.reg.set_hl(0x1234);
    cpu.alu_add16(0x0101);
    assert_eq!(cpu.reg.hl(), 0x1335);
    assert_eq!(flags(&cpu), (false, false, false, false));
}

#[test]
fn a_displacement_is_signed_but_its_flags_are_not() {
    assert_eq!(displaced(0x1000, 0x7F), 0x107F);
    assert_eq!(displaced(0x1000, 0x80), 0x0F80);
    assert_eq!(displaced(0x1000, 0xFF), 0x0FFF);
    assert_eq!(displaced(0x0000, 0xFF), 0xFFFF);
    assert_eq!(displaced(0xFFFF, 0x01), 0x0000);
    assert_eq!(add_displacement(0xFFF8, 0x08), (0x0000, true, true));
    assert_eq!(add_displacement(0x0001, 0xFF), (0x0000, true, true));
    assert_eq!(add_displacement(0x0000, 0xFF), (0xFFFF, false, false));
    assert_eq!(add_displacement(0x00F0, 0x10), (0x0100, false, true));
    assert_eq!(add_displacement(0x000F, 0x01), (0x0010, true, false));
    // ADD SP,-1 with SP = 1.
    let mut cpu = machine(&[0xE8, 0xFF]);
    cpu.reg.sp = 0x0001;
    cpu.reg.set_flags(true, true, false, false);
    assert_eq!(step(&mut cpu), 4);
    assert_eq!(cpu.reg.sp, 0x0000);
    assert_eq!(flags(&cpu), (false, false, true, true));
    // LD HL,SP+2.
    let mut cpu = machine(&[0xF8, 0x02]);
    cpu.reg.sp = 0xFFFE;
    assert_eq!(step(&mut cpu), 3);
    assert_eq!(cpu.reg.hl(), 0x0000);
    assert_eq!(cpu.reg.sp, 0xFFFE);
    assert_eq!(flags(&cpu), (false, false, true, true));
}

#[test]
fn push_then_pop_round_trips() {
    for value in [0x0000u16, 0x0001, 0x1234, 0xBEEF, 0xFFFF] {
        let mut cpu = machine(&[]);
        cpu.push_stack(value);
        assert_eq!(cpu.reg.sp, 0xFFFC);
        assert_eq!(cpu.membus.read(0xFFFD), (value >> 8) as u8);
        assert_eq!(cpu.membus.read(0xFFFC), value as u8);
        assert_eq!(cpu.pop_stack(), value);
        assert_eq!(cpu.reg.sp, 0xFFFE);
    }
}

#[test]
fn push_and_pop_of_each_pair() {
    // PUSH BC; PUSH DE; PUSH HL; PUSH AF; POP BC; POP DE; POP HL; POP AF.
    let mut cpu = machine(&[0xC5, 0xD5, 0xE5, 0xF5, 0xC1, 0xD1, 0xE1, 0xF1]);
    cpu.reg.set_bc(0x1122);
    cpu.reg.set_de(0x3344);
    cpu.reg.set_hl(0x5566);
    cpu.reg.set_af(0x77F0);
    for _ in 0..4 {
        assert_eq!(step(&mut cpu), 4);
    }
    assert_eq!(cpu.reg.sp, 0xFFF6);
    for _ in 0..4 {
        assert_eq!(step(&mut cpu), 3);
    }
    assert_eq!(cpu.reg.sp, 0xFFFE);
    assert_eq!(cpu.reg.bc(), 0x77F0);
    assert_eq!(cpu.reg.de(), 0x5566);
    assert_eq!(cpu.reg.hl(), 0x3344);
    assert_eq!(cpu.reg.af(), 0x1120);
}

#[test]
fn pop_af_drops_the_low_nibble() {
    // PUSH BC; POP AF; PUSH AF; POP DE.
    let mut cpu = machine(&[0xC5, 0xF1, 0xF5, 0xD1]);
    cpu.reg.set_bc(0x12FF);
    for _ in 0..4 {
        step(&mut cpu);
    }
    assert_eq!(cpu.reg.a, 0x12);
    assert_eq!(cpu.reg.f, 0xF0);
    assert_eq!(cpu.reg.de(), 0x12F0);
}

#[test]
fn read_byte_and_read_word() {
    let mut cpu = machine(&[0x34, 0x12, 0xAB]);
    assert_eq!(cpu.read_word(), 0x1234);
    assert_eq!(cpu.reg.pc, CODE + 2);
    assert_eq!(cpu.read_byte(), 0xAB);
    assert_eq!(cpu.reg.pc, CODE + 3);
    cpu.reg.pc = 0xFFFF;
    cpu.membus.write(0xFFFF, 0x5A);
    assert_eq!(cpu.read_byte(), 0x5A);
    assert_eq!(cpu.reg.pc, 0x0000);
}

#[test]
fn jr_minus_two_loops_for_ever() {
    let mut cpu = machine(&[0x18, 0xFE]);
    for _ in 0..50 {
        assert_eq!(step(&mut cpu), 3);
        assert_eq!(cpu.reg.pc, CODE);
    }
}

#[test]
fn trivial_loop() {
    let mut image = vec![0u8; 0x8000];
    image[0x100..0x104].copy_from_slice(&[0x00, 0x00, 0x18, 0xFC]);
    let mut mem = Mmu::new();
    mem.load_rom(&image);
    let mut cpu = Cpu::from(mem);
    for _ in 0..1000 {
        let (serial, outcome) = cpu.cycle();
        assert_eq!(serial, None);
        assert!(outcome.is_ok());
        assert!((0x0100..=0x0103).contains(&cpu.reg.pc));
    }
    assert_eq!(cpu.reg.sp, 0xFFFE);
    // 333 rounds of NOP, NOP, JR and one NOP: 333 * 5 + 1 machine cycles.
    assert_eq!(cpu.reg.pc, 0x0101);
    assert_eq!(cpu.membus.read(0xFF04), 0xAB_u8.wrapping_add((1666 / 64) as u8));
}

#[test]
fn interrupt_service() {
    let mut cpu = machine(&[]);
    cpu.membus.write(0xFFFF, 0x01);
    cpu.membus.write(0xFF0F, 0x01);
    cpu.ime = true;
    cpu.ime_next = true;
    cpu.reg.pc = 0x0150;
    cpu.reg.sp = 0xFFFE;
    let (serial, outcome) = cpu.cycle();
    assert_eq!(serial, None);
    assert_eq!(outcome, Ok(5));
    assert_eq!(cpu.membus.read(0xFFFD), 0x01);
    assert_eq!(cpu.membus.read(0xFFFC), 0x50);
    assert_eq!(cpu.reg.sp, 0xFFFC);
    assert_eq!(cpu.reg.pc, 0x0040);
    assert_eq!(cpu.membus.read(0xFF0F) & 0x01, 0);
    assert!(!cpu.ime);
    assert!(!cpu.ime_next);
    assert_eq!(cpu.membus.timer.running_div, 5);
}

#[test]
fn the_service_takes_the_first_pending_interrupt_only() {
    let mut cpu = machine(&[]);
    cpu.membus.write(0xFFFF, 0x1F);
    cpu.membus.write(0xFF0F, 0x14);
    cpu.ime = true;
    cpu.ime_next = true;
    assert_eq!(cpu.cycle().1, Ok(5));
    assert_eq!(cpu.reg.pc, 0x0050);
    assert_eq!(cpu.membus.read(0xFF0F), 0x10);
    assert!(!cpu.ime);
}

#[test]
fn no_service_while_interrupts_are_off() {
    let mut cpu = machine(&[0x00]);
    cpu.membus.write(0xFFFF, 0x01);
    cpu.membus.write(0xFF0F, 0x01);
    assert_eq!(step(&mut cpu), 1);
    assert_eq!(cpu.reg.pc, CODE + 1);
    assert_eq!(cpu.membus.read(0xFF0F), 0x01);
    assert_eq!(cpu.reg.sp, 0xFFFE);
}

#[test]
fn ei_takes_effect_one_instruction_late() {
    // EI; NOP; NOP.
    let mut cpu = machine(&[0xFB, 0x00, 0x00]);
    cpu.membus.write(0xFFFF, 0x01);
    cpu.membus.write(0xFF0F, 0x01);
    assert_eq!(step(&mut cpu), 1);
    assert!(!cpu.ime);
    assert!(cpu.ime_next);
    assert_eq!(step(&mut cpu), 1);
    assert!(cpu.ime);
    assert_eq!(cpu.reg.pc, CODE + 2);
    assert_eq!(step(&mut cpu), 5);
    assert_eq!(cpu.reg.pc, 0x0040);
    assert_eq!(cpu.membus.read(0xFFFD), 0xC0);
    assert_eq!(cpu.membus.read(0xFFFC), 0x02);
    assert!(!cpu.ime);
}

#[test]
fn ei_then_di_serves_nothing() {
    // EI; DI; NOP; NOP.
    let mut cpu = machine(&[0xFB, 0xF3, 0x00, 0x00]);
    cpu.membus.write(0xFFFF, 0x01);
    cpu.membus.write(0xFF0F, 0x01);
    assert_eq!(step(&mut cpu), 1);
    assert!(cpu.ime_next);
    assert_eq!(step(&mut cpu), 1);
    assert!(!cpu.ime);
    assert!(!cpu.ime_next);
    assert_eq!(step(&mut cpu), 1);
    assert_eq!(step(&mut cpu), 1);
    assert_eq!(cpu.reg.pc, CODE + 4);
    assert_eq!(cpu.reg.sp, 0xFFFE);
    assert_eq!(cpu.membus.read(0xFF0F), 0x01);
    assert!(!cpu.ime);
}

#[test]
fn reti_turns_interrupts_on_at_once() {
    // CALL 0xC010; at 0xC010: RETI.
    let mut cpu = machine(&[0xCD, 0x10, 0xC0]);
    cpu.membus.write(0xC010, 0xD9);
    assert_eq!(step(&mut cpu), 6);
    assert_eq!(cpu.reg.pc, 0xC010);
    assert_eq!(step(&mut cpu), 5);
    assert_eq!(cpu.reg.pc, CODE + 3);
    assert!(cpu.ime);
    assert!(cpu.ime_next);
    assert_eq!(cpu.reg.sp, 0xFFFE);
}

#[test]
fn halt_wake() {
    // HALT; NOP.
    let mut cpu = machine(&[0x76, 0x00]);
    cpu.membus.write(0xFFFF, 0x01);
    assert_eq!(step(&mut cpu), 1);
    assert!(cpu.halted);
    assert_eq!(cpu.reg.pc, CODE + 1);
    for _ in 0..3 {
        assert_eq!(step(&mut cpu), 1);
        assert!(cpu.halted);
        assert_eq!(cpu.reg.pc, CODE + 1);
    }
    // The LCD controller enters vertical blank and the bus advances.
    cpu.membus.gpu.stat = 0x01;
    cpu.membus.do_cycles(1);
    assert_eq!(cpu.membus.read(0xFF0F) & 0x01, 0x01);
    assert_eq!(step(&mut cpu), 1);
    assert!(!cpu.halted);
    assert_eq!(cpu.reg.pc, CODE + 2);
    assert_eq!(cpu.reg.sp, 0xFFFE);
    assert!(!cpu.ime);
    assert_eq!(cpu.membus.read(0xFF0F) & 0x01, 0x01);
}

#[test]
fn halt_with_interrupts_on_wakes_into_the_service() {
    // EI; HALT.
    let mut cpu = machine(&[0xFB, 0x76, 0x00]);
    cpu.membus.write(0xFFFF, 0x04);
    step(&mut cpu);
    step(&mut cpu);
    assert!(cpu.halted);
    assert!(cpu.ime);
    assert_eq!(step(&mut cpu), 1);
    assert!(cpu.halted);
    cpu.membus.write(0xFF0F, 0x04);
    assert_eq!(step(&mut cpu), 5);
    assert!(!cpu.halted);
    assert_eq!(cpu.reg.pc, 0x0050);
    assert_eq!(cpu.membus.read(0xFFFD), 0xC0);
    assert_eq!(cpu.membus.read(0xFFFC), 0x02);
    assert_eq!(cpu.membus.read(0xFF0F), 0x00);
}

#[test]
fn a_request_that_is_not_enabled_does_not_wake() {
    let mut cpu = machine(&[0x76, 0x00]);
    cpu.membus.write(0xFFFF, 0x01);
    step(&mut cpu);
    cpu.membus.write(0xFF0F, 0xFE);
    assert_eq!(step(&mut cpu), 1);
    assert!(cpu.halted);
    assert_eq!(cpu.reg.pc, CODE + 1);
}

#[test]
fn an_unknown_opcode_stops_the_processor() {
    for opcode in [0xD3u8, 0xDB, 0xDD, 0xE3, 0xE4, 0xEB, 0xEC, 0xED, 0xF4, 0xFC, 0xFD] {
        assert!(!is_defined(opcode));
        let mut cpu = machine(&[0x00, opcode]);
        assert_eq!(cpu.cycle().1, Ok(1));
        let (serial, outcome) = cpu.cycle();
        assert_eq!(serial, None);
        assert_eq!(outcome, Err(CpuError::UnknownOpcode { opcode, pc: CODE + 1 }));
        assert_eq!(cpu.reg.pc, CODE + 2);
        assert_eq!(cpu.membus.timer.running_div, 1);
        let mut cpu = machine(&[]);
        cpu.reg.pc = 0x1235;
        assert_eq!(cpu.exec(opcode), Err(CpuError::UnknownOpcode { opcode, pc: 0x1234 }));
        assert_eq!(cpu.reg.pc, 0x1235);
    }
}

#[test]
fn all_other_opcodes_are_defined() {
    let mut count = 0;
    for opcode in 0..=255u8 {
        if is_defined(opcode) {
            count += 1;
        }
    }
    assert_eq!(count, 245);
    for opcode in 0..0xC0u8 {
        assert!(is_defined(opcode));
    }
}

#[test]
fn the_serial_byte_comes_out_of_the_step() {
    let mut cpu = machine(&[0x00, 0x00]);
    cpu.membus.write(0xFF01, b'P');
    cpu.membus.write(0xFF02, 0x81);
    let (serial, outcome) = cpu.cycle();
    assert_eq!(serial, Some(b'P'));
    assert_eq!(outcome, Ok(1));
    assert_eq!(cpu.membus.read(0xFF02), 0x00);
    assert_eq!(cpu.cycle(), (None, Ok(1)));
}

#[test]
fn the_step_advances_the_bus_by_the_cost() {
    // LD BC,0x1234 (3); PUSH BC (4); NOP (1).
    let mut cpu = machine(&[0x01, 0x34, 0x12, 0xC5, 0x00]);
    assert_eq!(step(&mut cpu), 3);
    assert_eq!(cpu.membus.timer.running_div, 3);
    assert_eq!(step(&mut cpu), 4);
    assert_eq!(cpu.membus.timer.running_div, 7);
    assert_eq!(step(&mut cpu), 1);
    assert_eq!(cpu.membus.timer.running_div, 8);
    assert_eq!(cpu.reg.bc(), 0x1234);
}

#[test]
fn opcode_fields() {
    assert_eq!(fields(0x00), (0, 0));
    assert_eq!(fields(0x47), (0, 7));
    assert_eq!(fields(0x78), (7, 0));
    assert_eq!(fields(0xFF), (7, 7));
    assert_eq!(fields(0xB6), (6, 6));
}

#[test]
fn a_high_bit_ends_a_halt_but_is_never_served() {
    // EI; HALT; NOP.
    let mut cpu = machine(&[0xFB, 0x76, 0x00]);
    cpu.membus.write(0xFFFF, 0xE0);
    step(&mut cpu);
    step(&mut cpu);
    assert!(cpu.halted);
    assert!(cpu.ime);
    cpu.membus.write(0xFF0F, 0x80);
    assert_eq!(step(&mut cpu), 1);
    assert!(!cpu.halted);
    assert_eq!(cpu.reg.pc, CODE + 3);
    assert_eq!(cpu.reg.sp, 0xFFFE);
    assert_eq!(cpu.membus.read(0xFF0F), 0x80);
    assert!(cpu.ime);
}
