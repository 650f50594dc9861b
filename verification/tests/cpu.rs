use mos6502::{Cpu, InvalidOpcode, Mem, ProcStatus};
use mos6502::{OP_JSR, OP_LDA_IM, OP_LDA_ZP, OP_LDA_ZPX, OP_NOP};

#[test]
fn cpu_is_initialized_correctly() {
    let cpu = Cpu::new();

    assert_eq!(cpu.pc, 0xFFFC);
    assert_eq!(cpu.sp, 0);
    assert_eq!(cpu.a, 0);
    assert_eq!(cpu.x, 0);
    assert_eq!(cpu.y, 0);
    assert_eq!(cpu.ps, ProcStatus::empty());
}

#[test]
fn cpu_and_memory_is_reset_correctly() {
    let mut cpu = Cpu::new();
    cpu.pc = 0x0000;
    cpu.sp = 0x01;
    cpu.a = 0x02;
    cpu.x = 0x03;
    cpu.y = 0x04;
    cpu.ps = ProcStatus::all();

    let mut cpu = Cpu::new();
    let mut mem = Mem::new();
    mem[0x0000] = 0xDE;
    mem[0x0001] = 0xAD;
    mem[0x0002] = 0xBE;
    mem[0x0003] = 0xEF;

    cpu.reset(&mut mem);

    assert_eq!(cpu.pc, 0xFFFC);
    assert_eq!(cpu.sp, 0);
    assert_eq!(cpu.a, 0);
    assert_eq!(cpu.x, 0);
    assert_eq!(cpu.y, 0);
    assert_eq!(cpu.ps, ProcStatus::empty());
    assert_eq!(mem.data, [OP_NOP; 1024 * 64]);
}

#[test]
fn test_op_lda_im() {
    let mut cpu = Cpu::new();
    let mut mem = Mem::new();
    let mut cycles = 2;

    mem[0xFFFC] = OP_LDA_IM;
    mem[0xFFFD] = 0x01;

    let result = cpu.execute(&mut cycles, &mut mem);

    assert_eq!(result, Ok(()));
    assert_eq!(cpu.pc, 0xFFFE);
    assert_eq!(cpu.sp, 0x00);
    assert_eq!(cpu.a, 0x01);
    assert_eq!(cpu.x, 0x00);
    assert_eq!(cpu.y, 0x00);
    assert_eq!(cpu.ps, ProcStatus::empty());
    assert_eq!(cycles, 0);
}

#[test]
fn test_op_lda_im_negative() {
    let mut cpu = Cpu::new();
    let mut mem = Mem::new();
    let mut cycles = 2;

    mem[0xFFFC] = OP_LDA_IM;
    mem[0xFFFD] = 0xF1;

    let result = cpu.execute(&mut cycles, &mut mem);

    assert_eq!(result, Ok(()));
    assert_eq!(cpu.pc, 0xFFFE);
    assert_eq!(cpu.sp, 0x00);
    assert_eq!(cpu.a, 0xF1);
    assert_eq!(cpu.x, 0x00);
    assert_eq!(cpu.y, 0x00);
    assert_eq!(cpu.ps, ProcStatus::N());
    assert_eq!(cycles, 0);
}

#[test]
fn test_op_lda_im_zero() {
    let mut cpu = Cpu::new();
    let mut mem = Mem::new();
    let mut cycles = 2;

    mem[0xFFFC] = OP_LDA_IM;
    mem[0xFFFD] = 0x00;

    let result = cpu.execute(&mut cycles, &mut mem);

    assert_eq!(result, Ok(()));
    assert_eq!(cpu.pc, 0xFFFE);
    assert_eq!(cpu.sp, 0x00);
    assert_eq!(cpu.a, 0x00);
    assert_eq!(cpu.x, 0x00);
    assert_eq!(cpu.y, 0x00);
    assert_eq!(cpu.ps, ProcStatus::Z());
    assert_eq!(cycles, 0);
}

#[test]
fn lda_im_after_reset_with_two_cycles() {
    let mut cpu = Cpu::new();
    let mut mem = Mem::new();
    cpu.reset(&mut mem);
    mem[0xFFFC] = 0xA9;
    mem[0xFFFD] = 0x01;
    let mut cycles = 2;

    assert_eq!(cpu.execute(&mut cycles, &mut mem), Ok(()));

    assert_eq!(cpu.a, 0x01);
    assert_eq!(cpu.pc, 0xFFFE);
    assert!(!cpu.ps.contains(ProcStatus::Z()));
    assert!(!cpu.ps.contains(ProcStatus::N()));
    assert_eq!(cycles, 0);
}

#[test]
fn lda_im_sets_zero_and_negative_for_every_byte() {
    for value in 0..=255u8 {
        let mut cpu = Cpu::new();
        let mut mem = Mem::new();
        cpu.ps = ProcStatus::all();
        mem[0xFFFC] = OP_LDA_IM;
        mem[0xFFFD] = value;
        let mut cycles = 2;

        assert_eq!(cpu.execute(&mut cycles, &mut mem), Ok(()));

        assert_eq!(cpu.a, value);
        assert_eq!(cpu.ps.contains(ProcStatus::Z()), value == 0);
        assert_eq!(cpu.ps.contains(ProcStatus::N()), value & 0x80 != 0);
        assert!(!(cpu.ps.contains(ProcStatus::Z()) && cpu.ps.contains(ProcStatus::N())));
        assert!(cpu.ps.contains(ProcStatus::C()));
        assert!(cpu.ps.contains(ProcStatus::I()));
        assert!(cpu.ps.contains(ProcStatus::D()));
        assert!(cpu.ps.contains(ProcStatus::B()));
        assert!(cpu.ps.contains(ProcStatus::V()));
    }
}

#[test]
fn jsr_then_lda_with_eight_cycles() {
    let mut mem = Mem::new();
    let mut cpu = Cpu::new();
    cpu.reset(&mut mem);
    mem[0xFFFC] = OP_JSR;
    mem[0xFFFD] = 0x42;
    mem[0xFFFE] = 0x42;
    mem[0x4242] = OP_LDA_IM;
    mem[0x4243] = 0xDA;
    let mut cycles = 8;

    assert_eq!(cpu.execute(&mut cycles, &mut mem), Ok(()));

    assert_eq!(cpu.pc, 0x4244);
    assert_eq!(cpu.a, 0xDA);
    assert_eq!(cpu.sp, 0x01);
    assert_eq!(mem[0x0100], 0xFE);
    assert_eq!(mem[0x0101], 0xFF);
    assert_eq!(cpu.ps, ProcStatus::N());
    assert_eq!(cycles, 0);
}

#[test]
fn jsr_then_lda_with_nine_cycles() {
    let mut mem = Mem::new();
    let mut cpu = Cpu::new();
    cpu.reset(&mut mem);
    cpu.x = 0x01;
    mem[0xFFFC] = 0x20;
    mem[0xFFFD] = 0x42;
    mem[0xFFFE] = 0x42;
    mem[0x4242] = 0xA9;
    mem[0x4243] = 0xDA;
    let mut cycles = 9;

    assert_eq!(cpu.execute(&mut cycles, &mut mem), Ok(()));

    // The ninth cycle fetches the filler at 0x4244, which then runs to its end.
    assert_eq!(cpu.pc, 0x4245);
    assert_eq!(cpu.a, 0xDA);
    assert_eq!(cpu.x, 0x01);
    let pushed = u16::from(mem[0x0100]) | (u16::from(mem[0x0101]) << 8);
    assert_eq!(pushed, 0xFFFE);
    assert_eq!(cycles, 0);
}

#[test]
fn jsr_costs_six_cycles_and_stores_return_address() {
    let mut mem = Mem::new();
    let mut cpu = Cpu::new();
    cpu.pc = 0x1000;
    cpu.sp = 0x7F;
    mem[0x1000] = OP_JSR;
    mem[0x1001] = 0x34;
    mem[0x1002] = 0x12;
    let mut cycles = 10;

    assert_eq!(cpu.step(&mut cycles, &mut mem), Ok(()));

    assert_eq!(cycles, 4);
    assert_eq!(cpu.pc, 0x1234);
    assert_eq!(cpu.sp, 0x80);
    assert_eq!(mem[0x017F], 0x02);
    assert_eq!(mem[0x0180], 0x10);
    assert_eq!(cpu.ps, ProcStatus::empty());
}

#[test]
fn jsr_with_stack_pointer_at_top_wraps_pointer() {
    let mut mem = Mem::new();
    let mut cpu = Cpu::new();
    cpu.pc = 0x2000;
    cpu.sp = 0xFF;
    mem[0x2000] = OP_JSR;
    mem[0x2001] = 0x00;
    mem[0x2002] = 0x30;
    let mut cycles = 6;

    assert_eq!(cpu.step(&mut cycles, &mut mem), Ok(()));

    assert_eq!(cpu.sp, 0x00);
    assert_eq!(cpu.pc, 0x3000);
    assert_eq!(mem[0x01FF], 0x02);
    assert_eq!(mem[0x0200], 0x20);
    assert_eq!(cycles, 0);
}

#[test]
fn lda_zero_page_costs_three_cycles() {
    let mut mem = Mem::new();
    let mut cpu = Cpu::new();
    mem[0xFFFC] = OP_LDA_ZP;
    mem[0xFFFD] = 0x42;
    mem[0x0042] = 0x37;
    let mut cycles = 10;

    assert_eq!(cpu.step(&mut cycles, &mut mem), Ok(()));

    assert_eq!(cpu.a, 0x37);
    assert_eq!(cpu.pc, 0xFFFE);
    assert_eq!(cycles, 7);
    assert_eq!(cpu.ps, ProcStatus::empty());
}

#[test]
fn lda_zero_page_x_costs_four_cycles() {
    let mut mem = Mem::new();
    let mut cpu = Cpu::new();
    cpu.x = 0x05;
    mem[0xFFFC] = OP_LDA_ZPX;
    mem[0xFFFD] = 0x42;
    mem[0x0047] = 0x80;
    let mut cycles = 10;

    assert_eq!(cpu.step(&mut cycles, &mut mem), Ok(()));

    assert_eq!(cpu.a, 0x80);
    assert_eq!(cpu.pc, 0xFFFE);
    assert_eq!(cycles, 6);
    assert_eq!(cpu.ps, ProcStatus::N());
}

#[test]
fn lda_zero_page_x_wraps_within_zero_page() {
    let mut mem = Mem::new();
    let mut cpu = Cpu::new();
    cpu.x = 0xFF;
    mem[0xFFFC] = OP_LDA_ZPX;
    mem[0xFFFD] = 0x80;
    mem[0x007F] = 0x11;
    mem[0x017F] = 0x22;
    let mut cycles = 4;

    assert_eq!(cpu.execute(&mut cycles, &mut mem), Ok(()));

    assert_eq!(cpu.a, 0x11);
    assert_eq!(cycles, 0);
}

#[test]
fn nop_costs_two_cycles_and_changes_nothing_else() {
    let mut mem = Mem::new();
    let mut cpu = Cpu::new();
    cpu.a = 0x55;
    cpu.ps = ProcStatus::C();
    let mut cycles = 5;

    assert_eq!(cpu.step(&mut cycles, &mut mem), Ok(()));

    assert_eq!(cycles, 3);
    assert_eq!(cpu.pc, 0xFFFD);
    assert_eq!(cpu.a, 0x55);
    assert_eq!(cpu.sp, 0);
    assert_eq!(cpu.ps, ProcStatus::C());
    assert_eq!(mem.data, [OP_NOP; 0x1_0000]);
}

#[test]
fn instruction_that_has_begun_is_completed() {
    let mut mem = Mem::new();
    let mut cpu = Cpu::new();
    mem[0xFFFC] = OP_LDA_ZPX;
    mem[0xFFFD] = 0x10;
    mem[0x0010] = 0x99;
    let mut cycles = 1;

    assert_eq!(cpu.execute(&mut cycles, &mut mem), Ok(()));

    assert_eq!(cpu.a, 0x99);
    assert_eq!(cpu.pc, 0xFFFE);
    assert_eq!(cycles, 0);
}

#[test]
fn execute_without_budget_does_nothing() {
    let mut mem = Mem::new();
    let mut cpu = Cpu::new();
    mem[0xFFFC] = 0x02;
    let mut cycles = 0;
    assert_eq!(cpu.execute(&mut cycles, &mut mem), Ok(()));
    assert_eq!(cpu.pc, 0xFFFC);
    assert_eq!(cycles, 0);

    let mut cycles = -3;
    assert_eq!(cpu.execute(&mut cycles, &mut mem), Ok(()));
    assert_eq!(cpu.pc, 0xFFFC);
    assert_eq!(cycles, -3);
}

#[test]
fn unmapped_opcode_stops_execution() {
    let mut mem = Mem::new();
    let mut cpu = Cpu::new();
    mem[0xFFFC] = OP_NOP;
    mem[0xFFFD] = 0x02;
    mem[0xFFFE] = OP_LDA_IM;
    mem[0xFFFF] = 0x77;
    let mut cycles = 10;

    let result = cpu.execute(&mut cycles, &mut mem);

    assert_eq!(result, Err(InvalidOpcode { opcode: 0x02, pc: 0xFFFD }));
    assert_eq!(cpu.pc, 0xFFFE);
    assert_eq!(cpu.a, 0x00);
    assert_eq!(cycles, 7);
}

#[test]
fn program_counter_wraps_at_end_of_memory() {
    let mut mem = Mem::new();
    let mut cpu = Cpu::new();
    cpu.pc = 0xFFFF;
    mem[0xFFFF] = OP_LDA_IM;
    mem[0x0000] = 0x42;
    let mut cycles = 2;

    assert_eq!(cpu.execute(&mut cycles, &mut mem), Ok(()));

    assert_eq!(cpu.a, 0x42);
    assert_eq!(cpu.pc, 0x0001);
}

#[test]
fn reset_twice_is_reset_once() {
    let mut mem = Mem::new();
    let mut cpu = Cpu::new();
    cpu.a = 9;
    cpu.ps = ProcStatus::all();
    mem[0x1234] = 0x56;
    cpu.reset(&mut mem);
    let once = (cpu.pc, cpu.sp, cpu.a, cpu.x, cpu.y, cpu.ps, mem.data);
    cpu.reset(&mut mem);
    let twice = (cpu.pc, cpu.sp, cpu.a, cpu.x, cpu.y, cpu.ps, mem.data);
    assert_eq!(once, twice);
    assert!(mem.data.iter().all(|&cell| cell == OP_NOP));
}

#[test]
fn decrement_cycles_stops_at_zero() {
    let mut cycles = 5;
    Cpu::decrement_cycles(&mut cycles, 2);
    assert_eq!(cycles, 3);
    Cpu::decrement_cycles(&mut cycles, 3);
    assert_eq!(cycles, 0);
    Cpu::decrement_cycles(&mut cycles, 1);
    assert_eq!(cycles, 0);

    let mut cycles = 1;
    Cpu::decrement_cycles(&mut cycles, 2);
    assert_eq!(cycles, 0);

    let mut cycles = -5;
    Cpu::decrement_cycles(&mut cycles, 1);
    assert_eq!(cycles, 0);

    let mut cycles = 7;
    Cpu::decrement_cycles(&mut cycles, 0);
    assert_eq!(cycles, 7);
}
