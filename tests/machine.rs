use gb_core::cart::controller::Cart;
use gb_core::gameboy::Gameboy;
use gb_core::input::{A, START};

/// A 32 KiB image with the given type byte and program at 0x100.
fn rom_with(cart_type: u8, cgb: u8, program: &[u8]) -> Vec<u8> {
    let mut rom = vec![0u8; 0x8000];
    rom[0x143] = cgb;
    rom[0x147] = cart_type;
    for (i, b) in program.iter().enumerate() {
        rom[0x100 + i] = *b;
    }
    rom
}

fn machine(program: &[u8]) -> Gameboy {
    Gameboy::new(Cart::new("test.gb", rom_with(0x00, 0x00, program)))
}

#[test]
fn echo_and_unusable_ranges() {
    let mut gb = machine(&[]);
    gb.write(0xE000, 0x12);
    assert_eq!(gb.read(0xE000), 0xFF);
    assert_eq!(gb.read(0xFDFF), 0xFF);
    gb.write(0xFEA0, 0x12);
    assert_eq!(gb.read(0xFEA0), 0xFF);
    gb.write(0xC000, 0x34);
    assert_eq!(gb.read(0xC000), 0x34);
    gb.write(0xD123, 0x56);
    assert_eq!(gb.read(0xD123), 0x56);
    gb.write(0xFE10, 0x78);
    assert_eq!(gb.read(0xFE10), 0x78);
    gb.write(0xFF80, 0x9A);
    assert_eq!(gb.read(0xFF80), 0x9A);
}

#[test]
fn io_register_side_effects() {
    let mut gb = machine(&[]);
    gb.write(0xFF0F, 0x01);
    assert_eq!(gb.read(0xFF0F), 0xE1);
    gb.write(0xFF41, 0x00);
    assert_eq!(gb.read(0xFF41), 0x80);
    gb.write(0xFF44, 0x55);
    assert_eq!(gb.read(0xFF44), 0x00);
    gb.write(0xFF04, 0x55);
    assert_eq!(gb.read(0xFF04), 0x00);
    gb.write(0xFF07, 0x05);
    assert_eq!(gb.read(0xFF07), 0xFD);
}

#[test]
fn oam_dma_copies_a_page() {
    let mut gb = machine(&[]);
    for i in 0..0xA0u16 {
        gb.write(0xC000 + i, i as u8);
    }
    gb.write(0xFF46, 0xC0);
    for i in 0..0xA0u16 {
        assert_eq!(gb.read(0xFE00 + i), i as u8);
    }
}

#[test]
fn colour_banks_and_hdma() {
    let mut gb = Gameboy::new(Cart::new("test.gb", rom_with(0x00, 0xC0, &[])));
    assert!(gb.cgb_mode);
    gb.write(0xFF70, 0x00);
    assert_eq!(gb.read(0xFF70), 1);
    gb.write(0xFF70, 0x03);
    gb.write(0xD000, 0x33);
    gb.write(0xFF70, 0x02);
    assert_eq!(gb.read(0xD000), 0x00);
    gb.write(0xFF70, 0x03);
    assert_eq!(gb.read(0xD000), 0x33);
    for i in 0..0x20u16 {
        gb.write(0xC100 + i, 0x80 + i as u8);
    }
    gb.write(0xFF51, 0xC1);
    gb.write(0xFF52, 0x00);
    gb.write(0xFF53, 0x00);
    gb.write(0xFF54, 0x40);
    gb.write(0xFF55, 0x01);
    for i in 0..0x20u16 {
        assert_eq!(gb.read(0x8040 + i), 0x80 + i as u8);
    }
    assert_eq!(gb.read(0xFF55), 0xFF);
    gb.write(0xFF4F, 0x01);
    assert_eq!(gb.read(0x8040), 0x00);
}

#[test]
fn timer_counts_and_overflows() {
    let mut gb = machine(&[]);
    gb.write(0xFF0F, 0x00);
    gb.write(0xFF07, 0x05);
    gb.write(0xFF05, 0x00);
    gb.write(0xFF06, 0x42);
    gb.memory.timer.value = 0;
    gb.update_timers(16);
    assert_eq!(gb.read(0xFF05), 0x01);
    gb.write(0xFF05, 0xFF);
    gb.update_timers(16);
    assert_eq!(gb.read(0xFF05), 0x42);
    assert_eq!(gb.read(0xFF0F) & 0x04, 0x04);
}

#[test]
fn timer_frequency_selector() {
    let mut gb = machine(&[]);
    for (tac, count) in [(0x04u8, 1024usize), (0x05, 16), (0x06, 64), (0x07, 256)] {
        gb.write(0xFF07, tac);
        assert_eq!(gb.get_clock_freq_count(), count);
        assert!(gb.is_clock_enabled());
    }
    gb.write(0xFF07, 0x00);
    assert!(!gb.is_clock_enabled());
}

#[test]
fn divider_counts_every_255_cycles() {
    let mut gb = machine(&[]);
    gb.write(0xFF04, 0x00);
    gb.update_timers(254);
    assert_eq!(gb.read(0xFF04), 0);
    gb.update_timers(1);
    assert_eq!(gb.read(0xFF04), 1);
}

#[test]
fn vblank_is_served_first() {
    let mut gb = machine(&[]);
    gb.cpu.pc = 0x1234;
    gb.cpu.sp.set_full(0xDFF0);
    gb.write(0xFFFF, 0xFF);
    gb.write(0xFF0F, 0x05);
    gb.interrupts_on = true;
    let before = gb.read(0xFF0F);
    let extra = gb.do_interrupts();
    assert_eq!(extra, 20);
    assert_eq!(gb.cpu.pc, 0x40);
    assert_eq!(gb.read(0xFF0F), before & 0xFE);
    assert!(!gb.interrupts_on);
    assert_eq!(gb.read(0xDFEF), 0x12);
    assert_eq!(gb.read(0xDFEE), 0x34);
    assert_eq!(gb.cpu.sp.full(), 0xDFEE);
}

#[test]
fn halt_without_ime_wakes_without_dispatch() {
    let mut gb = machine(&[]);
    gb.cpu.pc = 0x0200;
    gb.write(0xFFFF, 0x04);
    gb.write(0xFF0F, 0x04);
    gb.halted = true;
    gb.interrupts_on = false;
    let extra = gb.do_interrupts();
    assert!(!gb.halted);
    assert_eq!(gb.cpu.pc, 0x0200);
    assert_eq!(gb.read(0xFF0F) & 0x04, 0x04);
    assert_eq!(extra, 0);
}

#[test]
fn ei_takes_effect_after_one_pass() {
    let mut gb = machine(&[]);
    gb.interrupts_enabling = true;
    assert_eq!(gb.do_interrupts(), 0);
    assert!(gb.interrupts_on);
    assert!(!gb.interrupts_enabling);
}

#[test]
fn buttons_and_joypad() {
    let mut gb = machine(&[]);
    gb.write(0xFF0F, 0x00);
    gb.press_button(A);
    assert_eq!(gb.memory.input.mask, 0xFE);
    assert_eq!(gb.read(0xFF0F) & 0x10, 0x10);
    gb.write(0xFF00, 0x10);
    assert_eq!(gb.read(0xFF00), 0x10 | 0xC0 | 0x0E);
    gb.press_button(START);
    gb.release_button(A);
    assert_eq!(gb.memory.input.mask, 0xF7);
}

#[test]
fn loads_and_arithmetic_instructions() {
    // LD B,0x12; LD A,0x30; ADD A,B; LD (0xC000),A; INC A; LD HL,0xC000; ADD A,(HL)
    let mut gb = machine(&[0x06, 0x12, 0x3E, 0x30, 0x80, 0xEA, 0x00, 0xC0, 0x3C, 0x21, 0x00, 0xC0, 0x86]);
    assert_eq!(gb.execute_next_opcode(), 8);
    assert_eq!(gb.cpu.bc.hi(), 0x12);
    gb.execute_next_opcode();
    assert_eq!(gb.execute_next_opcode(), 4);
    assert_eq!(gb.cpu.af.hi(), 0x42);
    assert_eq!(gb.execute_next_opcode(), 16);
    assert_eq!(gb.read(0xC000), 0x42);
    gb.execute_next_opcode();
    assert_eq!(gb.cpu.af.hi(), 0x43);
    assert_eq!(gb.execute_next_opcode(), 12);
    assert_eq!(gb.cpu.hl.full(), 0xC000);
    assert_eq!(gb.execute_next_opcode(), 8);
    assert_eq!(gb.cpu.af.hi(), 0x85);
    assert_eq!(gb.cpu.pc, 0x10D);
}

#[test]
fn conditional_branches_charge_when_taken() {
    // XOR A (Z set); JP NZ,0x0200 (not taken); JP Z,0x0150 (taken)
    let mut gb = machine(&[0xAF, 0xC2, 0x00, 0x02, 0xCA, 0x50, 0x01]);
    gb.execute_next_opcode();
    assert_eq!(gb.execute_next_opcode(), 12);
    assert_eq!(gb.cpu.pc, 0x104);
    assert_eq!(gb.execute_next_opcode(), 16);
    assert_eq!(gb.cpu.pc, 0x150);
}

#[test]
fn relative_jumps() {
    // JR +2; (skipped 2 bytes); JR -4
    let mut gb = machine(&[0x18, 0x02, 0x00, 0x00, 0x18, 0xFC]);
    assert_eq!(gb.execute_next_opcode(), 12);
    assert_eq!(gb.cpu.pc, 0x104);
    gb.execute_next_opcode();
    assert_eq!(gb.cpu.pc, 0x102);
}

#[test]
fn call_and_return() {
    // CALL 0x0110 ... at 0x110: RET
    let mut program = vec![0u8; 0x11];
    program[0] = 0xCD;
    program[1] = 0x10;
    program[2] = 0x01;
    program[0x10] = 0xC9;
    let mut gb = machine(&program);
    assert_eq!(gb.execute_next_opcode(), 24);
    assert_eq!(gb.cpu.pc, 0x110);
    assert_eq!(gb.cpu.sp.full(), 0xFFFC);
    assert_eq!(gb.execute_next_opcode(), 16);
    assert_eq!(gb.cpu.pc, 0x103);
    assert_eq!(gb.cpu.sp.full(), 0xFFFE);
}

#[test]
fn push_pop_af_masks_flags() {
    // LD BC,0x12FF; PUSH BC; POP AF
    let mut gb = machine(&[0x01, 0xFF, 0x12, 0xC5, 0xF1]);
    gb.execute_next_opcode();
    assert_eq!(gb.execute_next_opcode(), 16);
    assert_eq!(gb.execute_next_opcode(), 12);
    assert_eq!(gb.cpu.af.full(), 0x12F0);
}

#[test]
fn prefixed_instructions() {
    // LD A,0xF1; SWAP A; LD HL,0xC000; SET 3,(HL); BIT 3,(HL); RES 3,(HL); RLC A
    let mut gb = machine(&[0x3E, 0xF1, 0xCB, 0x37, 0x21, 0x00, 0xC0, 0xCB, 0xDE, 0xCB, 0x5E, 0xCB, 0x9E, 0xCB, 0x07]);
    gb.execute_next_opcode();
    assert_eq!(gb.execute_next_opcode(), 8);
    assert_eq!(gb.cpu.af.hi(), 0x1F);
    assert!(!gb.cpu.c());
    gb.execute_next_opcode();
    assert_eq!(gb.execute_next_opcode(), 16);
    assert_eq!(gb.read(0xC000), 0x08);
    assert_eq!(gb.execute_next_opcode(), 12);
    assert!(!gb.cpu.z());
    gb.execute_next_opcode();
    assert_eq!(gb.read(0xC000), 0x00);
    gb.execute_next_opcode();
    assert_eq!(gb.cpu.af.hi(), 0x3E);
    assert!(!gb.cpu.c());
}

#[test]
fn halt_then_step_idles() {
    let mut gb = machine(&[0x76]);
    gb.write(0xFFFF, 0x00);
    gb.step();
    assert!(gb.halted);
    let pc = gb.cpu.pc;
    assert_eq!(gb.step(), 4);
    assert_eq!(gb.cpu.pc, pc);
}

#[test]
fn stop_skips_its_operand() {
    let mut gb = machine(&[0x10, 0x00, 0x00]);
    gb.execute_next_opcode();
    assert_eq!(gb.cpu.pc, 0x102);
    assert!(gb.stopped);
}

#[test]
fn speed_switch_on_colour_hardware() {
    let mut gb = Gameboy::new(Cart::new("test.gb", rom_with(0x00, 0x80, &[0x10, 0x00])));
    gb.write(0xFF4D, 0x01);
    assert_eq!(gb.read(0xFF4D), 0x01);
    gb.execute_next_opcode();
    assert_eq!(gb.memory.speed.current, 1);
    assert!(!gb.stopped);
    assert_eq!(gb.read(0xFF4D), 0x80);
}

#[test]
fn frame_runs_its_budget() {
    // JR -2: a tight loop
    let mut gb = machine(&[0x18, 0xFE]);
    gb.write(0xFFFF, 0x00);
    let cycles = gb.update();
    assert!(cycles >= 69905);
    assert!(cycles < 69905 + 64);
    assert_eq!(gb.cpu.pc, 0x100);
    gb.paused = true;
    assert_eq!(gb.update(), 0);
}
