use chip8::system::debug::Debugger;
use chip8::system::{System, SystemError};

fn machine_with(rom: &[u8]) -> System {
    let mut sys = System::default();
    sys.load(rom).unwrap();
    sys
}

fn run(sys: &mut System, ticks: usize) {
    let mut dbg = Debugger::disabled();
    for _ in 0..ticks {
        sys.tick(&mut dbg).unwrap();
    }
}

fn lit(sys: &System, x: usize, y: usize) -> bool {
    sys.screen()[y * 64 + x] == 0xFF
}

#[test]
fn fetch_at_the_last_byte_of_memory_fails() {
    let mut sys = System::default();
    sys.registers.pc = 0xFFF;
    let mut dbg = Debugger::disabled();
    assert_eq!(
        sys.tick(&mut dbg),
        Err(SystemError::InvalidMemoryAccess { addr: 0xFFF })
    );
    assert_eq!(
        sys.fetch_instruction(),
        Err(SystemError::InvalidMemoryAccess { addr: 0xFFF })
    );
    assert_eq!(sys.registers.pc, 0xFFF);
}

#[test]
fn fetch_at_the_last_word_of_memory_succeeds() {
    let mut sys = System::default();
    sys.mem[0xFFE] = 0x12;
    sys.mem[0xFFF] = 0x34;
    sys.registers.pc = 0xFFE;
    assert_eq!(sys.fetch_instruction(), Ok(0x1234));
    let mut dbg = Debugger::disabled();
    assert_eq!(sys.tick(&mut dbg), Ok(()));
    assert_eq!(sys.registers.pc, 0x234);
}

#[test]
fn program_of_3584_bytes_loads() {
    let mut sys = System::default();
    let rom = vec![0xABu8; 3584];
    assert_eq!(sys.load(&rom), Ok(()));
    assert_eq!(sys.mem[0x200], 0xAB);
    assert_eq!(sys.mem[0xFFF], 0xAB);
    assert_eq!(sys.mem[0x1FF], 0x00);
    assert_eq!(sys.mem[0x000], 0xF0);
}

#[test]
fn program_of_3585_bytes_is_too_large() {
    let mut sys = System::default();
    let rom = vec![0xABu8; 3585];
    assert_eq!(sys.load(&rom), Err(SystemError::ProgramTooLarge));
    assert!(sys.mem[0x200..].iter().all(|b| *b == 0));
}

#[test]
fn seventeenth_nested_call_overflows_the_stack() {
    // 0x200: CALL 0x200, over and over.
    let mut sys = machine_with(&[0x22, 0x00]);
    let mut dbg = Debugger::disabled();
    for depth in 0..16 {
        assert_eq!(sys.tick(&mut dbg), Ok(()));
        assert_eq!(sys.stack.sp, depth + 1);
    }
    assert_eq!(sys.tick(&mut dbg), Err(SystemError::StackOverflow));
    assert_eq!(sys.stack.sp, 16);
    assert_eq!(sys.registers.pc, 0x200);
}

#[test]
fn return_on_an_empty_stack_underflows() {
    let mut sys = machine_with(&[0x00, 0xEE]);
    let mut dbg = Debugger::disabled();
    assert_eq!(sys.tick(&mut dbg), Err(SystemError::StackUnderflow));
    assert_eq!(sys.stack.sp, 0);
    assert_eq!(sys.registers.pc, 0x200);
}

#[test]
fn draws_the_font_glyph_for_zero() {
    let mut sys = machine_with(&[0x60, 0x0A, 0x61, 0x0A, 0xA0, 0x00, 0xD0, 0x15]);
    run(&mut sys, 4);
    assert_eq!(sys.registers.reg[0], 0x0A);
    assert_eq!(sys.registers.reg[1], 0x0A);
    assert_eq!(sys.registers.index, 0x000);
    assert_eq!(sys.registers.carry(), 0);
    let glyph: [u8; 5] = [0xF0, 0x90, 0x90, 0x90, 0xF0];
    for y in 0..32 {
        for x in 0..64 {
            let inside = (10..18).contains(&x) && (10..15).contains(&y);
            let expected = inside && (glyph[y - 10] >> (7 - (x - 10))) & 1 == 1;
            assert_eq!(lit(&sys, x, y), expected, "pixel ({}, {})", x, y);
        }
    }
    assert_eq!(sys.registers.pc, 0x208);
}

#[test]
fn add_byte_wraps_and_leaves_the_flag() {
    let mut sys = machine_with(&[0x60, 0xFF, 0x70, 0x01]);
    sys.registers.reg[15] = 0x5A;
    run(&mut sys, 2);
    assert_eq!(sys.registers.reg[0], 0x00);
    assert_eq!(sys.registers.reg[15], 0x5A);

    let mut sys = machine_with(&[0x60, 0xFF, 0x70, 0x01]);
    run(&mut sys, 2);
    assert_eq!(sys.registers.reg[0], 0x00);
    assert_eq!(sys.registers.reg[15], 0x00);
}

#[test]
fn subtract_without_borrow_sets_the_flag() {
    let mut sys = machine_with(&[0x60, 0x05, 0x61, 0x03, 0x80, 0x15]);
    run(&mut sys, 3);
    assert_eq!(sys.registers.reg[0], 0x02);
    assert_eq!(sys.registers.reg[15], 1);
}

#[test]
fn subtract_with_borrow_clears_the_flag() {
    let mut sys = machine_with(&[0x60, 0x03, 0x61, 0x05, 0x80, 0x15]);
    run(&mut sys, 3);
    assert_eq!(sys.registers.reg[0], 0xFE);
    assert_eq!(sys.registers.reg[15], 0);
}

#[test]
fn call_and_return_come_back_behind_the_call() {
    let mut sys = machine_with(&[0x22, 0x04, 0x00, 0x00, 0x00, 0xEE]);
    let mut dbg = Debugger::disabled();
    assert_eq!(sys.tick(&mut dbg), Ok(()));
    assert_eq!(sys.registers.pc, 0x204);
    assert_eq!(sys.stack.sp, 1);
    assert_eq!(sys.stack.stack[0], 0x200);
    assert_eq!(sys.tick(&mut dbg), Ok(()));
    assert_eq!(sys.registers.pc, 0x202);
    assert_eq!(sys.stack.sp, 0);
}

#[test]
fn drawing_a_row_twice_clears_it_and_collides() {
    let mut sys = machine_with(&[0xA2, 0x08, 0x60, 0x0A, 0x61, 0x0A, 0xD0, 0x11, 0xFF]);
    run(&mut sys, 4);
    for y in 0..32 {
        for x in 0..64 {
            assert_eq!(lit(&sys, x, y), y == 10 && (10..18).contains(&x));
        }
    }
    assert_eq!(sys.registers.reg[15], 0);

    sys.registers.pc = 0x200;
    run(&mut sys, 4);
    assert!(sys.screen().iter().all(|p| *p == 0));
    assert!(sys.screen.iter().all(|b| *b == 0));
    assert_eq!(sys.registers.reg[15], 1);
}
