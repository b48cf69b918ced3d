use chip8::system::debug::Debugger;
use chip8::system::state::KeyWait;
use chip8::system::{Registers, System, SystemError};

fn loaded(rom: &[u8]) -> System {
    let mut sys = System::default();
    sys.load(rom).unwrap();
    sys
}

fn tick(sys: &mut System) -> Result<(), SystemError> {
    let mut dbg = Debugger::disabled();
    sys.tick(&mut dbg)
}

#[test]
fn new_machine_holds_the_font_and_nothing_else() {
    let sys = System::default();
    assert_eq!(&sys.mem[0..5], &[0xF0, 0x90, 0x90, 0x90, 0xF0]);
    assert_eq!(&sys.mem[5..10], &[0x20, 0x60, 0x20, 0x20, 0x70]);
    assert_eq!(&sys.mem[75..80], &[0xF0, 0x80, 0xF0, 0x80, 0x80]);
    assert!(sys.mem[80..].iter().all(|b| *b == 0));
    assert!(sys.screen.iter().all(|b| *b == 0));
    assert_eq!(sys.registers.reg, [0u8; 16]);
    assert_eq!(sys.registers.index, 0);
    assert_eq!(sys.registers.pc, 0x200);
    assert_eq!(sys.timers.delay, 0);
    assert_eq!(sys.timers.sound, 0);
    assert_eq!(sys.stack.sp, 0);
    assert_eq!(sys.stack.stack, [0u16; 16]);
    assert_eq!(sys.keys.keys, [0u8; 16]);
    assert_eq!(sys.keys.wait, KeyWait::Idle);
}

#[test]
fn reset_brings_the_initial_state_back() {
    let mut sys = loaded(&[0x60, 0x0A, 0xD0, 0x05, 0x22, 0x00]);
    tick(&mut sys).unwrap();
    tick(&mut sys).unwrap();
    tick(&mut sys).unwrap();
    sys.timers.delay = 9;
    sys.keys.keys[4] = 1;
    sys.mem[3] = 0;
    sys.reset();
    let fresh = System::default();
    assert_eq!(sys.mem, fresh.mem);
    assert_eq!(sys.screen, fresh.screen);
    assert_eq!(sys.registers.reg, fresh.registers.reg);
    assert_eq!(sys.registers.pc, 0x200);
    assert_eq!(sys.stack.sp, 0);
    assert_eq!(sys.timers.delay, 0);
    assert_eq!(sys.keys.keys, [0u8; 16]);
}

#[test]
fn load_copies_the_program_and_keeps_the_rest() {
    let mut sys = System::default();
    sys.mem[0x205] = 0x77;
    assert_eq!(sys.load(&[1, 2, 3]), Ok(()));
    assert_eq!(&sys.mem[0x200..0x203], &[1, 2, 3]);
    assert_eq!(sys.mem[0x203], 0);
    assert_eq!(sys.mem[0x205], 0x77);
    assert_eq!(sys.mem[0], 0xF0);
    assert_eq!(sys.load(&[]), Ok(()));
    assert_eq!(&sys.mem[0x200..0x203], &[1, 2, 3]);
}

#[test]
fn bytes_are_read_and_written_within_memory_only() {
    let mut sys = System::default();
    assert_eq!(sys.write_mem(0xFFF, 0xAB), Ok(()));
    assert_eq!(sys.read_mem(0xFFF), Ok(0xAB));
    assert_eq!(sys.read_mem(0x000), Ok(0xF0));
    assert_eq!(
        sys.read_mem(0x1000),
        Err(SystemError::InvalidMemoryAccess { addr: 0x1000 })
    );
    assert_eq!(
        sys.write_mem(0xFFFF, 1),
        Err(SystemError::InvalidMemoryAccess { addr: 0xFFFF })
    );
}

#[test]
fn words_are_big_endian() {
    let mut sys = System::default();
    assert_eq!(sys.write_mem_pair(0x300, 0xABCD), Ok(()));
    assert_eq!(sys.mem[0x300], 0xAB);
    assert_eq!(sys.mem[0x301], 0xCD);
    assert_eq!(sys.read_mem_pair(0x300), Ok(0xABCD));
    assert_eq!(sys.read_mem_pair(0x000), Ok(0xF090));
    assert_eq!(sys.write_mem_pair(0xFFE, 0x0102), Ok(()));
    assert_eq!(sys.read_mem_pair(0xFFE), Ok(0x0102));
    assert_eq!(
        sys.write_mem_pair(0xFFF, 0x0102),
        Err(SystemError::InvalidMemoryAccess { addr: 0xFFF })
    );
    assert_eq!(sys.mem[0xFFF], 0x02);
    assert_eq!(
        sys.read_mem_pair(0xFFFF),
        Err(SystemError::InvalidMemoryAccess { addr: 0xFFFF })
    );
}

#[test]
fn registers_are_checked_by_index() {
    let mut regs = Registers::default();
    assert_eq!(regs.write(3, 0x42), Ok(()));
    assert_eq!(regs.read(3), Ok(0x42));
    assert_eq!(regs.read(16), Err(SystemError::InvalidRegister { reg: 16 }));
    assert_eq!(regs.write(200, 1), Err(SystemError::InvalidRegister { reg: 200 }));
    regs.carry_set(9);
    assert_eq!(regs.carry(), 9);
    assert_eq!(regs.read(15), Ok(9));
    assert_eq!(regs.with(3, |v| (v + 1, v * 2)), Ok(0x84));
    assert_eq!(regs.read(3), Ok(0x43));
    assert_eq!(
        regs.with(16, |v| (v, ())),
        Err(SystemError::InvalidRegister { reg: 16 })
    );
}

#[test]
fn decimal_digits_go_to_three_bytes() {
    let mut sys = loaded(&[0xF1, 0x33]);
    sys.registers.reg[1] = 254;
    sys.registers.index = 0x300;
    assert_eq!(tick(&mut sys), Ok(()));
    assert_eq!(&sys.mem[0x300..0x303], &[2, 5, 4]);
    assert_eq!(sys.registers.index, 0x300);

    let mut sys = loaded(&[0xF1, 0x33]);
    sys.registers.reg[1] = 7;
    sys.registers.index = 0xFFD;
    assert_eq!(tick(&mut sys), Ok(()));
    assert_eq!(&sys.mem[0xFFD..0x1000], &[0, 0, 7]);
}

#[test]
fn decimal_digits_past_memory_fail_before_writing() {
    let mut sys = loaded(&[0xF1, 0x33]);
    sys.registers.reg[1] = 199;
    sys.registers.index = 0xFFE;
    assert_eq!(
        tick(&mut sys),
        Err(SystemError::InvalidMemoryAccess { addr: 0x1000 })
    );
    assert_eq!(sys.mem[0xFFE], 0);
    assert_eq!(sys.mem[0xFFF], 0);
    assert_eq!(sys.registers.pc, 0x200);

    sys.registers.index = 0xFFFF;
    assert_eq!(
        tick(&mut sys),
        Err(SystemError::InvalidMemoryAccess { addr: 0xFFFF })
    );
}

#[test]
fn registers_go_to_memory_and_come_back() {
    let mut sys = loaded(&[0xF3, 0x55, 0xF3, 0x65]);
    sys.registers.reg = [1, 2, 3, 4, 5, 6, 7, 8, 9, 10, 11, 12, 13, 14, 15, 16];
    sys.registers.index = 0x400;
    sys.mem[0x404] = 0xEE;
    assert_eq!(tick(&mut sys), Ok(()));
    assert_eq!(&sys.mem[0x400..0x405], &[1, 2, 3, 4, 0xEE]);
    assert_eq!(sys.registers.index, 0x400);

    sys.registers.reg = [0x99; 16];
    assert_eq!(tick(&mut sys), Ok(()));
    assert_eq!(&sys.registers.reg[0..4], &[1, 2, 3, 4]);
    assert_eq!(&sys.registers.reg[4..], &[0x99; 12]);
    assert_eq!(sys.registers.index, 0x400);
    assert_eq!(sys.registers.pc, 0x204);
}

#[test]
fn register_dump_past_memory_writes_nothing() {
    let mut sys = loaded(&[0xF3, 0x55]);
    sys.registers.reg[0] = 0x11;
    sys.registers.index = 0xFFD;
    assert_eq!(
        tick(&mut sys),
        Err(SystemError::InvalidMemoryAccess { addr: 0x1000 })
    );
    assert_eq!(&sys.mem[0xFFD..], &[0, 0, 0]);

    let mut sys = loaded(&[0xF2, 0x55]);
    sys.registers.reg[2] = 0x33;
    sys.registers.index = 0xFFD;
    assert_eq!(tick(&mut sys), Ok(()));
    assert_eq!(sys.mem[0xFFF], 0x33);
}

#[test]
fn register_load_past_memory_loads_nothing() {
    let mut sys = loaded(&[0xF1, 0x65]);
    sys.registers.reg[0] = 0x11;
    sys.registers.index = 0xFFF;
    sys.mem[0xFFF] = 0x55;
    assert_eq!(
        tick(&mut sys),
        Err(SystemError::InvalidMemoryAccess { addr: 0x1000 })
    );
    assert_eq!(sys.registers.reg[0], 0x11);
}
