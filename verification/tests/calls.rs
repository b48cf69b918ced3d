use chip8::system::debug::Debugger;
use chip8::system::{System, SystemError};

fn run_one(sys: &mut System) -> Result<(), SystemError> {
    let mut dbg = Debugger::disabled();
    sys.tick(&mut dbg)
}

fn put(sys: &mut System, at: usize, word: u16) {
    sys.mem[at] = (word >> 8) as u8;
    sys.mem[at + 1] = word as u8;
}

#[test]
fn nested_calls_return_behind_each_call_in_turn() {
    let mut sys = System::default();
    // Sixteen subroutines, each of which calls the next and then returns:
    // 0x200 + 4k: CALL 0x200 + 4(k + 1); 0x202 + 4k: RET.
    for k in 0..16usize {
        put(&mut sys, 0x200 + 4 * k, 0x2000 | (0x200 + 4 * (k as u16 + 1)));
        put(&mut sys, 0x202 + 4 * k, 0x00EE);
    }
    put(&mut sys, 0x240, 0x00EE);
    for k in 0..16u16 {
        assert_eq!(sys.registers.pc, 0x200 + 4 * k);
        assert_eq!(run_one(&mut sys), Ok(()));
        assert_eq!(sys.stack.sp, k + 1);
        assert_eq!(sys.stack.stack[k as usize], 0x200 + 4 * k);
    }
    assert_eq!(sys.registers.pc, 0x240);
    for k in (0..16u16).rev() {
        assert_eq!(run_one(&mut sys), Ok(()));
        assert_eq!(sys.registers.pc, 0x202 + 4 * k);
        assert_eq!(sys.stack.sp, k);
    }
    assert_eq!(run_one(&mut sys), Err(SystemError::StackUnderflow));
}

#[test]
fn calls_and_returns_may_interleave() {
    let mut sys = System::default();
    put(&mut sys, 0x200, 0x2300); // CALL 0x300
    put(&mut sys, 0x202, 0x2310); // CALL 0x310
    put(&mut sys, 0x204, 0x1204); // JP 0x204
    put(&mut sys, 0x300, 0x00EE); // RET
    put(&mut sys, 0x310, 0x2300); // CALL 0x300
    put(&mut sys, 0x312, 0x00EE); // RET
    let expected: [(u16, u16); 7] = [
        (0x300, 1),
        (0x202, 0),
        (0x310, 1),
        (0x300, 2),
        (0x312, 1),
        (0x204, 0),
        (0x204, 0),
    ];
    for (pc, sp) in expected.iter() {
        assert_eq!(run_one(&mut sys), Ok(()));
        assert_eq!((sys.registers.pc, sys.stack.sp), (*pc, *sp));
    }
}

#[test]
fn return_wraps_the_program_counter_in_sixteen_bits() {
    let mut sys = System::default();
    sys.load(&[0x00, 0xEE]).unwrap();
    sys.stack.stack[0] = 0xFFFF;
    sys.stack.sp = 1;
    assert_eq!(run_one(&mut sys), Ok(()));
    assert_eq!(sys.registers.pc, 0x0001);
    assert_eq!(sys.stack.sp, 0);
}

#[test]
fn failed_tick_leaves_every_part_of_the_machine() {
    let roms: [(&[u8], SystemError); 6] = [
        (&[0x00, 0x00], SystemError::ZeroInstruction),
        (&[0x5A, 0xB1], SystemError::UnknownOpcode { code: 0x5AB1 }),
        (&[0x00, 0xEE], SystemError::StackUnderflow),
        (&[0xFF, 0x55], SystemError::InvalidMemoryAccess { addr: 0x1000 }),
        (&[0xFF, 0x65], SystemError::InvalidMemoryAccess { addr: 0x1000 }),
        (&[0xD0, 0x1F], SystemError::InvalidMemoryAccess { addr: 0x1000 }),
    ];
    for (rom, error) in roms.iter() {
        let mut sys = System::default();
        sys.load(rom).unwrap();
        sys.registers.index = 0xFF8;
        sys.registers.reg = [0x11; 16];
        sys.screen = [0xA5; 256];
        sys.timers.delay = 3;
        let mem = sys.mem;
        assert_eq!(run_one(&mut sys), Err(*error));
        assert_eq!(sys.mem, mem);
        assert_eq!(sys.screen, [0xA5; 256]);
        assert_eq!(sys.registers.reg, [0x11; 16]);
        assert_eq!(sys.registers.index, 0xFF8);
        assert_eq!(sys.registers.pc, 0x200);
        assert_eq!(sys.stack.sp, 0);
        assert_eq!(sys.timers.delay, 3);
    }
}

#[test]
fn instruction_at_the_end_of_memory_advances_past_it() {
    let mut sys = System::default();
    put(&mut sys, 0xFFE, 0x6A01);
    sys.registers.pc = 0xFFE;
    assert_eq!(run_one(&mut sys), Ok(()));
    assert_eq!(sys.registers.pc, 0x1000);
    assert_eq!(
        run_one(&mut sys),
        Err(SystemError::InvalidMemoryAccess { addr: 0x1000 })
    );
}
