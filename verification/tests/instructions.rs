use chip8::system::debug::Debugger;
use chip8::system::interp::alu;
use chip8::system::opcode::Opcode;
use chip8::system::{System, SystemError};

fn booted(rom: &[u8]) -> System {
    let mut sys = System::default();
    sys.load(rom).unwrap();
    sys
}

fn step(sys: &mut System) -> Result<(), SystemError> {
    let mut dbg = Debugger::disabled();
    sys.tick(&mut dbg)
}

#[test]
fn zero_word_is_the_end_of_the_program() {
    let mut sys = booted(&[0x00, 0x00]);
    assert_eq!(step(&mut sys), Err(SystemError::ZeroInstruction));
    assert_eq!(sys.registers.pc, 0x200);
}

#[test]
fn unknown_word_is_an_error_and_changes_nothing() {
    let mut sys = booted(&[0xFF, 0x00]);
    sys.registers.reg[3] = 7;
    assert_eq!(step(&mut sys), Err(SystemError::UnknownOpcode { code: 0xFF00 }));
    assert_eq!(sys.registers.pc, 0x200);
    assert_eq!(sys.registers.reg[3], 7);
}

#[test]
fn clear_screen_darkens_every_pixel() {
    let mut sys = booted(&[0x00, 0xE0]);
    sys.screen[0] = 0xFF;
    sys.screen[255] = 0x81;
    assert_eq!(step(&mut sys), Ok(()));
    assert!(sys.screen.iter().all(|b| *b == 0));
    assert_eq!(sys.registers.pc, 0x202);
}

#[test]
fn jump_goes_to_its_address() {
    let mut sys = booted(&[0x1A, 0xBC]);
    assert_eq!(step(&mut sys), Ok(()));
    assert_eq!(sys.registers.pc, 0xABC);
}

#[test]
fn indexed_jump_keeps_twelve_bits() {
    let mut sys = booted(&[0xBF, 0xFF]);
    sys.registers.reg[0] = 0x02;
    assert_eq!(step(&mut sys), Ok(()));
    assert_eq!(sys.registers.pc, 0x001);

    let mut sys = booted(&[0xB3, 0x00]);
    sys.registers.reg[0] = 0x10;
    assert_eq!(step(&mut sys), Ok(()));
    assert_eq!(sys.registers.pc, 0x310);
}

#[test]
fn skips_advance_by_four_on_a_hit_and_by_two_otherwise() {
    let cases: [(u8, u8, u8, u8, u16); 8] = [
        (0x31, 0x22, 0x22, 0x00, 0x204),
        (0x31, 0x22, 0x23, 0x00, 0x202),
        (0x41, 0x22, 0x22, 0x00, 0x202),
        (0x41, 0x22, 0x23, 0x00, 0x204),
        (0x51, 0x20, 0x09, 0x09, 0x204),
        (0x51, 0x20, 0x09, 0x08, 0x202),
        (0x91, 0x20, 0x09, 0x09, 0x202),
        (0x91, 0x20, 0x09, 0x08, 0x204),
    ];
    for (hi, lo, v1, v2, pc) in cases.iter() {
        let mut sys = booted(&[*hi, *lo]);
        sys.registers.reg[1] = *v1;
        sys.registers.reg[2] = *v2;
        assert_eq!(step(&mut sys), Ok(()));
        assert_eq!(sys.registers.pc, *pc, "word {:02X}{:02X}", hi, lo);
    }
}

#[test]
fn register_operations_give_value_and_flag() {
    assert_eq!(alu(Opcode::MovReg, 0x12, 0x34), (0x34, None));
    assert_eq!(alu(Opcode::OrReg, 0xF0, 0x0F), (0xFF, None));
    assert_eq!(alu(Opcode::AndReg, 0xF3, 0x3F), (0x33, None));
    assert_eq!(alu(Opcode::XorReg, 0xFF, 0x0F), (0xF0, None));
    assert_eq!(alu(Opcode::AddReg, 0xFF, 0x02), (0x01, Some(1)));
    assert_eq!(alu(Opcode::AddReg, 0x10, 0x02), (0x12, Some(0)));
    assert_eq!(alu(Opcode::AddReg, 0xFF, 0x00), (0xFF, Some(0)));
    assert_eq!(alu(Opcode::SubReg, 0x05, 0x05), (0x00, Some(1)));
    assert_eq!(alu(Opcode::SubReg, 0x00, 0x01), (0xFF, Some(0)));
    assert_eq!(alu(Opcode::RSubReg, 0x03, 0x05), (0x02, Some(1)));
    assert_eq!(alu(Opcode::RSubReg, 0x05, 0x03), (0xFE, Some(0)));
    assert_eq!(alu(Opcode::RShiftReg, 0x05, 0xAA), (0x02, Some(1)));
    assert_eq!(alu(Opcode::RShiftReg, 0x04, 0xAA), (0x02, Some(0)));
    assert_eq!(alu(Opcode::LShiftReg, 0x81, 0xAA), (0x02, Some(1)));
    assert_eq!(alu(Opcode::LShiftReg, 0x41, 0xAA), (0x82, Some(0)));
}

#[test]
fn flag_is_written_after_the_value() {
    // ADD VF, V1: the sum goes to VF first and the carry overwrites it.
    let mut sys = booted(&[0x8F, 0x14]);
    sys.registers.reg[15] = 0xFF;
    sys.registers.reg[1] = 0x02;
    assert_eq!(step(&mut sys), Ok(()));
    assert_eq!(sys.registers.reg[15], 1);

    // SHR VF.
    let mut sys = booted(&[0x8F, 0x06]);
    sys.registers.reg[15] = 0x04;
    assert_eq!(step(&mut sys), Ok(()));
    assert_eq!(sys.registers.reg[15], 0);

    // ADD V2, V1 with carry leaves the low byte in V2 and touches no other.
    let mut sys = booted(&[0x82, 0x14]);
    sys.registers.reg[2] = 0xF0;
    sys.registers.reg[1] = 0x20;
    sys.registers.reg[3] = 0x77;
    assert_eq!(step(&mut sys), Ok(()));
    assert_eq!(sys.registers.reg[2], 0x10);
    assert_eq!(sys.registers.reg[1], 0x20);
    assert_eq!(sys.registers.reg[3], 0x77);
    assert_eq!(sys.registers.reg[15], 1);
}

#[test]
fn shifts_work_in_place_and_ignore_the_second_register() {
    let mut sys = booted(&[0x81, 0x2E]);
    sys.registers.reg[1] = 0x81;
    sys.registers.reg[2] = 0x33;
    assert_eq!(step(&mut sys), Ok(()));
    assert_eq!(sys.registers.reg[1], 0x02);
    assert_eq!(sys.registers.reg[2], 0x33);
    assert_eq!(sys.registers.reg[15], 1);
}

#[test]
fn index_instructions_set_and_add() {
    let mut sys = booted(&[0xA1, 0x23, 0xF1, 0x1E]);
    sys.registers.reg[1] = 0x10;
    assert_eq!(step(&mut sys), Ok(()));
    assert_eq!(sys.registers.index, 0x123);
    assert_eq!(step(&mut sys), Ok(()));
    assert_eq!(sys.registers.index, 0x133);
    assert_eq!(sys.registers.reg[15], 0);

    let mut sys = booted(&[0xF1, 0x1E]);
    sys.registers.index = 0xFFFF;
    sys.registers.reg[1] = 0x02;
    assert_eq!(step(&mut sys), Ok(()));
    assert_eq!(sys.registers.index, 0x0001);
}

#[test]
fn glyph_address_is_five_times_the_low_nibble() {
    let mut sys = booted(&[0xF1, 0x29]);
    sys.registers.reg[1] = 0x0A;
    assert_eq!(step(&mut sys), Ok(()));
    assert_eq!(sys.registers.index, 50);

    let mut sys = booted(&[0xF1, 0x29]);
    sys.registers.reg[1] = 0xF3;
    assert_eq!(step(&mut sys), Ok(()));
    assert_eq!(sys.registers.index, 15);
}

#[test]
fn random_byte_is_masked() {
    for _ in 0..64 {
        let mut sys = booted(&[0xC1, 0x0F, 0xC2, 0x00]);
        sys.registers.reg[1] = 0xFF;
        sys.registers.reg[2] = 0xFF;
        assert_eq!(step(&mut sys), Ok(()));
        assert_eq!(sys.registers.reg[1] & 0xF0, 0);
        assert_eq!(step(&mut sys), Ok(()));
        assert_eq!(sys.registers.reg[2], 0);
        assert_eq!(sys.registers.pc, 0x204);
    }
}

#[test]
fn given_random_byte_is_used() {
    let mut dbg = Debugger::disabled();
    let mut sys = booted(&[0xC1, 0x3C]);
    assert_eq!(sys.tick_with(0xA5, &mut dbg), Ok(()));
    assert_eq!(sys.registers.reg[1], 0x24);
    assert_eq!(sys.registers.pc, 0x202);
}
