use chip8::keys::{map_key, HostEvent, HostKey, MapKeyResult};
use chip8::system::debug::Debugger;
use chip8::system::state::KeyWait;
use chip8::system::{Keys, System, SystemError};

fn fresh(rom: &[u8]) -> System {
    let mut sys = System::default();
    sys.load(rom).unwrap();
    sys
}

fn go(sys: &mut System) -> Result<(), SystemError> {
    let mut dbg = Debugger::disabled();
    sys.tick(&mut dbg)
}

#[test]
fn timers_count_down_and_stay_at_zero() {
    let mut sys = System::default();
    sys.timers.delay = 2;
    sys.timers.sound = 3;
    assert!(!sys.dec_timers());
    assert_eq!((sys.timers.delay, sys.timers.sound), (1, 2));
    assert!(!sys.dec_timers());
    assert_eq!((sys.timers.delay, sys.timers.sound), (0, 1));
    assert!(sys.dec_timers());
    assert_eq!((sys.timers.delay, sys.timers.sound), (0, 0));
    for _ in 0..300 {
        assert!(!sys.dec_timers());
        assert_eq!((sys.timers.delay, sys.timers.sound), (0, 0));
    }
}

#[test]
fn timer_from_255_reaches_zero_after_255_steps() {
    let mut sys = System::default();
    sys.timers.delay = 255;
    sys.timers.sound = 255;
    let mut beeps = 0;
    for step in 1..=255u32 {
        if sys.dec_timers() {
            beeps += 1;
            assert_eq!(step, 255);
        }
        assert_eq!(sys.timers.delay as u32, 255 - step);
    }
    assert_eq!(beeps, 1);
}

#[test]
fn timer_instructions_copy_to_and_from_registers() {
    let mut sys = fresh(&[0xF1, 0x15, 0xF1, 0x18, 0xF2, 0x07]);
    sys.registers.reg[1] = 0x2A;
    go(&mut sys).unwrap();
    assert_eq!(sys.timers.delay, 0x2A);
    go(&mut sys).unwrap();
    assert_eq!(sys.timers.sound, 0x2A);
    sys.dec_timers();
    go(&mut sys).unwrap();
    assert_eq!(sys.registers.reg[2], 0x29);
}

#[test]
fn pressed_test_checks_the_index() {
    let mut keys = Keys::default();
    assert_eq!(keys.pressed(0), Ok(false));
    keys.keys[15] = 1;
    assert_eq!(keys.pressed(15), Ok(true));
    keys.keys[3] = 200;
    assert_eq!(keys.pressed(3), Ok(true));
    assert_eq!(keys.pressed(16), Err(SystemError::InvalidKey { key: 16 }));
    assert_eq!(keys.pressed(255), Err(SystemError::InvalidKey { key: 255 }));
}

#[test]
fn key_events_set_and_clear_keys() {
    let mut sys = System::default();
    assert_eq!(sys.process_key_event(7, true), Ok(()));
    assert_eq!(sys.keys.pressed(7), Ok(true));
    assert_eq!(sys.keys.keys[7], 1);
    assert_eq!(sys.process_key_event(7, false), Ok(()));
    assert_eq!(sys.keys.pressed(7), Ok(false));
    assert_eq!(
        sys.process_key_event(16, true),
        Err(SystemError::InvalidKey { key: 16 })
    );
    assert_eq!(sys.keys.keys, [0u8; 16]);
    assert_eq!(sys.keys.wait, KeyWait::Idle);
}

#[test]
fn key_skips_look_at_the_key_named_by_the_register() {
    // SKP V1 with V1 = 0x0A.
    let mut sys = fresh(&[0xE1, 0x9E]);
    sys.registers.reg[1] = 0x0A;
    sys.process_key_event(1, true).unwrap();
    go(&mut sys).unwrap();
    assert_eq!(sys.registers.pc, 0x202);

    let mut sys = fresh(&[0xE1, 0x9E]);
    sys.registers.reg[1] = 0x0A;
    sys.process_key_event(0xA, true).unwrap();
    go(&mut sys).unwrap();
    assert_eq!(sys.registers.pc, 0x204);

    // Only the low nibble of the register counts.
    let mut sys = fresh(&[0xE1, 0xA1]);
    sys.registers.reg[1] = 0xFA;
    sys.process_key_event(0xA, true).unwrap();
    go(&mut sys).unwrap();
    assert_eq!(sys.registers.pc, 0x202);

    let mut sys = fresh(&[0xE1, 0xA1]);
    sys.registers.reg[1] = 0xFA;
    go(&mut sys).unwrap();
    assert_eq!(sys.registers.pc, 0x204);
}

#[test]
fn wait_for_key_stays_until_a_key_goes_down() {
    let mut sys = fresh(&[0xF3, 0x0A, 0x60, 0x01]);
    // A key that was down before the wait began does not count.
    sys.process_key_event(5, true).unwrap();
    assert_eq!(sys.keys.wait, KeyWait::Idle);
    for _ in 0..3 {
        assert_eq!(go(&mut sys), Ok(()));
        assert_eq!(sys.registers.pc, 0x200);
        assert_eq!(sys.keys.wait, KeyWait::Waiting);
        sys.dec_timers();
    }
    // A release is no press, and a repeat of a key that is down is no edge.
    sys.process_key_event(5, true).unwrap();
    sys.process_key_event(9, false).unwrap();
    assert_eq!(go(&mut sys), Ok(()));
    assert_eq!(sys.registers.pc, 0x200);
    // The first key to go down is the one recorded.
    sys.process_key_event(0xC, true).unwrap();
    sys.process_key_event(0x2, true).unwrap();
    assert_eq!(sys.keys.wait, KeyWait::Pressed(0xC));
    assert_eq!(go(&mut sys), Ok(()));
    assert_eq!(sys.registers.reg[3], 0xC);
    assert_eq!(sys.registers.pc, 0x202);
    assert_eq!(sys.keys.wait, KeyWait::Idle);
    assert_eq!(go(&mut sys), Ok(()));
    assert_eq!(sys.registers.reg[0], 1);
}

#[test]
fn keyboard_block_maps_onto_the_pad() {
    let table: [(HostKey, u8); 16] = [
        (HostKey::Key1, 0x1),
        (HostKey::Key2, 0x2),
        (HostKey::Key3, 0x3),
        (HostKey::Key4, 0xC),
        (HostKey::Q, 0x4),
        (HostKey::W, 0x5),
        (HostKey::E, 0x6),
        (HostKey::R, 0xD),
        (HostKey::A, 0x7),
        (HostKey::S, 0x8),
        (HostKey::D, 0x9),
        (HostKey::F, 0xE),
        (HostKey::Z, 0xA),
        (HostKey::X, 0x0),
        (HostKey::C, 0xB),
        (HostKey::V, 0xF),
    ];
    let mut seen = [false; 16];
    for (host, pad) in table.iter() {
        for pressed in [true, false] {
            assert_eq!(
                map_key(HostEvent::Keyboard { key: *host, pressed }),
                MapKeyResult::Event { key: *pad, pressed }
            );
        }
        assert!(!seen[*pad as usize]);
        seen[*pad as usize] = true;
    }
    assert!(seen.iter().all(|s| *s));
}

#[test]
fn escape_exits_and_other_events_mean_nothing() {
    assert_eq!(
        map_key(HostEvent::Keyboard { key: HostKey::Escape, pressed: true }),
        MapKeyResult::Exit
    );
    assert_eq!(
        map_key(HostEvent::Keyboard { key: HostKey::Escape, pressed: false }),
        MapKeyResult::Exit
    );
    assert_eq!(
        map_key(HostEvent::Keyboard { key: HostKey::Other, pressed: true }),
        MapKeyResult::Nothing
    );
    assert_eq!(map_key(HostEvent::Other), MapKeyResult::Nothing);
}
