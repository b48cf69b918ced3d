//! The timing harness: what the host's loop does with the machine between
//! two naps. The host owns the clock, the window and the keyboard; the
//! harness decides, from the time the host reports, which of the machine's
//! entry points are due and what the host is to do next.

use vstd::prelude::*;
use crate::keys::{map_key, mapped, HostEvent, MapKeyResult};
use crate::system::debug::Debugger;
use crate::system::error::SystemError;
use crate::system::interp::{tick_trace, ticked};
use crate::system::machine::System;
use crate::system::model::Machine;
use crate::system::screen::{SCREEN_HEIGHT, SCREEN_WIDTH};

verus! {

/// Microseconds between two instructions.
pub const TICK_MICROS: u64 = 2400;

/// Microseconds between two steps of the timers, and between two frames:
/// a sixtieth of a second.
pub const UPDATE_MICROS: u64 = 16666;

/// Microseconds between two frames once the program has ended: a thirtieth
/// of a second.
pub const IDLE_MICROS: u64 = 33333;

/// A picture of the screen for the host to show: one byte per pixel, 0xFF
/// for lit and 0x00 for dark, row by row from the top left.
pub struct Frame {
    pub data: Vec<u8>,
    pub width: u32,
    pub height: u32,
}

/// How the host drives the machine.
#[derive(Clone, Copy, Debug, PartialEq, Eq, Structural)]
pub enum Pace {
    /// By the clock: instructions at their rate, timers and frames at 60 Hz.
    Timed,
    /// One instruction at a time, at the user's word, with the trace on; the
    /// timers step and a frame is shown after every instruction.
    Stepped,
}

/// What the host is to do after a cycle.
#[derive(Clone, Copy, Debug, PartialEq, Eq, Structural)]
pub struct Cycle {
    /// Sound the beep: the sound timer has just run out.
    pub beep: bool,
    /// Show a frame.
    pub present: bool,
    /// The program has ended; from now on the host only shows frames.
    pub ended: bool,
    /// Microseconds to rest before the next cycle.
    pub sleep: u64,
}

/// One emulator: the machine and the state of the harness around it.
pub struct Chip8 {
    pub system: System,
    pub debug: Debugger,
    pub pace: Pace,
    pub next_update: u64,
    pub ended: bool,
}

/// The machine after the events of the host have been handled in order: each
/// event of a key of the pad goes to the machine, every other is passed over.
pub open spec fn after_events(m: Machine, events: Seq<HostEvent>) -> Machine
    decreases events.len(),
{
    if events.len() == 0 {
        m
    } else {
        let before = after_events(m, events.drop_last());
        match mapped(events.last()) {
            MapKeyResult::Event { key, pressed } => before.key_event(key as int, pressed),
            _ => before,
        }
    }
}

/// Whether one of the events asks for the session to end.
pub open spec fn asks_exit(events: Seq<HostEvent>) -> bool {
    exists|i: int| 0 <= i < events.len() && mapped(#[trigger] events[i]) == MapKeyResult::Exit
}

/// The time of the next update when one has happened at `now`; the clock's
/// last value is never passed.
pub open spec fn update_after(now: u64) -> u64 {
    if now + UPDATE_MICROS > u64::MAX {
        u64::MAX
    } else {
        (now + UPDATE_MICROS) as u64
    }
}

impl Chip8 {
    /// The machine within is well formed.
    pub open spec fn wf(&self) -> bool {
        self.system.wf()
    }

    /// What a cycle at time `now` makes of the emulator `self` when the
    /// random source yields `random`: the emulator `after` and the result `r`.
    ///
    /// Once the program has ended, a cycle changes nothing and asks for a
    /// frame and a long rest. Otherwise it runs one tick. An error of the
    /// tick is the cycle's error, but for the zero instruction under the
    /// timed pace, which ends the program. After a tick that went well, the
    /// stepped pace steps the timers and asks for a frame at once; the timed
    /// pace does both only when the time of the next update has come, which
    /// it then moves a sixtieth of a second past `now`.
    pub open spec fn cycled(
        self,
        after: Chip8,
        now: u64,
        r: Result<Cycle, SystemError>,
        random: u8,
    ) -> bool {
        let idle = Cycle { beep: false, present: true, ended: true, sleep: IDLE_MICROS };
        if self.ended {
            &&& after.system == self.system
            &&& after.ended
            &&& after.next_update == self.next_update
            &&& after.debug.trace() == self.debug.trace()
            &&& r == Ok::<Cycle, SystemError>(idle)
        } else {
            &&& after.debug.trace() == if self.debug.is_enabled() {
                self.debug.trace() + tick_trace(self.system@)
            } else {
                self.debug.trace()
            }
            &&& after.system.keys.keys == self.system.keys.keys
            &&& match self.system@.step(random) {
                Err(e) => {
                    &&& after.system == self.system
                    &&& after.next_update == self.next_update
                    &&& if e == SystemError::ZeroInstruction && self.pace == Pace::Timed {
                        after.ended && r == Ok::<Cycle, SystemError>(idle)
                    } else {
                        !after.ended && r == Err::<Cycle, SystemError>(e)
                    }
                },
                Ok(ticked) => {
                    let update = self.pace == Pace::Stepped || now >= self.next_update;
                    &&& !after.ended
                    &&& after.system@ == if update {
                        ticked.tick_timers()
                    } else {
                        ticked
                    }
                    &&& after.next_update == if self.pace == Pace::Timed && update {
                        update_after(now)
                    } else {
                        self.next_update
                    }
                    &&& r == Ok::<Cycle, SystemError>(
                        Cycle {
                            beep: update && ticked.sound == 1,
                            present: update,
                            ended: false,
                            sleep: if self.pace == Pace::Timed {
                                TICK_MICROS
                            } else {
                                0
                            },
                        },
                    )
                },
            }
        }
    }

    /// An emulator with a machine in its initial state, driven by the clock
    /// and with the trace off, whose first update is due at once.
    pub fn new() -> (chip: Self)
        ensures
            chip.system@ == Machine::initial(),
            chip.wf(),
            !chip.debug.is_enabled(),
            chip.debug.trace() == Seq::<Seq<char>>::empty(),
            chip.pace == Pace::Timed,
            chip.next_update == 0,
            !chip.ended,
    {
        Chip8 {
            system: System::default(),
            debug: Debugger::disabled(),
            pace: Pace::Timed,
            next_update: 0,
            ended: false,
        }
    }

    /// Begins a session at time `now` under the given pace: the first update
    /// is due a sixtieth of a second later, and the trace is on under the
    /// stepped pace and off under the timed one.
    pub fn begin(&mut self, pace: Pace, now: u64)
        ensures
            final(self).system == old(self).system,
            final(self).pace == pace,
            final(self).next_update == update_after(now),
            !final(self).ended,
            final(self).debug.is_enabled() == (pace == Pace::Stepped),
            final(self).debug.trace() == Seq::<Seq<char>>::empty(),
    {
        self.pace = pace;
        self.next_update = now.saturating_add(UPDATE_MICROS);
        self.ended = false;
        self.debug = match pace {
            Pace::Timed => Debugger::disabled(),
            Pace::Stepped => Debugger::enabled(),
        };
    }

    /// The frame that the host is to show: the screen of the machine, 64
    /// pixels wide and 32 high.
    pub fn draw(&self) -> (frame: Frame)
        ensures
            frame.width == 64,
            frame.height == 32,
            frame.data@.len() == 2048,
            forall|p: int|
                0 <= p < 2048 ==> #[trigger] frame.data@[p] == if self.system@.pixels[p] {
                    0xFFu8
                } else {
                    0x00u8
                },
    {
        Frame { data: self.system.screen(), width: SCREEN_WIDTH as u32, height: SCREEN_HEIGHT as u32 }
    }

    /// Runs one cycle at time `now`, in microseconds of the host's clock, and
    /// tells the host what to do before the next one.
    pub fn cycle(&mut self, now: u64) -> (r: Result<Cycle, SystemError>)
        requires
            old(self).wf(),
        ensures
            final(self).wf(),
            final(self).pace == old(self).pace,
            final(self).debug.is_enabled() == old(self).debug.is_enabled(),
            exists|random: u8| #[trigger] old(self).cycled(*final(self), now, r, random),
    {
        let idle = Cycle { beep: false, present: true, ended: true, sleep: IDLE_MICROS };
        if self.ended {
            assert(old(self).cycled(*self, now, Ok(idle), 0));
            return Ok(idle);
        }
        let ghost before = self.system;
        let outcome = self.system.tick(&mut self.debug);
        let ghost random = choose|random: u8| ticked(before, self.system, outcome, random);
        match outcome {
            Err(e) => {
                let ends = match (e, self.pace) {
                    (SystemError::ZeroInstruction, Pace::Timed) => true,
                    _ => false,
                };
                if ends {
                    self.ended = true;
                    assert(old(self).cycled(*self, now, Ok(idle), random));
                    Ok(idle)
                } else {
                    assert(old(self).cycled(*self, now, Err(e), random));
                    Err(e)
                }
            },
            Ok(()) => {
                let timed = match self.pace {
                    Pace::Timed => true,
                    Pace::Stepped => false,
                };
                let update = !timed || now >= self.next_update;
                let mut beep = false;
                if update {
                    beep = self.system.dec_timers();
                    if timed {
                        self.next_update = now.saturating_add(UPDATE_MICROS);
                    }
                }
                let r = Cycle {
                    beep,
                    present: update,
                    ended: false,
                    sleep: if timed {
                        TICK_MICROS
                    } else {
                        0
                    },
                };
                assert(old(self).cycled(*self, now, Ok(r), random));
                Ok(r)
            },
        }
    }

    /// Hands the machine the events that the host has seen since the last
    /// cycle, in order, and returns whether one of them asks for the session
    /// to end. Events that follow such a one are handled all the same.
    pub fn events(&mut self, events: &[HostEvent]) -> (exit: bool)
        requires
            old(self).wf(),
        ensures
            final(self).wf(),
            final(self).system@ == after_events(old(self).system@, events@),
            final(self).system.screen == old(self).system.screen,
            final(self).pace == old(self).pace,
            final(self).next_update == old(self).next_update,
            final(self).ended == old(self).ended,
            final(self).debug.is_enabled() == old(self).debug.is_enabled(),
            final(self).debug.trace() == old(self).debug.trace(),
            exit == asks_exit(events@),
    {
        let mut exit = false;
        let mut i: usize = 0;
        assert(events@.take(0) =~= Seq::<HostEvent>::empty());
        while i < events.len()
            invariant
                i <= events@.len(),
                self.wf(),
                self.system@ == after_events(old(self).system@, events@.take(i as int)),
                self.system.screen == old(self).system.screen,
                self.pace == old(self).pace,
                self.next_update == old(self).next_update,
                self.ended == old(self).ended,
                self.debug.is_enabled() == old(self).debug.is_enabled(),
                self.debug.trace() == old(self).debug.trace(),
                exit == asks_exit(events@.take(i as int)),
            decreases events@.len() - i,
        {
            let ghost seen = events@.take(i as int);
            let ghost more = events@.take(i + 1);
            proof {
                assert(more.drop_last() =~= seen);
                assert(more.last() == events@[i as int]);
                if asks_exit(seen) {
                    let j = choose|j: int|
                        0 <= j < seen.len() && mapped(#[trigger] seen[j]) == MapKeyResult::Exit;
                    assert(mapped(more[j]) == MapKeyResult::Exit);
                }
                if asks_exit(more) {
                    let j = choose|j: int|
                        0 <= j < more.len() && mapped(#[trigger] more[j]) == MapKeyResult::Exit;
                    if j < i {
                        assert(mapped(seen[j]) == MapKeyResult::Exit);
                    }
                }
            }
            match map_key(events[i]) {
                MapKeyResult::Event { key, pressed } => {
                    let _ = self.system.process_key_event(key, pressed);
                },
                MapKeyResult::Exit => {
                    exit = true;
                    assert(mapped(more[i as int]) == MapKeyResult::Exit);
                },
                MapKeyResult::Nothing => {},
            }
            i += 1;
        }
        assert(events@.take(i as int) =~= events@);
        exit
    }
}

} // verus!
