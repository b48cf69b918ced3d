//! The machine itself: memory, framebuffer and the small state parts, with
//! the accessors that check bounds and the entry points that the host drives.

use vstd::prelude::*;
use crate::system::error::SystemError;
use crate::system::fonts::FONTS;
use crate::system::model::{word_of, Machine};
use crate::system::screen::{bit_of, lemma_flip_bit, lemma_zero_bits, pixels_of, SCREEN_LEN};
use crate::system::state::{Keys, KeyWait, Registers, Stack, Timers};

verus! {

/// Number of bytes of memory.
pub const MEMORY_LEN: usize = 4096;

/// The largest program that fits between the start of the program area and
/// the end of memory.
pub const PROGRAM_MAX: usize = 3584;

/// One CHIP-8 machine.
pub struct System {
    pub mem: [u8; 4096],
    pub screen: [u8; SCREEN_LEN],
    pub registers: Registers,
    pub timers: Timers,
    pub stack: Stack,
    pub keys: Keys,
}

impl View for System {
    type V = Machine;

    open spec fn view(&self) -> Machine {
        Machine {
            mem: self.mem@,
            pixels: pixels_of(self.screen@),
            v: self.registers.reg@,
            index: self.registers.index,
            pc: self.registers.pc,
            delay: self.timers.delay,
            sound: self.timers.sound,
            stack: self.stack.stack@,
            sp: self.stack.sp,
            keys: self.keys.down(),
            wait: self.keys.wait,
        }
    }
}

/// A big-endian word and its two bytes, in bit operations and in arithmetic.
pub proof fn lemma_word_bytes(high: u8, low: u8, data: u16)
    ensures
        (high as u16) << 8 | (low as u16) == word_of(high, low),
        data >> 8 == data / 256,
        data & 0x00FF == data % 256,
{
    assert((high as u16) << 8 | (low as u16) == high * 256 + low) by (bit_vector);
    assert(data >> 8 == data / 256) by (bit_vector);
    assert(data & 0x00FF == data % 256) by (bit_vector);
}

impl System {
    /// The stack pointer is within the stack.
    pub open spec fn wf(&self) -> bool {
        self.stack.wf()
    }

    /// Brings the machine back to its initial state.
    pub fn reset(&mut self)
        ensures
            final(self)@ == Machine::initial(),
            final(self).wf(),
    {
        *self = System::default();
    }

    /// The framebuffer as one byte per pixel, row by row from the top left:
    /// 0xFF for a lit pixel and 0x00 for a dark one.
    pub fn screen(&self) -> (frame: Vec<u8>)
        ensures
            frame@.len() == 2048,
            forall|p: int|
                0 <= p < 2048 ==> #[trigger] frame@[p] == if self@.pixels[p] {
                    0xFFu8
                } else {
                    0x00u8
                },
    {
        let mut frame: Vec<u8> = Vec::new();
        let mut i: usize = 0;
        while i < 256
            invariant
                i <= 256,
                frame@.len() == 8 * i,
                forall|p: int|
                    0 <= p < 8 * i ==> #[trigger] frame@[p] == if self@.pixels[p] {
                        0xFFu8
                    } else {
                        0x00u8
                    },
            decreases 256 - i,
        {
            let byte = self.screen[i];
            let mut k: u8 = 0;
            while k < 8
                invariant
                    i < 256,
                    k <= 8,
                    byte == self.screen@[i as int],
                    frame@.len() == 8 * i + k,
                    forall|p: int|
                        0 <= p < 8 * i + k ==> #[trigger] frame@[p] == if self@.pixels[p] {
                            0xFFu8
                        } else {
                            0x00u8
                        },
                decreases 8 - k,
            {
                let bit = (byte >> (7 - k)) & 1;
                assert(bit == 0 || bit == 1) by (bit_vector)
                    requires
                        bit == (byte >> ((7 - k) as u8)) & 1,
                ;
                proof {
                    let p = 8 * i + k;
                    assert(p / 8 == i && p % 8 == k);
                    assert(self@.pixels[p] == bit_of(byte, k));
                }
                frame.push(bit * 255);
                k += 1;
            }
            i += 1;
        }
        frame
    }

    /// Copies a program into memory from 0x200 on. A program of more than
    /// 3584 bytes does not fit and leaves the machine as it was.
    pub fn load(&mut self, program: &[u8]) -> (r: Result<(), SystemError>)
        ensures
            program@.len() <= 3584 ==> r.is_ok() && final(self)@ == (Machine {
                mem: old(self)@.mem.subrange(0, 0x200) + program@ + old(self)@.mem.subrange(
                    0x200 + program@.len() as int,
                    4096,
                ),
                ..old(self)@
            }) && final(self).keys == old(self).keys,
            program@.len() > 3584 ==> r == Err::<(), SystemError>(SystemError::ProgramTooLarge)
                && *final(self) == *old(self),
    {
        let len = program.len();
        if len > PROGRAM_MAX {
            return Err(SystemError::ProgramTooLarge);
        }
        let mut i: usize = 0;
        while i < len
            invariant
                i <= len <= 3584,
                len == program@.len(),
                self.screen == old(self).screen,
                self.registers == old(self).registers,
                self.timers == old(self).timers,
                self.stack == old(self).stack,
                self.keys == old(self).keys,
                forall|a: int| 0 <= a < 0x200 ==> self.mem@[a] == old(self).mem@[a],
                forall|a: int| 0x200 <= a < 0x200 + i ==> self.mem@[a] == program@[a - 0x200],
                forall|a: int| 0x200 + i <= a < 4096 ==> self.mem@[a] == old(self).mem@[a],
            decreases len - i,
        {
            self.mem[0x200 + i] = program[i];
            i += 1;
        }
        assert(self.mem@ =~= old(self)@.mem.subrange(0, 0x200) + program@ + old(self)@.mem.subrange(
            0x200 + program@.len() as int,
            4096,
        ));
        Ok(())
    }

    /// Runs the two timers for one 60 Hz step: each goes down by one and
    /// stays at zero. Returns whether the sound timer reached zero in this
    /// step, which is when the host beeps.
    pub fn dec_timers(&mut self) -> (beep: bool)
        ensures
            final(self)@ == old(self)@.tick_timers(),
            final(self).keys == old(self).keys,
            final(self).screen == old(self).screen,
            final(self).wf() == old(self).wf(),
            beep == (old(self)@.sound == 1),
    {
        self.timers.delay = self.timers.delay.saturating_sub(1);
        let prev_sound = self.timers.sound;
        self.timers.sound = self.timers.sound.saturating_sub(1);
        prev_sound != 0 && self.timers.sound == 0
    }

    /// XORs `value` into the pixel at column `x` of row `y` and returns
    /// whether that turned a lit pixel off. Pixels are counted row by row, so
    /// the pixel meant is number `64 * y + x`; where that lies past the end
    /// of the screen, nothing is drawn.
    pub fn draw(&mut self, x: u8, y: u8, value: bool) -> (collided: bool)
        ensures
            64 * y + x < 2048 ==> final(self)@ == (Machine {
                pixels: old(self)@.pixels.update(
                    64 * y + x,
                    old(self)@.pixels[64 * y + x] != value,
                ),
                ..old(self)@
            }) && collided == (value && old(self)@.pixels[64 * y + x]),
            64 * y + x >= 2048 ==> *final(self) == *old(self) && !collided,
            final(self).mem == old(self).mem,
            final(self).registers == old(self).registers,
            final(self).timers == old(self).timers,
            final(self).stack == old(self).stack,
            final(self).keys == old(self).keys,
    {
        let x_bit = x % 8;
        let x_byte = x / 8;
        let at = y as usize * 8 + x_byte as usize;
        if at >= SCREEN_LEN {
            return false;
        }
        let current = self.screen[at];
        let current_bit = (current >> (7 - x_bit)) & 1 != 0;
        let mask: u8 = if value {
            1u8 << (7 - x_bit)
        } else {
            0
        };
        self.screen[at] = current ^ mask;
        proof {
            let p = 64 * y + x;
            assert(p == 8 * at + x_bit);
            assert(current_bit == bit_of(current, x_bit)) by (bit_vector)
                requires
                    x_bit < 8,
                    current_bit == ((current >> ((7 - x_bit) as u8)) & 1 != 0),
            ;
            assert forall|q: int| 0 <= q < 2048 implies #[trigger] pixels_of(self.screen@)[q]
                == old(self)@.pixels.update(p, old(self)@.pixels[p] != value)[q] by {
                lemma_flip_bit(current, x_bit, (q % 8) as u8);
            }
            assert(pixels_of(self.screen@) =~= old(self)@.pixels.update(
                p,
                old(self)@.pixels[p] != value,
            ));
        }
        current_bit && value
    }

    /// Reads the instruction word at the program counter.
    pub fn fetch_instruction(&self) -> (r: Result<u16, SystemError>)
        ensures
            r == self@.fetch(),
    {
        self.read_mem_pair(self.registers.pc)
    }

    /// Reads the big-endian word at `ptr` and `ptr + 1`.
    pub fn read_mem_pair(&self, ptr: u16) -> (r: Result<u16, SystemError>)
        ensures
            ptr + 1 < 4096 ==> r == Ok::<u16, SystemError>(
                word_of(self.mem@[ptr as int], self.mem@[ptr + 1]),
            ),
            ptr + 1 >= 4096 ==> r == Err::<u16, SystemError>(
                SystemError::InvalidMemoryAccess { addr: ptr },
            ),
    {
        if ptr as usize >= MEMORY_LEN - 1 {
            return Err(SystemError::InvalidMemoryAccess { addr: ptr });
        }
        let fst = self.mem[ptr as usize];
        let snd = self.mem[ptr as usize + 1];
        proof {
            lemma_word_bytes(fst, snd, 0);
        }
        Ok((fst as u16) << 8 | snd as u16)
    }

    /// Writes `data` as a big-endian word to `ptr` and `ptr + 1`.
    pub fn write_mem_pair(&mut self, ptr: u16, data: u16) -> (r: Result<(), SystemError>)
        ensures
            ptr + 1 < 4096 ==> r.is_ok() && final(self)@ == (Machine {
                mem: old(self)@.mem.update(ptr as int, (data / 256) as u8).update(
                    ptr + 1,
                    (data % 256) as u8,
                ),
                ..old(self)@
            }) && final(self).keys == old(self).keys && final(self).screen == old(self).screen,
            ptr + 1 >= 4096 ==> r == Err::<(), SystemError>(
                SystemError::InvalidMemoryAccess { addr: ptr },
            ) && *final(self) == *old(self),
    {
        if ptr as usize >= MEMORY_LEN - 1 {
            return Err(SystemError::InvalidMemoryAccess { addr: ptr });
        }
        proof {
            lemma_word_bytes(0, 0, data);
        }
        let fst = (data >> 8) as u8;
        let snd = (data & 0x00FF) as u8;
        self.mem[ptr as usize] = fst;
        self.mem[ptr as usize + 1] = snd;
        assert(self@ =~= (Machine {
            mem: old(self)@.mem.update(ptr as int, (data / 256) as u8).update(
                ptr + 1,
                (data % 256) as u8,
            ),
            ..old(self)@
        }));
        Ok(())
    }

    /// Reads the byte at `ptr`.
    pub fn read_mem(&self, ptr: u16) -> (r: Result<u8, SystemError>)
        ensures
            ptr < 4096 ==> r == Ok::<u8, SystemError>(self.mem@[ptr as int]),
            ptr >= 4096 ==> r == Err::<u8, SystemError>(
                SystemError::InvalidMemoryAccess { addr: ptr },
            ),
    {
        if ptr as usize >= MEMORY_LEN {
            return Err(SystemError::InvalidMemoryAccess { addr: ptr });
        }
        Ok(self.mem[ptr as usize])
    }

    /// Writes `data` to the byte at `ptr`.
    pub fn write_mem(&mut self, ptr: u16, data: u8) -> (r: Result<(), SystemError>)
        ensures
            ptr < 4096 ==> r.is_ok() && final(self)@ == (Machine {
                mem: old(self)@.mem.update(ptr as int, data),
                ..old(self)@
            }) && final(self).keys == old(self).keys && final(self).screen == old(self).screen,
            ptr >= 4096 ==> r == Err::<(), SystemError>(
                SystemError::InvalidMemoryAccess { addr: ptr },
            ) && *final(self) == *old(self),
    {
        if ptr as usize >= MEMORY_LEN {
            return Err(SystemError::InvalidMemoryAccess { addr: ptr });
        }
        self.mem[ptr as usize] = data;
        assert(self@ =~= (Machine { mem: old(self)@.mem.update(ptr as int, data), ..old(self)@ }));
        Ok(())
    }

    /// Records that the host saw key `key` go down (`pressed`) or up. A key
    /// that goes down while an instruction waits for a key press, before any
    /// other did, completes that wait.
    pub fn process_key_event(&mut self, key: u8, pressed: bool) -> (r: Result<(), SystemError>)
        ensures
            key < 16 ==> r.is_ok() && final(self)@ == old(self)@.key_event(key as int, pressed)
                && final(self).keys.keys@ == old(self).keys.keys@.update(
                key as int,
                if pressed {
                    1u8
                } else {
                    0u8
                },
            ) && final(self).screen == old(self).screen,
            key >= 16 ==> r == Err::<(), SystemError>(SystemError::InvalidKey { key })
                && *final(self) == *old(self),
            final(self).wf() == old(self).wf(),
    {
        if key > 15 {
            return Err(SystemError::InvalidKey { key });
        }
        let was_down = self.keys.keys[key as usize] != 0;
        if pressed && !was_down {
            match self.keys.wait {
                KeyWait::Waiting => {
                    self.keys.wait = KeyWait::Pressed(key);
                },
                _ => {},
            }
        }
        self.keys.keys[key as usize] = if pressed {
            1
        } else {
            0
        };
        assert(self@ =~= old(self)@.key_event(key as int, pressed));
        Ok(())
    }
}

impl Default for System {
    /// A machine in its initial state: the font at the bottom of memory,
    /// everything else zero, the program counter at 0x200.
    fn default() -> (r: Self)
        ensures
            r@ == Machine::initial(),
            r.wf(),
    {
        let mut mem = [0u8; 4096];
        let mut i: usize = 0;
        while i < 80
            invariant
                i <= 80,
                forall|a: int| 0 <= a < i ==> mem@[a] == FONTS@[a],
                forall|a: int| i <= a < 4096 ==> mem@[a] == 0,
            decreases 80 - i,
        {
            mem[i] = FONTS[i];
            i += 1;
        }
        let r = System {
            mem,
            screen: [0; SCREEN_LEN],
            registers: Registers::default(),
            timers: Timers::default(),
            stack: Stack::default(),
            keys: Keys::default(),
        };
        proof {
            assert forall|p: int| 0 <= p < 2048 implies !(#[trigger] pixels_of(r.screen@)[p]) by {
                lemma_zero_bits((p % 8) as u8);
            }
            assert(r@ =~= Machine::initial());
        }
        r
    }
}

} // verus!
