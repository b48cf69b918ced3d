//! The mathematical model of the machine and the meaning of each instruction
//! as a function on that model.

use vstd::prelude::*;
use crate::system::error::SystemError;
use crate::system::fonts::FONTS;
use crate::system::opcode::{arg_addr, arg_kk, arg_n, arg_x, arg_y, family_of, Opcode};
use crate::system::screen::{blit, blit_collides};
use crate::system::state::KeyWait;

verus! {

/// The state of the machine as plain mathematical values.
#[verifier::ext_equal]
pub struct Machine {
    /// The 4096 bytes of memory.
    pub mem: Seq<u8>,
    /// The 2048 pixels of the screen, row by row from the top left.
    pub pixels: Seq<bool>,
    /// The registers V0 to VF.
    pub v: Seq<u8>,
    /// The index register I.
    pub index: u16,
    /// The program counter.
    pub pc: u16,
    /// The delay timer.
    pub delay: u8,
    /// The sound timer.
    pub sound: u8,
    /// The sixteen frames of the call stack.
    pub stack: Seq<u16>,
    /// The number of occupied frames.
    pub sp: u16,
    /// The sixteen keys: `true` for a key that is down.
    pub keys: Seq<bool>,
    /// The state of a pending wait for a key press.
    pub wait: KeyWait,
}

/// The 16-bit big-endian word made of two bytes.
pub open spec fn word_of(high: u8, low: u8) -> u16 {
    (high * 256 + low) as u16
}

/// The first address outside memory that an access to the `len` bytes from
/// `index` on touches, if there is one. An access to no bytes touches none.
pub open spec fn block_fault(index: u16, len: int) -> Option<u16> {
    if len <= 0 || index + len <= 4096 {
        None
    } else if index >= 4096 {
        Some(index)
    } else {
        Some(4096u16)
    }
}

/// The value that a register-to-register instruction leaves in Vx.
pub open spec fn alu_value(op: Opcode, vx: u8, vy: u8) -> u8 {
    match op {
        Opcode::MovReg => vy,
        Opcode::OrReg => vx | vy,
        Opcode::AndReg => vx & vy,
        Opcode::XorReg => vx ^ vy,
        Opcode::AddReg => ((vx + vy) % 256) as u8,
        Opcode::SubReg => ((vx - vy) % 256) as u8,
        Opcode::RShiftReg => vx / 2,
        Opcode::RSubReg => ((vy - vx) % 256) as u8,
        Opcode::LShiftReg => ((vx * 2) % 256) as u8,
        _ => vx,
    }
}

/// The flag that a register-to-register instruction leaves in VF, for those
/// that set it: carry for the addition, the absence of a borrow for the
/// subtractions, the bit shifted out for the shifts.
pub open spec fn alu_flag(op: Opcode, vx: u8, vy: u8) -> Option<u8> {
    match op {
        Opcode::AddReg => Some(if vx + vy > 255 { 1u8 } else { 0u8 }),
        Opcode::SubReg => Some(if vx >= vy { 1u8 } else { 0u8 }),
        Opcode::RShiftReg => Some(vx % 2),
        Opcode::RSubReg => Some(if vy >= vx { 1u8 } else { 0u8 }),
        Opcode::LShiftReg => Some(vx / 128),
        _ => None,
    }
}

/// The registers after a register-to-register instruction on Vx and Vy:
/// the value goes to Vx first and the flag, if any, to VF last.
pub open spec fn alu_registers(op: Opcode, v: Seq<u8>, x: int, y: int) -> Seq<u8> {
    let stored = v.update(x, alu_value(op, v[x], v[y]));
    match alu_flag(op, v[x], v[y]) {
        Some(flag) => stored.update(15, flag),
        None => stored,
    }
}

/// The three decimal digits of a byte: hundreds, tens, ones.
pub open spec fn bcd_digits(value: u8) -> (u8, u8, u8) {
    (value / 100, (value / 10) % 10, value % 10)
}

/// Memory after the registers V0 to Vx have been stored from `index` on.
pub open spec fn dump_registers(mem: Seq<u8>, v: Seq<u8>, index: int, x: int) -> Seq<u8> {
    Seq::new(
        mem.len(),
        |a: int|
            if index <= a <= index + x {
                v[a - index]
            } else {
                mem[a]
            },
    )
}

/// The registers after V0 to Vx have been loaded from memory at `index` on.
pub open spec fn load_registers(mem: Seq<u8>, v: Seq<u8>, index: int, x: int) -> Seq<u8> {
    Seq::new(
        v.len(),
        |i: int|
            if i <= x {
                mem[index + i]
            } else {
                v[i]
            },
    )
}

impl Machine {
    /// Every component has its size and the stack pointer is within the stack.
    pub open spec fn wf(self) -> bool {
        &&& self.mem.len() == 4096
        &&& self.pixels.len() == 2048
        &&& self.v.len() == 16
        &&& self.stack.len() == 16
        &&& self.keys.len() == 16
        &&& self.sp <= 16
    }

    /// The machine as it is created and after a reset: the font at the
    /// bottom of memory and everything else zero, with the program counter
    /// at 0x200.
    pub open spec fn initial() -> Machine {
        Machine {
            mem: Seq::new(
                4096,
                |a: int|
                    if a < 80 {
                        FONTS@[a]
                    } else {
                        0u8
                    },
            ),
            pixels: Seq::new(2048, |p: int| false),
            v: Seq::new(16, |i: int| 0u8),
            index: 0,
            pc: 0x200,
            delay: 0,
            sound: 0,
            stack: Seq::new(16, |i: int| 0u16),
            sp: 0,
            keys: Seq::new(16, |k: int| false),
            wait: KeyWait::Idle,
        }
    }

    /// The machine with `by` added to the program counter, in 16 bits.
    pub open spec fn advance(self, by: int) -> Machine {
        Machine { pc: ((self.pc + by) % 0x10000) as u16, ..self }
    }

    /// The machine after an instruction that does not transfer control.
    pub open spec fn next(self) -> Machine {
        self.advance(2)
    }

    /// The machine after a skip instruction whose predicate is `hit`.
    pub open spec fn skip_if(self, hit: bool) -> Machine {
        if hit {
            self.advance(4)
        } else {
            self.advance(2)
        }
    }

    /// The machine with other registers V0 to VF.
    pub open spec fn with_v(self, v: Seq<u8>) -> Machine {
        Machine { v, ..self }
    }

    /// The machine after a call of the subroutine at `addr`: the program
    /// counter is pushed as it stands, so that it still points at the call.
    pub open spec fn call(self, addr: u16) -> Result<Machine, SystemError> {
        if self.sp >= 16 {
            Err(SystemError::StackOverflow)
        } else {
            Ok(
                Machine {
                    stack: self.stack.update(self.sp as int, self.pc),
                    sp: (self.sp + 1) as u16,
                    pc: addr,
                    ..self
                },
            )
        }
    }

    /// The machine after a return: the program counter is popped and then
    /// advanced past the call that pushed it.
    pub open spec fn ret(self) -> Result<Machine, SystemError> {
        if self.sp == 0 {
            Err(SystemError::StackUnderflow)
        } else {
            Ok(
                Machine {
                    sp: (self.sp - 1) as u16,
                    pc: self.stack[self.sp - 1],
                    ..self
                }.next(),
            )
        }
    }

    /// The machine after a draw of the `n`-row sprite at I, anchored at
    /// column Vx and row Vy: the sprite is XORed into the screen and VF
    /// tells whether a lit pixel went off.
    pub open spec fn draw(self, x: int, y: int, n: int) -> Result<Machine, SystemError> {
        match block_fault(self.index, n) {
            Some(addr) => Err(SystemError::InvalidMemoryAccess { addr }),
            None => {
                let i = self.index as int;
                let vx = self.v[x] as int;
                let vy = self.v[y] as int;
                let flag = if blit_collides(self.pixels, self.mem, i, n, vx, vy) {
                    1u8
                } else {
                    0u8
                };
                Ok(
                    Machine {
                        pixels: blit(self.pixels, self.mem, i, n, vx, vy),
                        v: self.v.update(15, flag),
                        ..self
                    }.next(),
                )
            },
        }
    }

    /// The machine after the decimal digits of Vx have been stored at I, I+1
    /// and I+2.
    pub open spec fn store_bcd(self, x: int) -> Result<Machine, SystemError> {
        match block_fault(self.index, 3) {
            Some(addr) => Err(SystemError::InvalidMemoryAccess { addr }),
            None => {
                let i = self.index as int;
                let d = bcd_digits(self.v[x]);
                Ok(
                    Machine {
                        mem: self.mem.update(i, d.0).update(i + 1, d.1).update(i + 2, d.2),
                        ..self
                    }.next(),
                )
            },
        }
    }

    /// The machine after V0 to Vx have been stored at I on; I keeps its value.
    pub open spec fn reg_dump(self, x: int) -> Result<Machine, SystemError> {
        match block_fault(self.index, x + 1) {
            Some(addr) => Err(SystemError::InvalidMemoryAccess { addr }),
            None => Ok(
                Machine {
                    mem: dump_registers(self.mem, self.v, self.index as int, x),
                    ..self
                }.next(),
            ),
        }
    }

    /// The machine after V0 to Vx have been loaded from I on; I keeps its value.
    pub open spec fn reg_load(self, x: int) -> Result<Machine, SystemError> {
        match block_fault(self.index, x + 1) {
            Some(addr) => Err(SystemError::InvalidMemoryAccess { addr }),
            None => Ok(
                Machine {
                    v: load_registers(self.mem, self.v, self.index as int, x),
                    ..self
                }.next(),
            ),
        }
    }

    /// The machine after the instruction that waits for a key press has been
    /// executed with Vx as its target. The first execution begins the wait;
    /// while no key has gone down since, the program counter stays on the
    /// instruction; once one has, Vx takes its index and execution goes on.
    pub open spec fn await_key(self, x: int) -> Machine {
        match self.wait {
            KeyWait::Idle => Machine { wait: KeyWait::Waiting, ..self },
            KeyWait::Waiting => self,
            KeyWait::Pressed(key) => Machine {
                v: self.v.update(x, key),
                wait: KeyWait::Idle,
                ..self
            }.next(),
        }
    }

    /// The machine after the host has reported that key `key` went down
    /// (`pressed`) or up. A key that goes down while an instruction waits
    /// for one, and before any other did, is recorded for that instruction.
    pub open spec fn key_event(self, key: int, pressed: bool) -> Machine {
        Machine {
            keys: self.keys.update(key, pressed),
            wait: if self.wait == KeyWait::Waiting && pressed && !self.keys[key] {
                KeyWait::Pressed(key as u8)
            } else {
                self.wait
            },
            ..self
        }
    }

    /// The machine after one 60 Hz step of the timers: each goes down by
    /// one and stays at zero.
    pub open spec fn tick_timers(self) -> Machine {
        Machine {
            delay: if self.delay > 0 {
                (self.delay - 1) as u8
            } else {
                0
            },
            sound: if self.sound > 0 {
                (self.sound - 1) as u8
            } else {
                0
            },
            ..self
        }
    }

    /// The instruction word at the program counter.
    pub open spec fn fetch(self) -> Result<u16, SystemError> {
        if self.pc + 1 < 4096 {
            Ok(word_of(self.mem[self.pc as int], self.mem[self.pc + 1]))
        } else {
            Err(SystemError::InvalidMemoryAccess { addr: self.pc })
        }
    }

    /// The machine after the instruction `code` of family `op` has been
    /// executed; `random` is the byte that the random source yields.
    pub open spec fn execute(self, op: Opcode, code: u16, random: u8) -> Result<
        Machine,
        SystemError,
    > {
        let x = arg_x(code) as int;
        let y = arg_y(code) as int;
        let kk = arg_kk(code);
        let addr = arg_addr(code);
        match op {
            Opcode::ClearScreen => Ok(
                Machine { pixels: Seq::new(2048, |p: int| false), ..self }.next(),
            ),
            Opcode::Return => self.ret(),
            Opcode::Jump => Ok(Machine { pc: addr, ..self }),
            Opcode::Call => self.call(addr),
            Opcode::SkipIfEq => Ok(self.skip_if(self.v[x] == kk)),
            Opcode::SkipIfNeq => Ok(self.skip_if(self.v[x] != kk)),
            Opcode::SkipIfRegEq => Ok(self.skip_if(self.v[x] == self.v[y])),
            Opcode::SkipIfRegNeq => Ok(self.skip_if(self.v[x] != self.v[y])),
            Opcode::SetReg => Ok(self.with_v(self.v.update(x, kk)).next()),
            Opcode::SAddReg => Ok(
                self.with_v(self.v.update(x, ((self.v[x] + kk) % 256) as u8)).next(),
            ),
            Opcode::MovReg
            | Opcode::OrReg
            | Opcode::AndReg
            | Opcode::XorReg
            | Opcode::AddReg
            | Opcode::SubReg
            | Opcode::RShiftReg
            | Opcode::RSubReg
            | Opcode::LShiftReg => Ok(self.with_v(alu_registers(op, self.v, x, y)).next()),
            Opcode::SetIndex => Ok(Machine { index: addr, ..self }.next()),
            Opcode::JumpPlus => Ok(Machine { pc: ((self.v[0] + addr) % 4096) as u16, ..self }),
            Opcode::Rand => Ok(self.with_v(self.v.update(x, random & kk)).next()),
            Opcode::Draw => self.draw(x, y, arg_n(code) as int),
            Opcode::SkipIfKeyPressed => Ok(self.skip_if(self.keys[(self.v[x] % 16) as int])),
            Opcode::SkipIfKeyNotPressed => Ok(self.skip_if(!self.keys[(self.v[x] % 16) as int])),
            Opcode::GetDelay => Ok(self.with_v(self.v.update(x, self.delay)).next()),
            Opcode::BlockGetKey => Ok(self.await_key(x)),
            Opcode::SetDelay => Ok(Machine { delay: self.v[x], ..self }.next()),
            Opcode::SetSound => Ok(Machine { sound: self.v[x], ..self }.next()),
            Opcode::AddIndex => Ok(
                Machine { index: ((self.index + self.v[x]) % 0x10000) as u16, ..self }.next(),
            ),
            Opcode::GetSprite => Ok(Machine { index: (5 * (self.v[x] % 16)) as u16, ..self }.next()),
            Opcode::BinCoded => self.store_bcd(x),
            Opcode::RegDump => self.reg_dump(x),
            Opcode::RegLoad => self.reg_load(x),
        }
    }

    /// One tick: fetch the word at the program counter, decode it and
    /// execute it. A word outside memory, the zero word and a word of no
    /// family are errors.
    pub open spec fn step(self, random: u8) -> Result<Machine, SystemError> {
        match self.fetch() {
            Err(e) => Err(e),
            Ok(code) => if code == 0 {
                Err(SystemError::ZeroInstruction)
            } else {
                match family_of(code) {
                    None => Err(SystemError::UnknownOpcode { code }),
                    Some(op) => self.execute(op, code, random),
                }
            },
        }
    }
}

} // verus!
