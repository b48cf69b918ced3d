//! The small parts of the machine state: registers, timers, call stack and keys.

use vstd::prelude::*;
use vstd::string::StringExecFns;
use crate::system::error::SystemError;
use crate::system::text::{hex_text, push_hex};

verus! {

/// Address at which programs are loaded and at which execution starts.
pub const PROGRAM_START: u16 = 0x200;

/// The sixteen general-purpose registers, the index register and the program counter.
pub struct Registers {
    pub reg: [u8; 16],
    pub index: u16,
    pub pc: u16,
}

/// A register's value in two columns: hexadecimal, with a blank in front of
/// a single digit.
pub open spec fn padded_hex(value: u8) -> Seq<char> {
    if value < 16 {
        " "@ + hex_text(value as nat)
    } else {
        hex_text(value as nat)
    }
}

/// The cell of register `i` in the table of registers; every fourth cell
/// closes its row.
pub open spec fn register_cell(i: int, value: u8) -> Seq<char> {
    let cell = "| v"@ + hex_text(i as nat) + ": "@ + padded_hex(value) + " "@;
    if (i + 1) % 4 == 0 {
        cell + "|\n"@
    } else {
        cell
    }
}

/// The cells of the first `n` registers.
pub open spec fn register_cells(v: Seq<u8>, n: int) -> Seq<char>
    decreases n,
{
    if n <= 0 {
        Seq::empty()
    } else {
        register_cells(v, n - 1) + register_cell(n - 1, v[n - 1])
    }
}

impl Registers {
    /// The registers as a text for the user: a line for the program counter,
    /// a line for I, and the sixteen registers in four rows of four.
    pub open spec fn rendered(&self) -> Seq<char> {
        "pc: "@ + hex_text(self.pc as nat) + "\n"@ + " I: "@ + hex_text(self.index as nat) + "\n"@
            + register_cells(self.reg@, 16)
    }

    /// Writes the registers out as a text for the user.
    pub fn render(&self) -> (s: String)
        ensures
            s@ == self.rendered(),
    {
        let mut s = String::from_str("pc: ");
        push_hex(&mut s, self.pc);
        s.append("\n");
        s.append(" I: ");
        push_hex(&mut s, self.index);
        s.append("\n");
        let ghost head = s@;
        let mut i: u8 = 0;
        assert(s@ =~= head + register_cells(self.reg@, 0));
        while i < 16
            invariant
                i <= 16,
                s@ == head + register_cells(self.reg@, i as int),
            decreases 16 - i,
        {
            let value = self.reg[i as usize];
            let ghost start = s@;
            s.append("| v");
            push_hex(&mut s, i as u16);
            s.append(": ");
            if value < 16 {
                s.append(" ");
            }
            push_hex(&mut s, value as u16);
            s.append(" ");
            if (i + 1) % 4 == 0 {
                s.append("|\n");
            }
            assert(s@ =~= start + register_cell(i as int, value));
            i += 1;
            assert(s@ =~= head + register_cells(self.reg@, i as int));
        }
        s
    }

    /// The flag register VF.
    pub fn carry(&self) -> (flag: u8)
        ensures
            flag == self.reg@[15],
    {
        self.reg[15]
    }

    /// Overwrites the flag register VF.
    pub fn carry_set(&mut self, value: u8)
        ensures
            final(self).reg@ == old(self).reg@.update(15, value),
            final(self).index == old(self).index,
            final(self).pc == old(self).pc,
    {
        self.reg[15] = value;
    }

    /// Reads register `reg`.
    pub fn read(&self, reg: u8) -> (r: Result<u8, SystemError>)
        ensures
            reg < 16 ==> r == Ok::<u8, SystemError>(self.reg@[reg as int]),
            reg >= 16 ==> r == Err::<u8, SystemError>(SystemError::InvalidRegister { reg }),
    {
        if reg > 15 {
            return Err(SystemError::InvalidRegister { reg });
        }
        Ok(self.reg[reg as usize])
    }

    /// Writes `value` to register `reg`.
    pub fn write(&mut self, reg: u8, value: u8) -> (r: Result<(), SystemError>)
        ensures
            final(self).index == old(self).index,
            final(self).pc == old(self).pc,
            reg < 16 ==> r.is_ok() && final(self).reg@ == old(self).reg@.update(reg as int, value),
            reg >= 16 ==> r == Err::<(), SystemError>(SystemError::InvalidRegister { reg })
                && final(self).reg@ == old(self).reg@,
    {
        if reg > 15 {
            return Err(SystemError::InvalidRegister { reg });
        }
        self.reg[reg as usize] = value;
        Ok(())
    }

    /// Applies `func` to the value of register `reg`: `func` takes the value
    /// and returns the value to store together with its own result.
    pub fn with<U, F: FnOnce(u8) -> (u8, U)>(&mut self, reg: u8, func: F) -> (r: Result<
        U,
        SystemError,
    >)
        requires
            reg < 16 ==> call_requires(func, (old(self).reg@[reg as int],)),
        ensures
            final(self).index == old(self).index,
            final(self).pc == old(self).pc,
            reg < 16 ==> (r matches Ok(out) && call_ensures(
                func,
                (old(self).reg@[reg as int],),
                (final(self).reg@[reg as int], out),
            )) && final(self).reg@ == old(self).reg@.update(
                reg as int,
                final(self).reg@[reg as int],
            ),
            reg >= 16 ==> r == Err::<U, SystemError>(SystemError::InvalidRegister { reg })
                && final(self).reg@ == old(self).reg@,
    {
        if reg > 15 {
            return Err(SystemError::InvalidRegister { reg });
        }
        let (value, out) = func(self.reg[reg as usize]);
        self.reg[reg as usize] = value;
        Ok(out)
    }
}

impl Default for Registers {
    /// All registers zero, the program counter at the start of the program area.
    fn default() -> (r: Self)
        ensures
            r.reg@ == Seq::new(16, |i: int| 0u8),
            r.index == 0,
            r.pc == PROGRAM_START,
    {
        let r = Registers { reg: [0; 16], index: 0, pc: PROGRAM_START };
        assert(r.reg@ =~= Seq::new(16, |i: int| 0u8));
        r
    }
}

/// The delay and sound timers.
pub struct Timers {
    pub delay: u8,
    pub sound: u8,
}

impl Default for Timers {
    /// Both timers at zero.
    fn default() -> (r: Self)
        ensures
            r.delay == 0,
            r.sound == 0,
    {
        Timers { delay: 0, sound: 0 }
    }
}

/// The call stack: sixteen frames, of which the first `sp` are occupied.
pub struct Stack {
    pub stack: [u16; 16],
    pub sp: u16,
}

impl Stack {
    /// The stack pointer never exceeds the number of frames.
    pub open spec fn wf(&self) -> bool {
        self.sp <= 16
    }
}

impl Default for Stack {
    /// An empty stack.
    fn default() -> (r: Self)
        ensures
            r.stack@ == Seq::new(16, |i: int| 0u16),
            r.sp == 0,
            r.wf(),
    {
        let r = Stack { stack: [0; 16], sp: 0 };
        assert(r.stack@ =~= Seq::new(16, |i: int| 0u16));
        r
    }
}

/// Progress of an instruction that waits for a key press.
#[derive(Clone, Copy, Debug, PartialEq, Eq, Structural)]
pub enum KeyWait {
    /// No instruction is waiting.
    Idle,
    /// An instruction is waiting and no key has gone down since it began to.
    Waiting,
    /// The first key that went down since the instruction began to wait.
    Pressed(u8),
}

/// The sixteen keys of the hex pad (a key is down while its entry is nonzero)
/// and the state of a pending wait for a key press.
pub struct Keys {
    pub keys: [u8; 16],
    pub wait: KeyWait,
}

impl Keys {
    /// The keys as booleans: `true` for a key that is down.
    pub open spec fn down(&self) -> Seq<bool> {
        Seq::new(16, |k: int| self.keys@[k] != 0)
    }

    /// Whether key `key` is down.
    pub fn pressed(&self, key: u8) -> (r: Result<bool, SystemError>)
        ensures
            key < 16 ==> r == Ok::<bool, SystemError>(self.down()[key as int]),
            key >= 16 ==> r == Err::<bool, SystemError>(SystemError::InvalidKey { key }),
    {
        if key > 15 {
            return Err(SystemError::InvalidKey { key });
        }
        Ok(self.keys[key as usize] != 0)
    }
}

impl Default for Keys {
    /// All keys up, nothing waiting.
    fn default() -> (r: Self)
        ensures
            r.keys@ == Seq::new(16, |i: int| 0u8),
            r.wait == KeyWait::Idle,
    {
        let r = Keys { keys: [0; 16], wait: KeyWait::Idle };
        assert(r.keys@ =~= Seq::new(16, |i: int| 0u8));
        r
    }
}

} // verus!
