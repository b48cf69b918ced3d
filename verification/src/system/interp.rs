//! The interpreter: fetch, decode and execute one instruction per tick.

use vstd::prelude::*;
use crate::system::debug::{fetched_text, mnemonic_text, Debugger, Decoded, FetchedWord};
use crate::system::error::SystemError;
use crate::system::machine::{System, MEMORY_LEN};
use crate::system::model::{
    alu_flag,
    alu_registers,
    alu_value,
    block_fault,
    dump_registers,
    load_registers,
    Machine,
};
use crate::system::opcode::{family_of, Layout, Opcode};
use crate::system::screen::{
    bit_of,
    blit_upto,
    collides_upto,
    lemma_blit_done,
    lemma_blit_row_end,
    lemma_blit_start,
    lemma_blit_step,
    lemma_zero_bits,
    SCREEN_LEN,
};
use crate::system::state::KeyWait;

verus! {

/// A byte from the thread-local generator of the `rand` crate, by
/// `rand::random::<u8>()`. Nothing is claimed of the byte: it is a matter of
/// chance.
#[verifier::external_body]
fn random_byte() -> (byte: u8) {
    rand::random::<u8>()
}

/// Shifts, masks and wrapping arithmetic on a byte, as arithmetic on its value.
pub proof fn lemma_byte_ops(b: u8)
    ensures
        b >> 1 == b / 2,
        b & 1 == b % 2,
        (b >> 7) & 1 == b / 128,
        b << 1 == (b * 2) % 256,
        b & 0x0F == b % 16,
{
    assert(b >> 1 == b / 2) by (bit_vector);
    assert(b & 1 == b % 2) by (bit_vector);
    assert((b >> 7) & 1 == b / 128) by (bit_vector);
    assert(b << 1 == (b * 2) % 256) by (bit_vector);
    assert(b & 0x0F == b % 16) by (bit_vector);
}

/// Whether the instruction is one of the nine that work on two registers.
pub open spec fn is_alu(op: Opcode) -> bool {
    op == Opcode::MovReg || op == Opcode::OrReg || op == Opcode::AndReg || op == Opcode::XorReg
        || op == Opcode::AddReg || op == Opcode::SubReg || op == Opcode::RShiftReg || op
        == Opcode::RSubReg || op == Opcode::LShiftReg
}

/// Computes what a register-to-register instruction stores in Vx and, where
/// it sets the flag, in VF.
pub fn alu(op: Opcode, vx: u8, vy: u8) -> (r: (u8, Option<u8>))
    requires
        is_alu(op),
    ensures
        r.0 == alu_value(op, vx, vy),
        r.1 == alu_flag(op, vx, vy),
{
    proof {
        lemma_byte_ops(vx);
    }
    match op {
        Opcode::MovReg => (vy, None),
        Opcode::OrReg => (vx | vy, None),
        Opcode::AndReg => (vx & vy, None),
        Opcode::XorReg => (vx ^ vy, None),
        Opcode::AddReg => {
            let sum: u16 = vx as u16 + vy as u16;
            (
                (sum % 256) as u8,
                Some(
                    if sum > 255 {
                        1
                    } else {
                        0
                    },
                ),
            )
        },
        Opcode::SubReg => (
            vx.wrapping_sub(vy),
            Some(
                if vx >= vy {
                    1
                } else {
                    0
                },
            ),
        ),
        Opcode::RShiftReg => (vx >> 1, Some(vx & 1)),
        Opcode::RSubReg => (
            vy.wrapping_sub(vx),
            Some(
                if vy >= vx {
                    1
                } else {
                    0
                },
            ),
        ),
        _ => (vx << 1, Some((vx >> 7) & 1)),
    }
}

/// What `r` and the machine `after` are when the machine `before` has
/// executed the instruction `code` of family `op`: on success the machine is
/// the one that the instruction's meaning gives; on an error it is as before.
/// The bytes that hold the keys are never touched.
pub open spec fn executed(
    before: System,
    after: System,
    r: Result<(), SystemError>,
    op: Opcode,
    code: u16,
    random: u8,
) -> bool {
    &&& match r {
        Ok(()) => before@.execute(op, code, random) == Ok::<Machine, SystemError>(after@),
        Err(e) => before@.execute(op, code, random) == Err::<Machine, SystemError>(e) && after
            == before,
    }
    &&& after.keys.keys == before.keys.keys
}

/// What `r` and the machine `after` are when the machine `before` has run
/// one tick in which the random source yields `random`.
pub open spec fn ticked(before: System, after: System, r: Result<(), SystemError>, random: u8) -> bool {
    &&& match r {
        Ok(()) => before@.step(random) == Ok::<Machine, SystemError>(after@),
        Err(e) => before@.step(random) == Err::<Machine, SystemError>(e) && after == before,
    }
    &&& after.keys.keys == before.keys.keys
}

/// The lines that one tick of a machine hands the trace sink: the fetched
/// word and, where it decodes, the instruction.
pub open spec fn tick_trace(m: Machine) -> Seq<Seq<char>> {
    match m.fetch() {
        Err(_) => Seq::empty(),
        Ok(code) => if code != 0 && family_of(code).is_some() {
            seq![fetched_text(code), mnemonic_text(family_of(code).unwrap(), code)]
        } else {
            seq![fetched_text(code)]
        },
    }
}

impl System {
    /// Adds `by` to the program counter, in 16 bits.
    fn advance(&mut self, by: u16)
        ensures
            final(self)@ == old(self)@.advance(by as int),
            final(self).keys == old(self).keys,
    {
        self.registers.pc = self.registers.pc.wrapping_add(by);
        assert(self@ =~= old(self)@.advance(by as int));
    }

    /// Advances past the instruction, and past the next one too on a hit.
    fn skip_if(&mut self, hit: bool)
        ensures
            final(self)@ == old(self)@.skip_if(hit),
            final(self).keys == old(self).keys,
    {
        if hit {
            self.advance(4);
        } else {
            self.advance(2);
        }
    }

    /// Stores `value` in register `x`.
    fn set_v(&mut self, x: u8, value: u8)
        requires
            x < 16,
        ensures
            final(self)@ == old(self)@.with_v(old(self)@.v.update(x as int, value)),
            final(self).keys == old(self).keys,
    {
        self.registers.reg[x as usize] = value;
        assert(self@ =~= old(self)@.with_v(old(self)@.v.update(x as int, value)));
    }

    /// The value of register `x`.
    fn v(&self, x: u8) -> (value: u8)
        requires
            x < 16,
        ensures
            value == self@.v[x as int],
    {
        self.registers.reg[x as usize]
    }

    /// Checks that the `len` bytes from I on lie within memory.
    fn check_block(&self, len: u8) -> (r: Result<(), SystemError>)
        ensures
            match block_fault(self@.index, len as int) {
                Some(addr) => r == Err::<(), SystemError>(
                    SystemError::InvalidMemoryAccess { addr },
                ),
                None => r.is_ok(),
            },
    {
        let index = self.registers.index;
        if len == 0 || index as usize + len as usize <= MEMORY_LEN {
            Ok(())
        } else if index >= 4096 {
            Err(SystemError::InvalidMemoryAccess { addr: index })
        } else {
            Err(SystemError::InvalidMemoryAccess { addr: 4096 })
        }
    }

    /// Executes a call of the subroutine at `addr`.
    fn exec_call(&mut self, addr: u16) -> (r: Result<(), SystemError>)
        requires
            old(self).wf(),
        ensures
            match r {
                Ok(()) => old(self)@.call(addr) == Ok::<Machine, SystemError>(final(self)@),
                Err(e) => old(self)@.call(addr) == Err::<Machine, SystemError>(e) && *final(self)
                    == *old(self),
            },
            final(self).keys == old(self).keys,
    {
        if self.stack.sp >= 16 {
            return Err(SystemError::StackOverflow);
        }
        self.stack.stack[self.stack.sp as usize] = self.registers.pc;
        self.stack.sp += 1;
        self.registers.pc = addr;
        assert(self@ =~= old(self)@.call(addr).unwrap());
        Ok(())
    }

    /// Executes a return from a subroutine.
    fn exec_ret(&mut self) -> (r: Result<(), SystemError>)
        requires
            old(self).wf(),
        ensures
            match r {
                Ok(()) => old(self)@.ret() == Ok::<Machine, SystemError>(final(self)@),
                Err(e) => old(self)@.ret() == Err::<Machine, SystemError>(e) && *final(self)
                    == *old(self),
            },
            final(self).keys == old(self).keys,
    {
        if self.stack.sp == 0 {
            return Err(SystemError::StackUnderflow);
        }
        self.stack.sp -= 1;
        self.registers.pc = self.stack.stack[self.stack.sp as usize];
        self.advance(2);
        assert(self@ =~= old(self)@.ret().unwrap());
        Ok(())
    }

    /// Executes a register-to-register instruction on Vx and Vy.
    fn exec_alu(&mut self, op: Opcode, x: u8, y: u8)
        requires
            is_alu(op),
            x < 16,
            y < 16,
        ensures
            final(self)@ == old(self)@.with_v(
                alu_registers(op, old(self)@.v, x as int, y as int),
            ).next(),
            final(self).keys == old(self).keys,
    {
        let (value, flag) = alu(op, self.v(x), self.v(y));
        self.set_v(x, value);
        match flag {
            Some(f) => {
                self.registers.carry_set(f);
            },
            None => {},
        }
        self.advance(2);
        assert(self@ =~= old(self)@.with_v(
            alu_registers(op, old(self)@.v, x as int, y as int),
        ).next());
    }

    /// Executes the instruction that stores the decimal digits of Vx.
    fn exec_bcd(&mut self, x: u8) -> (r: Result<(), SystemError>)
        requires
            x < 16,
        ensures
            match r {
                Ok(()) => old(self)@.store_bcd(x as int) == Ok::<Machine, SystemError>(
                    final(self)@,
                ),
                Err(e) => old(self)@.store_bcd(x as int) == Err::<Machine, SystemError>(e)
                    && *final(self) == *old(self),
            },
            final(self).keys == old(self).keys,
    {
        match self.check_block(3) {
            Err(e) => {
                return Err(e);
            },
            Ok(()) => {},
        }
        let value = self.v(x);
        let at = self.registers.index as usize;
        self.mem[at] = value / 100;
        self.mem[at + 1] = (value % 100) / 10;
        self.mem[at + 2] = value % 10;
        self.advance(2);
        assert(self@ =~= old(self)@.store_bcd(x as int).unwrap());
        Ok(())
    }

    /// Executes the instruction that stores V0 to Vx in memory.
    fn exec_reg_dump(&mut self, x: u8) -> (r: Result<(), SystemError>)
        requires
            x < 16,
        ensures
            match r {
                Ok(()) => old(self)@.reg_dump(x as int) == Ok::<Machine, SystemError>(
                    final(self)@,
                ),
                Err(e) => old(self)@.reg_dump(x as int) == Err::<Machine, SystemError>(e)
                    && *final(self) == *old(self),
            },
            final(self).keys == old(self).keys,
    {
        match self.check_block(x + 1) {
            Err(e) => {
                return Err(e);
            },
            Ok(()) => {},
        }
        let at = self.registers.index as usize;
        let mut i: u8 = 0;
        while i <= x
            invariant
                x < 16,
                i <= x + 1,
                at == old(self)@.index,
                at + x < 4096,
                self.screen == old(self).screen,
                self.registers == old(self).registers,
                self.timers == old(self).timers,
                self.stack == old(self).stack,
                self.keys == old(self).keys,
                self.mem@ == dump_registers(old(self)@.mem, old(self)@.v, at as int, i - 1),
            decreases x + 1 - i,
        {
            self.mem[at + i as usize] = self.registers.reg[i as usize];
            i += 1;
            assert(self.mem@ =~= dump_registers(old(self)@.mem, old(self)@.v, at as int, i - 1));
        }
        self.advance(2);
        assert(self@ =~= old(self)@.reg_dump(x as int).unwrap());
        Ok(())
    }

    /// Executes the instruction that loads V0 to Vx from memory.
    fn exec_reg_load(&mut self, x: u8) -> (r: Result<(), SystemError>)
        requires
            x < 16,
        ensures
            match r {
                Ok(()) => old(self)@.reg_load(x as int) == Ok::<Machine, SystemError>(
                    final(self)@,
                ),
                Err(e) => old(self)@.reg_load(x as int) == Err::<Machine, SystemError>(e)
                    && *final(self) == *old(self),
            },
            final(self).keys == old(self).keys,
    {
        match self.check_block(x + 1) {
            Err(e) => {
                return Err(e);
            },
            Ok(()) => {},
        }
        let at = self.registers.index as usize;
        let mut i: u8 = 0;
        while i <= x
            invariant
                x < 16,
                i <= x + 1,
                at == old(self)@.index,
                at + x < 4096,
                self.screen == old(self).screen,
                self.mem == old(self).mem,
                self.registers.index == old(self).registers.index,
                self.registers.pc == old(self).registers.pc,
                self.timers == old(self).timers,
                self.stack == old(self).stack,
                self.keys == old(self).keys,
                self.registers.reg@ == load_registers(
                    old(self)@.mem,
                    old(self)@.v,
                    at as int,
                    i - 1,
                ),
            decreases x + 1 - i,
        {
            self.registers.reg[i as usize] = self.mem[at + i as usize];
            i += 1;
            assert(self.registers.reg@ =~= load_registers(
                old(self)@.mem,
                old(self)@.v,
                at as int,
                i - 1,
            ));
        }
        self.advance(2);
        assert(self@ =~= old(self)@.reg_load(x as int).unwrap());
        Ok(())
    }

    /// Executes the instruction that waits for a key press.
    fn exec_await_key(&mut self, x: u8)
        requires
            x < 16,
        ensures
            final(self)@ == old(self)@.await_key(x as int),
            final(self).keys.keys == old(self).keys.keys,
    {
        match self.keys.wait {
            KeyWait::Idle => {
                self.keys.wait = KeyWait::Waiting;
            },
            KeyWait::Waiting => {},
            KeyWait::Pressed(key) => {
                self.keys.wait = KeyWait::Idle;
                self.registers.reg[x as usize] = key;
                self.advance(2);
            },
        }
        assert(self@ =~= old(self)@.await_key(x as int));
    }

    /// Executes a draw of the `n`-row sprite at I, anchored at column Vx of
    /// row Vy.
    fn exec_draw(&mut self, x: u8, y: u8, n: u8) -> (r: Result<(), SystemError>)
        requires
            x < 16,
            y < 16,
            n < 16,
        ensures
            match r {
                Ok(()) => old(self)@.draw(x as int, y as int, n as int) == Ok::<
                    Machine,
                    SystemError,
                >(final(self)@),
                Err(e) => old(self)@.draw(x as int, y as int, n as int) == Err::<
                    Machine,
                    SystemError,
                >(e) && *final(self) == *old(self),
            },
            final(self).keys == old(self).keys,
    {
        match self.check_block(n) {
            Err(e) => {
                return Err(e);
            },
            Ok(()) => {},
        }
        let at = self.registers.index as usize;
        let vx = self.v(x);
        let vy = self.v(y);
        let ghost before = old(self)@;
        let mut collided = false;
        let mut row: u8 = 0;
        proof {
            lemma_blit_start(before.pixels, before.mem, at as int, n as int, vx as int, vy as int);
        }
        while row < n
            invariant
                n < 16,
                row <= n,
                n == 0 || at + n <= 4096,
                before == old(self)@,
                self.mem == old(self).mem,
                self.registers == old(self).registers,
                self.timers == old(self).timers,
                self.stack == old(self).stack,
                self.keys == old(self).keys,
                self@.pixels == blit_upto(
                    before.pixels,
                    before.mem,
                    at as int,
                    n as int,
                    vx as int,
                    vy as int,
                    row as int,
                    0,
                ),
                collided == collides_upto(
                    before.pixels,
                    before.mem,
                    at as int,
                    n as int,
                    vx as int,
                    vy as int,
                    row as int,
                    0,
                ),
            decreases n - row,
        {
            let value = self.mem[at + row as usize];
            let mut col: u8 = 0;
            while col < 8
                invariant
                    n < 16,
                    row < n,
                    col <= 8,
                    at + n <= 4096,
                    before == old(self)@,
                    value == before.mem[at + row],
                    self.mem == old(self).mem,
                    self.registers == old(self).registers,
                    self.timers == old(self).timers,
                    self.stack == old(self).stack,
                    self.keys == old(self).keys,
                    self@.pixels == blit_upto(
                        before.pixels,
                        before.mem,
                        at as int,
                        n as int,
                        vx as int,
                        vy as int,
                        row as int,
                        col as int,
                    ),
                    collided == collides_upto(
                        before.pixels,
                        before.mem,
                        at as int,
                        n as int,
                        vx as int,
                        vy as int,
                        row as int,
                        col as int,
                    ),
                decreases 8 - col,
            {
                let px = ((vx as u16 + col as u16) % 64) as u8;
                let py = ((vy as u16 + row as u16) % 32) as u8;
                let bit = (value >> (7 - col)) & 1 != 0;
                assert(bit == bit_of(value, col)) by (bit_vector)
                    requires
                        col < 8,
                        bit == ((value >> ((7 - col) as u8)) & 1 != 0),
                ;
                proof {
                    lemma_blit_step(
                        before.pixels,
                        before.mem,
                        at as int,
                        n as int,
                        vx as int,
                        vy as int,
                        row as int,
                        col as int,
                    );
                }
                let hit = self.draw(px, py, bit);
                if hit {
                    collided = true;
                }
                col += 1;
            }
            proof {
                lemma_blit_row_end(
                    before.pixels,
                    before.mem,
                    at as int,
                    n as int,
                    vx as int,
                    vy as int,
                    row as int,
                );
            }
            row += 1;
        }
        self.registers.carry_set(
            if collided {
                1
            } else {
                0
            },
        );
        self.advance(2);
        proof {
            lemma_blit_done(before.pixels, before.mem, at as int, n as int, vx as int, vy as int);
            assert(self@ =~= old(self)@.draw(x as int, y as int, n as int).unwrap());
        }
        Ok(())
    }

    /// Executes an instruction without arguments.
    fn execute_exact(&mut self, op: Opcode, code: u16) -> (r: Result<(), SystemError>)
        requires
            old(self).wf(),
            op.layout() == Layout::Exact,
        ensures
            executed(*old(self), *final(self), r, op, code, 0),
    {
        match op {
            Opcode::ClearScreen => {
                self.screen = [0; SCREEN_LEN];
                self.advance(2);
                proof {
                    assert forall|p: int| 0 <= p < 2048 implies !(#[trigger] self@.pixels[p]) by {
                        lemma_zero_bits((p % 8) as u8);
                    }
                    assert(self@ =~= old(self)@.execute(op, code, 0).unwrap());
                }
                Ok(())
            },
            _ => self.exec_ret(),
        }
    }

    /// Executes an instruction whose argument is an address.
    fn execute_address(&mut self, op: Opcode, code: u16) -> (r: Result<(), SystemError>)
        requires
            old(self).wf(),
            op.layout() == Layout::Address,
        ensures
            executed(*old(self), *final(self), r, op, code, 0),
    {
        let addr = op.get_arg1_u16(code);
        match op {
            Opcode::Jump => {
                self.registers.pc = addr;
                assert(self@ =~= old(self)@.execute(op, code, 0).unwrap());
                Ok(())
            },
            Opcode::Call => self.exec_call(addr),
            Opcode::SetIndex => {
                self.registers.index = addr;
                self.advance(2);
                assert(self@ =~= old(self)@.execute(op, code, 0).unwrap());
                Ok(())
            },
            _ => {
                let sum: u16 = self.v(0) as u16 + addr;
                assert(sum & 0x0FFF == sum % 4096) by (bit_vector);
                self.registers.pc = sum & 0x0FFF;
                assert(self@ =~= old(self)@.execute(op, code, 0).unwrap());
                Ok(())
            },
        }
    }

    /// Executes an instruction whose arguments are a register and a byte.
    fn execute_register_byte(&mut self, op: Opcode, code: u16, random: u8)
        requires
            op.layout() == Layout::RegisterByte,
        ensures
            executed(*old(self), *final(self), Ok(()), op, code, random),
    {
        let (x, kk) = op.get_arg2(code);
        let vx = self.v(x);
        match op {
            Opcode::SkipIfEq => {
                self.skip_if(vx == kk);
            },
            Opcode::SkipIfNeq => {
                self.skip_if(vx != kk);
            },
            Opcode::SetReg => {
                self.set_v(x, kk);
                self.advance(2);
            },
            Opcode::SAddReg => {
                self.set_v(x, vx.wrapping_add(kk));
                self.advance(2);
            },
            _ => {
                self.set_v(x, random & kk);
                self.advance(2);
            },
        }
    }

    /// Executes an instruction whose arguments are two registers.
    fn execute_register_pair(&mut self, op: Opcode, code: u16)
        requires
            op.layout() == Layout::RegisterPair,
        ensures
            executed(*old(self), *final(self), Ok(()), op, code, 0),
    {
        let (x, y) = op.get_arg2(code);
        match op {
            Opcode::SkipIfRegEq => {
                let hit = self.v(x) == self.v(y);
                self.skip_if(hit);
            },
            Opcode::SkipIfRegNeq => {
                let hit = self.v(x) != self.v(y);
                self.skip_if(hit);
            },
            _ => {
                self.exec_alu(op, x, y);
            },
        }
    }

    /// Executes an instruction whose argument is one register.
    fn execute_register(&mut self, op: Opcode, code: u16) -> (r: Result<(), SystemError>)
        requires
            op.layout() == Layout::Register,
        ensures
            executed(*old(self), *final(self), r, op, code, 0),
    {
        let x = op.get_arg1_u8(code);
        let vx = self.v(x);
        proof {
            lemma_byte_ops(vx);
        }
        match op {
            Opcode::SkipIfKeyPressed => {
                let down = self.keys.keys[(vx & 0x0F) as usize] != 0;
                self.skip_if(down);
                Ok(())
            },
            Opcode::SkipIfKeyNotPressed => {
                let down = self.keys.keys[(vx & 0x0F) as usize] != 0;
                self.skip_if(!down);
                Ok(())
            },
            Opcode::GetDelay => {
                self.set_v(x, self.timers.delay);
                self.advance(2);
                Ok(())
            },
            Opcode::BlockGetKey => {
                self.exec_await_key(x);
                Ok(())
            },
            Opcode::SetDelay => {
                self.timers.delay = vx;
                self.advance(2);
                assert(self@ =~= old(self)@.execute(op, code, 0).unwrap());
                Ok(())
            },
            Opcode::SetSound => {
                self.timers.sound = vx;
                self.advance(2);
                assert(self@ =~= old(self)@.execute(op, code, 0).unwrap());
                Ok(())
            },
            Opcode::AddIndex => {
                self.registers.index = self.registers.index.wrapping_add(vx as u16);
                self.advance(2);
                assert(self@ =~= old(self)@.execute(op, code, 0).unwrap());
                Ok(())
            },
            Opcode::GetSprite => {
                self.registers.index = 5 * ((vx & 0x0F) as u16);
                self.advance(2);
                assert(self@ =~= old(self)@.execute(op, code, 0).unwrap());
                Ok(())
            },
            Opcode::BinCoded => self.exec_bcd(x),
            Opcode::RegDump => self.exec_reg_dump(x),
            _ => self.exec_reg_load(x),
        }
    }

    /// Executes the instruction `code`, which is of family `op`.
    fn execute(&mut self, op: Opcode, code: u16, random: u8) -> (r: Result<(), SystemError>)
        requires
            old(self).wf(),
        ensures
            executed(*old(self), *final(self), r, op, code, random),
    {
        match op.kind() {
            Layout::Exact => self.execute_exact(op, code),
            Layout::Address => self.execute_address(op, code),
            Layout::RegisterByte => {
                self.execute_register_byte(op, code, random);
                Ok(())
            },
            Layout::RegisterPair => {
                self.execute_register_pair(op, code);
                Ok(())
            },
            Layout::RegisterPairNibble => {
                let (x, y, n) = op.get_arg3(code);
                self.exec_draw(x, y, n)
            },
            Layout::Register => self.execute_register(op, code),
        }
    }

    /// One tick with the random byte given, or drawn when the instruction
    /// asks for one.
    fn run(&mut self, random: Option<u8>, dbg: &mut Debugger) -> (r: Result<(), SystemError>)
        requires
            old(self).wf(),
        ensures
            exists|byte: u8|
                (random matches Some(given) ==> byte == given) && #[trigger] ticked(
                    *old(self),
                    *final(self),
                    r,
                    byte,
                ),
            final(dbg).is_enabled() == old(dbg).is_enabled(),
            final(dbg).trace() == if old(dbg).is_enabled() {
                old(dbg).trace() + tick_trace(old(self)@)
            } else {
                old(dbg).trace()
            },
    {
        let ghost given = match random {
            Some(b) => b,
            None => 0u8,
        };
        let code = match self.fetch_instruction() {
            Ok(code) => code,
            Err(e) => {
                assert(ticked(*old(self), *self, Err(e), given));
                assert(dbg.trace() =~= old(dbg).trace() + tick_trace(old(self)@));
                return Err(e);
            },
        };
        dbg.debug(FetchedWord(code));
        if code == 0 {
            assert(ticked(*old(self), *self, Err(SystemError::ZeroInstruction), given));
            assert(old(dbg).is_enabled() ==> dbg.trace() =~= old(dbg).trace() + tick_trace(
                old(self)@,
            ));
            return Err(SystemError::ZeroInstruction);
        }
        let op = match Opcode::decode(code) {
            Some(op) => op,
            None => {
                assert(ticked(*old(self), *self, Err(SystemError::UnknownOpcode { code }), given));
                assert(old(dbg).is_enabled() ==> dbg.trace() =~= old(dbg).trace() + tick_trace(
                    old(self)@,
                ));
                return Err(SystemError::UnknownOpcode { code });
            },
        };
        dbg.debug(Decoded { op, code });
        assert(old(dbg).is_enabled() ==> dbg.trace() =~= old(dbg).trace() + tick_trace(old(self)@));
        let byte = match random {
            Some(byte) => byte,
            None => match op {
                Opcode::Rand => random_byte(),
                _ => 0,
            },
        };
        let r = self.execute(op, code, byte);
        assert(ticked(*old(self), *self, r, byte));
        r
    }

    /// Executes exactly one instruction, with `random` as the byte that the
    /// random source yields: fetches the word at the program counter,
    /// decodes it, executes it and moves the program counter on. An error
    /// leaves the machine as it was. The sink gets the fetched word and, if
    /// it decodes, the instruction.
    pub fn tick_with(&mut self, random: u8, dbg: &mut Debugger) -> (r: Result<(), SystemError>)
        requires
            old(self).wf(),
        ensures
            ticked(*old(self), *final(self), r, random),
            final(self).wf(),
            final(dbg).is_enabled() == old(dbg).is_enabled(),
            final(dbg).trace() == if old(dbg).is_enabled() {
                old(dbg).trace() + tick_trace(old(self)@)
            } else {
                old(dbg).trace()
            },
    {
        self.run(Some(random), dbg)
    }

    /// Executes exactly one instruction, as `tick_with` does, with a random
    /// byte of its own for the instruction that asks for one.
    pub fn tick(&mut self, dbg: &mut Debugger) -> (r: Result<(), SystemError>)
        requires
            old(self).wf(),
        ensures
            exists|random: u8| #[trigger] ticked(*old(self), *final(self), r, random),
            final(self).wf(),
            final(dbg).is_enabled() == old(dbg).is_enabled(),
            final(dbg).trace() == if old(dbg).is_enabled() {
                old(dbg).trace() + tick_trace(old(self)@)
            } else {
                old(dbg).trace()
            },
    {
        self.run(None, dbg)
    }
}

} // verus!
