//! Laws of the machine: what holds of every tick, of every draw and of
//! instructions taken together.

use vstd::prelude::*;
use crate::system::error::SystemError;
use crate::system::model::{alu_flag, alu_registers, alu_value, Machine};
use crate::system::opcode::{arg_addr, family_of, lemma_word_fields, Opcode};
use crate::system::screen::{blit, blit_collides, sprite_covers};

verus! {

/// Whether the instruction is one of those that skip the next instruction
/// when their predicate holds.
pub open spec fn is_skip(op: Opcode) -> bool {
    op == Opcode::SkipIfEq || op == Opcode::SkipIfNeq || op == Opcode::SkipIfRegEq || op
        == Opcode::SkipIfRegNeq || op == Opcode::SkipIfKeyPressed || op
        == Opcode::SkipIfKeyNotPressed
}

/// Where a tick leaves the program counter. A tick that succeeds has fetched
/// its word from within memory. A jump or a call goes to its 12-bit address,
/// and an indexed jump to the low twelve bits of V0 plus the address, all
/// within memory; a return goes to the instruction after the frame it pops;
/// a skip advances by 2 or by 4; the wait for a key advances by 2 or stays;
/// every other instruction advances by 2.
pub proof fn lemma_tick_program_counter(m: Machine, random: u8)
    requires
        m.wf(),
        m.step(random).is_ok(),
    ensures
        m.pc + 1 < 4096,
        m.fetch().is_ok(),
        family_of(m.fetch().unwrap()).is_some(),
        ({
            let code = m.fetch().unwrap();
            let op = family_of(code).unwrap();
            let after = m.step(random).unwrap();
            if op == Opcode::Jump || op == Opcode::Call {
                after.pc == arg_addr(code) && after.pc < 4096
            } else if op == Opcode::JumpPlus {
                after.pc == (m.v[0] + arg_addr(code)) % 4096 && after.pc < 4096
            } else if op == Opcode::Return {
                after.pc == (m.stack[m.sp - 1] + 2) % 0x10000
            } else if is_skip(op) {
                after.pc == m.pc + 2 || after.pc == m.pc + 4
            } else if op == Opcode::BlockGetKey {
                after.pc == m.pc || after.pc == m.pc + 2
            } else {
                after.pc == m.pc + 2
            }
        }),
{
    let code = m.fetch().unwrap();
    lemma_word_fields(code);
}

/// The random byte matters to one instruction only: a tick that does not
/// execute the random instruction has the same outcome whatever the byte.
pub proof fn lemma_random_only_for_rand(m: Machine, a: u8, b: u8)
    requires
        !(m.fetch() matches Ok(code) && family_of(code) == Some(Opcode::Rand)),
    ensures
        m.step(a) == m.step(b),
{
}

/// A register-to-register instruction that sets the flag writes its value to
/// Vx first and the flag to VF last. So VF holds the flag, which is 0 or 1,
/// whatever X is; Vx holds the low eight bits of the result unless X is F;
/// and no other register changes.
pub proof fn lemma_flag_written_last(op: Opcode, v: Seq<u8>, x: int, y: int)
    requires
        v.len() == 16,
        0 <= x < 16,
        0 <= y < 16,
        alu_flag(op, v[x], v[y]).is_some(),
    ensures
        ({
            let after = alu_registers(op, v, x, y);
            let flag = alu_flag(op, v[x], v[y]).unwrap();
            &&& after.len() == 16
            &&& flag == 0 || flag == 1
            &&& after[15] == flag
            &&& x != 15 ==> after[x] == alu_value(op, v[x], v[y])
            &&& forall|i: int| 0 <= i < 15 && i != x ==> after[i] == v[i]
        }),
        op == Opcode::AddReg ==> alu_value(op, v[x], v[y]) == (v[x] + v[y]) % 256,
        op == Opcode::SubReg ==> alu_value(op, v[x], v[y]) == (v[x] - v[y]) % 256,
        op == Opcode::RSubReg ==> alu_value(op, v[x], v[y]) == (v[y] - v[x]) % 256,
        op == Opcode::LShiftReg ==> alu_value(op, v[x], v[y]) == (v[x] * 2) % 256,
        op == Opcode::RShiftReg ==> alu_value(op, v[x], v[y]) == v[x] / 2,
{
}

/// A draw leaves 0 or 1 in VF, and 1 exactly when it turned at least one
/// lit pixel off.
pub proof fn lemma_draw_flag(m: Machine, x: int, y: int, n: int)
    requires
        m.wf(),
        0 <= x < 16,
        0 <= y < 16,
        m.draw(x, y, n).is_ok(),
    ensures
        ({
            let after = m.draw(x, y, n).unwrap();
            &&& after.v[15] == 0 || after.v[15] == 1
            &&& after.v[15] == 1 <==> exists|p: int|
                0 <= p < 2048 && m.pixels[p] && !#[trigger] after.pixels[p]
        }),
{
    let after = m.draw(x, y, n).unwrap();
    let i = m.index as int;
    let vx = m.v[x] as int;
    let vy = m.v[y] as int;
    if blit_collides(m.pixels, m.mem, i, n, vx, vy) {
        let p = choose|p: int| 0 <= p < 2048 && m.pixels[p] && sprite_covers(m.mem, i, n, vx, vy, p);
        assert(!after.pixels[p]);
    }
    if exists|p: int| 0 <= p < 2048 && m.pixels[p] && !#[trigger] after.pixels[p] {
        let p = choose|p: int| 0 <= p < 2048 && m.pixels[p] && !#[trigger] after.pixels[p];
        assert(sprite_covers(m.mem, i, n, vx, vy, p));
    }
}

/// XORing the same sprite into the screen twice at the same place gives the
/// screen back.
pub proof fn lemma_blit_twice(pixels: Seq<bool>, mem: Seq<u8>, index: int, n: int, vx: int, vy: int)
    requires
        pixels.len() == 2048,
    ensures
        blit(blit(pixels, mem, index, n, vx, vy), mem, index, n, vx, vy) == pixels,
{
    assert(blit(blit(pixels, mem, index, n, vx, vy), mem, index, n, vx, vy) =~= pixels);
}

/// Drawing the same sprite twice at the same place gives the screen back,
/// and the second draw reports a collision exactly when the first one lit a
/// pixel. The two registers that hold the place must not be VF, which the
/// first draw overwrites.
pub proof fn lemma_draw_twice(m: Machine, x: int, y: int, n: int)
    requires
        m.wf(),
        0 <= x < 15,
        0 <= y < 15,
        m.draw(x, y, n).is_ok(),
    ensures
        m.draw(x, y, n).unwrap().draw(x, y, n).is_ok(),
        m.draw(x, y, n).unwrap().draw(x, y, n).unwrap().pixels == m.pixels,
        m.draw(x, y, n).unwrap().draw(x, y, n).unwrap().v[15] == 1 <==> exists|p: int|
            0 <= p < 2048 && !m.pixels[p] && #[trigger] m.draw(x, y, n).unwrap().pixels[p],
{
    let once = m.draw(x, y, n).unwrap();
    let twice = once.draw(x, y, n).unwrap();
    let i = m.index as int;
    let vx = m.v[x] as int;
    let vy = m.v[y] as int;
    lemma_blit_twice(m.pixels, m.mem, i, n, vx, vy);
    lemma_draw_flag(once, x, y, n);
    if twice.v[15] == 1 {
        let p = choose|p: int| 0 <= p < 2048 && once.pixels[p] && !#[trigger] twice.pixels[p];
        assert(!m.pixels[p] && once.pixels[p]);
    }
    if exists|p: int| 0 <= p < 2048 && !m.pixels[p] && #[trigger] once.pixels[p] {
        let p = choose|p: int| 0 <= p < 2048 && !m.pixels[p] && #[trigger] once.pixels[p];
        assert(once.pixels[p] && !twice.pixels[p]);
    }
}

/// Storing V0 to Vx and loading them again from the same I gives them back,
/// whatever the registers held in between.
pub proof fn lemma_dump_then_load(m: Machine, x: int, between: Seq<u8>)
    requires
        m.wf(),
        0 <= x < 16,
        between.len() == 16,
        m.reg_dump(x).is_ok(),
    ensures
        m.reg_dump(x).unwrap().with_v(between).reg_load(x).is_ok(),
        forall|i: int|
            0 <= i <= x ==> #[trigger] m.reg_dump(x).unwrap().with_v(between).reg_load(
                x,
            ).unwrap().v[i] == m.v[i],
        forall|i: int|
            x < i < 16 ==> #[trigger] m.reg_dump(x).unwrap().with_v(between).reg_load(
                x,
            ).unwrap().v[i] == between[i],
{
}

/// The machine after `n` steps of the timers.
pub open spec fn after_timer_steps(m: Machine, n: nat) -> Machine
    decreases n,
{
    if n == 0 {
        m
    } else {
        after_timer_steps(m, (n - 1) as nat).tick_timers()
    }
}

/// The timers saturate: after `n` steps each timer is `n` lower, or zero
/// where it had less than `n` left.
pub proof fn lemma_timers_saturate(m: Machine, n: nat)
    ensures
        after_timer_steps(m, n).delay == if m.delay >= n {
            m.delay - n
        } else {
            0
        },
        after_timer_steps(m, n).sound == if m.sound >= n {
            m.sound - n
        } else {
            0
        },
        0 <= after_timer_steps(m, n).delay <= 255,
        0 <= after_timer_steps(m, n).sound <= 255,
    decreases n,
{
    if n > 0 {
        lemma_timers_saturate(m, (n - 1) as nat);
    }
}

/// One use of the call stack: a call that the instruction at `at` makes, or
/// a return.
pub enum StackOp {
    Call { at: u16, target: u16 },
    Ret,
}

/// The machine after one use of the call stack. Between two uses the
/// program runs on, so a call finds the program counter wherever it is.
pub open spec fn stack_step(m: Machine, op: StackOp) -> Result<Machine, SystemError> {
    match op {
        StackOp::Call { at, target } => Machine { pc: at, ..m }.call(target),
        StackOp::Ret => m.ret(),
    }
}

/// The machine after a sequence of uses of the call stack.
pub open spec fn stack_run(m: Machine, ops: Seq<StackOp>) -> Result<Machine, SystemError>
    decreases ops.len(),
{
    if ops.len() == 0 {
        Ok(m)
    } else {
        match stack_run(m, ops.drop_last()) {
            Err(e) => Err(e),
            Ok(before) => stack_step(before, ops.last()),
        }
    }
}

/// The calls of a sequence that have not returned yet, oldest first: where
/// each of them was made.
pub open spec fn open_calls(ops: Seq<StackOp>) -> Seq<u16>
    decreases ops.len(),
{
    if ops.len() == 0 {
        Seq::empty()
    } else {
        let before = open_calls(ops.drop_last());
        match ops.last() {
            StackOp::Call { at, target } => before.push(at),
            StackOp::Ret => before.drop_last(),
        }
    }
}

/// Whether every return of a sequence has a call of the sequence to return
/// from, and no more than `room` calls are ever open at once.
pub open spec fn nested_within(ops: Seq<StackOp>, room: int) -> bool
    decreases ops.len(),
{
    ops.len() == 0 || (nested_within(ops.drop_last(), room) && match ops.last() {
        StackOp::Call { at, target } => open_calls(ops.drop_last()).len() < room,
        StackOp::Ret => open_calls(ops.drop_last()).len() > 0,
    })
}

/// Calls and returns pair up. A sequence of calls and returns in which every
/// return has its call, and which never needs more frames than are free,
/// succeeds; it leaves the frames that were occupied before as they were and
/// the open calls above them; and each return sets the program counter to
/// the instruction after the call that it returns from.
pub proof fn lemma_calls_and_returns(m: Machine, ops: Seq<StackOp>)
    requires
        m.wf(),
        nested_within(ops, 16 - m.sp),
    ensures
        stack_run(m, ops).is_ok(),
        ({
            let after = stack_run(m, ops).unwrap();
            let open = open_calls(ops);
            &&& after.wf()
            &&& after.sp == m.sp + open.len()
            &&& forall|i: int| 0 <= i < m.sp ==> after.stack[i] == m.stack[i]
            &&& forall|i: int| 0 <= i < open.len() ==> after.stack[m.sp + i] == open[i]
            &&& ops.len() > 0 && ops.last() == StackOp::Ret ==> after.pc == (open_calls(
                ops.drop_last(),
            ).last() + 2) % 0x10000
            &&& after.mem == m.mem
            &&& after.pixels == m.pixels
            &&& after.v == m.v
            &&& after.index == m.index
        }),
    decreases ops.len(),
{
    if ops.len() > 0 {
        lemma_calls_and_returns(m, ops.drop_last());
    }
}

/// A call and the return from it, with nothing or with calls that have all
/// returned in between, bring the program counter to the instruction after
/// the call and the stack pointer to where it was.
pub proof fn lemma_call_returns(m: Machine, at: u16, target: u16, inner: Seq<StackOp>)
    requires
        m.wf(),
        m.sp < 16,
        at + 1 < 4096,
        nested_within(inner, 15 - m.sp),
        open_calls(inner).len() == 0,
    ensures
        stack_run(m, seq![StackOp::Call { at, target }] + inner + seq![StackOp::Ret]).is_ok(),
        stack_run(m, seq![StackOp::Call { at, target }] + inner + seq![StackOp::Ret]).unwrap().pc
            == at + 2,
        stack_run(m, seq![StackOp::Call { at, target }] + inner + seq![StackOp::Ret]).unwrap().sp
            == m.sp,
{
    let call = StackOp::Call { at, target };
    let first = seq![call];
    let ops = first + inner + seq![StackOp::Ret];
    let called = stack_step(m, call).unwrap();
    assert(first.drop_last() =~= Seq::<StackOp>::empty());
    assert(stack_run(m, Seq::<StackOp>::empty()) == Ok::<Machine, SystemError>(m));
    assert(first.last() == call);
    assert(stack_run(m, first) == Ok::<Machine, SystemError>(called));
    lemma_stack_run_split(m, first, inner);
    lemma_calls_and_returns(called, inner);
    assert(ops.drop_last() =~= first + inner);
    assert(ops.last() == StackOp::Ret);
}

/// Running two sequences one after the other is running their concatenation.
pub proof fn lemma_stack_run_split(m: Machine, first: Seq<StackOp>, second: Seq<StackOp>)
    requires
        stack_run(m, first).is_ok(),
    ensures
        stack_run(m, first + second) == stack_run(stack_run(m, first).unwrap(), second),
    decreases second.len(),
{
    if second.len() == 0 {
        assert(first + second =~= first);
    } else {
        lemma_stack_run_split(m, first, second.drop_last());
        assert((first + second).drop_last() =~= first + second.drop_last());
        assert((first + second).last() == second.last());
    }
}

} // verus!
