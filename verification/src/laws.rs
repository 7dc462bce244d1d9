//! Instruction-level laws of the interpreter, each proved once and for all
//! over the transition functions of [`crate::state`].

use vstd::prelude::*;

use crate::instr::{spec_decode, Instr};
use crate::state::{skip_next, spec_execute, spec_fetch, state_wf, State};

verus! {

/// ADD (8xy4): for any 8-bit operands `a = Vx`, `b = Vy`, the flag
/// register takes 1 exactly when the true sum `a + b` exceeds 255, and
/// the destination register (when it is not the flag register itself,
/// which the flag overwrites) takes `(a + b) mod 256`.
pub proof fn lemma_add_sets_carry(s: State, x: u8, y: u8, rnd: u8, keys: u16)
    requires
        state_wf(s),
        x < 16,
        y < 16,
    ensures
        ({
            let a = s.regs[x as int];
            let b = s.regs[y as int];
            let t = spec_execute(s, 0x8004 | ((x as u16) << 8) | ((y as u16) << 4), rnd, keys);
            &&& t.regs[15] == (if a + b > 255 {
                1u8
            } else {
                0u8
            })
            &&& x != 15 ==> t.regs[x as int] == (a + b) % 256
        }),
{
    let op = 0x8004 | ((x as u16) << 8) | ((y as u16) << 4);
    assert(op != 0x00E0 && op != 0x00EE && op >> 12 == 0x8 && (op & 0xF) == 0x4 && ((op >> 8)
        & 0xF) == x as u16 && ((op >> 4) & 0xF) == y as u16) by (bit_vector)
        requires
            op == 0x8004 | ((x as u16) << 8) | ((y as u16) << 4),
            x < 16,
            y < 16,
    ;
    assert(spec_decode(op) == Instr::AddReg(x, y));
}

/// SUB (8xy5): for any 8-bit operands `a = Vx`, `b = Vy`, the flag
/// register takes 1 exactly when `a > b` (no borrow needed), and the
/// destination register (when it is not the flag register itself) takes
/// `(a - b) mod 256`.
pub proof fn lemma_sub_sets_borrow(s: State, x: u8, y: u8, rnd: u8, keys: u16)
    requires
        state_wf(s),
        x < 16,
        y < 16,
    ensures
        ({
            let a = s.regs[x as int];
            let b = s.regs[y as int];
            let t = spec_execute(s, 0x8005 | ((x as u16) << 8) | ((y as u16) << 4), rnd, keys);
            &&& t.regs[15] == (if a > b {
                1u8
            } else {
                0u8
            })
            &&& x != 15 ==> t.regs[x as int] == (a - b + 256) % 256
        }),
{
    let op = 0x8005 | ((x as u16) << 8) | ((y as u16) << 4);
    assert(op != 0x00E0 && op != 0x00EE && op >> 12 == 0x8 && (op & 0xF) == 0x5 && ((op >> 8)
        & 0xF) == x as u16 && ((op >> 4) & 0xF) == y as u16) by (bit_vector)
        requires
            op == 0x8005 | ((x as u16) << 8) | ((y as u16) << 4),
            x < 16,
            y < 16,
    ;
    assert(spec_decode(op) == Instr::SubReg(x, y));
}

/// Jump (1nnn): the very next fetch reads the opcode at `nnn` itself, not
/// at `nnn + 2` — the automatic program-counter advance happens before the
/// jump takes effect and is overwritten by it.
pub proof fn lemma_jump_then_fetch(s: State, nnn: u16, rnd: u8, keys: u16)
    requires
        state_wf(s),
        nnn < 0x1000,
    ensures
        ({
            let t = spec_execute(s, 0x1000 | nnn, rnd, keys);
            &&& t.pc == nnn
            &&& t.mem == s.mem
            &&& spec_fetch(t) == (((s.mem[nnn as int] as u16) << 8) | (s.mem[(nnn + 1) % 0x1000] as u16))
        }),
{
    let op = 0x1000 | nnn;
    assert(op != 0x00E0 && op != 0x00EE && op >> 12 == 0x1 && (op & 0xFFF) == nnn) by (bit_vector)
        requires
            op == 0x1000 | nnn,
            nnn < 0x1000,
    ;
    assert(spec_decode(op) == Instr::Jump(nnn));
}

/// Call (2nnn) followed by return (00EE) leaves the program counter at the
/// opcode immediately after the call, and the stack as it was before.
pub proof fn lemma_call_then_return(s: State, nnn: u16, rnd1: u8, rnd2: u8, keys: u16)
    requires
        state_wf(s),
        nnn < 0x1000,
    ensures
        ({
            let t = spec_execute(s, 0x2000 | nnn, rnd1, keys);
            let u = spec_execute(t, 0x00EE, rnd2, keys);
            &&& t.pc == nnn
            &&& u.pc == (s.pc + 2) % 0x1000
            &&& u.stack == s.stack
        }),
{
    let op = 0x2000 | nnn;
    assert(op != 0x00E0 && op != 0x00EE && op >> 12 == 0x2 && (op & 0xFFF) == nnn) by (bit_vector)
        requires
            op == 0x2000 | nnn,
            nnn < 0x1000,
    ;
    assert(spec_decode(op) == Instr::Call(nnn));
    assert(spec_decode(0x00EE) == Instr::Ret);
    let t = spec_execute(s, op, rnd1, keys);
    assert(t.stack == s.stack.push(skip_next(s).pc));
    assert(t.stack.len() > 0);
    assert(t.stack.drop_last() =~= s.stack);
}

/// Return (00EE) with an empty call stack resets the program counter to
/// the program start address 0x200 instead of failing.
pub proof fn lemma_return_on_empty_stack(s: State, rnd: u8, keys: u16)
    requires
        state_wf(s),
        s.stack.len() == 0,
    ensures
        spec_execute(s, 0x00EE, rnd, keys).pc == 0x200,
        spec_execute(s, 0x00EE, rnd, keys).stack == s.stack,
{
    assert(spec_decode(0x00EE) == Instr::Ret);
}

} // verus!
