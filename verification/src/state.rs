//! The mathematical model of the interpreter.
//!
//! [`State`] mirrors every machine component as a ghost value, and the spec
//! functions below give each instruction, each fetch-decode-execute step,
//! and each whole host frame its meaning as a total function on states. The
//! executable interpreter in [`crate::cpu`] is proved to follow these
//! functions exactly.

use vstd::prelude::*;

use crate::instr::{spec_decode, Instr};
use crate::keymap::spec_key_for_code;
use crate::render::{all_off, cell_index, toggled};

verus! {

/// One machine state: 4096 memory bytes, 16 registers, the program counter
/// (always inside the 12-bit address space), the 16-bit index register, the
/// call stack with the most recent return address last, the two timers, the
/// wait-for-key flag with its target register, and the display.
#[verifier::ext_equal]
pub struct State {
    pub mem: Seq<u8>,
    pub regs: Seq<u8>,
    pub pc: u16,
    pub i: u16,
    pub stack: Seq<u16>,
    pub delay: u8,
    pub sound: u8,
    pub paused: bool,
    pub wait_reg: u8,
    pub fb: Seq<bool>,
}

/// The structural invariant every reachable state satisfies.
pub open spec fn state_wf(s: State) -> bool {
    &&& s.mem.len() == 0x1000
    &&& s.regs.len() == 16
    &&& s.fb.len() == 2048
    &&& s.pc < 0x1000
    &&& s.wait_reg < 16
    &&& forall|j: int| 0 <= j < s.stack.len() ==> s.stack[j] < 0x1000
}

/// The 2-byte big-endian opcode at the program counter.
pub open spec fn spec_fetch(s: State) -> u16 {
    ((s.mem[s.pc as int] as u16) << 8) | (s.mem[(s.pc + 1) % 0x1000] as u16)
}

/// Whether the logical key `k` is down in the 16-bit key mask (bit `k`);
/// a register value outside the 16 logical keys is never down.
pub open spec fn key_down(keys: u16, k: u8) -> bool {
    k < 16 && (keys >> (k as u16)) & 1 == 1
}

/// The state with the program counter advanced one opcode, wrapped into
/// the 12-bit address space.
pub open spec fn skip_next(s: State) -> State {
    State { pc: ((s.pc + 2) % 0x1000) as u16, ..s }
}

/// One timer tick: each nonzero timer decrements by one and never below
/// zero.
pub open spec fn spec_tick(s: State) -> State {
    State {
        delay: if s.delay > 0 {
            (s.delay - 1) as u8
        } else {
            0u8
        },
        sound: if s.sound > 0 {
            (s.sound - 1) as u8
        } else {
            0u8
        },
        ..s
    }
}

/// The 8-bit wrapped sum of two register values.
pub open spec fn wrap_add(a: u8, b: u8) -> u8 {
    ((a + b) % 256) as u8
}

/// The 8-bit wrapped difference `a - b`.
pub open spec fn wrap_sub(a: u8, b: u8) -> u8 {
    (if a >= b {
        a - b
    } else {
        a + 256 - b
    }) as u8
}

/// Bit `col` of a sprite row byte, counted from the left: column 0 is the
/// most significant bit.
pub open spec fn sprite_bit(byte: u8, col: int) -> bool {
    (byte >> ((7 - col) as u8)) & 1 == 1
}

/// Draw columns `col..8` of one sprite row byte onto the display at row
/// `y`, toggling the cell at column `vx + col` wherever the bit is set;
/// the second component reports whether `hit` held or some toggle turned
/// a lit cell off.
pub open spec fn spec_draw_row(
    fb: Seq<bool>,
    byte: u8,
    vx: int,
    y: int,
    col: int,
    hit: bool,
) -> (Seq<bool>, bool)
    decreases 8 - col,
{
    if col < 0 || col >= 8 {
        (fb, hit)
    } else if sprite_bit(byte, col) {
        spec_draw_row(
            toggled(fb, vx + col, y),
            byte,
            vx,
            y,
            col + 1,
            hit || fb[cell_index(vx + col, y)],
        )
    } else {
        spec_draw_row(fb, byte, vx, y, col + 1, hit)
    }
}

/// Draw sprite rows `row..n`, row `r` read from memory at `i + r` (wrapped
/// into the address space) and drawn at display row `vy + r`.
pub open spec fn spec_draw(
    fb: Seq<bool>,
    mem: Seq<u8>,
    i: int,
    vx: int,
    vy: int,
    row: int,
    n: int,
    hit: bool,
) -> (Seq<bool>, bool)
    decreases n - row,
{
    if row < 0 || row >= n {
        (fb, hit)
    } else {
        let r = spec_draw_row(fb, mem[(i + row) % 0x1000], vx, vy + row, 0, hit);
        spec_draw(r.0, mem, i, vx, vy, row + 1, n, r.1)
    }
}

/// Memory after storing registers `idx..=x` at addresses `i + idx` onward,
/// each address wrapped into the address space.
pub open spec fn spec_store_regs(mem: Seq<u8>, regs: Seq<u8>, i: int, idx: int, x: int) -> Seq<u8>
    decreases x + 1 - idx,
{
    if idx < 0 || idx > x {
        mem
    } else {
        spec_store_regs(mem.update((i + idx) % 0x1000, regs[idx]), regs, i, idx + 1, x)
    }
}

/// Registers after loading `idx..=x` from memory at `i + idx` onward.
pub open spec fn spec_load_regs(regs: Seq<u8>, mem: Seq<u8>, i: int, idx: int, x: int) -> Seq<u8>
    decreases x + 1 - idx,
{
    if idx < 0 || idx > x {
        regs
    } else {
        spec_load_regs(regs.update(idx, mem[(i + idx) % 0x1000]), mem, i, idx + 1, x)
    }
}

/// The effect of one decoded instruction, applied after the program
/// counter has already advanced past the opcode. `rnd` is the random byte
/// a `RandMask` consumes; `keys` is the current key mask.
pub open spec fn spec_apply(s: State, ins: Instr, rnd: u8, keys: u16) -> State {
    match ins {
        Instr::Clear => State { fb: all_off(), ..s },
        Instr::Ret => if s.stack.len() == 0 {
            State { pc: 0x200, ..s }
        } else {
            State { pc: s.stack.last(), stack: s.stack.drop_last(), ..s }
        },
        Instr::Jump(nnn) => State { pc: nnn, ..s },
        Instr::Call(nnn) => State { pc: nnn, stack: s.stack.push(s.pc), ..s },
        Instr::SkipEqImm(x, kk) => if s.regs[x as int] == kk {
            skip_next(s)
        } else {
            s
        },
        Instr::SkipNeImm(x, kk) => if s.regs[x as int] != kk {
            skip_next(s)
        } else {
            s
        },
        Instr::SkipEqReg(x, y) => if s.regs[x as int] == s.regs[y as int] {
            skip_next(s)
        } else {
            s
        },
        Instr::SetImm(x, kk) => State { regs: s.regs.update(x as int, kk), ..s },
        Instr::AddImm(x, kk) => State {
            regs: s.regs.update(x as int, wrap_add(s.regs[x as int], kk)),
            ..s
        },
        Instr::Copy(x, y) => State { regs: s.regs.update(x as int, s.regs[y as int]), ..s },
        Instr::Or(x, y) => State {
            regs: s.regs.update(x as int, s.regs[x as int] | s.regs[y as int]),
            ..s
        },
        Instr::And(x, y) => State {
            regs: s.regs.update(x as int, s.regs[x as int] & s.regs[y as int]),
            ..s
        },
        Instr::Xor(x, y) => State {
            regs: s.regs.update(x as int, s.regs[x as int] ^ s.regs[y as int]),
            ..s
        },
        Instr::AddReg(x, y) => {
            let a = s.regs[x as int];
            let b = s.regs[y as int];
            let carry: u8 = if a + b > 255 {
                1
            } else {
                0
            };
            State { regs: s.regs.update(x as int, wrap_add(a, b)).update(15, carry), ..s }
        },
        Instr::SubReg(x, y) => {
            let a = s.regs[x as int];
            let b = s.regs[y as int];
            let no_borrow: u8 = if a > b {
                1
            } else {
                0
            };
            State { regs: s.regs.update(x as int, wrap_sub(a, b)).update(15, no_borrow), ..s }
        },
        Instr::ShiftRight(x, y) => {
            let b = s.regs[y as int];
            State { regs: s.regs.update(x as int, b >> 1).update(15, b & 1), ..s }
        },
        Instr::SubRev(x, y) => {
            let a = s.regs[x as int];
            let b = s.regs[y as int];
            let no_borrow: u8 = if b > a {
                1
            } else {
                0
            };
            State { regs: s.regs.update(x as int, wrap_sub(b, a)).update(15, no_borrow), ..s }
        },
        Instr::ShiftLeft(x, y) => {
            let b = s.regs[y as int];
            State { regs: s.regs.update(x as int, b << 1).update(15, b >> 7), ..s }
        },
        Instr::SkipNeReg(x, y) => if s.regs[x as int] != s.regs[y as int] {
            skip_next(s)
        } else {
            s
        },
        Instr::SetIndex(nnn) => State { i: nnn, ..s },
        Instr::JumpPlusV0(nnn) => State { pc: ((s.regs[0] + nnn) % 0x1000) as u16, ..s },
        Instr::RandMask(x, kk) => State { regs: s.regs.update(x as int, rnd & kk), ..s },
        Instr::Draw(x, y, n) => {
            let r = spec_draw(
                s.fb,
                s.mem,
                s.i as int,
                s.regs[x as int] as int,
                s.regs[y as int] as int,
                0,
                n as int,
                false,
            );
            State {
                fb: r.0,
                regs: s.regs.update(
                    15,
                    if r.1 {
                        1u8
                    } else {
                        0u8
                    },
                ),
                ..s
            }
        },
        Instr::SkipIfKey(x) => if key_down(keys, s.regs[x as int]) {
            skip_next(s)
        } else {
            s
        },
        Instr::SkipIfNotKey(x) => if !key_down(keys, s.regs[x as int]) {
            skip_next(s)
        } else {
            s
        },
        Instr::ReadDelay(x) => State { regs: s.regs.update(x as int, s.delay), ..s },
        Instr::WaitKey(x) => State { paused: true, wait_reg: x, ..s },
        Instr::SetDelay(x) => State { delay: s.regs[x as int], ..s },
        Instr::SetSound(x) => State { sound: s.regs[x as int], ..s },
        Instr::AddIndex(x) => State { i: ((s.i + s.regs[x as int]) % 0x10000) as u16, ..s },
        Instr::FontAddr(x) => State { i: (s.regs[x as int] * 5) as u16, ..s },
        Instr::StoreBcd(x) => {
            let v = s.regs[x as int];
            State {
                mem: s.mem.update(s.i as int % 0x1000, (v / 100) as u8).update(
                    (s.i + 1) % 0x1000,
                    ((v % 100) / 10) as u8,
                ).update((s.i + 2) % 0x1000, (v % 10) as u8),
                ..s
            }
        },
        Instr::StoreRegs(x) => State {
            mem: spec_store_regs(s.mem, s.regs, s.i as int, 0, x as int),
            i: ((s.i + 1) % 0x10000) as u16,
            ..s
        },
        Instr::LoadRegs(x) => State {
            regs: spec_load_regs(s.regs, s.mem, s.i as int, 0, x as int),
            i: ((s.i + 1) % 0x10000) as u16,
            ..s
        },
        Instr::Nop => s,
    }
}

/// One fetch-decode-execute step on an already fetched opcode: the program
/// counter advances past the opcode first, then the instruction's own
/// effect is applied, so a jump or call overwrites the advanced counter.
pub open spec fn spec_execute(s: State, op: u16, rnd: u8, keys: u16) -> State {
    spec_apply(skip_next(s), spec_decode(op), rnd, keys)
}

/// Up to `n` fetch-decode-execute steps, stopping as soon as the machine
/// is waiting for a key; step `j` consumes the random byte `rnd[j]`.
pub open spec fn spec_run(s: State, n: nat, rnd: Seq<u8>, keys: u16) -> State
    decreases n,
{
    if n == 0 || s.paused {
        s
    } else {
        spec_run(spec_execute(s, spec_fetch(s), rnd[0], keys), (n - 1) as nat, rnd.drop_first(), keys)
    }
}

/// One host frame: up to `speed` instruction steps; then, when the machine
/// is not waiting, one timer tick; finally, when the machine is waiting
/// and the host reports a key press that maps to a logical key, that key
/// is stored into the recorded register and the wait ends. A press with
/// no mapping leaves the machine waiting.
pub open spec fn spec_cycle(
    s: State,
    speed: nat,
    keys: u16,
    pressed: Option<i32>,
    rnd: Seq<u8>,
) -> State {
    let s1 = spec_run(s, speed, rnd, keys);
    let s2 = if !s1.paused {
        spec_tick(s1)
    } else {
        s1
    };
    if s2.paused {
        match pressed {
            Some(code) => match spec_key_for_code(code) {
                Some(k) => State {
                    regs: s2.regs.update(s2.wait_reg as int, k),
                    paused: false,
                    ..s2
                },
                None => s2,
            },
            None => s2,
        }
    } else {
        s2
    }
}

} // verus!
