//! The executable interpreter.
//!
//! [`CPU`] owns every machine component, including the framebuffer, and is
//! proved to follow the transition functions of [`crate::state`] exactly:
//! one [`CPU::execute`] performs one step of [`crate::state::spec_execute`],
//! and one [`CPU::cycle`] performs one host frame of
//! [`crate::state::spec_cycle`]. The host reads the display through
//! [`CPU::framebuffer`] and may seed it through [`CPU::framebuffer_mut`].

use vstd::prelude::*;

use crate::instr::{decode, Instr};
use crate::keymap::translate_key_rev;
use crate::render::{all_off, Render};
use crate::state::{
    skip_next, spec_cycle, spec_draw, spec_draw_row, spec_execute, spec_fetch, spec_load_regs,
    spec_run, spec_store_regs, spec_tick, State, state_wf,
};

verus! {

/// The built-in font table: 16 glyphs of 5 bytes each, one per hexadecimal
/// digit, living at the bottom of memory.
pub open spec fn font_table() -> Seq<u8> {
    seq![
        0xF0u8, 0x90, 0x90, 0x90, 0xF0,  // 0
        0x20, 0x60, 0x20, 0x20, 0x70,  // 1
        0xF0, 0x10, 0xF0, 0x80, 0xF0,  // 2
        0xF0, 0x10, 0xF0, 0x10, 0xF0,  // 3
        0x90, 0x90, 0xF0, 0x10, 0x10,  // 4
        0xF0, 0x80, 0xF0, 0x10, 0xF0,  // 5
        0xF0, 0x80, 0xF0, 0x90, 0xF0,  // 6
        0xF0, 0x10, 0x20, 0x40, 0x40,  // 7
        0xF0, 0x90, 0xF0, 0x90, 0xF0,  // 8
        0xF0, 0x90, 0xF0, 0x10, 0xF0,  // 9
        0xF0, 0x90, 0xF0, 0x90, 0x90,  // A
        0xE0, 0x90, 0xE0, 0x90, 0xE0,  // B
        0xF0, 0x80, 0x80, 0x80, 0xF0,  // C
        0xE0, 0x90, 0x90, 0x90, 0xE0,  // D
        0xF0, 0x80, 0xF0, 0x80, 0xF0,  // E
        0xF0, 0x80, 0xF0, 0x80, 0x80,  // F
    ]
}

/// Memory as initially laid out: the font table at the bottom, the program
/// image from 0x200 on (bytes past the end of memory are dropped), zero
/// everywhere else.
pub open spec fn spec_init_mem(rom: Seq<u8>) -> Seq<u8> {
    Seq::new(
        0x1000,
        |a: int|
            if 0 <= a < 80 {
                font_table()[a]
            } else if 0x200 <= a < 0x200 + rom.len() && a < 0x1000 {
                rom[a - 0x200]
            } else {
                0u8
            },
    )
}

/// The machine as it starts: fonts and program image in memory, the
/// program counter at 0x200, and everything else zeroed, empty, or off.
pub open spec fn spec_init(rom: Seq<u8>) -> State {
    State {
        mem: spec_init_mem(rom),
        regs: Seq::new(16, |j: int| 0u8),
        pc: 0x200,
        i: 0,
        stack: Seq::empty(),
        delay: 0,
        sound: 0,
        paused: false,
        wait_reg: 0,
        fb: all_off(),
    }
}

/// The two-byte program substituted when no program image is available:
/// a jump to its own address, so the machine idles instead of faulting.
pub fn fallback_program() -> (rom: Vec<u8>)
    ensures
        rom@ == seq![0x12u8, 0x00u8],
{
    let rom: Vec<u8> = vec![0x12, 0x00];
    proof {
        assert(rom@ =~= seq![0x12u8, 0x00u8]);
    }
    rom
}

/// The font table as bytes.
fn font_vec() -> (v: Vec<u8>)
    ensures
        v@ == font_table(),
{
    let v: Vec<u8> = vec![
        0xF0, 0x90, 0x90, 0x90, 0xF0, 0x20, 0x60, 0x20, 0x20, 0x70, 0xF0, 0x10, 0xF0, 0x80, 0xF0,
        0xF0, 0x10, 0xF0, 0x10, 0xF0, 0x90, 0x90, 0xF0, 0x10, 0x10, 0xF0, 0x80, 0xF0, 0x10, 0xF0,
        0xF0, 0x80, 0xF0, 0x90, 0xF0, 0xF0, 0x10, 0x20, 0x40, 0x40, 0xF0, 0x90, 0xF0, 0x90, 0xF0,
        0xF0, 0x90, 0xF0, 0x10, 0xF0, 0xF0, 0x90, 0xF0, 0x90, 0x90, 0xE0, 0x90, 0xE0, 0x90, 0xE0,
        0xF0, 0x80, 0x80, 0x80, 0xF0, 0xE0, 0x90, 0x90, 0x90, 0xE0, 0xF0, 0x80, 0xF0, 0x80, 0xF0,
        0xF0, 0x80, 0xF0, 0x80, 0x80,
    ];
    proof {
        assert(v@ =~= font_table());
    }
    v
}

/// The interpreter: the machine state of [`State`], realized with vectors,
/// plus the configured number of instructions per frame.
pub struct CPU {
    mem: Vec<u8>,
    regs: Vec<u8>,
    pc: u16,
    i: u16,
    stack: Vec<u16>,
    delay: u8,
    sound: u8,
    paused: bool,
    wait_reg: u8,
    speed: usize,
    render: Render,
}

impl View for CPU {
    type V = State;

    closed spec fn view(&self) -> State {
        State {
            mem: self.mem@,
            regs: self.regs@,
            pc: self.pc,
            i: self.i,
            stack: self.stack@,
            delay: self.delay,
            sound: self.sound,
            paused: self.paused,
            wait_reg: self.wait_reg,
            fb: self.render@,
        }
    }
}

impl CPU {
    /// The configured number of instructions per frame.
    pub closed spec fn speed_setting(&self) -> usize {
        self.speed
    }

    /// Build a machine that will run `speed` instructions per frame on the
    /// given program image, loaded verbatim at 0x200.
    pub fn new(speed: usize, rom: &Vec<u8>) -> (cpu: CPU)
        ensures
            state_wf(cpu@),
            cpu@ == spec_init(rom@),
            cpu.speed_setting() == speed,
    {
        let mut mem: Vec<u8> = Vec::new();
        let mut a: usize = 0;
        while a < 0x1000
            invariant
                a <= 0x1000,
                mem@.len() == a,
                forall|k: int| 0 <= k < a ==> mem@[k] == 0u8,
            decreases 0x1000 - a,
        {
            mem.push(0);
            a += 1;
        }
        let fonts = font_vec();
        let mut j: usize = 0;
        while j < 80
            invariant
                j <= 80,
                mem@.len() == 0x1000,
                fonts@ == font_table(),
                forall|k: int| 0 <= k < j ==> mem@[k] == font_table()[k],
                forall|k: int| j <= k < 0x1000 ==> mem@[k] == 0u8,
            decreases 80 - j,
        {
            mem.set(j, fonts[j]);
            j += 1;
        }
        let mut r: usize = 0;
        while r < rom.len() && r < 0xE00
            invariant
                r <= rom@.len(),
                r <= 0xE00,
                mem@.len() == 0x1000,
                forall|k: int| 0 <= k < 80 ==> mem@[k] == font_table()[k],
                forall|k: int| 0x200 <= k < 0x200 + r ==> mem@[k] == rom@[k - 0x200],
                forall|k: int| 80 <= k < 0x200 ==> mem@[k] == 0u8,
                forall|k: int| 0x200 + r <= k < 0x1000 ==> mem@[k] == 0u8,
            decreases rom@.len() - r,
        {
            mem.set(0x200 + r, rom[r]);
            r += 1;
        }
        let mut regs: Vec<u8> = Vec::new();
        let mut g: usize = 0;
        while g < 16
            invariant
                g <= 16,
                regs@.len() == g,
                forall|k: int| 0 <= k < g ==> regs@[k] == 0u8,
            decreases 16 - g,
        {
            regs.push(0);
            g += 1;
        }
        let cpu = CPU {
            mem,
            regs,
            pc: 0x200,
            i: 0,
            stack: Vec::new(),
            delay: 0,
            sound: 0,
            paused: false,
            wait_reg: 0,
            speed,
            render: Render::new(),
        };
        proof {
            assert(cpu@.mem =~= spec_init_mem(rom@));
            assert(cpu@.regs =~= spec_init(rom@).regs);
            assert(cpu@.stack =~= spec_init(rom@).stack);
            assert(cpu@ =~= spec_init(rom@));
        }
        cpu
    }

    /// Read the 2-byte big-endian opcode at the program counter.
    fn fetch(&self) -> (op: u16)
        requires
            state_wf(self@),
        ensures
            op == spec_fetch(self@),
    {
        let hi = self.mem[self.pc as usize];
        let lo = self.mem[(self.pc as usize + 1) % 0x1000];
        ((hi as u16) << 8) | (lo as u16)
    }

    /// One timer tick: each nonzero timer decrements by one.
    fn update_timer(&mut self)
        requires
            state_wf(old(self)@),
        ensures
            state_wf(final(self)@),
            final(self)@ == spec_tick(old(self)@),
            final(self).speed_setting() == old(self).speed_setting(),
    {
        if self.delay > 0 {
            self.delay = self.delay - 1;
        }
        if self.sound > 0 {
            self.sound = self.sound - 1;
        }
        proof {
            assert(self@.stack == old(self)@.stack);
            assert(state_wf(self@));
        }
    }

    /// Draw the `n`-row sprite at memory address `I` at display position
    /// (`vx`, `vy`); the result reports whether some toggle turned a lit
    /// cell off.
    fn draw_sprite(&mut self, vx: u8, vy: u8, n: u8) -> (hit: bool)
        requires
            state_wf(old(self)@),
            n < 16,
        ensures
            state_wf(final(self)@),
            ({
                let r = spec_draw(
                    old(self)@.fb,
                    old(self)@.mem,
                    old(self)@.i as int,
                    vx as int,
                    vy as int,
                    0,
                    n as int,
                    false,
                );
                final(self)@ == (State { fb: r.0, ..old(self)@ }) && hit == r.1
            }),
            final(self).speed_setting() == old(self).speed_setting(),
    {
        let ghost s0 = self@;
        let ghost target = spec_draw(
            s0.fb,
            s0.mem,
            s0.i as int,
            vx as int,
            vy as int,
            0,
            n as int,
            false,
        );
        let mut hit = false;
        let mut row: u8 = 0;
        while row < n
            invariant
                state_wf(self@),
                state_wf(s0),
                row <= n,
                n < 16,
                self@ == (State { fb: self@.fb, ..s0 }),
                self.speed_setting() == old(self).speed_setting(),
                spec_draw(
                    self@.fb,
                    s0.mem,
                    s0.i as int,
                    vx as int,
                    vy as int,
                    row as int,
                    n as int,
                    hit,
                ) == target,
            decreases n - row,
        {
            let byte = self.mem[((self.i as usize) + (row as usize)) % 0x1000];
            let mut col: u8 = 0;
            while col < 8
                invariant
                    state_wf(self@),
                    state_wf(s0),
                    col <= 8,
                    row < n,
                    n < 16,
                    self@ == (State { fb: self@.fb, ..s0 }),
                    self.speed_setting() == old(self).speed_setting(),
                    byte == s0.mem[(s0.i + row) % 0x1000],
                    ({
                        let rr = spec_draw_row(
                            self@.fb,
                            byte,
                            vx as int,
                            vy as int + row,
                            col as int,
                            hit,
                        );
                        spec_draw(
                            rr.0,
                            s0.mem,
                            s0.i as int,
                            vx as int,
                            vy as int,
                            row as int + 1,
                            n as int,
                            rr.1,
                        ) == target
                    }),
                decreases 8 - col,
            {
                if (byte >> (7 - col)) & 1 == 1 {
                    let was_on = self.render.change_pixel(
                        vx as usize + col as usize,
                        vy as usize + row as usize,
                    );
                    if was_on {
                        hit = true;
                    }
                }
                col += 1;
            }
            row += 1;
        }
        hit
    }

    /// Store `V0..=Vx` into memory at `I` onward, each address wrapped
    /// into the 12-bit address space.
    fn store_regs_run(&mut self, x: u8)
        requires
            state_wf(old(self)@),
            x < 16,
        ensures
            state_wf(final(self)@),
            final(self)@ == (State {
                mem: spec_store_regs(
                    old(self)@.mem,
                    old(self)@.regs,
                    old(self)@.i as int,
                    0,
                    x as int,
                ),
                ..old(self)@
            }),
            final(self).speed_setting() == old(self).speed_setting(),
    {
        let ghost s0 = self@;
        let mut idx: u8 = 0;
        while idx <= x
            invariant
                state_wf(self@),
                state_wf(s0),
                idx <= x + 1,
                x < 16,
                self@ == (State { mem: self@.mem, ..s0 }),
                self.speed_setting() == old(self).speed_setting(),
                spec_store_regs(self@.mem, s0.regs, s0.i as int, idx as int, x as int)
                    == spec_store_regs(s0.mem, s0.regs, s0.i as int, 0, x as int),
            decreases x + 1 - idx,
        {
            let v = self.regs[idx as usize];
            self.mem.set(((self.i as usize) + (idx as usize)) % 0x1000, v);
            idx += 1;
        }
    }

    /// Load `V0..=Vx` from memory at `I` onward.
    fn load_regs_run(&mut self, x: u8)
        requires
            state_wf(old(self)@),
            x < 16,
        ensures
            state_wf(final(self)@),
            final(self)@ == (State {
                regs: spec_load_regs(
                    old(self)@.regs,
                    old(self)@.mem,
                    old(self)@.i as int,
                    0,
                    x as int,
                ),
                ..old(self)@
            }),
            final(self).speed_setting() == old(self).speed_setting(),
    {
        let ghost s0 = self@;
        let mut idx: u8 = 0;
        while idx <= x
            invariant
                state_wf(self@),
                state_wf(s0),
                idx <= x + 1,
                x < 16,
                self@ == (State { regs: self@.regs, ..s0 }),
                self.speed_setting() == old(self).speed_setting(),
                spec_load_regs(self@.regs, s0.mem, s0.i as int, idx as int, x as int)
                    == spec_load_regs(s0.regs, s0.mem, s0.i as int, 0, x as int),
            decreases x + 1 - idx,
        {
            let b = self.mem[((self.i as usize) + (idx as usize)) % 0x1000];
            self.regs.set(idx as usize, b);
            idx += 1;
        }
    }

    /// One fetch-decode-execute step on an already fetched opcode: advance
    /// the program counter past the opcode, then apply the instruction.
    pub fn execute(&mut self, op: u16, rnd: u8, keys: u16)
        requires
            state_wf(old(self)@),
        ensures
            state_wf(final(self)@),
            final(self)@ == spec_execute(old(self)@, op, rnd, keys),
            final(self).speed_setting() == old(self).speed_setting(),
    {
        self.pc = (self.pc + 2) % 0x1000;
        let ghost s1 = skip_next(old(self)@);
        proof {
            assert(self@ == s1);
        }
        let ins = decode(op);
        match ins {
            Instr::Clear => {
                self.render.clear_render();
            },
            Instr::Ret => {
                match self.stack.pop() {
                    Some(addr) => {
                        self.pc = addr;
                    },
                    None => {
                        self.pc = 0x200;
                    },
                }
            },
            Instr::Jump(nnn) => {
                self.pc = nnn;
            },
            Instr::Call(nnn) => {
                self.stack.push(self.pc);
                self.pc = nnn;
            },
            Instr::SkipEqImm(x, kk) => {
                if self.regs[x as usize] == kk {
                    self.pc = (self.pc + 2) % 0x1000;
                }
            },
            Instr::SkipNeImm(x, kk) => {
                if self.regs[x as usize] != kk {
                    self.pc = (self.pc + 2) % 0x1000;
                }
            },
            Instr::SkipEqReg(x, y) => {
                if self.regs[x as usize] == self.regs[y as usize] {
                    self.pc = (self.pc + 2) % 0x1000;
                }
            },
            Instr::SetImm(x, kk) => {
                self.regs.set(x as usize, kk);
            },
            Instr::AddImm(x, kk) => {
                let a = self.regs[x as usize];
                let sum = a as u16 + kk as u16;
                self.regs.set(x as usize, (sum % 256) as u8);
            },
            Instr::Copy(x, y) => {
                let b = self.regs[y as usize];
                self.regs.set(x as usize, b);
            },
            Instr::Or(x, y) => {
                let v = self.regs[x as usize] | self.regs[y as usize];
                self.regs.set(x as usize, v);
            },
            Instr::And(x, y) => {
                let v = self.regs[x as usize] & self.regs[y as usize];
                self.regs.set(x as usize, v);
            },
            Instr::Xor(x, y) => {
                let v = self.regs[x as usize] ^ self.regs[y as usize];
                self.regs.set(x as usize, v);
            },
            Instr::AddReg(x, y) => {
                let a = self.regs[x as usize];
                let b = self.regs[y as usize];
                let sum = a as u16 + b as u16;
                self.regs.set(x as usize, (sum % 256) as u8);
                self.regs.set(15, if sum > 255 { 1 } else { 0 });
            },
            Instr::SubReg(x, y) => {
                let a = self.regs[x as usize];
                let b = self.regs[y as usize];
                let diff = if a >= b {
                    a - b
                } else {
                    (a as u16 + 256 - b as u16) as u8
                };
                self.regs.set(x as usize, diff);
                self.regs.set(15, if a > b { 1 } else { 0 });
            },
            Instr::ShiftRight(x, y) => {
                let b = self.regs[y as usize];
                self.regs.set(x as usize, b >> 1);
                self.regs.set(15, b & 1);
            },
            Instr::SubRev(x, y) => {
                let a = self.regs[x as usize];
                let b = self.regs[y as usize];
                let diff = if b >= a {
                    b - a
                } else {
                    (b as u16 + 256 - a as u16) as u8
                };
                self.regs.set(x as usize, diff);
                self.regs.set(15, if b > a { 1 } else { 0 });
            },
            Instr::ShiftLeft(x, y) => {
                let b = self.regs[y as usize];
                self.regs.set(x as usize, b << 1);
                self.regs.set(15, b >> 7);
            },
            Instr::SkipNeReg(x, y) => {
                if self.regs[x as usize] != self.regs[y as usize] {
                    self.pc = (self.pc + 2) % 0x1000;
                }
            },
            Instr::SetIndex(nnn) => {
                self.i = nnn;
            },
            Instr::JumpPlusV0(nnn) => {
                let v0 = self.regs[0];
                self.pc = (v0 as u16 + nnn) % 0x1000;
            },
            Instr::RandMask(x, kk) => {
                self.regs.set(x as usize, rnd & kk);
            },
            Instr::Draw(x, y, n) => {
                let vx = self.regs[x as usize];
                let vy = self.regs[y as usize];
                let hit = self.draw_sprite(vx, vy, n);
                self.regs.set(15, if hit { 1 } else { 0 });
            },
            Instr::SkipIfKey(x) => {
                let vx = self.regs[x as usize];
                if vx < 16 && (keys >> (vx as u16)) & 1 == 1 {
                    self.pc = (self.pc + 2) % 0x1000;
                }
            },
            Instr::SkipIfNotKey(x) => {
                let vx = self.regs[x as usize];
                if !(vx < 16 && (keys >> (vx as u16)) & 1 == 1) {
                    self.pc = (self.pc + 2) % 0x1000;
                }
            },
            Instr::ReadDelay(x) => {
                let t = self.delay;
                self.regs.set(x as usize, t);
            },
            Instr::WaitKey(x) => {
                self.paused = true;
                self.wait_reg = x;
            },
            Instr::SetDelay(x) => {
                self.delay = self.regs[x as usize];
            },
            Instr::SetSound(x) => {
                self.sound = self.regs[x as usize];
            },
            Instr::AddIndex(x) => {
                let vx = self.regs[x as usize];
                self.i = ((self.i as u32 + vx as u32) % 0x10000) as u16;
            },
            Instr::FontAddr(x) => {
                let vx = self.regs[x as usize];
                self.i = vx as u16 * 5;
            },
            Instr::StoreBcd(x) => {
                let v = self.regs[x as usize];
                let base = self.i as usize;
                self.mem.set(base % 0x1000, v / 100);
                self.mem.set((base + 1) % 0x1000, (v % 100) / 10);
                self.mem.set((base + 2) % 0x1000, v % 10);
            },
            Instr::StoreRegs(x) => {
                self.store_regs_run(x);
                self.i = if self.i == 0xFFFF {
                    0
                } else {
                    self.i + 1
                };
            },
            Instr::LoadRegs(x) => {
                self.load_regs_run(x);
                self.i = if self.i == 0xFFFF {
                    0
                } else {
                    self.i + 1
                };
            },
            Instr::Nop => {},
        }
    }

    /// Run one host frame: up to `speed` instructions, stopping as soon as
    /// the machine starts waiting for a key; then, when not waiting, one
    /// timer tick; finally, when waiting and the host reports a key press
    /// that maps to a logical key, store that key into the recorded
    /// register and resume. `keys` is the current host key mask (bit `k`
    /// set when logical key `k` is held), `pressed` a fresh host key press
    /// if one arrived since the last frame, and `rnd` the random bytes the
    /// frame's instructions may consume, one per instruction slot.
    pub fn cycle(&mut self, keys: u16, pressed: Option<i32>, rnd: &Vec<u8>)
        requires
            state_wf(old(self)@),
            rnd@.len() >= old(self).speed_setting(),
        ensures
            state_wf(final(self)@),
            final(self)@ == spec_cycle(
                old(self)@,
                old(self).speed_setting() as nat,
                keys,
                pressed,
                rnd@,
            ),
            final(self).speed_setting() == old(self).speed_setting(),
    {
        let ghost s0 = self@;
        proof {
            assert(rnd@.skip(0) =~= rnd@);
        }
        let mut c: usize = 0;
        while c < self.speed && !self.paused
            invariant
                state_wf(self@),
                c <= self.speed_setting(),
                self.speed_setting() == old(self).speed_setting(),
                rnd@.len() >= self.speed_setting(),
                spec_run(self@, (self.speed_setting() - c) as nat, rnd@.skip(c as int), keys)
                    == spec_run(s0, self.speed_setting() as nat, rnd@, keys),
            decreases self.speed_setting() - c,
        {
            let op = self.fetch();
            let b = rnd[c];
            proof {
                assert(rnd@.skip(c as int)[0] == rnd@[c as int]);
                assert(rnd@.skip(c as int).drop_first() =~= rnd@.skip(c as int + 1));
            }
            self.execute(op, b, keys);
            c += 1;
        }
        proof {
            assert(self@ == spec_run(s0, self.speed_setting() as nat, rnd@, keys));
        }
        if !self.paused {
            self.update_timer();
        }
        if self.paused {
            match pressed {
                Some(code) => {
                    match translate_key_rev(code) {
                        Some(k) => {
                            let wr = self.wait_reg;
                            self.regs.set(wr as usize, k);
                            self.paused = false;
                        },
                        None => {},
                    }
                },
                None => {},
            }
        }
    }

    /// The value of register `Vx`.
    pub fn register(&self, x: u8) -> (v: u8)
        requires
            state_wf(self@),
            x < 16,
        ensures
            v == self@.regs[x as int],
    {
        self.regs[x as usize]
    }

    /// The program counter.
    pub fn program_counter(&self) -> (pc: u16)
        ensures
            pc == self@.pc,
    {
        self.pc
    }

    /// The index register.
    pub fn index_register(&self) -> (i: u16)
        ensures
            i == self@.i,
    {
        self.i
    }

    /// The delay timer.
    pub fn delay_timer(&self) -> (t: u8)
        ensures
            t == self@.delay,
    {
        self.delay
    }

    /// The sound timer, exposed so the host can decide whether to play.
    pub fn sound_timer(&self) -> (t: u8)
        ensures
            t == self@.sound,
    {
        self.sound
    }

    /// Whether the machine is suspended waiting for a key press.
    pub fn is_paused(&self) -> (p: bool)
        ensures
            p == self@.paused,
    {
        self.paused
    }

    /// The number of return addresses on the call stack.
    pub fn stack_depth(&self) -> (d: usize)
        ensures
            d == self@.stack.len(),
    {
        self.stack.len()
    }

    /// The memory byte at `addr`, wrapped into the 12-bit address space.
    pub fn read_mem(&self, addr: u16) -> (b: u8)
        requires
            state_wf(self@),
        ensures
            b == self@.mem[addr as int % 0x1000],
    {
        self.mem[addr as usize % 0x1000]
    }

    /// Read-only access to the display, for presentation.
    pub fn framebuffer(&self) -> (fb: &Render)
        ensures
            fb@ == self@.fb,
            fb.wf() <==> self@.fb.len() == 2048,
    {
        &self.render
    }

    /// Exclusive access to the display, for seeding or resetting it from
    /// the host; everything else of the machine is untouched.
    pub fn framebuffer_mut(&mut self) -> (fb: &mut Render)
        ensures
            fb@ == old(self)@.fb,
            fb.wf() <==> old(self)@.fb.len() == 2048,
            final(self)@ == (State { fb: final(fb)@, ..old(self)@ }),
            final(self).speed_setting() == old(self).speed_setting(),
    {
        &mut self.render
    }

    /// The configured number of instructions per frame.
    pub fn speed(&self) -> (n: usize)
        ensures
            n == self.speed_setting(),
    {
        self.speed
    }
}

} // verus!
