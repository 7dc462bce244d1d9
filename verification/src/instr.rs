//! Opcode decoding.
//!
//! A CHIP-8 instruction is one 16-bit big-endian word. Decoding splits it
//! into four 4-bit nibbles and matches them against the fixed dispatch
//! table; any pattern outside the table decodes to a no-op rather than a
//! fault, so malformed programs cannot crash the interpreter.

use vstd::prelude::*;

verus! {

/// A decoded instruction. `x` and `y` are register indices taken from the
/// second and third nibble (always below 16), `kk` is the low byte, `nnn`
/// the low 12 bits (always below 0x1000), and `n` the low nibble.
#[derive(Clone, Copy, Debug, PartialEq, Eq, Structural)]
pub enum Instr {
    /// 00E0: turn every framebuffer cell off.
    Clear,
    /// 00EE: pop the return address into the program counter; with an
    /// empty stack, reset the program counter to 0x200 instead.
    Ret,
    /// 1nnn: jump to `nnn`.
    Jump(u16),
    /// 2nnn: push the program counter, then jump to `nnn`.
    Call(u16),
    /// 3xkk: skip the next opcode if `Vx == kk`.
    SkipEqImm(u8, u8),
    /// 4xkk: skip the next opcode if `Vx != kk`.
    SkipNeImm(u8, u8),
    /// 5xy0: skip the next opcode if `Vx == Vy`.
    SkipEqReg(u8, u8),
    /// 6xkk: `Vx = kk`.
    SetImm(u8, u8),
    /// 7xkk: `Vx = Vx + kk`, wrapping, flags untouched.
    AddImm(u8, u8),
    /// 8xy0: `Vx = Vy`.
    Copy(u8, u8),
    /// 8xy1: `Vx |= Vy`.
    Or(u8, u8),
    /// 8xy2: `Vx &= Vy`.
    And(u8, u8),
    /// 8xy3: `Vx ^= Vy`.
    Xor(u8, u8),
    /// 8xy4: `Vx = Vx + Vy` wrapping; VF = 1 exactly when the true sum
    /// exceeds 255.
    AddReg(u8, u8),
    /// 8xy5: `Vx = Vx - Vy` wrapping; VF = 1 exactly when `Vx > Vy`.
    SubReg(u8, u8),
    /// 8xy6: `Vx = Vy >> 1`; VF takes the bit shifted out.
    ShiftRight(u8, u8),
    /// 8xy7: `Vx = Vy - Vx` wrapping; VF = 1 exactly when `Vy > Vx`.
    SubRev(u8, u8),
    /// 8xyE: `Vx = Vy << 1`; VF takes the bit shifted out.
    ShiftLeft(u8, u8),
    /// 9xy0: skip the next opcode if `Vx != Vy`.
    SkipNeReg(u8, u8),
    /// Annn: `I = nnn`.
    SetIndex(u16),
    /// Bnnn: jump to `V0 + nnn`, wrapped into the address space.
    JumpPlusV0(u16),
    /// Cxkk: `Vx` = a random byte masked with `kk`.
    RandMask(u8, u8),
    /// Dxyn: draw the `n`-row sprite at memory address `I` at (`Vx`, `Vy`);
    /// VF = 1 exactly when a toggle turned some cell off.
    Draw(u8, u8, u8),
    /// Ex9E: skip the next opcode if the logical key in `Vx` is down.
    SkipIfKey(u8),
    /// ExA1: skip the next opcode if the logical key in `Vx` is not down.
    SkipIfNotKey(u8),
    /// Fx07: `Vx` = delay timer.
    ReadDelay(u8),
    /// Fx0A: suspend execution until a key press arrives for register `x`.
    WaitKey(u8),
    /// Fx15: delay timer = `Vx`.
    SetDelay(u8),
    /// Fx18: sound timer = `Vx`.
    SetSound(u8),
    /// Fx1E: `I = I + Vx`, wrapping in 16 bits, deliberately not masked
    /// to the 12-bit address space.
    AddIndex(u8),
    /// Fx29: `I` = the font glyph base address `Vx * 5`.
    FontAddr(u8),
    /// Fx33: store the decimal digits of `Vx` at `I`, `I + 1`, `I + 2`.
    StoreBcd(u8),
    /// Fx55: store `V0..=Vx` at `I` onward, then `I = I + 1`.
    StoreRegs(u8),
    /// Fx65: load `V0..=Vx` from `I` onward, then `I = I + 1`.
    LoadRegs(u8),
    /// Any pattern outside the dispatch table: silently do nothing.
    Nop,
}

/// The instruction a 16-bit opcode encodes, per the dispatch table.
pub open spec fn spec_decode(op: u16) -> Instr {
    let x = ((op >> 8) & 0xF) as u8;
    let y = ((op >> 4) & 0xF) as u8;
    let n = (op & 0xF) as u8;
    let kk = (op & 0xFF) as u8;
    let nnn = op & 0xFFF;
    if op == 0x00E0 {
        Instr::Clear
    } else if op == 0x00EE {
        Instr::Ret
    } else if op >> 12 == 0x1 {
        Instr::Jump(nnn)
    } else if op >> 12 == 0x2 {
        Instr::Call(nnn)
    } else if op >> 12 == 0x3 {
        Instr::SkipEqImm(x, kk)
    } else if op >> 12 == 0x4 {
        Instr::SkipNeImm(x, kk)
    } else if op >> 12 == 0x5 && n == 0x0 {
        Instr::SkipEqReg(x, y)
    } else if op >> 12 == 0x6 {
        Instr::SetImm(x, kk)
    } else if op >> 12 == 0x7 {
        Instr::AddImm(x, kk)
    } else if op >> 12 == 0x8 && n == 0x0 {
        Instr::Copy(x, y)
    } else if op >> 12 == 0x8 && n == 0x1 {
        Instr::Or(x, y)
    } else if op >> 12 == 0x8 && n == 0x2 {
        Instr::And(x, y)
    } else if op >> 12 == 0x8 && n == 0x3 {
        Instr::Xor(x, y)
    } else if op >> 12 == 0x8 && n == 0x4 {
        Instr::AddReg(x, y)
    } else if op >> 12 == 0x8 && n == 0x5 {
        Instr::SubReg(x, y)
    } else if op >> 12 == 0x8 && n == 0x6 {
        Instr::ShiftRight(x, y)
    } else if op >> 12 == 0x8 && n == 0x7 {
        Instr::SubRev(x, y)
    } else if op >> 12 == 0x8 && n == 0xE {
        Instr::ShiftLeft(x, y)
    } else if op >> 12 == 0x9 && n == 0x0 {
        Instr::SkipNeReg(x, y)
    } else if op >> 12 == 0xA {
        Instr::SetIndex(nnn)
    } else if op >> 12 == 0xB {
        Instr::JumpPlusV0(nnn)
    } else if op >> 12 == 0xC {
        Instr::RandMask(x, kk)
    } else if op >> 12 == 0xD {
        Instr::Draw(x, y, n)
    } else if op >> 12 == 0xE && kk == 0x9E {
        Instr::SkipIfKey(x)
    } else if op >> 12 == 0xE && kk == 0xA1 {
        Instr::SkipIfNotKey(x)
    } else if op >> 12 == 0xF && kk == 0x07 {
        Instr::ReadDelay(x)
    } else if op >> 12 == 0xF && kk == 0x0A {
        Instr::WaitKey(x)
    } else if op >> 12 == 0xF && kk == 0x15 {
        Instr::SetDelay(x)
    } else if op >> 12 == 0xF && kk == 0x18 {
        Instr::SetSound(x)
    } else if op >> 12 == 0xF && kk == 0x1E {
        Instr::AddIndex(x)
    } else if op >> 12 == 0xF && kk == 0x29 {
        Instr::FontAddr(x)
    } else if op >> 12 == 0xF && kk == 0x33 {
        Instr::StoreBcd(x)
    } else if op >> 12 == 0xF && kk == 0x55 {
        Instr::StoreRegs(x)
    } else if op >> 12 == 0xF && kk == 0x65 {
        Instr::LoadRegs(x)
    } else {
        Instr::Nop
    }
}

/// Bounds every decoded instruction's operands satisfy: register indices
/// and row counts fit in a nibble, addresses fit in 12 bits.
pub open spec fn instr_wf(ins: Instr) -> bool {
    match ins {
        Instr::Clear => true,
        Instr::Ret => true,
        Instr::Jump(nnn) => nnn < 0x1000,
        Instr::Call(nnn) => nnn < 0x1000,
        Instr::SkipEqImm(x, _) => x < 16,
        Instr::SkipNeImm(x, _) => x < 16,
        Instr::SkipEqReg(x, y) => x < 16 && y < 16,
        Instr::SetImm(x, _) => x < 16,
        Instr::AddImm(x, _) => x < 16,
        Instr::Copy(x, y) => x < 16 && y < 16,
        Instr::Or(x, y) => x < 16 && y < 16,
        Instr::And(x, y) => x < 16 && y < 16,
        Instr::Xor(x, y) => x < 16 && y < 16,
        Instr::AddReg(x, y) => x < 16 && y < 16,
        Instr::SubReg(x, y) => x < 16 && y < 16,
        Instr::ShiftRight(x, y) => x < 16 && y < 16,
        Instr::SubRev(x, y) => x < 16 && y < 16,
        Instr::ShiftLeft(x, y) => x < 16 && y < 16,
        Instr::SkipNeReg(x, y) => x < 16 && y < 16,
        Instr::SetIndex(nnn) => nnn < 0x1000,
        Instr::JumpPlusV0(nnn) => nnn < 0x1000,
        Instr::RandMask(x, _) => x < 16,
        Instr::Draw(x, y, n) => x < 16 && y < 16 && n < 16,
        Instr::SkipIfKey(x) => x < 16,
        Instr::SkipIfNotKey(x) => x < 16,
        Instr::ReadDelay(x) => x < 16,
        Instr::WaitKey(x) => x < 16,
        Instr::SetDelay(x) => x < 16,
        Instr::SetSound(x) => x < 16,
        Instr::AddIndex(x) => x < 16,
        Instr::FontAddr(x) => x < 16,
        Instr::StoreBcd(x) => x < 16,
        Instr::StoreRegs(x) => x < 16,
        Instr::LoadRegs(x) => x < 16,
        Instr::Nop => true,
    }
}

/// Every decoded instruction's operands are within bounds.
pub proof fn lemma_decode_wf(op: u16)
    ensures
        instr_wf(spec_decode(op)),
{
    assert((op >> 8) & 0xF < 16 && (op >> 4) & 0xF < 16 && (op & 0xF) < 16 && (op & 0xFFF)
        < 0x1000) by (bit_vector);
}

/// Decode one 16-bit opcode.
pub fn decode(op: u16) -> (ins: Instr)
    ensures
        ins == spec_decode(op),
        instr_wf(ins),
{
    proof {
        lemma_decode_wf(op);
    }
    proof {
        assert((op >> 8) & 0xF < 16 && (op >> 4) & 0xF < 16 && (op & 0xF) < 16 && (op & 0xFF) < 256
            && (op & 0xFFF) < 0x1000) by (bit_vector);
    }
    let x = ((op >> 8) & 0xF) as u8;
    let y = ((op >> 4) & 0xF) as u8;
    let n = (op & 0xF) as u8;
    let kk = (op & 0xFF) as u8;
    let nnn = op & 0xFFF;
    if op == 0x00E0 {
        Instr::Clear
    } else if op == 0x00EE {
        Instr::Ret
    } else if op >> 12 == 0x1 {
        Instr::Jump(nnn)
    } else if op >> 12 == 0x2 {
        Instr::Call(nnn)
    } else if op >> 12 == 0x3 {
        Instr::SkipEqImm(x, kk)
    } else if op >> 12 == 0x4 {
        Instr::SkipNeImm(x, kk)
    } else if op >> 12 == 0x5 && n == 0x0 {
        Instr::SkipEqReg(x, y)
    } else if op >> 12 == 0x6 {
        Instr::SetImm(x, kk)
    } else if op >> 12 == 0x7 {
        Instr::AddImm(x, kk)
    } else if op >> 12 == 0x8 && n == 0x0 {
        Instr::Copy(x, y)
    } else if op >> 12 == 0x8 && n == 0x1 {
        Instr::Or(x, y)
    } else if op >> 12 == 0x8 && n == 0x2 {
        Instr::And(x, y)
    } else if op >> 12 == 0x8 && n == 0x3 {
        Instr::Xor(x, y)
    } else if op >> 12 == 0x8 && n == 0x4 {
        Instr::AddReg(x, y)
    } else if op >> 12 == 0x8 && n == 0x5 {
        Instr::SubReg(x, y)
    } else if op >> 12 == 0x8 && n == 0x6 {
        Instr::ShiftRight(x, y)
    } else if op >> 12 == 0x8 && n == 0x7 {
        Instr::SubRev(x, y)
    } else if op >> 12 == 0x8 && n == 0xE {
        Instr::ShiftLeft(x, y)
    } else if op >> 12 == 0x9 && n == 0x0 {
        Instr::SkipNeReg(x, y)
    } else if op >> 12 == 0xA {
        Instr::SetIndex(nnn)
    } else if op >> 12 == 0xB {
        Instr::JumpPlusV0(nnn)
    } else if op >> 12 == 0xC {
        Instr::RandMask(x, kk)
    } else if op >> 12 == 0xD {
        Instr::Draw(x, y, n)
    } else if op >> 12 == 0xE && kk == 0x9E {
        Instr::SkipIfKey(x)
    } else if op >> 12 == 0xE && kk == 0xA1 {
        Instr::SkipIfNotKey(x)
    } else if op >> 12 == 0xF && kk == 0x07 {
        Instr::ReadDelay(x)
    } else if op >> 12 == 0xF && kk == 0x0A {
        Instr::WaitKey(x)
    } else if op >> 12 == 0xF && kk == 0x15 {
        Instr::SetDelay(x)
    } else if op >> 12 == 0xF && kk == 0x18 {
        Instr::SetSound(x)
    } else if op >> 12 == 0xF && kk == 0x1E {
        Instr::AddIndex(x)
    } else if op >> 12 == 0xF && kk == 0x29 {
        Instr::FontAddr(x)
    } else if op >> 12 == 0xF && kk == 0x33 {
        Instr::StoreBcd(x)
    } else if op >> 12 == 0xF && kk == 0x55 {
        Instr::StoreRegs(x)
    } else if op >> 12 == 0xF && kk == 0x65 {
        Instr::LoadRegs(x)
    } else {
        Instr::Nop
    }
}

} // verus!
