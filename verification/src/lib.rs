//! A verified CHIP-8 interpreter core.
//!
//! The library models the machine itself: a 4096-byte memory seeded with a
//! font table and a program image, sixteen 8-bit registers, a 16-bit index
//! register, a program counter confined to the 12-bit address space, a call
//! stack, two 8-bit timers, a wait-for-key flag, and a 64x32 monochrome
//! framebuffer with XOR pixel semantics. The host is expected to drive
//! [`cpu::CPU::cycle`] once per presented frame, handing in the current key
//! mask, any fresh key press, and the random bytes the batch may consume, and
//! to present [`render::Render::snapshot`] afterwards.

pub mod cpu;
pub mod instr;
pub mod keymap;
pub mod laws;
pub mod render;
pub mod state;

pub use cpu::CPU;
pub use instr::Instr;
pub use render::Render;
pub use state::State;
