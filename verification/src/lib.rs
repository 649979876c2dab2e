//! A verified interpreter core for the CHIP-8 instruction set: 4 KiB of
//! memory with a built-in font table, sixteen 8-bit registers, a 16-level
//! call stack, two 60 Hz countdown timers, a 64 x 32 monochrome
//! framebuffer with XOR sprite blitting, and a keypad input latch. Every
//! operation of the fetch-decode-execute step carries a contract; window,
//! audio and host-event plumbing live outside the core and talk to it
//! through plain values.

pub mod clock;
pub mod delay;
pub mod display;
pub mod keyboard;
pub mod sound;
pub mod vm;
