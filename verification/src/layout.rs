//! Sizes and fixed addresses of the machine.

use vstd::prelude::*;

verus! {

/// Number of addressable bytes of memory.
pub const RAM_SIZE: usize = 4096;

/// Number of general registers.
pub const REGISTERS_QUANTITY: usize = 16;

/// Index of the register that instructions use as carry, borrow and collision flag.
pub const FLAG_REGISTER: usize = 15;

/// Number of return addresses the call stack can hold.
pub const STACK_SIZE: usize = 16;

/// Number of keys on the keypad.
pub const KEYS_QUANTITY: usize = 16;

/// Width of the display, in pixels.
pub const SCREEN_WIDTH: usize = 64;

/// Height of the display, in pixels.
pub const SCREEN_HEIGHT: usize = 32;

/// Number of pixels of the display, stored row by row.
pub const SCREEN_SIZE: usize = 2048;

/// Address at which programs are loaded and at which execution starts.
pub const INITIAL_ADDRESS: u16 = 0x200;

/// Number of rows, and so of bytes, of one glyph.
pub const GLYPH_HEIGHT: usize = 5;

/// Number of bytes of the glyph table.
pub const FONTSET_SIZE: usize = 80;

/// The glyphs of the sixteen hexadecimal digits, five rows each; a row's four
/// pixels are the high four bits of its byte.
pub const FONTSET: [u8; 80] = [
    0xF0, 0x90, 0x90, 0x90, 0xF0,  // 0
    0x20, 0x60, 0x20, 0x20, 0x70,  // 1
    0xF0, 0x10, 0xF0, 0x80, 0xF0,  // 2
    0xF0, 0x10, 0xF0, 0x10, 0xF0,  // 3
    0x90, 0x90, 0xF0, 0x10, 0x10,  // 4
    0xF0, 0x80, 0xF0, 0x10, 0xF0,  // 5
    0xF0, 0x80, 0xF0, 0x90, 0xF0,  // 6
    0xF0, 0x10, 0x20, 0x40, 0x40,  // 7
    0xF0, 0x90, 0xF0, 0x90, 0xF0,  // 8
    0xF0, 0x90, 0xF0, 0x10, 0xF0,  // 9
    0xF0, 0x90, 0xF0, 0x90, 0x90,  // A
    0xE0, 0x90, 0xE0, 0x90, 0xE0,  // B
    0xF0, 0x80, 0x80, 0x80, 0xF0,  // C
    0xE0, 0x90, 0x90, 0x90, 0xE0,  // D
    0xF0, 0x80, 0xF0, 0x80, 0xF0,  // E
    0xF0, 0x80, 0xF0, 0x80, 0x80,  // F
];

/// Seed of the pseudo-random sequence at power-on.
pub const INITIAL_SEED: u16 = 0x2A6D;

} // verus!
