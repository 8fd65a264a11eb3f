//! The mathematical model of the machine: what its state is, apart from how
//! it is stored.

use vstd::prelude::*;
use crate::layout::{
    FLAG_REGISTER, FONTSET, FONTSET_SIZE, INITIAL_ADDRESS, INITIAL_SEED, KEYS_QUANTITY, RAM_SIZE,
    REGISTERS_QUANTITY, SCREEN_SIZE, STACK_SIZE,
};

verus! {

/// The state of the machine as plain values. Contracts speak of this model;
/// [`crate::machine::Emulator`] is the executable machine whose view it is.
#[verifier::ext_equal]
pub struct State {
    /// Address of the next instruction to fetch.
    pub pc: u16,
    /// The bytes of memory, by address.
    pub memory: Seq<u8>,
    /// The general registers, by number.
    pub registers: Seq<u8>,
    /// The address register.
    pub index: u16,
    /// The slots of the call stack. The slots below the stack pointer hold
    /// the return addresses, the most recent one last; a slot at or above it
    /// holds what was last written there, zero if nothing was.
    pub slots: Seq<u16>,
    /// The number of return addresses on the call stack.
    pub stack_pointer: u16,
    /// The delay timer.
    pub delay_timer: u8,
    /// The sound timer.
    pub sound_timer: u8,
    /// For each key, whether it is down.
    pub keys: Seq<bool>,
    /// For each pixel, whether it is on; the pixel in column `c` of row `r`
    /// stands at `r * SCREEN_WIDTH + c`.
    pub display: Seq<bool>,
    /// The last value of the pseudo-random sequence.
    pub seed: u16,
}

/// The value that follows `seed` in the pseudo-random sequence: one step of a
/// linear congruential generator modulo 2^16, which visits every 16-bit value
/// before it repeats.
pub open spec fn next_seed(seed: u16) -> u16 {
    ((seed * 25173 + 13849) % 0x10000) as u16
}

/// The pseudo-random byte drawn from a state of the sequence: its high byte.
pub open spec fn random_byte(seed: u16) -> u8 {
    (seed / 0x100) as u8
}

/// The number of the first key at or after `start` that is down, or the
/// number of keys if there is none.
pub open spec fn first_key_down(keys: Seq<bool>, start: int) -> int
    decreases keys.len() - start,
{
    if start < 0 || start >= keys.len() {
        keys.len() as int
    } else if keys[start] {
        start
    } else {
        first_key_down(keys, start + 1)
    }
}

impl State {
    /// The invariant of the machine: every part has its fixed size, the
    /// program counter lies in memory, and the stack is within its capacity.
    pub open spec fn wf(self) -> bool {
        &&& self.pc < RAM_SIZE
        &&& self.memory.len() == RAM_SIZE
        &&& self.registers.len() == REGISTERS_QUANTITY
        &&& self.slots.len() == STACK_SIZE
        &&& self.stack_pointer <= STACK_SIZE
        &&& self.keys.len() == KEYS_QUANTITY
        &&& self.display.len() == SCREEN_SIZE
    }

    /// The state at power-on: the glyph table at the bottom of memory,
    /// everything else zero, empty or off, and the program counter at the
    /// address where programs start.
    pub open spec fn power_on() -> State {
        State {
            pc: INITIAL_ADDRESS,
            memory: Seq::new(
                RAM_SIZE as nat,
                |a: int| if 0 <= a < FONTSET_SIZE { FONTSET[a] } else { 0u8 },
            ),
            registers: Seq::new(REGISTERS_QUANTITY as nat, |i: int| 0u8),
            index: 0,
            slots: Seq::new(STACK_SIZE as nat, |i: int| 0u16),
            stack_pointer: 0,
            delay_timer: 0,
            sound_timer: 0,
            keys: Seq::new(KEYS_QUANTITY as nat, |i: int| false),
            display: Seq::new(SCREEN_SIZE as nat, |i: int| false),
            seed: INITIAL_SEED,
        }
    }

    /// This state with another program counter.
    pub open spec fn with_pc(self, pc: u16) -> State {
        State { pc, ..self }
    }

    /// This state with `value` in register `x`.
    pub open spec fn with_register(self, x: int, value: u8) -> State {
        State { registers: self.registers.update(x, value), ..self }
    }

    /// This state with the flag register set to 1 or 0.
    pub open spec fn with_flag(self, set: bool) -> State {
        self.with_register(FLAG_REGISTER as int, if set { 1u8 } else { 0u8 })
    }

    /// This state with another address register.
    pub open spec fn with_index(self, index: u16) -> State {
        State { index, ..self }
    }

    /// This state with `value` at `address` in memory.
    pub open spec fn with_memory(self, address: int, value: u8) -> State {
        State { memory: self.memory.update(address, value), ..self }
    }

    /// This state with another delay timer.
    pub open spec fn with_delay_timer(self, value: u8) -> State {
        State { delay_timer: value, ..self }
    }

    /// This state with another sound timer.
    pub open spec fn with_sound_timer(self, value: u8) -> State {
        State { sound_timer: value, ..self }
    }

    /// This state with key `key` down or up.
    pub open spec fn with_key(self, key: int, pressed: bool) -> State {
        State { keys: self.keys.update(key, pressed), ..self }
    }

    /// This state with the pixel at `position` on or off.
    pub open spec fn with_pixel(self, position: int, lit: bool) -> State {
        State { display: self.display.update(position, lit), ..self }
    }

    /// This state with every pixel off.
    pub open spec fn cleared(self) -> State {
        State { display: Seq::new(SCREEN_SIZE as nat, |i: int| false), ..self }
    }

    /// This state with another state of the pseudo-random sequence.
    pub open spec fn with_seed(self, seed: u16) -> State {
        State { seed, ..self }
    }

    /// The return addresses on the call stack, the most recent one last:
    /// the slots below the stack pointer.
    pub open spec fn stack(self) -> Seq<u16> {
        self.slots.take(self.stack_pointer as int)
    }

    /// This state with `address` pushed on the call stack: it goes into the
    /// slot at the stack pointer, and the stack pointer goes up by one. No
    /// other slot changes.
    pub open spec fn push(self, address: u16) -> State
        recommends
            self.stack_pointer < self.slots.len(),
    {
        State {
            slots: self.slots.update(self.stack_pointer as int, address),
            stack_pointer: (self.stack_pointer + 1) as u16,
            ..self
        }
    }

    /// The most recent return address on the call stack.
    pub open spec fn top(self) -> u16
        recommends
            self.stack_pointer > 0,
    {
        self.slots[self.stack_pointer - 1]
    }

    /// This state without the most recent return address: the stack pointer
    /// goes down by one, and every slot keeps what it holds.
    pub open spec fn pop(self) -> State
        recommends
            self.stack_pointer > 0,
    {
        State { stack_pointer: (self.stack_pointer - 1) as u16, ..self }
    }

    /// The state after one tick of the timers: each timer that is not zero
    /// goes down by one.
    pub open spec fn tick_timers(self) -> State {
        State {
            delay_timer: if self.delay_timer > 0 {
                (self.delay_timer - 1) as u8
            } else {
                0u8
            },
            sound_timer: if self.sound_timer > 0 {
                (self.sound_timer - 1) as u8
            } else {
                0u8
            },
            ..self
        }
    }

    /// Whether `length` bytes fit between the address where programs start
    /// and the end of memory.
    pub open spec fn program_fits(length: int) -> bool {
        INITIAL_ADDRESS + length <= RAM_SIZE
    }

    /// This state with `program` in memory from the address where programs
    /// start.
    pub open spec fn with_program(self, program: Seq<u8>) -> State {
        State {
            memory: Seq::new(
                self.memory.len(),
                |a: int|
                    if INITIAL_ADDRESS <= a < INITIAL_ADDRESS + program.len() {
                        program[a - INITIAL_ADDRESS]
                    } else {
                        self.memory[a]
                    },
            ),
            ..self
        }
    }
}

} // verus!
