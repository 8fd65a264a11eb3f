//! The machine and the operations on its parts: memory, registers, program
//! counter, call stack, timers, keys and display.

use vstd::prelude::*;
use crate::fault::Fault;
use crate::layout::{
    FONTSET, FONTSET_SIZE, INITIAL_ADDRESS, INITIAL_SEED, KEYS_QUANTITY, RAM_SIZE,
    REGISTERS_QUANTITY, SCREEN_SIZE, STACK_SIZE,
};
use crate::state::{next_seed, random_byte, State};

verus! {

/// The machine. Its view is a [`State`], which holds every field of the
/// machine in full; every operation says over that view what it changes, and
/// so what it leaves alone.
pub struct Emulator {
    pc: u16,
    ram: [u8; RAM_SIZE],
    screen: [bool; SCREEN_SIZE],
    registers: [u8; REGISTERS_QUANTITY],
    i_register: u16,
    stack: [u16; STACK_SIZE],
    stack_pointer: u16,
    delay_timer: u8,
    sound_timer: u8,
    keys: [bool; KEYS_QUANTITY],
    seed: u16,
}

impl View for Emulator {
    type V = State;

    closed spec fn view(&self) -> State {
        State {
            pc: self.pc,
            memory: self.ram@,
            registers: self.registers@,
            index: self.i_register,
            slots: self.stack@,
            stack_pointer: self.stack_pointer,
            delay_timer: self.delay_timer,
            sound_timer: self.sound_timer,
            keys: self.keys@,
            display: self.screen@,
            seed: self.seed,
        }
    }
}

impl Emulator {
    /// The invariant of the machine, which every operation keeps.
    pub open spec fn wf(&self) -> bool {
        self@.wf()
    }

    /// A machine at power-on.
    pub fn new() -> (machine: Self)
        ensures
            machine.wf(),
            machine@ == State::power_on(),
    {
        let mut machine = Self {
            pc: INITIAL_ADDRESS,
            ram: [0; RAM_SIZE],
            screen: [false; SCREEN_SIZE],
            registers: [0; REGISTERS_QUANTITY],
            i_register: 0,
            stack: [0; STACK_SIZE],
            stack_pointer: 0,
            delay_timer: 0,
            sound_timer: 0,
            keys: [false; KEYS_QUANTITY],
            seed: INITIAL_SEED,
        };
        let mut offset: usize = 0;
        while offset < FONTSET_SIZE
            invariant
                offset <= FONTSET_SIZE,
                machine@ =~= (State {
                    memory: Seq::new(
                        RAM_SIZE as nat,
                        |a: int| if 0 <= a < offset { FONTSET[a] } else { 0u8 },
                    ),
                    ..State::power_on()
                }),
            decreases FONTSET_SIZE - offset,
        {
            machine.ram[offset] = FONTSET[offset];
            offset += 1;
        }
        machine
    }

    /// Brings the machine back to power-on, whatever state it was in.
    pub fn reset(&mut self)
        ensures
            final(self).wf(),
            final(self)@ == State::power_on(),
    {
        *self = Emulator::new();
    }

    /// Copies a program into memory, from the address where programs start.
    /// A program that does not fit before the end of memory is refused and
    /// nothing is written.
    pub fn load_program(&mut self, bytes: &[u8]) -> (loaded: Result<(), Fault>)
        requires
            old(self).wf(),
        ensures
            final(self).wf(),
            State::program_fits(bytes@.len() as int) ==> loaded == Ok::<(), Fault>(())
                && final(self)@ == old(self)@.with_program(bytes@),
            !State::program_fits(bytes@.len() as int) ==> loaded == Err::<(), Fault>(
                Fault::MemoryWriteOutOfBounds,
            ) && final(self)@ == old(self)@,
    {
        let start: usize = INITIAL_ADDRESS as usize;
        if bytes.len() > RAM_SIZE - start {
            return Err(Fault::MemoryWriteOutOfBounds);
        }
        let mut copied: usize = 0;
        while copied < bytes.len()
            invariant
                start == INITIAL_ADDRESS,
                copied <= bytes.len(),
                bytes.len() <= RAM_SIZE - start,
                self@ =~= old(self)@.with_program(bytes@.take(copied as int)),
            decreases bytes.len() - copied,
        {
            self.ram[start + copied] = bytes[copied];
            copied += 1;
        }
        Ok(())
    }

    /// The program counter.
    pub fn pc(&self) -> (pc: u16)
        ensures
            pc == self@.pc,
    {
        self.pc
    }

    /// The byte at `address`.
    pub fn read_byte_from_ram(&self, address: u16) -> (value: u8)
        requires
            address < RAM_SIZE,
        ensures
            value == self@.memory[address as int],
    {
        self.ram[address as usize]
    }

    /// Stores `value` at `address`.
    pub fn write_byte_to_ram(&mut self, address: u16, value: u8)
        requires
            address < RAM_SIZE,
        ensures
            old(self).wf() ==> final(self).wf(),
            final(self)@ == old(self)@.with_memory(address as int, value),
    {
        self.ram[address as usize] = value;
    }

    /// The value of register `index`.
    pub fn read_registry(&self, index: usize) -> (value: u8)
        requires
            index < REGISTERS_QUANTITY,
        ensures
            value == self@.registers[index as int],
    {
        self.registers[index]
    }

    /// Stores `value` in register `index`.
    pub fn write_to_registry(&mut self, index: usize, value: u8)
        requires
            index < REGISTERS_QUANTITY,
        ensures
            old(self).wf() ==> final(self).wf(),
            final(self)@ == old(self)@.with_register(index as int, value),
    {
        self.registers[index] = value;
    }

    /// Adds `value` to register `index`, wrapping at eight bits.
    pub fn add_value_to_registry(&mut self, index: usize, value: u8)
        requires
            index < REGISTERS_QUANTITY,
        ensures
            old(self).wf() ==> final(self).wf(),
            final(self)@ == old(self)@.with_register(
                index as int,
                ((old(self)@.registers[index as int] + value) % 0x100) as u8,
            ),
    {
        self.registers[index] = self.registers[index].wrapping_add(value);
        assert(self@ =~= old(self)@.with_register(
            index as int,
            ((old(self)@.registers[index as int] + value) % 0x100) as u8,
        ));
    }

    /// The address register.
    pub fn i_register(&self) -> (index: u16)
        ensures
            index == self@.index,
    {
        self.i_register
    }

    /// Sets the address register.
    pub fn set_i_register(&mut self, value: u16)
        ensures
            old(self).wf() ==> final(self).wf(),
            final(self)@ == old(self)@.with_index(value),
    {
        self.i_register = value;
    }

    /// The number of return addresses on the call stack.
    pub fn stack_pointer(&self) -> (depth: u16)
        ensures
            depth == self@.stack_pointer,
    {
        self.stack_pointer
    }

    /// What slot `index` of the call stack holds, whether or not it lies
    /// below the stack pointer.
    pub fn stack_slot(&self, index: usize) -> (value: u16)
        requires
            index < STACK_SIZE,
        ensures
            value == self@.slots[index as int],
    {
        self.stack[index]
    }

    /// The most recent return address, which stays on the stack.
    pub fn peek_stack(&self) -> (address: u16)
        requires
            self.wf(),
            self@.stack_pointer > 0,
        ensures
            address == self@.top(),
    {
        self.stack[(self.stack_pointer - 1) as usize]
    }

    /// Pushes a return address: it goes into the slot at the stack pointer,
    /// and no other slot changes.
    pub fn push_to_stack(&mut self, value: u16)
        requires
            old(self).wf(),
            old(self)@.stack_pointer < STACK_SIZE,
        ensures
            final(self).wf(),
            final(self)@ == old(self)@.push(value),
    {
        self.stack[self.stack_pointer as usize] = value;
        self.stack_pointer += 1;
    }

    /// Pops the most recent return address. Every slot keeps what it holds.
    pub fn pop_from_stack(&mut self) -> (value: u16)
        requires
            old(self).wf(),
            old(self)@.stack_pointer > 0,
        ensures
            final(self).wf(),
            value == old(self)@.top(),
            final(self)@ == old(self)@.pop(),
    {
        self.stack_pointer -= 1;
        self.stack[self.stack_pointer as usize]
    }

    /// Moves the program counter past one instruction.
    pub fn increment_pc(&mut self)
        requires
            old(self)@.pc + 2 < RAM_SIZE,
        ensures
            old(self).wf() ==> final(self).wf(),
            final(self)@ == old(self)@.with_pc((old(self)@.pc + 2) as u16),
    {
        self.pc += 2;
    }

    /// Moves the program counter to `address`.
    pub fn set_pc(&mut self, address: u16)
        requires
            address < RAM_SIZE,
        ensures
            old(self).wf() ==> final(self).wf(),
            final(self)@ == old(self)@.with_pc(address),
    {
        self.pc = address;
    }

    /// Advances both timers by one tick: each timer that is not zero goes
    /// down by one, and a timer at zero stays there.
    pub fn tick_timer(&mut self)
        ensures
            old(self).wf() ==> final(self).wf(),
            final(self)@ == old(self)@.tick_timers(),
    {
        if self.delay_timer > 0 {
            self.delay_timer -= 1;
        }
        if self.sound_timer > 0 {
            self.sound_timer -= 1;
        }
    }

    /// The delay timer.
    pub fn delay_timer_value(&self) -> (value: u8)
        ensures
            value == self@.delay_timer,
    {
        self.delay_timer
    }

    /// The sound timer.
    pub fn sound_timer_value(&self) -> (value: u8)
        ensures
            value == self@.sound_timer,
    {
        self.sound_timer
    }

    /// Whether a tone is due: the sound timer is not zero.
    pub fn sound_timer_active(&self) -> (active: bool)
        ensures
            active == (self@.sound_timer > 0),
    {
        self.sound_timer > 0
    }

    /// Sets the delay timer.
    pub fn set_delay_timer(&mut self, value: u8)
        ensures
            old(self).wf() ==> final(self).wf(),
            final(self)@ == old(self)@.with_delay_timer(value),
    {
        self.delay_timer = value;
    }

    /// Sets the sound timer.
    pub fn set_sound_timer(&mut self, value: u8)
        ensures
            old(self).wf() ==> final(self).wf(),
            final(self)@ == old(self)@.with_sound_timer(value),
    {
        self.sound_timer = value;
    }

    /// Records that key `index` went down or came up.
    pub fn set_key(&mut self, index: usize, pressed: bool)
        requires
            index < KEYS_QUANTITY,
        ensures
            old(self).wf() ==> final(self).wf(),
            final(self)@ == old(self)@.with_key(index as int, pressed),
    {
        self.keys[index] = pressed;
    }

    /// Whether key `index` is down.
    pub fn is_key_pressed(&self, index: usize) -> (pressed: bool)
        requires
            index < KEYS_QUANTITY,
        ensures
            pressed == self@.keys[index as int],
    {
        self.keys[index]
    }

    /// The display, row by row.
    pub fn display(&self) -> (pixels: &[bool; SCREEN_SIZE])
        ensures
            pixels@ == self@.display,
    {
        &self.screen
    }

    /// Whether the pixel at `position` is on.
    pub fn pixel(&self, position: usize) -> (lit: bool)
        requires
            position < SCREEN_SIZE,
        ensures
            lit == self@.display[position as int],
    {
        self.screen[position]
    }

    /// Switches the pixel at `position` on or off.
    pub fn set_pixel(&mut self, position: usize, lit: bool)
        requires
            position < SCREEN_SIZE,
        ensures
            old(self).wf() ==> final(self).wf(),
            final(self)@ == old(self)@.with_pixel(position as int, lit),
    {
        self.screen[position] = lit;
    }

    /// Switches every pixel off.
    pub fn clear_screen(&mut self)
        ensures
            old(self).wf() ==> final(self).wf(),
            final(self)@ == old(self)@.cleared(),
    {
        self.screen = [false; SCREEN_SIZE];
    }

    /// Restarts the pseudo-random sequence from `seed`.
    pub fn seed_random(&mut self, seed: u16)
        ensures
            old(self).wf() ==> final(self).wf(),
            final(self)@ == old(self)@.with_seed(seed),
    {
        self.seed = seed;
    }

    /// Advances the pseudo-random sequence and returns the byte drawn from
    /// its new state.
    pub fn next_random_byte(&mut self) -> (byte: u8)
        ensures
            old(self).wf() ==> final(self).wf(),
            final(self)@ == old(self)@.with_seed(next_seed(old(self)@.seed)),
            byte == random_byte(next_seed(old(self)@.seed)),
    {
        let wide: u32 = (self.seed as u32) * 25173 + 13849;
        self.seed = (wide % 0x10000) as u16;
        (self.seed / 0x100) as u8
    }
}

} // verus!
