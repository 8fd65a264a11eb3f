//! The fetch, decode and execute cycle.

use vstd::prelude::*;
use crate::fault::Fault;
use crate::instruction::{decode, spec_decode, Instruction};
use crate::layout::{
    FLAG_REGISTER, GLYPH_HEIGHT, KEYS_QUANTITY, RAM_SIZE, REGISTERS_QUANTITY, STACK_SIZE,
};
use crate::machine::Emulator;
use crate::state::{first_key_down, State};

verus! {

impl Emulator {
    /// The opcode at the program counter, which stays where it is. Both bytes
    /// of the opcode have to lie in memory.
    pub fn peek_opcode(&self) -> (op: u16)
        requires
            self.wf(),
            self@.pc + 1 < RAM_SIZE,
        ensures
            op == self@.opcode(),
    {
        let pc: u16 = self.pc();
        let high_byte: u16 = self.read_byte_from_ram(pc) as u16;
        let low_byte: u16 = self.read_byte_from_ram(pc + 1) as u16;
        assert((high_byte << 8) | low_byte == high_byte * 0x100 + low_byte) by (bit_vector)
            requires
                high_byte < 0x100,
                low_byte < 0x100,
        ;
        (high_byte << 8) | low_byte
    }

    /// Fetches the opcode at the program counter and moves the program
    /// counter past it. There is no fetch with the program counter on one of
    /// the last two bytes of memory: `fetch_fault` is `None` only below them.
    pub fn fetch(&mut self) -> (op: u16)
        requires
            old(self).wf(),
            old(self)@.fetch_fault() is None,
        ensures
            final(self).wf(),
            op == old(self)@.opcode(),
            final(self)@ == old(self)@.fetched(),
    {
        let op: u16 = self.peek_opcode();
        self.increment_pc();
        op
    }

    /// Returns from a subroutine: the program counter becomes the most recent
    /// return address, which leaves the stack.
    pub fn return_from_subroutine(&mut self)
        requires
            old(self).wf(),
            old(self)@.stack_pointer > 0,
            old(self)@.top() < RAM_SIZE,
        ensures
            final(self).wf(),
            final(self)@ == old(self)@.pop().with_pc(old(self)@.top()),
    {
        let return_address: u16 = self.pop_from_stack();
        self.set_pc(return_address);
    }

    /// Calls the subroutine at `address`: the program counter, which is past
    /// the call, goes on the stack, and execution continues at `address`.
    pub fn call_subroutine(&mut self, address: u16)
        requires
            old(self).wf(),
            old(self)@.stack_pointer < STACK_SIZE,
            address < RAM_SIZE,
        ensures
            final(self).wf(),
            final(self)@ == old(self)@.push(old(self)@.pc).with_pc(address),
    {
        let pc: u16 = self.pc();
        self.push_to_stack(pc);
        self.set_pc(address);
    }

    /// Whether the key with number `value` is down.
    pub fn is_key_down(&self, value: u8) -> (down: bool)
        requires
            self.wf(),
        ensures
            down == self@.key_down(value),
    {
        (value as usize) < KEYS_QUANTITY && self.is_key_pressed(value as usize)
    }

    /// The number of the first key that is down, or the number of keys if
    /// none is.
    pub fn first_pressed_key(&self) -> (key: usize)
        requires
            self.wf(),
        ensures
            key == first_key_down(self@.keys, 0),
            key <= KEYS_QUANTITY,
            key < KEYS_QUANTITY ==> self@.keys[key as int],
            forall|k: int| 0 <= k < key ==> !self@.keys[k],
    {
        let mut key: usize = 0;
        while key < KEYS_QUANTITY
            invariant
                self.wf(),
                key <= KEYS_QUANTITY,
                first_key_down(self@.keys, 0) == first_key_down(self@.keys, key as int),
                forall|k: int| 0 <= k < key ==> !self@.keys[k],
            decreases KEYS_QUANTITY - key,
        {
            if self.is_key_pressed(key) {
                return key;
            }
            key += 1;
        }
        key
    }

    /// Stores the hundreds, tens and units of `value` in the three bytes at
    /// the address register.
    pub fn store_decimal(&mut self, value: u8)
        requires
            old(self).wf(),
            old(self)@.index + 2 < RAM_SIZE,
        ensures
            final(self).wf(),
            final(self)@ == old(self)@.with_memory(
                old(self)@.index as int,
                value / 100,
            ).with_memory(old(self)@.index + 1, (value / 10) % 10).with_memory(
                old(self)@.index + 2,
                value % 10,
            ),
    {
        let base: u16 = self.i_register();
        self.write_byte_to_ram(base, value / 100);
        self.write_byte_to_ram(base + 1, (value / 10) % 10);
        self.write_byte_to_ram(base + 2, value % 10);
    }

    /// Stores registers 0 to `last` in memory, from the address register on.
    pub fn store_registers(&mut self, last: usize)
        requires
            old(self).wf(),
            last < REGISTERS_QUANTITY,
            old(self)@.index + last < RAM_SIZE,
        ensures
            final(self).wf(),
            final(self)@ == (State {
                memory: old(self)@.registers_stored(last),
                ..old(self)@
            }),
    {
        let ghost before: State = self@;
        let base: u16 = self.i_register();
        let mut number: usize = 0;
        while number <= last
            invariant
                number <= last + 1,
                last < 16,
                before.wf(),
                base == before.index,
                before.index + last < RAM_SIZE,
                self@ == (State { memory: self@.memory, ..before }),
                self@.memory.len() == before.memory.len(),
                forall|a: int|
                    0 <= a < RAM_SIZE ==> self@.memory[a] == if before.index <= a < before.index
                        + number {
                        before.registers[a - before.index]
                    } else {
                        before.memory[a]
                    },
            decreases last + 1 - number,
        {
            let value: u8 = self.read_registry(number);
            self.write_byte_to_ram(base + number as u16, value);
            number += 1;
        }
    }

    /// Loads registers 0 to `last` from memory, from the address register on.
    pub fn load_registers(&mut self, last: usize)
        requires
            old(self).wf(),
            last < REGISTERS_QUANTITY,
            old(self)@.index + last < RAM_SIZE,
        ensures
            final(self).wf(),
            final(self)@ == (State {
                registers: old(self)@.registers_loaded(last),
                ..old(self)@
            }),
    {
        let ghost before: State = self@;
        let base: u16 = self.i_register();
        let mut number: usize = 0;
        while number <= last
            invariant
                number <= last + 1,
                last < 16,
                before.wf(),
                base == before.index,
                before.index + last < RAM_SIZE,
                self@ == (State { registers: self@.registers, ..before }),
                self@.registers.len() == before.registers.len(),
                forall|i: int|
                    0 <= i < 16 ==> self@.registers[i] == if i < number {
                        before.memory[before.index + i]
                    } else {
                        before.registers[i]
                    },
            decreases last + 1 - number,
        {
            let value: u8 = self.read_byte_from_ram(base + number as u16);
            self.write_to_registry(number, value);
            number += 1;
        }
    }

    /// Why `inst` cannot be executed in the machine's present state, if it
    /// cannot. The machine is taken to have fetched the instruction already.
    pub fn execution_fault(&self, inst: Instruction) -> (fault: Option<Fault>)
        requires
            self.wf(),
            inst.wf(),
        ensures
            fault == self@.exec_fault(inst),
    {
        self.execution_fault_at(inst, self.pc())
    }

    /// Why `inst` could not be executed if the program counter were at `pc`
    /// and the rest of the machine as it is.
    fn execution_fault_at(&self, inst: Instruction, pc: u16) -> (fault: Option<Fault>)
        requires
            self.wf(),
            inst.wf(),
        ensures
            fault == self@.with_pc(pc).exec_fault(inst),
    {
        match inst {
            Instruction::Return => {
                if self.stack_pointer() == 0 {
                    Some(Fault::StackUnderflow)
                } else if self.peek_stack() as usize >= RAM_SIZE {
                    Some(Fault::ProgramCounterOutOfBounds)
                } else {
                    None
                }
            },
            Instruction::Jump { addr } => {
                if addr as usize >= RAM_SIZE {
                    Some(Fault::ProgramCounterOutOfBounds)
                } else {
                    None
                }
            },
            Instruction::Call { addr } => {
                if self.stack_pointer() as usize >= STACK_SIZE {
                    Some(Fault::StackOverflow)
                } else if addr as usize >= RAM_SIZE {
                    Some(Fault::ProgramCounterOutOfBounds)
                } else {
                    None
                }
            },
            Instruction::SkipEqualImmediate { .. }
            | Instruction::SkipNotEqualImmediate { .. }
            | Instruction::SkipEqual { .. }
            | Instruction::SkipNotEqual { .. }
            | Instruction::SkipKeyPressed { .. }
            | Instruction::SkipKeyNotPressed { .. } => {
                if self.skip_condition(inst) && pc as usize + 2 >= RAM_SIZE {
                    Some(Fault::ProgramCounterOutOfBounds)
                } else {
                    None
                }
            },
            Instruction::JumpOffset { addr } => {
                if addr as usize + self.read_registry(0) as usize >= RAM_SIZE {
                    Some(Fault::ProgramCounterOutOfBounds)
                } else {
                    None
                }
            },
            Instruction::Draw { n, .. } => {
                if n > 0 && self.i_register() as usize + n as usize > RAM_SIZE {
                    Some(Fault::MemoryReadOutOfBounds)
                } else {
                    None
                }
            },
            Instruction::WaitKey { .. } => {
                if self.first_pressed_key() >= KEYS_QUANTITY && pc < 2 {
                    Some(Fault::ProgramCounterOutOfBounds)
                } else {
                    None
                }
            },
            Instruction::StoreDecimal { .. } => {
                if self.i_register() as usize + 2 >= RAM_SIZE {
                    Some(Fault::MemoryWriteOutOfBounds)
                } else {
                    None
                }
            },
            Instruction::StoreRegisters { x } => {
                if self.i_register() as usize + x >= RAM_SIZE {
                    Some(Fault::MemoryWriteOutOfBounds)
                } else {
                    None
                }
            },
            Instruction::LoadRegisters { x } => {
                if self.i_register() as usize + x >= RAM_SIZE {
                    Some(Fault::MemoryReadOutOfBounds)
                } else {
                    None
                }
            },
            _ => None,
        }
    }

    /// Whether `inst` is a skip instruction whose condition holds.
    pub fn skip_condition(&self, inst: Instruction) -> (taken: bool)
        requires
            self.wf(),
            inst.wf(),
        ensures
            taken == self@.skips(inst),
    {
        match inst {
            Instruction::SkipEqualImmediate { x, nn } => self.read_registry(x) == nn,
            Instruction::SkipNotEqualImmediate { x, nn } => self.read_registry(x) != nn,
            Instruction::SkipEqual { x, y } => self.read_registry(x) == self.read_registry(y),
            Instruction::SkipNotEqual { x, y } => self.read_registry(x) != self.read_registry(y),
            Instruction::SkipKeyPressed { x } => self.is_key_down(self.read_registry(x)),
            Instruction::SkipKeyNotPressed { x } => !self.is_key_down(self.read_registry(x)),
            _ => false,
        }
    }

    /// Executes the instruction that `op` stands for. The machine is taken to
    /// have fetched `op` already, so the program counter is past it.
    pub fn execute(&mut self, op: u16)
        requires
            old(self).wf(),
            spec_decode(op) matches Some(inst) && old(self)@.exec_fault(inst) is None,
        ensures
            final(self).wf(),
            final(self)@ == old(self)@.exec(spec_decode(op).unwrap()),
    {
        match decode(op) {
            None => {},
            Some(Instruction::ClearScreen) => self.clear_screen(),
            Some(Instruction::Return) => self.return_from_subroutine(),
            Some(Instruction::Jump { addr }) => self.set_pc(addr),
            Some(Instruction::Call { addr }) => self.call_subroutine(addr),
            Some(Instruction::SkipEqualImmediate { x, nn }) => {
                if self.read_registry(x) == nn {
                    self.increment_pc();
                }
            },
            Some(Instruction::SkipNotEqualImmediate { x, nn }) => {
                if self.read_registry(x) != nn {
                    self.increment_pc();
                }
            },
            Some(Instruction::SkipEqual { x, y }) => {
                if self.read_registry(x) == self.read_registry(y) {
                    self.increment_pc();
                }
            },
            Some(Instruction::SkipNotEqual { x, y }) => {
                if self.read_registry(x) != self.read_registry(y) {
                    self.increment_pc();
                }
            },
            Some(Instruction::LoadImmediate { x, nn }) => self.write_to_registry(x, nn),
            Some(Instruction::AddImmediate { x, nn }) => self.add_value_to_registry(x, nn),
            Some(Instruction::Assign { x, y }) => {
                let y_value: u8 = self.read_registry(y);
                self.write_to_registry(x, y_value);
            },
            Some(Instruction::Or { x, y }) => {
                let or_value: u8 = self.read_registry(x) | self.read_registry(y);
                self.write_to_registry(x, or_value);
            },
            Some(Instruction::And { x, y }) => {
                let and_value: u8 = self.read_registry(x) & self.read_registry(y);
                self.write_to_registry(x, and_value);
            },
            Some(Instruction::Xor { x, y }) => {
                let xor_value: u8 = self.read_registry(x) ^ self.read_registry(y);
                self.write_to_registry(x, xor_value);
            },
            Some(Instruction::AddCarry { x, y }) => {
                let x_value: u8 = self.read_registry(x);
                let y_value: u8 = self.read_registry(y);
                let carry: bool = x_value as u16 + y_value as u16 > 0xFF;
                self.write_to_registry(x, x_value.wrapping_add(y_value));
                self.write_to_registry(FLAG_REGISTER, if carry { 1 } else { 0 });
            },
            Some(Instruction::SubtractBorrow { x, y }) => {
                let x_value: u8 = self.read_registry(x);
                let y_value: u8 = self.read_registry(y);
                let borrow: bool = x_value < y_value;
                self.write_to_registry(x, x_value.wrapping_sub(y_value));
                self.write_to_registry(FLAG_REGISTER, if borrow { 0 } else { 1 });
            },
            Some(Instruction::ShiftRight { x, .. }) => {
                let x_value: u8 = self.read_registry(x);
                assert(x_value >> 1 == x_value / 2) by (bit_vector);
                assert(x_value & 1 == x_value % 2) by (bit_vector);
                self.write_to_registry(x, x_value >> 1);
                self.write_to_registry(FLAG_REGISTER, x_value & 1);
            },
            Some(Instruction::SubtractBorrowReversed { x, y }) => {
                let x_value: u8 = self.read_registry(x);
                let y_value: u8 = self.read_registry(y);
                let borrow: bool = y_value < x_value;
                self.write_to_registry(x, y_value.wrapping_sub(x_value));
                self.write_to_registry(FLAG_REGISTER, if borrow { 0 } else { 1 });
            },
            Some(Instruction::ShiftLeft { x, .. }) => {
                let x_value: u8 = self.read_registry(x);
                assert(x_value << 1 == (x_value * 2) % 0x100) by (bit_vector);
                assert(x_value >> 7 == (if x_value >= 0x80 { 1u8 } else { 0u8 })) by (bit_vector);
                self.write_to_registry(x, x_value << 1);
                self.write_to_registry(FLAG_REGISTER, x_value >> 7);
            },
            Some(Instruction::LoadAddress { addr }) => self.set_i_register(addr),
            Some(Instruction::JumpOffset { addr }) => {
                let offset: u16 = self.read_registry(0) as u16;
                self.set_pc(addr + offset);
            },
            Some(Instruction::Random { x, nn }) => {
                let byte: u8 = self.next_random_byte();
                self.write_to_registry(x, byte & nn);
            },
            Some(Instruction::Draw { x, y, n }) => {
                let left: u8 = self.read_registry(x);
                let top: u8 = self.read_registry(y);
                let erased: bool = self.draw_sprite(left, top, n);
                self.write_to_registry(FLAG_REGISTER, if erased { 1 } else { 0 });
            },
            Some(Instruction::SkipKeyPressed { x }) => {
                if self.is_key_down(self.read_registry(x)) {
                    self.increment_pc();
                }
            },
            Some(Instruction::SkipKeyNotPressed { x }) => {
                if !self.is_key_down(self.read_registry(x)) {
                    self.increment_pc();
                }
            },
            Some(Instruction::LoadDelayTimer { x }) => {
                let value: u8 = self.delay_timer_value();
                self.write_to_registry(x, value);
            },
            Some(Instruction::WaitKey { x }) => {
                let key: usize = self.first_pressed_key();
                if key < KEYS_QUANTITY {
                    self.write_to_registry(x, key as u8);
                } else {
                    let pc: u16 = self.pc();
                    self.set_pc(pc - 2);
                }
            },
            Some(Instruction::SetDelayTimer { x }) => {
                let value: u8 = self.read_registry(x);
                self.set_delay_timer(value);
            },
            Some(Instruction::SetSoundTimer { x }) => {
                let value: u8 = self.read_registry(x);
                self.set_sound_timer(value);
            },
            Some(Instruction::AddAddress { x }) => {
                let offset: u16 = self.read_registry(x) as u16;
                let base: u16 = self.i_register();
                self.set_i_register(base.wrapping_add(offset));
            },
            Some(Instruction::FontAddress { x }) => {
                let value: u8 = self.read_registry(x);
                let digit: u8 = value & 0x0F;
                assert(value & 0x0F == value % 0x10) by (bit_vector);
                assert(digit * GLYPH_HEIGHT == digit * 5);
                self.set_i_register(digit as u16 * GLYPH_HEIGHT as u16);
            },
            Some(Instruction::StoreDecimal { x }) => {
                let value: u8 = self.read_registry(x);
                self.store_decimal(value);
            },
            Some(Instruction::StoreRegisters { x }) => self.store_registers(x),
            Some(Instruction::LoadRegisters { x }) => self.load_registers(x),
        }
    }

    /// Takes one step: fetches the opcode at the program counter and executes
    /// the instruction it stands for. It is for states from which a step can
    /// be taken; [`Emulator::step`] is for all states.
    pub fn tick(&mut self)
        requires
            old(self).wf(),
            old(self)@.fault() is None,
        ensures
            final(self).wf(),
            final(self)@ == old(self)@.next(),
    {
        let op: u16 = self.fetch();
        self.execute(op);
    }

    /// Why no step can be taken from the machine's present state, if none
    /// can.
    pub fn pending_fault(&self) -> (fault: Option<Fault>)
        requires
            self.wf(),
        ensures
            fault == self@.fault(),
            self@.pc + 2 >= RAM_SIZE ==> fault is Some,
    {
        let pc: u16 = self.pc();
        if pc as usize + 1 >= RAM_SIZE {
            return Some(Fault::MemoryReadOutOfBounds);
        }
        if pc as usize + 2 >= RAM_SIZE {
            return Some(Fault::ProgramCounterOutOfBounds);
        }
        let op: u16 = self.peek_opcode();
        match decode(op) {
            None => Some(Fault::UnknownOpcode(op)),
            Some(inst) => self.execution_fault_at(inst, pc + 2),
        }
    }

    /// Takes one step if one can be taken, and says so; otherwise returns
    /// the fault and leaves the machine as it was.
    pub fn step(&mut self) -> (outcome: Result<(), Fault>)
        requires
            old(self).wf(),
        ensures
            final(self).wf(),
            match outcome {
                Ok(_) => old(self)@.fault() is None && final(self)@ == old(self)@.next(),
                Err(fault) => old(self)@.fault() == Some(fault) && final(self)@ == old(self)@,
            },
            old(self)@.pc + 2 >= RAM_SIZE ==> outcome is Err,
    {
        match self.pending_fault() {
            Some(fault) => Err(fault),
            None => {
                self.tick();
                Ok(())
            },
        }
    }
}

} // verus!
