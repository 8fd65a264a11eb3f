//! What one instruction does to the state, and when it cannot be executed.
//!
//! A step fetches the two bytes at the program counter as one opcode, high
//! byte first, moves the program counter past them, decodes the opcode and
//! executes the instruction. The functions here say all of that over the
//! model; the executable machine is proved to follow them.

use vstd::prelude::*;
use crate::fault::Fault;
use crate::instruction::{spec_decode, Instruction};
use crate::layout::{
    GLYPH_HEIGHT, KEYS_QUANTITY, RAM_SIZE, SCREEN_HEIGHT, SCREEN_SIZE, SCREEN_WIDTH, STACK_SIZE,
};
use crate::state::{first_key_down, next_seed, random_byte, State};

verus! {

/// Whether a sprite row has a pixel in column `col`, counted from the left:
/// the leftmost pixel is the highest bit of the row's byte.
pub open spec fn sprite_bit(row: u8, col: u8) -> bool {
    row & (0x80u8 >> col) != 0
}

impl State {
    /// The value of register `x`.
    pub open spec fn register(self, x: usize) -> u8 {
        self.registers[x as int]
    }

    /// Whether the key with number `value` is down. No key has a number of
    /// sixteen or more, so none of those is down.
    pub open spec fn key_down(self, value: u8) -> bool {
        value < KEYS_QUANTITY && self.keys[value as int]
    }

    /// Whether the sprite of `rows` rows at the address register, drawn with
    /// its top left corner at column `left` and row `top`, has a pixel at
    /// `position` of the display. Columns wrap around at the right edge and
    /// rows at the bottom edge.
    pub open spec fn sprite_covers(self, left: u8, top: u8, rows: u8, position: int) -> bool {
        let col: int = (position % (SCREEN_WIDTH as int) - left) % (SCREEN_WIDTH as int);
        let row: int = (position / (SCREEN_WIDTH as int) - top) % (SCREEN_HEIGHT as int);
        col < 8 && row < rows && sprite_bit(self.memory[self.index + row], col as u8)
    }

    /// The display after drawing that sprite: each pixel that the sprite
    /// covers is flipped.
    pub open spec fn drawn(self, left: u8, top: u8, rows: u8) -> Seq<bool> {
        Seq::new(
            SCREEN_SIZE as nat,
            |p: int| self.display[p] != self.sprite_covers(left, top, rows, p),
        )
    }

    /// Whether drawing that sprite switches a pixel off.
    pub open spec fn collides(self, left: u8, top: u8, rows: u8) -> bool {
        exists|p: int|
            0 <= p < SCREEN_SIZE && self.display[p] && #[trigger] self.sprite_covers(
                left,
                top,
                rows,
                p,
            )
    }

    /// Memory after storing registers 0 to `last` from the address register on.
    pub open spec fn registers_stored(self, last: usize) -> Seq<u8> {
        Seq::new(
            self.memory.len(),
            |a: int|
                if self.index <= a <= self.index + last {
                    self.registers[a - self.index]
                } else {
                    self.memory[a]
                },
        )
    }

    /// The registers after loading registers 0 to `last` from the address
    /// register on.
    pub open spec fn registers_loaded(self, last: usize) -> Seq<u8> {
        Seq::new(
            self.registers.len(),
            |i: int|
                if i <= last {
                    self.memory[self.index + i]
                } else {
                    self.registers[i]
                },
        )
    }

    /// The opcode at the program counter: two bytes, the high byte first.
    pub open spec fn opcode(self) -> u16 {
        (self.memory[self.pc as int] * 0x100 + self.memory[self.pc + 1]) as u16
    }

    /// Why no opcode can be fetched, if none can: the opcode's second byte
    /// would lie outside memory, or the program counter would leave memory
    /// when it moves past the opcode.
    pub open spec fn fetch_fault(self) -> Option<Fault> {
        if self.pc + 1 >= RAM_SIZE {
            Some(Fault::MemoryReadOutOfBounds)
        } else if self.pc + 2 >= RAM_SIZE {
            Some(Fault::ProgramCounterOutOfBounds)
        } else {
            None
        }
    }

    /// The state after a fetch: the program counter has moved past the opcode.
    pub open spec fn fetched(self) -> State {
        self.with_pc((self.pc + 2) as u16)
    }

    /// Whether `inst` is one of the skip instructions and its condition holds.
    pub open spec fn skips(self, inst: Instruction) -> bool {
        match inst {
            Instruction::SkipEqualImmediate { x, nn } => self.register(x) == nn,
            Instruction::SkipNotEqualImmediate { x, nn } => self.register(x) != nn,
            Instruction::SkipEqual { x, y } => self.register(x) == self.register(y),
            Instruction::SkipNotEqual { x, y } => self.register(x) != self.register(y),
            Instruction::SkipKeyPressed { x } => self.key_down(self.register(x)),
            Instruction::SkipKeyNotPressed { x } => !self.key_down(self.register(x)),
            _ => false,
        }
    }

    /// The state after a skip instruction: the program counter has moved past
    /// the next instruction if the condition holds.
    pub open spec fn skipped(self, inst: Instruction) -> State {
        if self.skips(inst) {
            self.with_pc((self.pc + 2) as u16)
        } else {
            self
        }
    }

    /// Why `inst` cannot be executed in this state, if it cannot. The state is
    /// the one after the fetch.
    pub open spec fn exec_fault(self, inst: Instruction) -> Option<Fault> {
        match inst {
            Instruction::Return => if self.stack_pointer == 0 {
                Some(Fault::StackUnderflow)
            } else if self.top() >= RAM_SIZE {
                Some(Fault::ProgramCounterOutOfBounds)
            } else {
                None
            },
            Instruction::Jump { addr } => if addr >= RAM_SIZE {
                Some(Fault::ProgramCounterOutOfBounds)
            } else {
                None
            },
            Instruction::Call { addr } => if self.stack_pointer >= STACK_SIZE {
                Some(Fault::StackOverflow)
            } else if addr >= RAM_SIZE {
                Some(Fault::ProgramCounterOutOfBounds)
            } else {
                None
            },
            _ if inst.is_skip() => if self.skips(inst) && self.pc + 2 >= RAM_SIZE {
                Some(Fault::ProgramCounterOutOfBounds)
            } else {
                None
            },
            Instruction::JumpOffset { addr } => if addr + self.register(0) >= RAM_SIZE {
                Some(Fault::ProgramCounterOutOfBounds)
            } else {
                None
            },
            Instruction::Draw { n, .. } => if n > 0 && self.index + n > RAM_SIZE {
                Some(Fault::MemoryReadOutOfBounds)
            } else {
                None
            },
            Instruction::WaitKey { .. } => if first_key_down(self.keys, 0) >= KEYS_QUANTITY
                && self.pc < 2 {
                Some(Fault::ProgramCounterOutOfBounds)
            } else {
                None
            },
            Instruction::StoreDecimal { .. } => if self.index + 2 >= RAM_SIZE {
                Some(Fault::MemoryWriteOutOfBounds)
            } else {
                None
            },
            Instruction::StoreRegisters { x } => if self.index + x >= RAM_SIZE {
                Some(Fault::MemoryWriteOutOfBounds)
            } else {
                None
            },
            Instruction::LoadRegisters { x } => if self.index + x >= RAM_SIZE {
                Some(Fault::MemoryReadOutOfBounds)
            } else {
                None
            },
            _ => None,
        }
    }

    /// The state after executing `inst` in this state, which is the one after
    /// the fetch. It is meant for instructions that can be executed:
    /// `self.exec_fault(inst)` is `None`.
    pub open spec fn exec(self, inst: Instruction) -> State {
        match inst {
            Instruction::ClearScreen => self.cleared(),
            Instruction::Return => self.pop().with_pc(self.top()),
            Instruction::Jump { addr } => self.with_pc(addr),
            Instruction::Call { addr } => self.push(self.pc).with_pc(addr),
            Instruction::SkipEqualImmediate { .. }
            | Instruction::SkipNotEqualImmediate { .. }
            | Instruction::SkipEqual { .. }
            | Instruction::SkipNotEqual { .. }
            | Instruction::SkipKeyPressed { .. }
            | Instruction::SkipKeyNotPressed { .. } => self.skipped(inst),
            Instruction::LoadImmediate { x, nn } => self.with_register(x as int, nn),
            Instruction::AddImmediate { x, nn } => self.with_register(
                x as int,
                ((self.register(x) + nn) % 0x100) as u8,
            ),
            Instruction::Assign { x, y } => self.with_register(x as int, self.register(y)),
            Instruction::Or { x, y } => self.with_register(
                x as int,
                self.register(x) | self.register(y),
            ),
            Instruction::And { x, y } => self.with_register(
                x as int,
                self.register(x) & self.register(y),
            ),
            Instruction::Xor { x, y } => self.with_register(
                x as int,
                self.register(x) ^ self.register(y),
            ),
            Instruction::AddCarry { x, y } => self.with_register(
                x as int,
                ((self.register(x) + self.register(y)) % 0x100) as u8,
            ).with_flag(self.register(x) + self.register(y) > 0xFF),
            Instruction::SubtractBorrow { x, y } => self.with_register(
                x as int,
                ((self.register(x) - self.register(y)) % 0x100) as u8,
            ).with_flag(self.register(x) >= self.register(y)),
            Instruction::ShiftRight { x, .. } => self.with_register(
                x as int,
                self.register(x) / 2,
            ).with_flag(self.register(x) % 2 == 1),
            Instruction::SubtractBorrowReversed { x, y } => self.with_register(
                x as int,
                ((self.register(y) - self.register(x)) % 0x100) as u8,
            ).with_flag(self.register(y) >= self.register(x)),
            Instruction::ShiftLeft { x, .. } => self.with_register(
                x as int,
                ((self.register(x) * 2) % 0x100) as u8,
            ).with_flag(self.register(x) >= 0x80),
            Instruction::LoadAddress { addr } => self.with_index(addr),
            Instruction::JumpOffset { addr } => self.with_pc((addr + self.register(0)) as u16),
            Instruction::Random { x, nn } => self.with_seed(next_seed(self.seed)).with_register(
                x as int,
                random_byte(next_seed(self.seed)) & nn,
            ),
            Instruction::Draw { x, y, n } => (State {
                display: self.drawn(self.register(x), self.register(y), n),
                ..self
            }).with_flag(self.collides(self.register(x), self.register(y), n)),
            Instruction::LoadDelayTimer { x } => self.with_register(x as int, self.delay_timer),
            Instruction::WaitKey { x } => if first_key_down(self.keys, 0) < KEYS_QUANTITY {
                self.with_register(x as int, first_key_down(self.keys, 0) as u8)
            } else {
                self.with_pc((self.pc - 2) as u16)
            },
            Instruction::SetDelayTimer { x } => self.with_delay_timer(self.register(x)),
            Instruction::SetSoundTimer { x } => self.with_sound_timer(self.register(x)),
            Instruction::AddAddress { x } => self.with_index(
                ((self.index + self.register(x)) % 0x10000) as u16,
            ),
            Instruction::FontAddress { x } => self.with_index(
                ((self.register(x) % 0x10) * GLYPH_HEIGHT) as u16,
            ),
            Instruction::StoreDecimal { x } => self.with_memory(
                self.index as int,
                self.register(x) / 100,
            ).with_memory(self.index + 1, (self.register(x) / 10) % 10).with_memory(
                self.index + 2,
                self.register(x) % 10,
            ),
            Instruction::StoreRegisters { x } => State {
                memory: self.registers_stored(x),
                ..self
            },
            Instruction::LoadRegisters { x } => State {
                registers: self.registers_loaded(x),
                ..self
            },
        }
    }

    /// The instruction at the program counter, if an opcode can be fetched
    /// there and stands for one.
    pub open spec fn current_instruction(self) -> Option<Instruction> {
        if self.fetch_fault() is None {
            spec_decode(self.opcode())
        } else {
            None
        }
    }

    /// Why the machine cannot take a step from this state, if it cannot: the
    /// fetch fails, the opcode is no instruction, or the instruction cannot be
    /// executed.
    pub open spec fn fault(self) -> Option<Fault> {
        if self.fetch_fault() is Some {
            self.fetch_fault()
        } else {
            match spec_decode(self.opcode()) {
                None => Some(Fault::UnknownOpcode(self.opcode())),
                Some(inst) => self.fetched().exec_fault(inst),
            }
        }
    }

    /// The state after one step from this state. It is meant for states from
    /// which a step can be taken: `self.fault()` is `None`.
    pub open spec fn next(self) -> State {
        self.fetched().exec(spec_decode(self.opcode()).unwrap())
    }
}

} // verus!
