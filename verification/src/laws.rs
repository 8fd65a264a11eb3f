//! Laws of the machine, proved over its model.

use vstd::prelude::*;
use crate::fault::Fault;
use crate::instruction::{lemma_decode_wf, Instruction};
use crate::layout::{
    FLAG_REGISTER, FONTSET, FONTSET_SIZE, GLYPH_HEIGHT, INITIAL_ADDRESS, KEYS_QUANTITY, RAM_SIZE,
    REGISTERS_QUANTITY, SCREEN_SIZE, STACK_SIZE,
};
use crate::state::{first_key_down, State};

verus! {

/// At power-on, and so after every reset, the program counter is at the
/// address where programs start, every register and both timers are zero, the
/// stack is empty and each of its slots zero, every key is up, every pixel is
/// off, the glyph table stands at the bottom of memory, and the rest of
/// memory is zero.
pub proof fn law_power_on_state()
    ensures
        State::power_on().wf(),
        State::power_on().pc == INITIAL_ADDRESS,
        State::power_on().index == 0,
        State::power_on().delay_timer == 0,
        State::power_on().sound_timer == 0,
        State::power_on().stack_pointer == 0,
        State::power_on().stack().len() == 0,
        forall|i: int| 0 <= i < STACK_SIZE ==> State::power_on().slots[i] == 0,
        forall|i: int| 0 <= i < REGISTERS_QUANTITY ==> State::power_on().registers[i] == 0,
        forall|k: int| 0 <= k < KEYS_QUANTITY ==> !State::power_on().keys[k],
        forall|p: int| 0 <= p < SCREEN_SIZE ==> !State::power_on().display[p],
        forall|a: int| 0 <= a < FONTSET_SIZE ==> State::power_on().memory[a] == FONTSET[a],
        forall|a: int| FONTSET_SIZE <= a < RAM_SIZE ==> State::power_on().memory[a] == 0,
{
}

/// Pushing an address and popping at once gives the address back and leaves
/// the stack pointer and the return addresses on the stack as they were. Of
/// the whole state one thing changes: the slot that held the address keeps it.
pub proof fn law_push_pop_inverse(s: State, address: u16)
    requires
        s.wf(),
        s.stack_pointer < STACK_SIZE,
    ensures
        s.push(address).top() == address,
        s.push(address).pop().stack_pointer == s.stack_pointer,
        s.push(address).pop().stack() == s.stack(),
        s.push(address).pop() == (State {
            slots: s.slots.update(s.stack_pointer as int, address),
            ..s
        }),
{
}

/// A jump sets the program counter to its address and changes nothing else:
/// the stack pointer and every slot of the stack stay as they were.
pub proof fn law_jump_sets_pc(s: State, addr: u16)
    requires
        s.wf(),
        s.current_instruction() == Some(Instruction::Jump { addr }),
    ensures
        s.fault() is None,
        s.next() == s.with_pc(addr),
        s.next().stack_pointer == s.stack_pointer,
        s.next().slots == s.slots,
{
}

/// A call followed, however much later, by a return that finds the stack as
/// the call left it brings the program counter back to the instruction after
/// the call, and the stack back to what it was before the call.
pub proof fn law_call_return_round_trip(before: State, later: State, addr: u16)
    requires
        before.wf(),
        before.fault() is None,
        before.current_instruction() == Some(Instruction::Call { addr }),
        later.wf(),
        later.current_instruction() == Some(Instruction::Return),
        later.stack() == before.next().stack(),
    ensures
        later.fault() is None,
        later.next().pc == before.pc + 2,
        later.next().stack_pointer == before.stack_pointer,
        later.next().stack() == before.stack(),
{
    let called: State = before.next();
    let depth: int = called.stack_pointer as int;
    assert(called.stack().len() == depth);
    assert(later.stack().len() == later.stack_pointer);
    assert(later.top() == later.stack()[depth - 1]);
    assert(called.stack()[depth - 1] == before.pc + 2);
    assert(later.next().stack() =~= before.stack());
}

/// A skip instruction moves the program counter by four where its condition
/// holds and by two where it does not, and changes nothing else.
pub proof fn law_skip_advance(s: State, inst: Instruction)
    requires
        s.wf(),
        s.fault() is None,
        s.current_instruction() == Some(inst),
        inst.is_skip(),
    ensures
        s.skips(inst) ==> s.next() == s.with_pc((s.pc + 4) as u16),
        !s.skips(inst) ==> s.next() == s.with_pc((s.pc + 2) as u16),
{
}

/// Adding with carry leaves the sum modulo 256 in register `x` and the carry
/// in the flag register; where `x` is the flag register itself, the carry is
/// what stays. No other register changes.
pub proof fn law_add_with_carry(s: State, x: usize, y: usize)
    requires
        s.wf(),
        x < REGISTERS_QUANTITY,
        y < REGISTERS_QUANTITY,
    ensures
        ({
            let after: State = s.exec(Instruction::AddCarry { x, y });
            let sum: int = s.register(x) + s.register(y);
            &&& after.register(FLAG_REGISTER) == if sum > 0xFF { 1u8 } else { 0u8 }
            &&& x != FLAG_REGISTER ==> after.register(x) == sum % 0x100
            &&& forall|r: int|
                0 <= r < REGISTERS_QUANTITY && r != x && r != FLAG_REGISTER ==> after.registers[r]
                    == s.registers[r]
            &&& after == (State { registers: after.registers, ..s })
        }),
{
}

/// Subtracting, in either order, leaves the difference modulo 256 in
/// register `x` and 1 in the flag register if the subtrahend was not greater
/// than the minuend, else 0; where `x` is the flag register itself, the flag
/// is what stays. No other register changes.
pub proof fn law_subtract_with_borrow(s: State, x: usize, y: usize, reversed: bool)
    requires
        s.wf(),
        x < REGISTERS_QUANTITY,
        y < REGISTERS_QUANTITY,
    ensures
        ({
            let after: State = if reversed {
                s.exec(Instruction::SubtractBorrowReversed { x, y })
            } else {
                s.exec(Instruction::SubtractBorrow { x, y })
            };
            let minuend: u8 = if reversed { s.register(y) } else { s.register(x) };
            let subtrahend: u8 = if reversed { s.register(x) } else { s.register(y) };
            &&& after.register(FLAG_REGISTER) == if minuend >= subtrahend { 1u8 } else { 0u8 }
            &&& x != FLAG_REGISTER ==> after.register(x) == if minuend >= subtrahend {
                minuend - subtrahend
            } else {
                minuend - subtrahend + 0x100
            }
            &&& forall|r: int|
                0 <= r < REGISTERS_QUANTITY && r != x && r != FLAG_REGISTER ==> after.registers[r]
                    == s.registers[r]
            &&& after == (State { registers: after.registers, ..s })
        }),
{
}

/// Adding an immediate changes register `x` and nothing else: it has no
/// effect on the flag register, unless that is register `x`.
pub proof fn law_add_immediate_leaves_flag(s: State, x: usize, nn: u8)
    requires
        s.wf(),
        x < REGISTERS_QUANTITY,
    ensures
        ({
            let after: State = s.exec(Instruction::AddImmediate { x, nn });
            &&& after.register(x) == (s.register(x) + nn) % 0x100
            &&& forall|r: int|
                0 <= r < REGISTERS_QUANTITY && r != x ==> after.registers[r] == s.registers[r]
            &&& after == (State { registers: after.registers, ..s })
        }),
{
}

/// A tick takes one from each timer that is not zero and leaves a timer at
/// zero alone; with both timers at zero it changes nothing.
pub proof fn law_tick_timers(s: State)
    ensures
        s.delay_timer > 0 ==> s.tick_timers().delay_timer == s.delay_timer - 1,
        s.sound_timer > 0 ==> s.tick_timers().sound_timer == s.sound_timer - 1,
        s.delay_timer == 0 ==> s.tick_timers().delay_timer == 0,
        s.sound_timer == 0 ==> s.tick_timers().sound_timer == 0,
        s.delay_timer == 0 && s.sound_timer == 0 ==> s.tick_timers() == s,
        s.tick_timers() == (State {
            delay_timer: s.tick_timers().delay_timer,
            sound_timer: s.tick_timers().sound_timer,
            ..s
        }),
{
}

/// No step can be taken with the program counter on one of the last two
/// bytes of memory: on the last byte the opcode would reach past the end of
/// memory, and on the byte before it the program counter would.
pub proof fn law_fetch_at_end_of_memory(s: State)
    requires
        s.wf(),
        s.pc + 2 >= RAM_SIZE,
    ensures
        s.fetch_fault() is Some,
        s.fault() == s.fetch_fault(),
        s.pc == RAM_SIZE - 1 ==> s.fault() == Some(Fault::MemoryReadOutOfBounds),
        s.pc == RAM_SIZE - 2 ==> s.fault() == Some(Fault::ProgramCounterOutOfBounds),
        s.current_instruction() is None,
{
}

/// The first key that is down, where there is one, is down, and no key
/// before it is; where there is none, no key is down.
pub proof fn law_first_key_down(keys: Seq<bool>, start: int)
    requires
        0 <= start <= keys.len(),
    ensures
        start <= first_key_down(keys, start) <= keys.len(),
        first_key_down(keys, start) < keys.len() ==> keys[first_key_down(keys, start)],
        forall|k: int| start <= k < first_key_down(keys, start) ==> !keys[k],
    decreases keys.len() - start,
{
    if start < keys.len() && !keys[start] {
        law_first_key_down(keys, start + 1);
    }
}

/// A step keeps the invariant of the machine: the program counter stays in
/// memory, the stack within its capacity, and every part at its size.
pub proof fn law_step_keeps_invariant(s: State)
    requires
        s.wf(),
        s.fault() is None,
    ensures
        s.next().wf(),
{
    lemma_decode_wf(s.opcode());
    law_first_key_down(s.keys, 0);
}

/// A step writes a slot of the call stack only by a call, and then only the
/// slot at the stack pointer; the stack pointer moves only by a call and by
/// a return.
pub proof fn law_step_leaves_slots(s: State)
    requires
        s.wf(),
        s.fault() is None,
    ensures
        forall|i: int|
            0 <= i < STACK_SIZE && i != s.stack_pointer ==> s.next().slots[i] == s.slots[i],
        !(s.current_instruction() matches Some(Instruction::Call { .. })) ==> s.next().slots
            == s.slots,
        !(s.current_instruction() matches Some(Instruction::Call { .. }))
            && s.current_instruction() != Some(Instruction::Return) ==> s.next().stack_pointer
            == s.stack_pointer,
{
}

/// No step changes the state of a key: the keys belong to the host.
pub proof fn law_step_leaves_keys(s: State)
    requires
        s.wf(),
        s.fault() is None,
    ensures
        s.next().keys == s.keys,
{
}

/// A step moves a timer only by the instruction that sets it: the timers
/// run down by ticks, not by steps.
pub proof fn law_step_leaves_timers(s: State)
    requires
        s.wf(),
        s.fault() is None,
    ensures
        !(s.current_instruction() matches Some(Instruction::SetDelayTimer { .. }))
            ==> s.next().delay_timer == s.delay_timer,
        !(s.current_instruction() matches Some(Instruction::SetSoundTimer { .. }))
            ==> s.next().sound_timer == s.sound_timer,
{
}

/// A program that fits stands in memory from the address where programs
/// start; the bytes below it, the glyph table among them, and the bytes
/// above it stay as they were.
pub proof fn law_program_in_memory(s: State, program: Seq<u8>)
    requires
        s.wf(),
        State::program_fits(program.len() as int),
    ensures
        s.with_program(program).wf(),
        forall|i: int|
            0 <= i < program.len() ==> s.with_program(program).memory[INITIAL_ADDRESS + i]
                == program[i],
        forall|a: int|
            0 <= a < INITIAL_ADDRESS ==> s.with_program(program).memory[a] == s.memory[a],
        forall|a: int|
            INITIAL_ADDRESS + program.len() <= a < RAM_SIZE ==> s.with_program(program).memory[a]
                == s.memory[a],
{
}

/// Every row of every glyph lies in the high four bits of its byte: a glyph
/// is four pixels wide.
pub proof fn law_glyphs_are_four_wide()
    ensures
        forall|a: int| 0 <= a < FONTSET_SIZE ==> #[trigger] FONTSET[a] % 0x10 == 0,
{
}

/// The instruction that points the address register at a glyph points it at
/// a whole glyph of the table, whatever the register holds.
pub proof fn law_font_address_in_table(s: State, x: usize)
    ensures
        s.exec(Instruction::FontAddress { x }).index as int % (GLYPH_HEIGHT as int) == 0,
        s.exec(Instruction::FontAddress { x }).index + GLYPH_HEIGHT <= FONTSET_SIZE,
{
}

/// Drawing a sprite a second time at the same place restores the display.
pub proof fn law_draw_twice_restores(s: State, left: u8, top: u8, rows: u8)
    requires
        s.wf(),
    ensures
        (State { display: s.drawn(left, top, rows), ..s }).drawn(left, top, rows) == s.display,
{
}

/// Drawing on a display with every pixel off switches no pixel off.
pub proof fn law_draw_on_blank_display(s: State, left: u8, top: u8, rows: u8)
    requires
        forall|p: int| 0 <= p < SCREEN_SIZE ==> !s.display[p],
    ensures
        !s.collides(left, top, rows),
{
}

} // verus!
