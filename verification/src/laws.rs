use vstd::prelude::*;
use crate::display::{blank, Screen};
use crate::emulator::{loaded, started, MAX_ROM_SIZE};
use crate::machine::{
    asked, asks_outside, awaits_key, blocks, cycle_fault, cycled, decimal_digits, effect, family,
    fault, fetched, immediate, next_counter, nibble, operand_x, operand_y, powered_on, skips,
    target, wrap16, Machine, Sample,
};
use crate::memory::{pristine, MEMORY_SIZE, PROGRAM_BASE_ADDRESS};
use crate::sprite::{drawn, lands_on_lit, law_draw_twice, sprite_pixel};

verus! {

/// A machine that is switched on with a full memory and a full screen is
/// valid.
pub proof fn law_powered_on_valid(memory: Seq<u8>, screen: Screen)
    requires
        memory.len() == MEMORY_SIZE,
        screen.pixels.len() == 64 * 32,
    ensures
        powered_on(memory, screen).valid(),
{
}

/// A program that fits behind the reserved addresses is loaded whole, from
/// the address `0x200` on, into a memory that holds the font and is zero
/// elsewhere.
pub proof fn law_loaded(rom: Seq<u8>)
    requires
        rom.len() <= MAX_ROM_SIZE,
    ensures
        loaded(rom).len() == MEMORY_SIZE,
        loaded(rom).subrange(PROGRAM_BASE_ADDRESS as int, PROGRAM_BASE_ADDRESS + rom.len())
            == rom,
        forall|a: int|
            0 <= a < PROGRAM_BASE_ADDRESS || PROGRAM_BASE_ADDRESS + rom.len() <= a < MEMORY_SIZE
                ==> loaded(rom)[a] == pristine()[a],
{
}

/// Starting a program over gives the session that starting it for the first
/// time on a dark display gives: every pixel is dark, the session is in its
/// initial state, and memory is as the program was first loaded into it.
pub proof fn law_restart(rom: Seq<u8>)
    requires
        rom.len() <= MAX_ROM_SIZE,
    ensures
        ({
            let restarted = started(rom, Screen { pixels: blank(), dirty: true });
            &&& restarted.initial
            &&& restarted.rom == rom
            &&& restarted.machine.memory == loaded(rom)
            &&& restarted.machine.screen.pixels == blank()
            &&& forall|i: int| 0 <= i < 64 * 32 ==> !restarted.machine.screen.pixels[i]
            &&& restarted.machine.counter == PROGRAM_BASE_ADDRESS
            &&& restarted.machine.valid()
        }),
{
}

/// The opcode that a cycle fetches has the byte at the program counter for
/// its higher half and the byte after it for its lower half.
pub proof fn law_fetched_bytes(m: Machine)
    requires
        m.valid(),
        m.counter + 1 < MEMORY_SIZE,
    ensures
        fetched(m) / 0x100 == m.memory[m.counter as int],
        fetched(m) % 0x100 == m.memory[m.counter + 1],
{
}

/// In a cycle the program counter never wraps: it goes to the address that
/// a return, a jump or a call names, stays where it is while the machine
/// waits for a key, goes up by four where a skip's condition holds, and by
/// two in every other case.
pub proof fn law_cycle_counter(m: Machine, tick: bool, sample: Sample)
    requires
        m.valid(),
        cycle_fault(m) is None,
    ensures
        ({
            let opcode = fetched(m);
            let after = cycled(m, tick, sample).counter;
            if family(opcode) == 0x0 && nibble(opcode) == 0xE {
                after == m.stack.last()
            } else if family(opcode) == 0x1 || family(opcode) == 0x2 {
                after == target(opcode)
            } else if family(opcode) == 0xB {
                after == target(opcode) + m.registers[0]
            } else if skips(m, opcode, sample) {
                after == m.counter + 4
            } else if blocks(opcode, sample) {
                after == m.counter
            } else {
                after == m.counter + 2
            }
        }),
{
}

/// A cycle leaves a valid machine valid.
pub proof fn law_cycle_keeps_valid(m: Machine, tick: bool, sample: Sample)
    requires
        m.valid(),
        cycle_fault(m) is None,
    ensures
        cycled(m, tick, sample).valid(),
{
}

/// An instruction leaves a valid machine valid.
pub proof fn law_effect_keeps_valid(m: Machine, opcode: u16, pc: u16, tick: bool, sample: Sample)
    requires
        m.valid(),
        fault(m, opcode) is None,
    ensures
        effect(m, opcode, pc, tick, sample).valid(),
{
}

/// An instruction that does not ask the outside world for anything does the
/// same whatever the outside world would have said.
pub proof fn law_sample_unread(
    m: Machine,
    opcode: u16,
    pc: u16,
    tick: bool,
    one: Sample,
    other: Sample,
)
    requires
        !asks_outside(opcode),
    ensures
        effect(m, opcode, pc, tick, one) == effect(m, opcode, pc, tick, other),
        next_counter(m, opcode, pc, one) == next_counter(m, opcode, pc, other),
{
}

/// Where an instruction does not ask the outside world for anything, only
/// one sample holds nothing but what it asks for.
pub proof fn law_nothing_asked(opcode: u16, sample: Sample)
    requires
        !asks_outside(opcode),
        asked(opcode, sample),
    ensures
        sample == (Sample { key_down: false, last_key: None, random: 0 }),
{
}

/// `6XNN` leaves NN in VX, leaves the other registers as they were, and
/// moves the program counter on by two.
pub proof fn law_load_immediate(m: Machine, opcode: u16, pc: u16, tick: bool, sample: Sample)
    requires
        m.valid(),
        family(opcode) == 0x6,
    ensures
        effect(m, opcode, pc, tick, sample).registers == m.registers.update(
            operand_x(opcode),
            immediate(opcode),
        ),
        effect(m, opcode, pc, tick, sample).registers[operand_x(opcode)] == immediate(opcode),
        next_counter(m, opcode, pc, sample) == wrap16(pc + 2),
        pc + 2 <= u16::MAX ==> next_counter(m, opcode, pc, sample) == pc + 2,
{
}

/// `7XNN` leaves in VX the sum of VX and NN modulo 256, and every other
/// register, the flag too, as it was.
pub proof fn law_add_immediate(m: Machine, opcode: u16, pc: u16, tick: bool, sample: Sample)
    requires
        m.valid(),
        family(opcode) == 0x7,
    ensures
        effect(m, opcode, pc, tick, sample).registers == m.registers.update(
            operand_x(opcode),
            ((m.registers[operand_x(opcode)] + immediate(opcode)) % 256) as u8,
        ),
{
}

/// `8XY4`, where X is not the flag register, leaves one in VF if the sum of
/// VX and VY is more than 255 and zero if it is not; where Y is not the flag
/// register either, it leaves that sum modulo 256 in VX.
pub proof fn law_add_registers(m: Machine, opcode: u16, pc: u16, tick: bool, sample: Sample)
    requires
        m.valid(),
        family(opcode) == 0x8,
        nibble(opcode) == 0x4,
        operand_x(opcode) != 0xF,
    ensures
        ({
            let vx = m.registers[operand_x(opcode)];
            let vy = m.registers[operand_y(opcode)];
            let after = effect(m, opcode, pc, tick, sample).registers;
            &&& after[0xF] == 1 <==> vx + vy > 255
            &&& after[0xF] == 0 <==> vx + vy <= 255
            &&& operand_y(opcode) != 0xF ==> after[operand_x(opcode)] == (vx + vy) % 256
        }),
{
}

/// `8XY5`, where X is not the flag register and VX differs from VY, leaves
/// one in VF if VY could be taken from VX without a borrow and zero if it
/// could not; where Y is not the flag register either, it leaves the
/// difference modulo 256 in VX, whether VX and VY differ or not.
pub proof fn law_subtract(m: Machine, opcode: u16, pc: u16, tick: bool, sample: Sample)
    requires
        m.valid(),
        family(opcode) == 0x8,
        nibble(opcode) == 0x5,
        operand_x(opcode) != 0xF,
    ensures
        ({
            let vx = m.registers[operand_x(opcode)];
            let vy = m.registers[operand_y(opcode)];
            let after = effect(m, opcode, pc, tick, sample).registers;
            &&& vx != vy ==> (after[0xF] == 1 <==> vx >= vy)
            &&& vx != vy ==> (after[0xF] == 0 <==> vx < vy)
            &&& operand_y(opcode) != 0xF ==> after[operand_x(opcode)] == (vx - vy) % 256
        }),
{
}

/// `8XY7`, where X is not the flag register and VX differs from VY, leaves
/// one in VF if VX could be taken from VY without a borrow and zero if it
/// could not; where Y is not the flag register either, it leaves the
/// difference modulo 256 in VX, whether VX and VY differ or not.
pub proof fn law_subtract_reversed(m: Machine, opcode: u16, pc: u16, tick: bool, sample: Sample)
    requires
        m.valid(),
        family(opcode) == 0x8,
        nibble(opcode) == 0x7,
        operand_x(opcode) != 0xF,
    ensures
        ({
            let vx = m.registers[operand_x(opcode)];
            let vy = m.registers[operand_y(opcode)];
            let after = effect(m, opcode, pc, tick, sample).registers;
            &&& vx != vy ==> (after[0xF] == 1 <==> vy >= vx)
            &&& vx != vy ==> (after[0xF] == 0 <==> vy < vx)
            &&& operand_y(opcode) != 0xF ==> after[operand_x(opcode)] == (vy - vx) % 256
        }),
{
}

/// A return that follows a call goes to the instruction after the call and
/// leaves the stack as it was before the call.
pub proof fn law_call_then_return(
    m: Machine,
    call: u16,
    pc: u16,
    tick: bool,
    sample: Sample,
    back: u16,
    back_pc: u16,
    back_tick: bool,
    back_sample: Sample,
)
    requires
        m.valid(),
        family(call) == 0x2,
        fault(m, call) is None,
        family(back) == 0x0,
        nibble(back) == 0xE,
    ensures
        ({
            let called = effect(m, call, pc, tick, sample);
            &&& next_counter(m, call, pc, sample) == target(call)
            &&& fault(called, back) is None
            &&& next_counter(called, back, back_pc, back_sample) == wrap16(pc + 2)
            &&& effect(called, back, back_pc, back_tick, back_sample).stack == m.stack
        }),
{
    let called = effect(m, call, pc, tick, sample);
    assert(called.stack == m.stack.push(wrap16(pc + 2)));
    assert(called.stack.drop_last() == m.stack);
}

/// The digits that `FX33` stores are decimal digits, and they make up the
/// value of VX: so many hundreds, so many tens, so many ones.
pub proof fn law_decimal_digits(value: u8)
    ensures
        decimal_digits(value).len() == 3,
        forall|k: int| 0 <= k < 3 ==> decimal_digits(value)[k] <= 9,
        decimal_digits(value)[0] * 100 + decimal_digits(value)[1] * 10 + decimal_digits(value)[2]
            == value,
{
}

/// `FX65` after `FX55` with the same X, and I where it was, leaves the
/// registers as they were: what was stored is what is loaded.
pub proof fn law_store_then_load(
    m: Machine,
    store: u16,
    pc: u16,
    tick: bool,
    sample: Sample,
    load: u16,
    load_pc: u16,
    load_tick: bool,
    load_sample: Sample,
)
    requires
        m.valid(),
        family(store) == 0xF,
        immediate(store) == 0x55,
        family(load) == 0xF,
        immediate(load) == 0x65,
        operand_x(load) == operand_x(store),
        fault(m, store) is None,
    ensures
        ({
            let stored = effect(m, store, pc, tick, sample);
            &&& stored.memory.subrange(m.index as int, m.index + operand_x(store) + 1)
                == m.registers.take(operand_x(store) + 1)
            &&& fault(stored, load) is None
            &&& effect(stored, load, load_pc, load_tick, load_sample).registers == m.registers
        }),
{
    let stored = effect(m, store, pc, tick, sample);
    let x = operand_x(store);
    assert(stored.memory.subrange(m.index as int, m.index + x + 1) == m.registers.take(x + 1));
    assert(effect(stored, load, load_pc, load_tick, load_sample).registers == m.registers);
}

/// Whether the condition of the conditional skip `opcode` holds: `3XNN`
/// asks that VX equal NN, `4XNN` that it differ; `5XY_` asks that VX equal
/// VY, `9XY_` that it differ; `EX9E` asks that the key be down, `EXA1` that
/// it be up.
pub open spec fn skip_condition(m: Machine, opcode: u16, sample: Sample) -> bool {
    let vx = m.registers[operand_x(opcode)];
    let vy = m.registers[operand_y(opcode)];
    if family(opcode) == 0x3 {
        vx == immediate(opcode)
    } else if family(opcode) == 0x4 {
        vx != immediate(opcode)
    } else if family(opcode) == 0x5 {
        vx == vy
    } else if family(opcode) == 0x9 {
        vx != vy
    } else if immediate(opcode) == 0x9E {
        sample.key_down
    } else {
        !sample.key_down
    }
}

/// Whether `opcode` is a conditional skip.
pub open spec fn is_skip(opcode: u16) -> bool {
    ||| family(opcode) == 0x3
    ||| family(opcode) == 0x4
    ||| family(opcode) == 0x5
    ||| family(opcode) == 0x9
    ||| family(opcode) == 0xE && (immediate(opcode) == 0x9E || immediate(opcode) == 0xA1)
}

/// A conditional skip moves the program counter on by four where its
/// condition holds and by two where it does not, and changes nothing else
/// but the dirty flag and, if they tick, the timers.
pub proof fn law_conditional_skip(m: Machine, opcode: u16, pc: u16, tick: bool, sample: Sample)
    requires
        m.valid(),
        is_skip(opcode),
    ensures
        skip_condition(m, opcode, sample) ==> next_counter(m, opcode, pc, sample) == wrap16(pc + 4),
        !skip_condition(m, opcode, sample) ==> next_counter(m, opcode, pc, sample) == wrap16(
            pc + 2,
        ),
        effect(m, opcode, pc, tick, sample).registers == m.registers,
        effect(m, opcode, pc, tick, sample).memory == m.memory,
        effect(m, opcode, pc, tick, sample).stack == m.stack,
        effect(m, opcode, pc, tick, sample).index == m.index,
        effect(m, opcode, pc, tick, sample).screen.pixels == m.screen.pixels,
{
}

/// In a cycle that executes a conditional skip the program counter goes up
/// by exactly four where the condition holds and by exactly two where it
/// does not.
pub proof fn law_conditional_skip_cycle(m: Machine, tick: bool, sample: Sample)
    requires
        m.valid(),
        cycle_fault(m) is None,
        is_skip(fetched(m)),
    ensures
        skip_condition(m, fetched(m), sample) ==> cycled(m, tick, sample).counter == m.counter + 4,
        !skip_condition(m, fetched(m), sample) ==> cycled(m, tick, sample).counter == m.counter
            + 2,
{
}

/// While no key is reported, a cycle that executes `FX0A` leaves the
/// program counter where it is, and with it the registers, the index, the
/// stack, memory and the pixels: the next cycle executes the same
/// instruction again.
pub proof fn law_await_key_blocks(m: Machine, tick: bool, sample: Sample)
    requires
        m.valid(),
        cycle_fault(m) is None,
        awaits_key(fetched(m)),
        sample.last_key is None,
    ensures
        ({
            let after = cycled(m, tick, sample);
            &&& after.counter == m.counter
            &&& after.registers == m.registers
            &&& after.index == m.index
            &&& after.stack == m.stack
            &&& after.memory == m.memory
            &&& after.screen.pixels == m.screen.pixels
            &&& after.valid()
            &&& cycle_fault(after) is None
            &&& fetched(after) == fetched(m)
        }),
{
}

/// The machine after the cycles that `ticks` and `samples` describe, one
/// after the other.
pub open spec fn cycles(m: Machine, ticks: Seq<bool>, samples: Seq<Sample>) -> Machine
    decreases ticks.len(),
{
    if ticks.len() == 0 {
        m
    } else {
        cycled(cycles(m, ticks.drop_last(), samples.drop_last()), ticks.last(), samples.last())
    }
}

/// However many cycles execute `FX0A` while no key is reported, the program
/// counter stays where it is and the machine goes on waiting.
pub proof fn law_await_key_blocks_repeatedly(m: Machine, ticks: Seq<bool>, samples: Seq<Sample>)
    requires
        m.valid(),
        cycle_fault(m) is None,
        awaits_key(fetched(m)),
        ticks.len() == samples.len(),
        forall|k: int| 0 <= k < samples.len() ==> samples[k].last_key is None,
    ensures
        ({
            let after = cycles(m, ticks, samples);
            &&& after.counter == m.counter
            &&& after.registers == m.registers
            &&& after.memory == m.memory
            &&& after.valid()
            &&& cycle_fault(after) is None
            &&& fetched(after) == fetched(m)
        }),
    decreases ticks.len(),
{
    if ticks.len() > 0 {
        law_await_key_blocks_repeatedly(m, ticks.drop_last(), samples.drop_last());
        let before = cycles(m, ticks.drop_last(), samples.drop_last());
        law_await_key_blocks(before, ticks.last(), samples.last());
    }
}

/// In the cycle in which a key is reported, `FX0A` puts that key into VX
/// and moves the program counter on by two.
pub proof fn law_await_key_releases(m: Machine, tick: bool, sample: Sample, key: u8)
    requires
        m.valid(),
        cycle_fault(m) is None,
        awaits_key(fetched(m)),
        sample.last_key == Some(key),
    ensures
        cycled(m, tick, sample).counter == m.counter + 2,
        cycled(m, tick, sample).registers == m.registers.update(operand_x(fetched(m)), key),
        cycled(m, tick, sample).registers[operand_x(fetched(m))] == key,
{
}

/// The sprite that `DXYN` draws: the `N` bytes that memory holds from `I`
/// on.
pub open spec fn sprite_of(m: Machine, opcode: u16) -> Seq<u8> {
    m.memory.subrange(m.index as int, m.index + nibble(opcode))
}

/// `DXYN`, executed twice in a row with neither X nor Y the flag register,
/// for a sprite that has a set pixel and whose set pixels all land on dark
/// pixels: the first time it leaves zero in VF, the second time one, and
/// then the pixels are as they were before the first time. The display is
/// dirty after both.
pub proof fn law_draw_instruction_twice(
    m: Machine,
    opcode: u16,
    pc: u16,
    tick: bool,
    sample: Sample,
    again_pc: u16,
    again_tick: bool,
    again_sample: Sample,
)
    requires
        m.valid(),
        family(opcode) == 0xD,
        fault(m, opcode) is None,
        operand_x(opcode) != 0xF,
        operand_y(opcode) != 0xF,
        exists|r: int, column: int| #[trigger] sprite_pixel(sprite_of(m, opcode), r, column),
        !lands_on_lit(
            m.screen.pixels,
            sprite_of(m, opcode),
            m.registers[operand_x(opcode)] as int,
            m.registers[operand_y(opcode)] as int,
        ),
    ensures
        ({
            let once = effect(m, opcode, pc, tick, sample);
            let twice = effect(once, opcode, again_pc, again_tick, again_sample);
            &&& once.registers[0xF] == 0
            &&& once.screen.dirty
            &&& twice.registers[0xF] == 1
            &&& twice.screen.dirty
            &&& twice.screen.pixels == m.screen.pixels
        }),
{
    let rows = sprite_of(m, opcode);
    let x = m.registers[operand_x(opcode)] as int;
    let y = m.registers[operand_y(opcode)] as int;
    law_draw_twice(m.screen.pixels, rows, x, y);
    let once = effect(m, opcode, pc, tick, sample);
    assert(sprite_of(once, opcode) == rows);
    assert(once.screen.pixels == drawn(m.screen.pixels, rows, x, y));
}

} // verus!
