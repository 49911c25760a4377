use vstd::prelude::*;
use crate::display::{blank, Screen};
use crate::sprite::{collides, drawn};
use crate::memory::{glyph_address, overwritten, MEMORY_SIZE, PROGRAM_BASE_ADDRESS};
use crate::stack::STACK_SIZE;
use crate::timer::ticked;

verus! {

/// What the interpreter learns from the outside world while it executes one
/// instruction. An instruction that does not ask for a value ignores it.
#[derive(Clone, Copy, Debug)]
pub struct Sample {
    /// Whether the key whose number is in `VX` is held down.
    pub key_down: bool,
    /// A key that is held down now, if there is one.
    pub last_key: Option<u8>,
    /// A random byte.
    pub random: u8,
}

/// Why the interpreter cannot execute an instruction. None of these can be
/// recovered from: the program is malformed.
#[derive(Clone, Copy, Debug, PartialEq, Eq, Structural)]
pub enum Fault {
    /// The opcode is none that its family knows.
    UnknownOpcode,
    /// The instruction reads or writes memory past its end.
    InvalidAddress,
    /// A call with the stack full.
    StackOverflow,
    /// A return with the stack empty.
    StackUnderflow,
}

/// The state of the interpreter.
#[verifier::ext_equal]
pub struct Machine {
    /// The general registers, `V0` first.
    pub registers: Seq<u8>,
    /// The index register, `I`.
    pub index: u16,
    /// The program counter.
    pub counter: u16,
    /// The opcode that the latest cycle fetched.
    pub opcode: u16,
    /// The return addresses of the calls under way, the latest one last.
    pub stack: Seq<u16>,
    /// Main memory, by address.
    pub memory: Seq<u8>,
    /// What the display shows.
    pub screen: Screen,
    /// The count of the delay timer.
    pub delay: u8,
    /// The count of the sound timer.
    pub sound: u8,
}

impl Machine {
    /// Sixteen registers, 4096 bytes of memory, a stack within its capacity,
    /// and a screen of 64 by 32 pixels.
    pub open spec fn valid(self) -> bool {
        &&& self.registers.len() == 16
        &&& self.memory.len() == MEMORY_SIZE
        &&& self.stack.len() <= STACK_SIZE
        &&& self.screen.pixels.len() == 64 * 32
    }
}

/// The machine as it is switched on with `memory` in place and `screen` on
/// its display: the program counter at the start of the program, everything
/// else at zero, and no call under way.
pub open spec fn powered_on(memory: Seq<u8>, screen: Screen) -> Machine {
    Machine {
        registers: Seq::new(16, |i: int| 0u8),
        index: 0,
        counter: PROGRAM_BASE_ADDRESS,
        opcode: 0,
        stack: Seq::empty(),
        memory,
        screen,
        delay: 0,
        sound: 0,
    }
}

/// The family of an opcode: its highest four bits.
pub open spec fn family(opcode: u16) -> int {
    opcode as int / 0x1000
}

/// The number of the register `X` of an opcode `_X__`.
pub open spec fn operand_x(opcode: u16) -> int {
    (opcode as int / 0x100) % 16
}

/// The number of the register `Y` of an opcode `__Y_`.
pub open spec fn operand_y(opcode: u16) -> int {
    (opcode as int / 0x10) % 16
}

/// The lowest four bits of an opcode, `N` of `___N`.
pub open spec fn nibble(opcode: u16) -> int {
    opcode as int % 16
}

/// The lower byte of an opcode, `NN` of `__NN`.
pub open spec fn immediate(opcode: u16) -> u8 {
    (opcode % 256) as u8
}

/// The lowest twelve bits of an opcode, `NNN` of `_NNN`.
pub open spec fn target(opcode: u16) -> u16 {
    opcode % 4096
}

/// `n` as eight bits hold it.
pub open spec fn wrap8(n: int) -> u8 {
    (n % 0x100) as u8
}

/// `n` as sixteen bits hold it.
pub open spec fn wrap16(n: int) -> u16 {
    (n % 0x10000) as u16
}

/// One for `true`, zero for `false`: how the flag register holds an answer.
pub open spec fn flag(answer: bool) -> u8 {
    if answer {
        1
    } else {
        0
    }
}

/// The registers after the arithmetic instruction `8XY_` whose last digit is
/// `operation`. An instruction that reports in `VF` writes `VF` first and
/// then computes `VX` from the registers as they stand.
pub open spec fn alu(registers: Seq<u8>, operation: int, x: int, y: int) -> Seq<u8> {
    let vx = registers[x];
    let vy = registers[y];
    if operation == 0x0 {
        // 8XY0: VX := VY
        registers.update(x, vy)
    } else if operation == 0x1 {
        // 8XY1: VX := VX | VY
        registers.update(x, vx | vy)
    } else if operation == 0x2 {
        // 8XY2: VX := VX & VY
        registers.update(x, vx & vy)
    } else if operation == 0x3 {
        // 8XY3: VX := VX ^ VY
        registers.update(x, vx ^ vy)
    } else if operation == 0x4 {
        // 8XY4: VF := carry; VX := VX + VY
        let flagged = registers.update(0xF, flag(vx + vy > 255));
        flagged.update(x, wrap8(flagged[x] + flagged[y]))
    } else if operation == 0x5 {
        // 8XY5: VF := VX > VY; VX := VX - VY
        let flagged = registers.update(0xF, flag(vx > vy));
        flagged.update(x, wrap8(flagged[x] - flagged[y]))
    } else if operation == 0x6 {
        // 8XY6: VF := lowest bit of VX; VX := VX >> 1
        let flagged = registers.update(0xF, vx & 1);
        flagged.update(x, flagged[x] >> 1)
    } else if operation == 0x7 {
        // 8XY7: VF := VY > VX; VX := VY - VX
        let flagged = registers.update(0xF, flag(vy > vx));
        flagged.update(x, wrap8(flagged[y] - flagged[x]))
    } else if operation == 0xE {
        // 8XYE: VF := highest bit of VX; VX := VX << 1
        let flagged = registers.update(0xF, (vx & 0x80) >> 7);
        flagged.update(x, flagged[x] << 1)
    } else {
        registers
    }
}

/// The three decimal digits of `value`: hundreds, tens, ones.
pub open spec fn decimal_digits(value: u8) -> Seq<u8> {
    seq![value / 100, (value / 10) % 10, value % 10]
}

/// The machine after the instruction `DXYN`: the sprite of `N` rows that
/// memory holds at `I` is drawn at column `VX` of row `VY`, and `VF` says
/// whether it collided.
pub open spec fn drawing(m: Machine, opcode: u16) -> Machine {
    let rows = m.memory.subrange(m.index as int, m.index + nibble(opcode));
    let x = m.registers[operand_x(opcode)] as int;
    let y = m.registers[operand_y(opcode)] as int;
    Machine {
        screen: Screen { pixels: drawn(m.screen.pixels, rows, x, y), dirty: true },
        registers: m.registers.update(0xF, flag(collides(m.screen.pixels, rows, x, y))),
        ..m
    }
}

/// The machine after the instruction `FX__` whose lower byte is `selector`.
pub open spec fn miscellany(m: Machine, selector: u8, x: int, last_key: Option<u8>) -> Machine {
    let vx = m.registers[x];
    if selector == 0x07 {
        // FX07: VX := delay timer
        Machine { registers: m.registers.update(x, m.delay), ..m }
    } else if selector == 0x0A {
        // FX0A: VX := the key that is down, if one is
        match last_key {
            Some(key) => Machine { registers: m.registers.update(x, key), ..m },
            None => m,
        }
    } else if selector == 0x15 {
        // FX15: delay timer := VX
        Machine { delay: vx, ..m }
    } else if selector == 0x18 {
        // FX18: sound timer := VX
        Machine { sound: vx, ..m }
    } else if selector == 0x1E {
        // FX1E: I := I + VX
        Machine { index: wrap16(m.index + vx), ..m }
    } else if selector == 0x29 {
        // FX29: I := address of the glyph for VX
        Machine { index: glyph_address(vx) as u16, ..m }
    } else if selector == 0x33 {
        // FX33: memory at I, I + 1, I + 2 := decimal digits of VX
        Machine { memory: overwritten(m.memory, m.index as int, decimal_digits(vx)), ..m }
    } else if selector == 0x55 {
        // FX55: memory from I on := V0 to VX
        Machine { memory: overwritten(m.memory, m.index as int, m.registers.take(x + 1)), ..m }
    } else if selector == 0x65 {
        // FX65: V0 to VX := memory from I on
        Machine {
            registers: overwritten(
                m.registers,
                0,
                m.memory.subrange(m.index as int, m.index + x + 1),
            ),
            ..m
        }
    } else {
        m
    }
}

/// The machine after the instruction `opcode`, fetched at `pc`, did its
/// work, but for the program counter. The jumps and the skips work on the
/// program counter alone, and an opcode that its family does not know does
/// nothing here: `fault` says that it cannot be executed.
pub open spec fn performed(m: Machine, opcode: u16, pc: u16, sample: Sample) -> Machine {
    let x = operand_x(opcode);
    let y = operand_y(opcode);
    let vx = m.registers[x];
    if family(opcode) == 0x0 && nibble(opcode) == 0x0 {
        // 00E0: clear the screen
        Machine { screen: Screen { pixels: blank(), dirty: true }, ..m }
    } else if family(opcode) == 0x0 && nibble(opcode) == 0xE {
        // 00EE: return
        Machine { stack: m.stack.drop_last(), ..m }
    } else if family(opcode) == 0x2 {
        // 2NNN: call; the return address is the next instruction's
        Machine { stack: m.stack.push(wrap16(pc + 2)), ..m }
    } else if family(opcode) == 0x6 {
        // 6XNN: VX := NN
        Machine { registers: m.registers.update(x, immediate(opcode)), ..m }
    } else if family(opcode) == 0x7 {
        // 7XNN: VX := VX + NN
        Machine { registers: m.registers.update(x, wrap8(vx + immediate(opcode))), ..m }
    } else if family(opcode) == 0x8 {
        Machine { registers: alu(m.registers, nibble(opcode), x, y), ..m }
    } else if family(opcode) == 0xA {
        // ANNN: I := NNN
        Machine { index: target(opcode), ..m }
    } else if family(opcode) == 0xC {
        // CXNN: VX := random byte & NN
        Machine { registers: m.registers.update(x, sample.random & immediate(opcode)), ..m }
    } else if family(opcode) == 0xD {
        drawing(m, opcode)
    } else if family(opcode) == 0xF {
        miscellany(m, immediate(opcode), x, sample.last_key)
    } else {
        m
    }
}

/// The machine after the timers ticked once.
pub open spec fn timers_ticked(m: Machine) -> Machine {
    Machine { delay: ticked(m.delay), sound: ticked(m.sound), ..m }
}

/// The machine after one instruction, but for the program counter: the
/// dirty flag is cleared, the instruction does its work, and then, if `tick`
/// says so, both timers tick.
pub open spec fn effect(m: Machine, opcode: u16, pc: u16, tick: bool, sample: Sample) -> Machine {
    let cleared = Machine { screen: Screen { dirty: false, ..m.screen }, ..m };
    let done = performed(cleared, opcode, pc, sample);
    if tick {
        timers_ticked(done)
    } else {
        done
    }
}

/// Whether the instruction `opcode` is a conditional skip whose condition
/// holds.
pub open spec fn skips(m: Machine, opcode: u16, sample: Sample) -> bool {
    let vx = m.registers[operand_x(opcode)];
    let vy = m.registers[operand_y(opcode)];
    // 3XNN, 4XNN: VX against NN
    ||| family(opcode) == 0x3 && vx == immediate(opcode)
    ||| family(opcode) == 0x4 && vx != immediate(opcode)
    // 5XY_, 9XY_: VX against VY
    ||| family(opcode) == 0x5 && vx == vy
    ||| family(opcode) == 0x9 && vx != vy
    // EX9E, EXA1: the key in VX down, up
    ||| family(opcode) == 0xE && immediate(opcode) == 0x9E && sample.key_down
    ||| family(opcode) == 0xE && immediate(opcode) == 0xA1 && !sample.key_down
}

/// Whether `opcode` is `FX0A`, the instruction that waits for a key.
pub open spec fn awaits_key(opcode: u16) -> bool {
    family(opcode) == 0xF && immediate(opcode) == 0x0A
}

/// Whether the instruction `opcode` waits for a key and none is reported.
pub open spec fn blocks(opcode: u16, sample: Sample) -> bool {
    awaits_key(opcode) && sample.last_key is None
}

/// Whether the instruction `opcode` asks the outside world for anything: a
/// random byte, as `CXNN` does, or a key, as `EX9E`, `EXA1` and `FX0A` do.
pub open spec fn asks_outside(opcode: u16) -> bool {
    family(opcode) == 0xC || family(opcode) == 0xE || awaits_key(opcode)
}

/// Whether `sample` holds nothing but what the instruction `opcode` asks
/// the outside world for: what an instruction does not ask for is made out
/// as no key and a zero.
pub open spec fn asked(opcode: u16, sample: Sample) -> bool {
    &&& family(opcode) != 0xE ==> !sample.key_down
    &&& !awaits_key(opcode) ==> sample.last_key is None
    &&& family(opcode) != 0xC ==> sample.random == 0
}

/// The program counter after the instruction `opcode`, fetched at `pc`.
pub open spec fn next_counter(m: Machine, opcode: u16, pc: u16, sample: Sample) -> u16 {
    if family(opcode) == 0x0 && nibble(opcode) == 0xE {
        // 00EE: return to the latest return address
        m.stack.last()
    } else if family(opcode) == 0x1 || family(opcode) == 0x2 {
        // 1NNN, 2NNN: jump to NNN, call NNN
        target(opcode)
    } else if family(opcode) == 0xB {
        // BNNN: jump to NNN + V0
        (target(opcode) + m.registers[0]) as u16
    } else if skips(m, opcode, sample) {
        wrap16(pc + 4)
    } else if blocks(opcode, sample) {
        pc
    } else {
        wrap16(pc + 2)
    }
}

/// Whether memory holds `length` bytes from `base` on.
pub open spec fn in_memory(base: int, length: int) -> bool {
    base + length <= MEMORY_SIZE
}

/// Why the machine cannot execute the instruction `opcode`, if it cannot.
pub open spec fn fault(m: Machine, opcode: u16) -> Option<Fault> {
    let selector = immediate(opcode);
    if family(opcode) == 0x0 {
        if nibble(opcode) == 0x0 {
            None
        } else if nibble(opcode) != 0xE {
            Some(Fault::UnknownOpcode)
        } else if m.stack.len() == 0 {
            Some(Fault::StackUnderflow)
        } else {
            None
        }
    } else if family(opcode) == 0x2 {
        if m.stack.len() >= STACK_SIZE {
            Some(Fault::StackOverflow)
        } else {
            None
        }
    } else if family(opcode) == 0x8 {
        if nibble(opcode) <= 0x7 || nibble(opcode) == 0xE {
            None
        } else {
            Some(Fault::UnknownOpcode)
        }
    } else if family(opcode) == 0xD {
        if in_memory(m.index as int, nibble(opcode)) {
            None
        } else {
            Some(Fault::InvalidAddress)
        }
    } else if family(opcode) == 0xE {
        if selector == 0x9E || selector == 0xA1 {
            None
        } else {
            Some(Fault::UnknownOpcode)
        }
    } else if family(opcode) == 0xF {
        if selector == 0x33 {
            if in_memory(m.index as int, 3) {
                None
            } else {
                Some(Fault::InvalidAddress)
            }
        } else if selector == 0x55 || selector == 0x65 {
            if in_memory(m.index as int, operand_x(opcode) + 1) {
                None
            } else {
                Some(Fault::InvalidAddress)
            }
        } else if selector == 0x07 || selector == 0x0A || selector == 0x15 || selector == 0x18
            || selector == 0x1E || selector == 0x29 {
            None
        } else {
            Some(Fault::UnknownOpcode)
        }
    } else {
        None
    }
}

/// The opcode at the program counter: two bytes, the higher one first.
pub open spec fn fetched(m: Machine) -> u16 {
    (m.memory[m.counter as int] * 0x100 + m.memory[m.counter + 1]) as u16
}

/// Why the machine cannot run its next cycle, if it cannot.
pub open spec fn cycle_fault(m: Machine) -> Option<Fault> {
    if !in_memory(m.counter as int, 2) {
        Some(Fault::InvalidAddress)
    } else {
        fault(m, fetched(m))
    }
}

/// The machine after one cycle: it fetches the opcode at the program
/// counter, executes it, and moves the counter on.
pub open spec fn cycled(m: Machine, tick: bool, sample: Sample) -> Machine {
    let opcode = fetched(m);
    let fetching = Machine { opcode, ..m };
    Machine {
        counter: next_counter(fetching, opcode, m.counter, sample),
        ..effect(fetching, opcode, m.counter, tick, sample)
    }
}

} // verus!
