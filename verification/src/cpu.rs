use vstd::prelude::*;
use vstd::pervasive::unreached;
use crate::display::{blank, Screen};
use crate::machine::{
    alu, asked, cycle_fault, cycled, drawing, effect, family, fault, fetched, immediate,
    miscellany, next_counter, operand_x, performed, powered_on, Fault, Machine, Sample,
};
use crate::memory::{Memory, MEMORY_SIZE, PROGRAM_BASE_ADDRESS};
use crate::registers::Registers;
use crate::stack::{Stack, STACK_SIZE};
use crate::timer::Timer;
use crate::{Display, Input};

verus! {

/// The interpreter: it owns the registers, the call stack, main memory, the
/// display and the two timers, and executes one instruction each cycle.
pub struct CPU<D: Display> {
    /// The general registers, `V0` to `VF`.
    pub v: Registers,
    /// The index register, `I`.
    pub i: u16,
    /// The program counter.
    pub pc: u16,
    /// The opcode that the latest cycle fetched.
    pub opcode: u16,
    /// The call stack.
    pub stack: Stack,
    /// Main memory.
    pub memory: Memory,
    /// The display that the draw and clear instructions work on.
    pub display: D,
    /// The delay timer.
    pub delay_timer: Timer,
    /// The sound timer.
    pub sound_timer: Timer,
}

impl<D: Display> View for CPU<D> {
    type V = Machine;

    open spec fn view(&self) -> Machine {
        Machine {
            registers: self.v@,
            index: self.i,
            counter: self.pc,
            opcode: self.opcode,
            stack: self.stack@,
            memory: self.memory@,
            screen: self.display.screen(),
            delay: self.delay_timer@,
            sound: self.sound_timer@,
        }
    }
}

/// The fields of an opcode as masks and shifts give them are the ones that
/// division and remainder give.
proof fn lemma_fields(opcode: u16)
    by (bit_vector)
    ensures
        opcode & 0xF000 == (opcode / 0x1000) * 0x1000,
        (opcode & 0x0F00) >> 8 == (opcode / 0x100) % 16,
        (opcode & 0x00F0) >> 4 == (opcode / 0x10) % 16,
        opcode & 0x000F == opcode % 16,
        opcode & 0x00FF == opcode % 256,
        opcode & 0x0FFF == opcode % 4096,
{
}

/// Two bytes joined into a word by a shift and an or make the word that has
/// them as its digits to the base 256.
proof fn lemma_joined(high: u8, low: u8)
    by (bit_vector)
    ensures
        (high as u16) << 8 | (low as u16) == high * 0x100 + low,
{
}

/// A random byte, from `rand::random`, which draws it from the generator of
/// the running thread. Nothing is claimed of the byte.
#[verifier::external_body]
fn random_byte() -> u8 {
    rand::random()
}

/// Executes the arithmetic instruction `8XY_` whose last digit is `operation`
/// on the registers `v`.
fn execute_alu(v: &mut Registers, operation: u16, x: u16, y: u16)
    requires
        operation <= 0x7 || operation == 0xE,
        x < 16,
        y < 16,
    ensures
        final(v)@ == alu(old(v)@, operation as int, x as int, y as int),
{
    proof {
        v.lemma_size();
    }
    if operation == 0x0 {
        v.set(x, v[y]);
    } else if operation == 0x1 {
        v.set(x, v[x] | v[y]);
    } else if operation == 0x2 {
        v.set(x, v[x] & v[y]);
    } else if operation == 0x3 {
        v.set(x, v[x] ^ v[y]);
    } else if operation == 0x4 {
        let will_overflow = v[x].checked_add(v[y]).is_none();
        v.set(0xF, if will_overflow { 1 } else { 0 });
        v.set(x, v[x].wrapping_add(v[y]));
    } else if operation == 0x5 {
        v.set(0xF, if v[x] > v[y] { 1 } else { 0 });
        v.set(x, v[x].wrapping_sub(v[y]));
    } else if operation == 0x6 {
        v.set(0xF, v[x] & 0x1);
        v.set(x, v[x] >> 1);
    } else if operation == 0x7 {
        v.set(0xF, if v[y] > v[x] { 1 } else { 0 });
        v.set(x, v[y].wrapping_sub(v[x]));
    } else {
        v.set(0xF, (v[x] & 0x80) >> 7);
        v.set(x, v[x] << 1);
    }
}

impl<D: Display> CPU<D> {
    /// An interpreter that is about to run the program in `memory` from the
    /// start, and draws on `display`.
    pub fn new(memory: Memory, display: D) -> (cpu: Self)
        ensures
            cpu@ == powered_on(memory@, display.screen()),
    {
        CPU {
            v: Registers::default(),
            i: 0,
            pc: PROGRAM_BASE_ADDRESS,
            opcode: 0,
            stack: Stack::new(),
            memory,
            display,
            delay_timer: Timer::default(),
            sound_timer: Timer::default(),
        }
    }

    /// Starts over with `memory`: the display is cleared and kept, everything
    /// else is as in a new interpreter.
    pub fn reset(self, memory: Memory) -> (cpu: Self)
        ensures
            cpu@ == powered_on(memory@, Screen { pixels: blank(), dirty: true }),
    {
        let mut display = self.display;
        display.cls();
        Self::new(memory, display)
    }

    /// The opcode at the program counter.
    pub fn fetch(&self) -> (opcode: u16)
        requires
            self.pc + 1 < MEMORY_SIZE,
        ensures
            opcode == fetched(self@),
    {
        let high = self.memory[self.pc];
        let low = self.memory[self.pc.wrapping_add(1)];
        proof {
            lemma_joined(high, low);
        }
        (high as u16) << 8 | low as u16
    }

    /// Why the instruction `opcode` cannot be executed now, if it cannot.
    pub fn fault(&self, opcode: u16) -> (found: Option<Fault>)
        ensures
            found == fault(self@, opcode),
    {
        proof {
            lemma_fields(opcode);
        }
        let x = (opcode & 0x0F00) >> 8;
        let n = opcode & 0x000F;
        let selector = opcode & 0x00FF;
        let index = self.i as usize;
        match opcode & 0xF000 {
            0x0000 => {
                if n == 0x0 {
                    None
                } else if n != 0xE {
                    Some(Fault::UnknownOpcode)
                } else if self.stack.depth() == 0 {
                    Some(Fault::StackUnderflow)
                } else {
                    None
                }
            },
            0x2000 => {
                if self.stack.depth() >= STACK_SIZE {
                    Some(Fault::StackOverflow)
                } else {
                    None
                }
            },
            0x8000 => {
                if n <= 0x7 || n == 0xE {
                    None
                } else {
                    Some(Fault::UnknownOpcode)
                }
            },
            0xD000 => {
                if index + n as usize <= MEMORY_SIZE {
                    None
                } else {
                    Some(Fault::InvalidAddress)
                }
            },
            0xE000 => {
                if selector == 0x9E || selector == 0xA1 {
                    None
                } else {
                    Some(Fault::UnknownOpcode)
                }
            },
            0xF000 => {
                if selector == 0x33 {
                    if index + 3 <= MEMORY_SIZE {
                        None
                    } else {
                        Some(Fault::InvalidAddress)
                    }
                } else if selector == 0x55 || selector == 0x65 {
                    if index + x as usize + 1 <= MEMORY_SIZE {
                        None
                    } else {
                        Some(Fault::InvalidAddress)
                    }
                } else if selector == 0x07 || selector == 0x0A || selector == 0x15 || selector
                    == 0x18 || selector == 0x1E || selector == 0x29 {
                    None
                } else {
                    Some(Fault::UnknownOpcode)
                }
            },
            _ => None,
        }
    }

    /// Why the next cycle cannot run, if it cannot.
    pub fn next_fault(&self) -> (found: Option<Fault>)
        ensures
            found == cycle_fault(self@),
    {
        if self.pc as usize + 2 > MEMORY_SIZE {
            Some(Fault::InvalidAddress)
        } else {
            self.fault(self.fetch())
        }
    }

    /// One cycle: fetches the opcode at the program counter, executes it and
    /// moves the counter on. `input` is asked for the keys, and a random byte
    /// is drawn, where the instruction needs them.
    pub fn cycle(&mut self, tick_timers: bool, input: &dyn Input)
        requires
            cycle_fault(old(self)@) is None,
        ensures
            exists|sample: Sample|
                asked(fetched(old(self)@), sample) && final(self)@ == #[trigger] cycled(
                    old(self)@,
                    tick_timers,
                    sample,
                ),
    {
        let sample = self.sample(self.fetch(), input);
        self.cycle_with(tick_timers, sample);
    }

    /// One cycle, with `sample` for what the outside world has to say:
    /// fetches the opcode at the program counter, executes it and moves the
    /// counter on.
    pub fn cycle_with(&mut self, tick_timers: bool, sample: Sample)
        requires
            cycle_fault(old(self)@) is None,
        ensures
            final(self)@ == cycled(old(self)@, tick_timers, sample),
    {
        self.opcode = self.fetch();
        let next_pc = self.execute_with(self.opcode, self.pc, tick_timers, sample);
        self.pc = next_pc;
    }

    /// Asks the outside world for what the instruction `opcode` needs: the
    /// state of the key in VX for `EX9E` and `EXA1`, a key that is down for
    /// `FX0A`, a random byte for `CXNN`, and nothing for any other.
    fn sample(&self, opcode: u16, input: &dyn Input) -> (sample: Sample)
        ensures
            asked(opcode, sample),
    {
        proof {
            lemma_fields(opcode);
        }
        let family = opcode & 0xF000;
        let key_down = if family == 0xE000 {
            input.is_key_down(self.v[(opcode & 0x0F00) >> 8])
        } else {
            false
        };
        let last_key = if family == 0xF000 && opcode & 0x00FF == 0x0A {
            input.last_key_down()
        } else {
            None
        };
        let random = if family == 0xC000 {
            random_byte()
        } else {
            0
        };
        Sample { key_down, last_key, random }
    }

    /// Executes the instruction `opcode`, fetched at `current_pc`, and gives
    /// the program counter that follows. `input` is asked for the keys, and a
    /// random byte is drawn, where the instruction needs them.
    pub fn execute_opcode(
        &mut self,
        opcode: u16,
        current_pc: u16,
        tick_timers: bool,
        input: &dyn Input,
    ) -> (next_pc: u16)
        requires
            fault(old(self)@, opcode) is None,
        ensures
            exists|sample: Sample|
                asked(opcode, sample) && final(self)@ == #[trigger] effect(
                    old(self)@,
                    opcode,
                    current_pc,
                    tick_timers,
                    sample,
                ) && next_pc == next_counter(old(self)@, opcode, current_pc, sample),
    {
        let sample = self.sample(opcode, input);
        self.execute_with(opcode, current_pc, tick_timers, sample)
    }

    /// Executes the instruction `opcode`, fetched at `current_pc`, with
    /// `sample` for what the outside world has to say, and gives the program
    /// counter that follows.
    pub fn execute_with(
        &mut self,
        opcode: u16,
        current_pc: u16,
        tick_timers: bool,
        sample: Sample,
    ) -> (next_pc: u16)
        requires
            fault(old(self)@, opcode) is None,
        ensures
            final(self)@ == effect(old(self)@, opcode, current_pc, tick_timers, sample),
            next_pc == next_counter(old(self)@, opcode, current_pc, sample),
    {
        proof {
            lemma_fields(opcode);
            self.v.lemma_size();
            self.memory.lemma_size();
        }
        self.display.clear_dirty();
        let ghost cleared = self@;
        let x = (opcode & 0x0F00) >> 8;
        let y = (opcode & 0x00F0) >> 4;
        let next_pc = match opcode & 0xF000 {
            0x0000 => self.execute_system(opcode, current_pc),
            // 1NNN: jump to NNN
            0x1000 => opcode & 0x0FFF,
            // 2NNN: call the subroutine at NNN
            0x2000 => {
                self.stack_push(current_pc.wrapping_add(2));
                opcode & 0x0FFF
            },
            0x3000 | 0x4000 | 0x5000 | 0x9000 | 0xE000 => self.execute_skip(
                opcode,
                current_pc,
                sample.key_down,
            ),
            0x6000 | 0x7000 | 0xA000 | 0xC000 => {
                self.execute_load(opcode, sample.random);
                current_pc.wrapping_add(2)
            },
            // 8XY_: arithmetic on VX and VY
            0x8000 => {
                execute_alu(&mut self.v, opcode & 0x000F, x, y);
                current_pc.wrapping_add(2)
            },
            // BNNN: jump to NNN + V0
            0xB000 => (opcode & 0x0FFF) + self.v[0] as u16,
            0xD000 => {
                self.execute_draw(opcode);
                current_pc.wrapping_add(2)
            },
            0xF000 => {
                let blocked = self.execute_miscellany((opcode & 0x00FF) as u8, x, sample.last_key);
                if !blocked {
                    current_pc.wrapping_add(2)
                } else {
                    current_pc
                }
            },
            _ => unreached(),
        };
        assert(self@ == performed(cleared, opcode, current_pc, sample));
        assert(next_pc == next_counter(cleared, opcode, current_pc, sample));
        assert(next_counter(cleared, opcode, current_pc, sample) == next_counter(
            old(self)@,
            opcode,
            current_pc,
            sample,
        ));
        if tick_timers {
            self.delay_timer.tick();
            self.sound_timer.tick();
        }
        next_pc
    }

    /// Executes an instruction of the family `0___`: `00E0` clears the
    /// screen, `00EE` returns from a subroutine.
    fn execute_system(&mut self, opcode: u16, current_pc: u16) -> (next_pc: u16)
        requires
            family(opcode) == 0x0,
            fault(old(self)@, opcode) is None,
        ensures
            forall|sample: Sample|
                final(self)@ == #[trigger] performed(old(self)@, opcode, current_pc, sample),
            forall|sample: Sample|
                next_pc == #[trigger] next_counter(old(self)@, opcode, current_pc, sample),
    {
        proof {
            lemma_fields(opcode);
        }
        match opcode & 0x000F {
            // 00E0: clear the screen
            0x0000 => {
                self.display.cls();
                current_pc.wrapping_add(2)
            },
            // 00EE: return from a subroutine
            0x000E => self.stack_pop(),
            _ => unreached(),
        }
    }

    /// The program counter after a conditional skip: four on from
    /// `current_pc` where the condition holds, two on where it does not.
    fn execute_skip(&self, opcode: u16, current_pc: u16, key_down: bool) -> (next_pc: u16)
        requires
            family(opcode) == 0x3 || family(opcode) == 0x4 || family(opcode) == 0x5 || family(
                opcode,
            ) == 0x9 || family(opcode) == 0xE,
            fault(self@, opcode) is None,
        ensures
            forall|sample: Sample|
                sample.key_down == key_down ==> next_pc == #[trigger] next_counter(
                    self@,
                    opcode,
                    current_pc,
                    sample,
                ),
    {
        proof {
            lemma_fields(opcode);
            self.v.lemma_size();
        }
        let x = (opcode & 0x0F00) >> 8;
        let y = (opcode & 0x00F0) >> 4;
        let value = (opcode & 0x00FF) as u8;
        let skip = match opcode & 0xF000 {
            // 3XNN: skip the next instruction if VX equals NN
            0x3000 => self.v[x] == value,
            // 4XNN: skip the next instruction if VX differs from NN
            0x4000 => self.v[x] != value,
            // 5XY0: skip the next instruction if VX equals VY
            0x5000 => self.v[x] == self.v[y],
            // 9XY0: skip the next instruction if VX differs from VY
            0x9000 => self.v[x] != self.v[y],
            0xE000 => {
                match opcode & 0x00FF {
                    // EX9E: skip the next instruction if the key in VX is down
                    0x009E => key_down,
                    // EXA1: skip the next instruction if the key in VX is up
                    0x00A1 => !key_down,
                    _ => unreached(),
                }
            },
            _ => unreached(),
        };
        if skip {
            current_pc.wrapping_add(4)
        } else {
            current_pc.wrapping_add(2)
        }
    }

    /// Executes an instruction that loads a register from its operands:
    /// `6XNN`, `7XNN`, `ANNN` or `CXNN`.
    fn execute_load(&mut self, opcode: u16, random: u8)
        requires
            family(opcode) == 0x6 || family(opcode) == 0x7 || family(opcode) == 0xA || family(
                opcode,
            ) == 0xC,
        ensures
            forall|pc: u16, sample: Sample|
                sample.random == random ==> final(self)@ == #[trigger] performed(
                    old(self)@,
                    opcode,
                    pc,
                    sample,
                ),
    {
        proof {
            lemma_fields(opcode);
            self.v.lemma_size();
        }
        let x = (opcode & 0x0F00) >> 8;
        let value = (opcode & 0x00FF) as u8;
        match opcode & 0xF000 {
            // 6XNN: set VX to NN
            0x6000 => {
                self.v.set(x, value);
            },
            // 7XNN: add NN to VX; the flag is left alone
            0x7000 => {
                self.v.set(x, self.v[x].wrapping_add(value));
            },
            // ANNN: set I to NNN
            0xA000 => {
                self.i = opcode & 0x0FFF;
            },
            // CXNN: set VX to a random byte masked by NN
            0xC000 => {
                self.v.set(x, random & value);
            },
            _ => unreached(),
        }
    }

    /// Executes `DXYN`: draws the sprite of N rows that memory holds at I at
    /// column VX of row VY, and sets VF where it collided.
    fn execute_draw(&mut self, opcode: u16)
        requires
            family(opcode) == 0xD,
            fault(old(self)@, opcode) is None,
        ensures
            final(self)@ == drawing(old(self)@, opcode),
    {
        proof {
            lemma_fields(opcode);
            self.v.lemma_size();
            self.memory.lemma_size();
        }
        let x = self.v[(opcode & 0x0F00) >> 8];
        let y = self.v[(opcode & 0x00F0) >> 4];
        let n = (opcode & 0x000F) as u8;
        let collided = self.display.draw_sprite(x, y, self.i, n, &self.memory);
        self.v.set(0xF, if collided { 1 } else { 0 });
    }

    /// Executes the instruction `FX__` whose lower byte is `selector`, and
    /// says whether it is still waiting for a key.
    fn execute_miscellany(&mut self, selector: u8, x: u16, last_key: Option<u8>) -> (blocked: bool)
        requires
            x < 16,
            fault(old(self)@, (0xF000 + x * 0x100 + selector) as u16) is None,
        ensures
            final(self)@ == miscellany(old(self)@, selector, x as int, last_key),
            blocked == (selector == 0x0A && last_key is None),
    {
        proof {
            self.v.lemma_size();
            self.memory.lemma_size();
        }
        let ghost opcode = (0xF000 + x * 0x100 + selector) as u16;
        assert(family(opcode) == 0xF);
        assert(immediate(opcode) == selector);
        assert(operand_x(opcode) == x);
        match selector {
            // FX07: set VX to the count of the delay timer
            0x07 => {
                self.v.set(x, self.delay_timer.current_value());
                false
            },
            // FX0A: wait for a key and put it into VX
            0x0A => match last_key {
                Some(key) => {
                    self.v.set(x, key);
                    false
                },
                None => true,
            },
            // FX15: set the delay timer to VX
            0x15 => {
                self.delay_timer.set_value(self.v[x]);
                false
            },
            // FX18: set the sound timer to VX
            0x18 => {
                self.sound_timer.set_value(self.v[x]);
                false
            },
            // FX1E: add VX to I
            0x1E => {
                self.i = self.i.wrapping_add(self.v[x] as u16);
                false
            },
            // FX29: set I to the address of the glyph for the digit in VX
            0x29 => {
                self.i = self.memory.font_address_for_character(self.v[x]);
                false
            },
            // FX33: store the decimal digits of VX at I, I + 1 and I + 2
            0x33 => {
                let value = self.v[x];
                self.memory.set(self.i, value / 100);
                self.memory.set(self.i + 1, (value / 10) % 10);
                self.memory.set(self.i + 2, (value % 100) % 10);
                false
            },
            // FX55: store V0 to VX in memory from I on
            0x55 => {
                self.memory.copy_from_slice(self.i, self.v.as_slice_through(x));
                false
            },
            // FX65: load V0 to VX from memory at I
            0x65 => {
                self.v.clone_from_slice(self.memory.as_slice(self.i, x + 1));
                false
            },
            _ => unreached(),
        }
    }

    /// Puts the return address `value` on the stack.
    pub fn stack_push(&mut self, value: u16)
        requires
            old(self)@.stack.len() < STACK_SIZE,
        ensures
            final(self)@ == (Machine { stack: old(self)@.stack.push(value), ..old(self)@ }),
    {
        self.stack.push(value);
    }

    /// Takes the latest return address off the stack.
    pub fn stack_pop(&mut self) -> (value: u16)
        requires
            old(self)@.stack.len() > 0,
        ensures
            value == old(self)@.stack.last(),
            final(self)@ == (Machine { stack: old(self)@.stack.drop_last(), ..old(self)@ }),
    {
        self.stack.pop()
    }
}

} // verus!
