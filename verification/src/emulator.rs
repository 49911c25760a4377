use vstd::prelude::*;
use crate::cpu::CPU;
use crate::display::{blank, Screen};
use crate::machine::{
    asked, cycle_fault, cycled, fetched, powered_on, Fault, Machine, Sample,
};
use crate::memory::{overwritten, pristine, Memory, PROGRAM_BASE_ADDRESS};
use crate::{Display, Input};

verus! {

/// The largest program that fits into memory behind the reserved addresses.
pub const MAX_ROM_SIZE: usize = 3584;

/// What memory holds once the program `rom` is loaded: the font, and `rom`
/// from the address `0x200` on.
pub open spec fn loaded(rom: Seq<u8>) -> Seq<u8> {
    overwritten(pristine(), PROGRAM_BASE_ADDRESS as int, rom)
}

/// The state of an emulator.
#[verifier::ext_equal]
pub struct Session {
    /// The state of the interpreter.
    pub machine: Machine,
    /// The program, as it was given when the emulator was made.
    pub rom: Seq<u8>,
    /// Whether no cycle has run since the program was last started.
    pub initial: bool,
}

/// The session that starts the program `rom` on a display that shows
/// `screen`.
pub open spec fn started(rom: Seq<u8>, screen: Screen) -> Session {
    Session { machine: powered_on(loaded(rom), screen), rom, initial: true }
}

/// A program that fits into memory behind the reserved addresses.
struct Rom {
    bytes: Vec<u8>,
}

impl View for Rom {
    type V = Seq<u8>;

    closed spec fn view(&self) -> Seq<u8> {
        self.bytes@
    }
}

impl Rom {
    #[verifier::type_invariant]
    spec fn fits(self) -> bool {
        self.bytes@.len() <= MAX_ROM_SIZE
    }

    fn new(bytes: Vec<u8>) -> (rom: Rom)
        requires
            bytes@.len() <= MAX_ROM_SIZE,
        ensures
            rom@ == bytes@,
    {
        Rom { bytes }
    }

    fn as_slice(&self) -> (bytes: &[u8])
        ensures
            bytes@ == self@,
            bytes@.len() <= MAX_ROM_SIZE,
    {
        proof {
            use_type_invariant(self);
        }
        self.bytes.as_slice()
    }
}

/// An interpreter together with the program it runs, so that the program
/// can be started again from the beginning.
pub struct Emulator<D: Display> {
    cpu: CPU<D>,
    current_rom: Rom,
    is_initial_state: bool,
}

impl<D: Display> View for Emulator<D> {
    type V = Session;

    closed spec fn view(&self) -> Session {
        Session { machine: self.cpu@, rom: self.current_rom@, initial: self.is_initial_state }
    }
}

impl<D: Display> Emulator<D> {
    /// An emulator that is about to run the program `rom` from the start,
    /// and draws on `display`.
    pub fn new(display: D, rom: Vec<u8>) -> (emulator: Self)
        requires
            rom@.len() <= MAX_ROM_SIZE,
        ensures
            emulator@ == started(rom@, display.screen()),
    {
        let rom = Rom::new(rom);
        let mut memory = Memory::default();
        memory.copy_from_slice(PROGRAM_BASE_ADDRESS, rom.as_slice());
        let cpu = CPU::new(memory, display);
        Emulator { cpu, current_rom: rom, is_initial_state: true }
    }

    /// Whether no cycle has run since the program was last started.
    pub fn is_initial_state(&self) -> (initial: bool)
        ensures
            initial == self@.initial,
    {
        self.is_initial_state
    }

    /// Starts the program again as if the machine had just been switched on:
    /// memory is loaded afresh, the interpreter starts over and the screen
    /// is cleared.
    pub fn reset(self) -> (emulator: Self)
        ensures
            emulator@ == started(self@.rom, Screen { pixels: blank(), dirty: true }),
    {
        let mut memory = Memory::default();
        memory.copy_from_slice(PROGRAM_BASE_ADDRESS, self.current_rom.as_slice());
        let cpu = self.cpu.reset(memory);
        Emulator { cpu, current_rom: self.current_rom, is_initial_state: true }
    }

    /// Why the next cycle cannot run, if it cannot.
    pub fn next_fault(&self) -> (found: Option<Fault>)
        ensures
            found == cycle_fault(self@.machine),
    {
        self.cpu.next_fault()
    }

    /// One cycle of the interpreter. After it the emulator is no longer in
    /// its initial state.
    pub fn cycle(&mut self, should_tick_timer: bool, input: &dyn Input)
        requires
            cycle_fault(old(self)@.machine) is None,
        ensures
            exists|sample: Sample|
                asked(fetched(old(self)@.machine), sample) && final(self)@.machine
                    == #[trigger] cycled(old(self)@.machine, should_tick_timer, sample),
            final(self)@.rom == old(self)@.rom,
            !final(self)@.initial,
    {
        if self.is_initial_state {
            self.is_initial_state = false;
        }
        self.cpu.cycle(should_tick_timer, input);
    }

    /// One cycle of the interpreter, with `sample` for what the outside world
    /// has to say. After it the emulator is no longer in its initial state.
    pub fn cycle_with(&mut self, should_tick_timer: bool, sample: Sample)
        requires
            cycle_fault(old(self)@.machine) is None,
        ensures
            final(self)@ == (Session {
                machine: cycled(old(self)@.machine, should_tick_timer, sample),
                initial: false,
                ..old(self)@
            }),
    {
        if self.is_initial_state {
            self.is_initial_state = false;
        }
        self.cpu.cycle_with(should_tick_timer, sample);
    }

    /// The display that the interpreter draws on.
    pub fn display(&self) -> (display: &D)
        ensures
            display.screen() == self@.machine.screen,
    {
        &self.cpu.display
    }

    /// The interpreter, to look at its registers and its memory.
    pub fn cpu(&self) -> (cpu: &CPU<D>)
        ensures
            cpu@ == self@.machine,
    {
        &self.cpu
    }
}

} // verus!
