//! Machine state: memory, frame buffer, registers, call stack and timers,
//! together with construction and program loading.

use vstd::prelude::*;
use crate::EngineError;
use crate::font::{font_data, spec_font};
use crate::instruction::Instruction;

verus! {

/// Number of addressable memory bytes.
pub const MEMORY_SIZE: usize = 4096;

/// Capacity of the call stack, in return addresses.
pub const STACK_SIZE: usize = 16;

/// Width of the frame buffer in pixels.
pub const DISPLAY_WIDTH: usize = 64;

/// Height of the frame buffer in pixels.
pub const DISPLAY_HEIGHT: usize = 32;

/// Number of pixels in the frame buffer.
pub const DISPLAY_SIZE: usize = 2048;

/// Address at which program bytes are loaded and execution starts.
pub const PROGRAM_START: u16 = 0x200;

/// The whole machine state, mutated exactly once per tick.
///
/// The fields are public state: hosts read the frame buffer and the timers
/// directly, and tests inspect registers, stack and memory.
#[derive(Debug, Clone, Copy)]
pub struct Engine {
    /// 4096 bytes of memory; the font table sits at the bottom, program
    /// bytes from `PROGRAM_START` up.
    pub memory: [u8; 4096],
    /// 64 x 32 monochrome pixels in row-major order, each 0 or 1.
    pub framebuffer: [u8; 2048],
    /// The 16 general-purpose 8-bit registers; register 0xF doubles as the
    /// flag output of arithmetic, shift and draw instructions.
    pub registers: [u8; 16],
    /// The 16-bit address register used by memory-relative instructions.
    pub index_register: u16,
    /// Address of the next instruction to fetch.
    pub program_counter: u16,
    /// Return addresses of the calls in progress; entries at or above
    /// `stack_pointer` are inactive.
    pub stack: [u16; 16],
    /// Number of active call stack entries, at most `STACK_SIZE`.
    pub stack_pointer: u8,
    /// 8-bit countdown, decremented once per tick, saturating at zero.
    pub delay_timer: u8,
    /// 8-bit countdown, decremented once per tick, saturating at zero.
    pub sound_timer: u8,
}

impl Engine {
    /// Structural invariant: the stack pointer stays within capacity and
    /// every pixel of the frame buffer is binary.
    pub open spec fn wf(self) -> bool {
        &&& self.stack_pointer <= 16
        &&& forall|i: int|
            0 <= i < 2048 ==> self.framebuffer@[i] == 0 || self.framebuffer@[i] == 1
    }

    /// A freshly constructed machine: font preloaded at the bottom of
    /// memory, everything else zeroed, execution starting at
    /// `PROGRAM_START`.
    pub open spec fn spec_initial(self) -> bool {
        &&& forall|a: int| 0 <= a < 80 ==> self.memory@[a] == spec_font()[a]
        &&& forall|a: int| 80 <= a < 4096 ==> self.memory@[a] == 0
        &&& forall|i: int| 0 <= i < 2048 ==> self.framebuffer@[i] == 0
        &&& forall|i: int| 0 <= i < 16 ==> self.registers@[i] == 0
        &&& forall|i: int| 0 <= i < 16 ==> self.stack@[i] == 0
        &&& self.index_register == 0
        &&& self.program_counter == PROGRAM_START
        &&& self.stack_pointer == 0
        &&& self.delay_timer == 0
        &&& self.sound_timer == 0
    }

    /// Builds a machine with the font preloaded and no program.
    ///
    /// Construction cannot fault: the font always fits below the program
    /// region.
    pub fn new() -> (r: Result<Self, EngineError>)
        ensures
            r is Ok,
            r->Ok_0.wf(),
            r->Ok_0.spec_initial(),
    {
        let mut new_instance = Engine {
            memory: [0; 4096],
            framebuffer: [0; 2048],
            registers: [0; 16],
            index_register: 0,
            program_counter: PROGRAM_START,
            stack: [0; 16],
            stack_pointer: 0,
            delay_timer: 0,
            sound_timer: 0,
        };
        new_instance.load_font();
        Ok(new_instance)
    }

    /// Copies the font table to the bottom of memory.
    fn load_font(&mut self)
        ensures
            forall|a: int| 0 <= a < 80 ==> final(self).memory@[a] == spec_font()[a],
            forall|a: int| 80 <= a < 4096 ==> final(self).memory@[a] == old(self).memory@[a],
            final(self).framebuffer == old(self).framebuffer,
            final(self).registers == old(self).registers,
            final(self).index_register == old(self).index_register,
            final(self).program_counter == old(self).program_counter,
            final(self).stack == old(self).stack,
            final(self).stack_pointer == old(self).stack_pointer,
            final(self).delay_timer == old(self).delay_timer,
            final(self).sound_timer == old(self).sound_timer,
    {
        let font = font_data();
        for off in 0..80usize
            invariant
                forall|a: int| 0 <= a < off ==> self.memory@[a] == spec_font()[a],
                forall|a: int| off <= a < 4096 ==> self.memory@[a] == old(self).memory@[a],
                font@ == spec_font(),
                self.framebuffer == old(self).framebuffer,
                self.registers == old(self).registers,
                self.index_register == old(self).index_register,
                self.program_counter == old(self).program_counter,
                self.stack == old(self).stack,
                self.stack_pointer == old(self).stack_pointer,
                self.delay_timer == old(self).delay_timer,
                self.sound_timer == old(self).sound_timer,
        {
            self.memory[off] = font[off];
        }
    }

    /// Copies a program into memory starting at `PROGRAM_START`.
    ///
    /// Returns `Ok` exactly when the program fits below the end of memory;
    /// otherwise nothing is written and `OutOfBounds` is reported.
    pub fn load_game(&mut self, game: Vec<u8>) -> (r: Result<(), EngineError>)
        ensures
            match r {
                Ok(()) => 0x200 + game@.len() <= 4096
                    && (forall|a: int|
                        0x200 <= a < 0x200 + game@.len() ==> final(self).memory@[a] == game@[a
                            - 0x200])
                    && (forall|a: int|
                        0 <= a < 4096 && !(0x200 <= a < 0x200 + game@.len())
                            ==> final(self).memory@[a] == old(self).memory@[a]),
                Err(e) => e == EngineError::OutOfBounds && 0x200 + game@.len() > 4096
                    && *final(self) == *old(self),
            },
            final(self).framebuffer == old(self).framebuffer,
            final(self).registers == old(self).registers,
            final(self).index_register == old(self).index_register,
            final(self).program_counter == old(self).program_counter,
            final(self).stack == old(self).stack,
            final(self).stack_pointer == old(self).stack_pointer,
            final(self).delay_timer == old(self).delay_timer,
            final(self).sound_timer == old(self).sound_timer,
    {
        self.load_into_memory(0x200, game)
    }

    /// Writes `data` into memory at `starting_location`, whole or not at
    /// all: a load that would run past the end of memory is rejected.
    fn load_into_memory(&mut self, starting_location: usize, data: Vec<u8>) -> (r: Result<
        (),
        EngineError,
    >)
        ensures
            match r {
                Ok(()) => starting_location + data@.len() <= 4096
                    && (forall|a: int|
                        starting_location <= a < starting_location + data@.len()
                            ==> final(self).memory@[a] == data@[a - starting_location])
                    && (forall|a: int|
                        0 <= a < 4096 && !(starting_location <= a < starting_location
                            + data@.len()) ==> final(self).memory@[a] == old(self).memory@[a]),
                Err(e) => e == EngineError::OutOfBounds && starting_location + data@.len() > 4096
                    && *final(self) == *old(self),
            },
            final(self).framebuffer == old(self).framebuffer,
            final(self).registers == old(self).registers,
            final(self).index_register == old(self).index_register,
            final(self).program_counter == old(self).program_counter,
            final(self).stack == old(self).stack,
            final(self).stack_pointer == old(self).stack_pointer,
            final(self).delay_timer == old(self).delay_timer,
            final(self).sound_timer == old(self).sound_timer,
    {
        if data.len() > MEMORY_SIZE || starting_location > MEMORY_SIZE - data.len() {
            return Err(EngineError::OutOfBounds);
        }
        for off in 0..data.len()
            invariant
                starting_location + data@.len() <= 4096,
                forall|a: int|
                    starting_location <= a < starting_location + off ==> self.memory@[a] == data@[a
                        - starting_location],
                forall|a: int|
                    0 <= a < 4096 && !(starting_location <= a < starting_location + off)
                        ==> self.memory@[a] == old(self).memory@[a],
                self.framebuffer == old(self).framebuffer,
                self.registers == old(self).registers,
                self.index_register == old(self).index_register,
                self.program_counter == old(self).program_counter,
                self.stack == old(self).stack,
                self.stack_pointer == old(self).stack_pointer,
                self.delay_timer == old(self).delay_timer,
                self.sound_timer == old(self).sound_timer,
        {
            self.memory[starting_location + off] = data[off];
        }
        Ok(())
    }

    /// Reads the big-endian 16-bit word at the program counter.
    pub(crate) fn fetch(&self) -> (w: u16)
        requires
            self.program_counter + 1 < 4096,
        ensures
            w == crate::semantics::spec_word(self.memory@, self.program_counter as int),
    {
        let pc = self.program_counter as usize;
        (self.memory[pc] as u16) * 256 + (self.memory[pc + 1] as u16)
    }

    /// Wraps a fetched word for decoding.
    pub(crate) fn decode(&self, instruction: u16) -> (r: Instruction)
        ensures
            r.0 == instruction,
    {
        Instruction::new(instruction)
    }
}

} // verus!
