//! A CHIP-8 virtual machine: fetch, decode and execute one instruction per
//! tick, with exact carry, borrow and collision semantics and typed faults
//! for unrecognized instructions, stack misuse and out-of-range addresses.

pub mod engine;
mod engine_execute;
pub mod font;
pub mod instruction;
pub mod laws;
pub mod semantics;

pub use engine::Engine;
pub use instruction::Instruction;
pub use instruction::InstructionType;

use vstd::prelude::*;

verus! {

/// A typed fault surfaced to the caller of `tick`, `new` or `load_game`.
#[derive(Debug, Clone, Copy, PartialEq, Eq, Structural)]
pub enum EngineError {
    /// A program or memory load does not fit below the end of memory.
    OutOfBounds,
    /// The fetched word decodes to no instruction of the machine.
    UnknownInstructionType,
    /// A call was made with the call stack already at capacity.
    StackOverflow,
    /// A return was made with the call stack empty.
    StackUnderflow,
    /// A memory access through the program counter or the index register
    /// would fall outside memory.
    AddressOutOfRange,
}

} // verus!
