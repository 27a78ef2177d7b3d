//! Decoding of 16-bit instruction words: pure bit-field extraction and the
//! mapping from a word to the instruction it encodes.

use vstd::prelude::*;
use crate::EngineError;

verus! {

/// The top nibble of a word, the primary opcode selector (bits 12 to 15).
pub open spec fn spec_opcode(w: u16) -> u8 {
    ((w & 0xF000) >> 12) as u8
}

/// The `x` field of a word (bits 8 to 11), a register selector.
pub open spec fn spec_x(w: u16) -> u8 {
    ((w >> 8) & 0x0F) as u8
}

/// The `y` field of a word (bits 4 to 7), a register selector.
pub open spec fn spec_y(w: u16) -> u8 {
    ((w & 0x00F0) >> 4) as u8
}

/// The lowest nibble `n` of a word (bits 0 to 3).
pub open spec fn spec_n(w: u16) -> u8 {
    (w & 0x000F) as u8
}

/// The low byte `kk` of a word (bits 0 to 7).
pub open spec fn spec_kk(w: u16) -> u8 {
    (w & 0x00FF) as u8
}

/// The 12-bit address `nnn` of a word (bits 0 to 11).
pub open spec fn spec_nnn(w: u16) -> u16 {
    w & 0x0FFF
}

/// Every decoded bit-field lies in its natural range, whatever the word.
pub proof fn lemma_fields_bounded(w: u16)
    by (bit_vector)
    ensures
        spec_opcode(w) < 16,
        spec_x(w) < 16,
        spec_y(w) < 16,
        spec_n(w) < 16,
        spec_nnn(w) < 4096,
{
}

/// A raw 16-bit instruction word.
#[derive(Debug, Copy, Clone, PartialEq, Eq, Structural)]
pub struct Instruction(pub u16);

impl Instruction {
    /// Wraps a raw word.
    pub fn new(value: u16) -> (r: Self)
        ensures
            r.0 == value,
    {
        Instruction(value)
    }

    /// Returns the wrapped value.
    pub fn instruction(&self) -> (r: u16)
        ensures
            r == self.0,
    {
        self.0
    }

    /// Extracts the opcode from the instruction (first nibble).
    pub fn opcode(&self) -> (r: u8)
        ensures
            r == spec_opcode(self.0),
    {
        ((self.0 & 0xF000) >> 12) as u8
    }

    /// Extracts the highest byte from the instruction.
    pub fn highest_byte(&self) -> (r: u8)
        ensures
            r == ((self.0 >> 8) & 0xFF) as u8,
    {
        ((self.0 >> 8) & 0xFF) as u8
    }

    /// Extracts the lowest byte from the instruction.
    pub fn lowest_byte(&self) -> (r: u8)
        ensures
            r == spec_kk(self.0),
    {
        (self.0 & 0x00FF) as u8
    }

    /// Extracts `nnn` from the instruction (last three nibbles).
    pub fn address(&self) -> (r: u16)
        ensures
            r == spec_nnn(self.0),
    {
        self.0 & 0x0FFF
    }

    /// Extracts the `x` value from the instruction (second nibble).
    pub fn x(&self) -> (r: u8)
        ensures
            r == spec_x(self.0),
    {
        ((self.0 >> 8) & 0x0F) as u8
    }

    /// Extracts the `y` value from the instruction (third nibble).
    pub fn y(&self) -> (r: u8)
        ensures
            r == spec_y(self.0),
    {
        ((self.0 & 0x00F0) >> 4) as u8
    }

    /// Extracts the lowest nibble from the instruction.
    pub fn lowest_nibble(&self) -> (r: u8)
        ensures
            r == spec_n(self.0),
    {
        (self.0 & 0x000F) as u8
    }

    /// Decodes the word, or reports that it encodes no instruction.
    pub fn instruction_type(&self) -> (r: Result<InstructionType, EngineError>)
        ensures
            match r {
                Ok(t) => spec_decode(self.0) == Some(t),
                Err(e) => spec_decode(self.0) is None && e == EngineError::UnknownInstructionType,
            },
    {
        let op = self.opcode();
        let x = self.x();
        let y = self.y();
        let n = self.lowest_nibble();

        if op == 0x0 {
            if x == 0x0 && y == 0xE && n == 0x0 {
                Ok(InstructionType::CLS)
            } else if x == 0x0 && y == 0xE && n == 0xE {
                Ok(InstructionType::RET)
            } else {
                Ok(InstructionType::SYS)
            }
        } else if op == 0x1 {
            Ok(InstructionType::JPA)
        } else if op == 0x2 {
            Ok(InstructionType::CALL)
        } else if op == 0x3 {
            Ok(InstructionType::SEV)
        } else if op == 0x4 {
            Ok(InstructionType::SNEV)
        } else if op == 0x5 {
            if n == 0x0 {
                Ok(InstructionType::SER)
            } else {
                Err(EngineError::UnknownInstructionType)
            }
        } else if op == 0x6 {
            Ok(InstructionType::LDV)
        } else if op == 0x7 {
            Ok(InstructionType::ADDV)
        } else if op == 0x8 {
            if n == 0x0 {
                Ok(InstructionType::LDR)
            } else if n == 0x1 {
                Ok(InstructionType::ORR)
            } else if n == 0x2 {
                Ok(InstructionType::ANDR)
            } else if n == 0x3 {
                Ok(InstructionType::XORR)
            } else if n == 0x4 {
                Ok(InstructionType::ANDR_CARRY)
            } else if n == 0x5 {
                Ok(InstructionType::SUBR_BORROW)
            } else if n == 0x6 {
                Ok(InstructionType::SHR_STORE)
            } else if n == 0x7 {
                Ok(InstructionType::SUBR_BORROW_REVERSE)
            } else if n == 0xE {
                Ok(InstructionType::SHL_STORE)
            } else {
                Err(EngineError::UnknownInstructionType)
            }
        } else if op == 0x9 {
            if n == 0x0 {
                Ok(InstructionType::SNER)
            } else {
                Err(EngineError::UnknownInstructionType)
            }
        } else if op == 0xA {
            Ok(InstructionType::LDA)
        } else if op == 0xB {
            Ok(InstructionType::JPAD)
        } else if op == 0xC {
            Ok(InstructionType::RND)
        } else if op == 0xD {
            Ok(InstructionType::DRW)
        } else if op == 0xE {
            if y == 0x9 && n == 0xE {
                Ok(InstructionType::SKPK)
            } else if y == 0xA && n == 0x1 {
                Ok(InstructionType::SKPNK)
            } else {
                Err(EngineError::UnknownInstructionType)
            }
        } else {
            if y == 0x0 && n == 0x7 {
                Ok(InstructionType::LDD)
            } else if y == 0x0 && n == 0xA {
                Ok(InstructionType::LDK)
            } else if y == 0x1 && n == 0x5 {
                Ok(InstructionType::LDDR)
            } else if y == 0x1 && n == 0x8 {
                Ok(InstructionType::LDSR)
            } else if y == 0x1 && n == 0xE {
                Ok(InstructionType::ADDI)
            } else if y == 0x2 && n == 0x9 {
                Ok(InstructionType::LDSPR)
            } else if y == 0x3 && n == 0x3 {
                Ok(InstructionType::LDBR)
            } else if y == 0x5 && n == 0x5 {
                Ok(InstructionType::LDIR)
            } else if y == 0x6 && n == 0x5 {
                Ok(InstructionType::LDMR)
            } else {
                Err(EngineError::UnknownInstructionType)
            }
        }
    }
}

/// The instruction encoded by a word, or `None` for a word outside the
/// defined opcode space.
pub open spec fn spec_decode(w: u16) -> Option<InstructionType> {
    let op = spec_opcode(w);
    let x = spec_x(w);
    let y = spec_y(w);
    let n = spec_n(w);
    if op == 0x0 {
        if x == 0x0 && y == 0xE && n == 0x0 {
            Some(InstructionType::CLS)
        } else if x == 0x0 && y == 0xE && n == 0xE {
            Some(InstructionType::RET)
        } else {
            Some(InstructionType::SYS)
        }
    } else if op == 0x1 {
        Some(InstructionType::JPA)
    } else if op == 0x2 {
        Some(InstructionType::CALL)
    } else if op == 0x3 {
        Some(InstructionType::SEV)
    } else if op == 0x4 {
        Some(InstructionType::SNEV)
    } else if op == 0x5 {
        if n == 0x0 {
            Some(InstructionType::SER)
        } else {
            None
        }
    } else if op == 0x6 {
        Some(InstructionType::LDV)
    } else if op == 0x7 {
        Some(InstructionType::ADDV)
    } else if op == 0x8 {
        if n == 0x0 {
            Some(InstructionType::LDR)
        } else if n == 0x1 {
            Some(InstructionType::ORR)
        } else if n == 0x2 {
            Some(InstructionType::ANDR)
        } else if n == 0x3 {
            Some(InstructionType::XORR)
        } else if n == 0x4 {
            Some(InstructionType::ANDR_CARRY)
        } else if n == 0x5 {
            Some(InstructionType::SUBR_BORROW)
        } else if n == 0x6 {
            Some(InstructionType::SHR_STORE)
        } else if n == 0x7 {
            Some(InstructionType::SUBR_BORROW_REVERSE)
        } else if n == 0xE {
            Some(InstructionType::SHL_STORE)
        } else {
            None
        }
    } else if op == 0x9 {
        if n == 0x0 {
            Some(InstructionType::SNER)
        } else {
            None
        }
    } else if op == 0xA {
        Some(InstructionType::LDA)
    } else if op == 0xB {
        Some(InstructionType::JPAD)
    } else if op == 0xC {
        Some(InstructionType::RND)
    } else if op == 0xD {
        Some(InstructionType::DRW)
    } else if op == 0xE {
        if y == 0x9 && n == 0xE {
            Some(InstructionType::SKPK)
        } else if y == 0xA && n == 0x1 {
            Some(InstructionType::SKPNK)
        } else {
            None
        }
    } else {
        if y == 0x0 && n == 0x7 {
            Some(InstructionType::LDD)
        } else if y == 0x0 && n == 0xA {
            Some(InstructionType::LDK)
        } else if y == 0x1 && n == 0x5 {
            Some(InstructionType::LDDR)
        } else if y == 0x1 && n == 0x8 {
            Some(InstructionType::LDSR)
        } else if y == 0x1 && n == 0xE {
            Some(InstructionType::ADDI)
        } else if y == 0x2 && n == 0x9 {
            Some(InstructionType::LDSPR)
        } else if y == 0x3 && n == 0x3 {
            Some(InstructionType::LDBR)
        } else if y == 0x5 && n == 0x5 {
            Some(InstructionType::LDIR)
        } else if y == 0x6 && n == 0x5 {
            Some(InstructionType::LDMR)
        } else {
            None
        }
    }
}

/// The kind of instruction a word decodes to, one variant per member of the
/// opcode families.
#[derive(Debug, Clone, Copy, PartialEq, Eq, Structural)]
#[allow(non_camel_case_types)]
pub enum InstructionType {
    /// 0nnn system address call, ignored
    SYS,
    /// 00E0 clear screen
    CLS,
    /// 00EE return from subroutine
    RET,
    /// 1nnn jump addr
    JPA,
    /// 2nnn call addr
    CALL,
    /// 3xkk skip if value equal
    SEV,
    /// 4xkk skip if value not equal
    SNEV,
    /// 5xy0 skip if registers equivalent
    SER,
    /// 6xkk load value into register
    LDV,
    /// 7xkk add value and store in register
    ADDV,
    /// 8xy0 copy value from register y to x
    LDR,
    /// 8xy1 bitwise or x | y
    ORR,
    /// 8xy2 bitwise and x & y
    ANDR,
    /// 8xy3 bitwise xor x ^ y
    XORR,
    /// 8xy4 add and carry register
    ANDR_CARRY,
    /// 8xy5 sub and set borrow
    SUBR_BORROW,
    /// 8xy6 shift right and store
    SHR_STORE,
    /// 8xy7 sub reverse and set borrow
    SUBR_BORROW_REVERSE,
    /// 8xyE shift left and store
    SHL_STORE,
    /// 9xy0 skip next if registers not equal
    SNER,
    /// Annn load addr into I
    LDA,
    /// Bnnn jump to v0 + nnn
    JPAD,
    /// Cxkk random byte & kk
    RND,
    /// Dxyn draw sprite and set collision
    DRW,
    /// Ex9E skip if key pressed
    SKPK,
    /// ExA1 skip if key not pressed
    SKPNK,
    /// Fx07 load delay timer into register
    LDD,
    /// Fx0A block execution until a key is pressed
    LDK,
    /// Fx15 load delay timer from x
    LDDR,
    /// Fx18 load sound timer from x
    LDSR,
    /// Fx1E add I and x register
    ADDI,
    /// Fx29 set I to the font sprite for x register
    LDSPR,
    /// Fx33 store decimal digits in memory
    LDBR,
    /// Fx55 store registers in memory
    LDIR,
    /// Fx65 load registers from memory
    LDMR,
}

} // verus!
