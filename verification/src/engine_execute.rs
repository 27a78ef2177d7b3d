//! Instruction handlers and the tick driver: each handler is an exact state
//! transition on `Engine`, and `tick` glues fetch, decode, dispatch and
//! timer decay together.

use vstd::prelude::*;
use crate::EngineError;
use crate::engine::Engine;
use crate::instruction::{InstructionType, lemma_fields_bounded};
use crate::semantics::{
    lemma_cell_bounds, lemma_cell_fresh, lemma_collision_extend, lemma_covered_extend,
    lemma_covered_row_extend, lemma_row_collision_extend, same_framebuffer, same_index,
    same_memory, same_registers, same_stack, same_timers, spec_bcd, spec_cell, spec_collision,
    spec_covered, spec_covered_row, spec_draw_fb, spec_key_pressed, spec_load_registers,
    spec_lowest_key, spec_lowest_key_from, spec_px, spec_row_collision, spec_step,
    spec_step_fault, spec_store_registers, spec_toggle, spec_wrap_add, spec_wrap_add16,
    spec_wrap_sub,
};

verus! {

/// Relies on rand::random: one 8-bit sample of the thread-local generator.
/// Nothing is assumed about the value; callers state what holds of every
/// outcome.
#[verifier::external_body]
fn random_byte() -> u8 {
    rand::random::<u8>()
}

impl Engine {
    /// Advances the machine by exactly one instruction: fetch the word at
    /// the program counter, decode it, run its handler, then decay both
    /// timers once. A fault leaves the state exactly as it was.
    pub fn tick(&mut self, keys: [bool; 16]) -> (r: Result<(), EngineError>)
        requires
            old(self).wf(),
        ensures
            final(self).wf(),
            match r {
                Ok(()) => spec_step_fault(*old(self)) is None && (exists|rnd: u8|
                    spec_step(*old(self), *final(self), keys, rnd)),
                Err(e) => spec_step_fault(*old(self)) == Some(e) && *final(self) == *old(self),
            },
    {
        if self.program_counter > 4094 {
            return Err(EngineError::AddressOutOfRange);
        }
        let w = self.fetch();
        let instruction = self.decode(w);
        proof {
            lemma_fields_bounded(w);
        }
        let t = match instruction.instruction_type() {
            Ok(t) => t,
            Err(e) => {
                return Err(e);
            },
        };
        let x = instruction.x();
        let y = instruction.y();
        let n = instruction.lowest_nibble();
        let kk = instruction.lowest_byte();
        let nnn = instruction.address();
        let ghost mut rnd_used: u8 = 0;
        let outcome: Result<(), EngineError> = match t {
            InstructionType::SYS => {
                self.sys_0nnn();
                Ok(())
            },
            InstructionType::CLS => {
                self.cls_00e0();
                Ok(())
            },
            InstructionType::RET => self.ret_00ee(),
            InstructionType::JPA => {
                self.jp_1nnn(nnn);
                Ok(())
            },
            InstructionType::CALL => self.call_2nnn(nnn),
            InstructionType::SEV => {
                self.se_3xkk(x, kk);
                Ok(())
            },
            InstructionType::SNEV => {
                self.sne_4xkk(x, kk);
                Ok(())
            },
            InstructionType::SER => {
                self.se_5xy0(x, y);
                Ok(())
            },
            InstructionType::LDV => {
                self.ld_6xkk(x, kk);
                Ok(())
            },
            InstructionType::ADDV => {
                self.add_7xkk(x, kk);
                Ok(())
            },
            InstructionType::LDR => {
                self.ld_8xy0(x, y);
                Ok(())
            },
            InstructionType::ORR => {
                self.or_8xy1(x, y);
                Ok(())
            },
            InstructionType::ANDR => {
                self.and_8xy2(x, y);
                Ok(())
            },
            InstructionType::XORR => {
                self.xor_8xy3(x, y);
                Ok(())
            },
            InstructionType::ANDR_CARRY => {
                self.add_8xy4(x, y);
                Ok(())
            },
            InstructionType::SUBR_BORROW => {
                self.sub_8xy5(x, y);
                Ok(())
            },
            InstructionType::SHR_STORE => {
                self.shr_8xy6(x);
                Ok(())
            },
            InstructionType::SUBR_BORROW_REVERSE => {
                self.sub_8xy7(x, y);
                Ok(())
            },
            InstructionType::SHL_STORE => {
                self.shl_8xye(x);
                Ok(())
            },
            InstructionType::SNER => {
                self.sne_9xy0(x, y);
                Ok(())
            },
            InstructionType::LDA => {
                self.ldi_annn(nnn);
                Ok(())
            },
            InstructionType::JPAD => {
                self.jpa_bnnn(nnn);
                Ok(())
            },
            InstructionType::RND => {
                let rb = random_byte();
                proof {
                    rnd_used = rb;
                }
                self.rnd_cxkk(x, kk, rb);
                Ok(())
            },
            InstructionType::DRW => self.drw_dxyn(x, y, n),
            InstructionType::SKPK => self.skk_ex9e(x, keys),
            InstructionType::SKPNK => self.sknk_exa1(x, keys),
            InstructionType::LDD => {
                self.ldd_fx07(x);
                Ok(())
            },
            InstructionType::LDK => {
                self.ldk_fx0a(x, keys);
                Ok(())
            },
            InstructionType::LDDR => {
                self.ldd_fx15(x);
                Ok(())
            },
            InstructionType::LDSR => {
                self.lds_fx18(x);
                Ok(())
            },
            InstructionType::ADDI => {
                self.adi_fx1e(x);
                Ok(())
            },
            InstructionType::LDSPR => {
                self.ldi_fx29(x);
                Ok(())
            },
            InstructionType::LDBR => self.str_fx33(x),
            InstructionType::LDIR => self.str_fx55(x),
            InstructionType::LDMR => self.ldr_fx65(x),
        };
        match outcome {
            Ok(()) => {},
            Err(e) => {
                return Err(e);
            },
        }
        if self.delay_timer > 0 {
            self.delay_timer = self.delay_timer - 1;
        }
        if self.sound_timer > 0 {
            self.sound_timer = self.sound_timer - 1;
        }
        proof {
            assert(spec_step(*old(self), *self, keys, rnd_used));
        }
        Ok(())
    }

    /// 0nnn jump to a machine code routine: ignored, execution moves on.
    fn sys_0nnn(&mut self)
        requires
            old(self).program_counter <= 4094,
        ensures
            same_memory(*old(self), *final(self)),
            same_framebuffer(*old(self), *final(self)),
            same_registers(*old(self), *final(self)),
            same_stack(*old(self), *final(self)),
            same_index(*old(self), *final(self)),
            same_timers(*old(self), *final(self)),
            final(self).program_counter == old(self).program_counter + 2,
    {
        self.program_counter = self.program_counter + 2;
    }

    /// 00E0 clear the display.
    fn cls_00e0(&mut self)
        requires
            old(self).program_counter <= 4094,
        ensures
            same_memory(*old(self), *final(self)),
            final(self).framebuffer@ == Seq::new(2048, |i: int| 0u8),
            same_registers(*old(self), *final(self)),
            same_stack(*old(self), *final(self)),
            same_index(*old(self), *final(self)),
            same_timers(*old(self), *final(self)),
            final(self).program_counter == old(self).program_counter + 2,
    {
        self.framebuffer = [0; 2048];
        self.program_counter = self.program_counter + 2;
        proof {
            assert(self.framebuffer@ =~= Seq::new(2048, |i: int| 0u8));
        }
    }

    /// 00EE return from subroutine: pop the return address, or fault when
    /// the stack is empty.
    fn ret_00ee(&mut self) -> (r: Result<(), EngineError>)
        requires
            old(self).stack_pointer <= 16,
        ensures
            match r {
                Ok(()) => old(self).stack_pointer >= 1 && same_memory(*old(self), *final(self))
                    && same_framebuffer(*old(self), *final(self)) && same_registers(
                    *old(self),
                    *final(self),
                ) && final(self).stack@ == old(self).stack@ && final(self).stack_pointer == old(
                    self,
                ).stack_pointer - 1 && same_index(*old(self), *final(self)) && same_timers(
                    *old(self),
                    *final(self),
                ) && final(self).program_counter == old(self).stack@[old(self).stack_pointer - 1],
                Err(e) => e == EngineError::StackUnderflow && old(self).stack_pointer == 0
                    && *final(self) == *old(self),
            },
    {
        if self.stack_pointer == 0 {
            return Err(EngineError::StackUnderflow);
        }
        self.stack_pointer = self.stack_pointer - 1;
        self.program_counter = self.stack[self.stack_pointer as usize];
        Ok(())
    }

    /// 1nnn jump to address.
    fn jp_1nnn(&mut self, address: u16)
        ensures
            same_memory(*old(self), *final(self)),
            same_framebuffer(*old(self), *final(self)),
            same_registers(*old(self), *final(self)),
            same_stack(*old(self), *final(self)),
            same_index(*old(self), *final(self)),
            same_timers(*old(self), *final(self)),
            final(self).program_counter == address,
    {
        self.program_counter = address;
    }

    /// 2nnn call address: push the address of the next instruction, or
    /// fault when the stack is full.
    fn call_2nnn(&mut self, address: u16) -> (r: Result<(), EngineError>)
        requires
            old(self).program_counter <= 4094,
        ensures
            match r {
                Ok(()) => old(self).stack_pointer < 16 && same_memory(*old(self), *final(self))
                    && same_framebuffer(*old(self), *final(self)) && same_registers(
                    *old(self),
                    *final(self),
                ) && final(self).stack@ == old(self).stack@.update(
                    old(self).stack_pointer as int,
                    (old(self).program_counter + 2) as u16,
                ) && final(self).stack_pointer == old(self).stack_pointer + 1 && same_index(
                    *old(self),
                    *final(self),
                ) && same_timers(*old(self), *final(self)) && final(self).program_counter
                    == address,
                Err(e) => e == EngineError::StackOverflow && old(self).stack_pointer >= 16
                    && *final(self) == *old(self),
            },
    {
        if self.stack_pointer >= 16 {
            return Err(EngineError::StackOverflow);
        }
        self.stack[self.stack_pointer as usize] = self.program_counter + 2;
        self.stack_pointer = self.stack_pointer + 1;
        self.program_counter = address;
        Ok(())
    }

    /// 3xkk skip the next instruction when register `x` equals `kk`.
    fn se_3xkk(&mut self, x: u8, kk: u8)
        requires
            x < 16,
            old(self).program_counter <= 4094,
        ensures
            same_memory(*old(self), *final(self)),
            same_framebuffer(*old(self), *final(self)),
            same_registers(*old(self), *final(self)),
            same_stack(*old(self), *final(self)),
            same_index(*old(self), *final(self)),
            same_timers(*old(self), *final(self)),
            final(self).program_counter == old(self).program_counter + (if old(self).registers@[x
                as int] == kk {
                4int
            } else {
                2int
            }),
    {
        if self.registers[x as usize] == kk {
            self.program_counter = self.program_counter + 4;
        } else {
            self.program_counter = self.program_counter + 2;
        }
    }

    /// 4xkk skip the next instruction when register `x` differs from `kk`.
    fn sne_4xkk(&mut self, x: u8, kk: u8)
        requires
            x < 16,
            old(self).program_counter <= 4094,
        ensures
            same_memory(*old(self), *final(self)),
            same_framebuffer(*old(self), *final(self)),
            same_registers(*old(self), *final(self)),
            same_stack(*old(self), *final(self)),
            same_index(*old(self), *final(self)),
            same_timers(*old(self), *final(self)),
            final(self).program_counter == old(self).program_counter + (if old(self).registers@[x
                as int] != kk {
                4int
            } else {
                2int
            }),
    {
        if self.registers[x as usize] != kk {
            self.program_counter = self.program_counter + 4;
        } else {
            self.program_counter = self.program_counter + 2;
        }
    }

    /// 5xy0 skip the next instruction when registers `x` and `y` are equal.
    fn se_5xy0(&mut self, x: u8, y: u8)
        requires
            x < 16,
            y < 16,
            old(self).program_counter <= 4094,
        ensures
            same_memory(*old(self), *final(self)),
            same_framebuffer(*old(self), *final(self)),
            same_registers(*old(self), *final(self)),
            same_stack(*old(self), *final(self)),
            same_index(*old(self), *final(self)),
            same_timers(*old(self), *final(self)),
            final(self).program_counter == old(self).program_counter + (if old(self).registers@[x
                as int] == old(self).registers@[y as int] {
                4int
            } else {
                2int
            }),
    {
        if self.registers[x as usize] == self.registers[y as usize] {
            self.program_counter = self.program_counter + 4;
        } else {
            self.program_counter = self.program_counter + 2;
        }
    }

    /// 6xkk load `kk` into register `x`.
    fn ld_6xkk(&mut self, x: u8, kk: u8)
        requires
            x < 16,
            old(self).program_counter <= 4094,
        ensures
            same_memory(*old(self), *final(self)),
            same_framebuffer(*old(self), *final(self)),
            final(self).registers@ == old(self).registers@.update(x as int, kk),
            same_stack(*old(self), *final(self)),
            same_index(*old(self), *final(self)),
            same_timers(*old(self), *final(self)),
            final(self).program_counter == old(self).program_counter + 2,
    {
        self.registers[x as usize] = kk;
        self.program_counter = self.program_counter + 2;
    }

    /// 7xkk add `kk` to register `x`, wrapping, without touching the flag.
    fn add_7xkk(&mut self, x: u8, kk: u8)
        requires
            x < 16,
            old(self).program_counter <= 4094,
        ensures
            same_memory(*old(self), *final(self)),
            same_framebuffer(*old(self), *final(self)),
            final(self).registers@ == old(self).registers@.update(
                x as int,
                spec_wrap_add(old(self).registers@[x as int], kk),
            ),
            same_stack(*old(self), *final(self)),
            same_index(*old(self), *final(self)),
            same_timers(*old(self), *final(self)),
            final(self).program_counter == old(self).program_counter + 2,
    {
        let v = self.registers[x as usize].wrapping_add(kk);
        self.registers[x as usize] = v;
        self.program_counter = self.program_counter + 2;
    }

    /// 8xy0 copy register `y` into register `x`.
    fn ld_8xy0(&mut self, x: u8, y: u8)
        requires
            x < 16,
            y < 16,
            old(self).program_counter <= 4094,
        ensures
            same_memory(*old(self), *final(self)),
            same_framebuffer(*old(self), *final(self)),
            final(self).registers@ == old(self).registers@.update(
                x as int,
                old(self).registers@[y as int],
            ),
            same_stack(*old(self), *final(self)),
            same_index(*old(self), *final(self)),
            same_timers(*old(self), *final(self)),
            final(self).program_counter == old(self).program_counter + 2,
    {
        let vy = self.registers[y as usize];
        self.registers[x as usize] = vy;
        self.program_counter = self.program_counter + 2;
    }

    /// 8xy1 bitwise or of registers `x` and `y` into `x`.
    fn or_8xy1(&mut self, x: u8, y: u8)
        requires
            x < 16,
            y < 16,
            old(self).program_counter <= 4094,
        ensures
            same_memory(*old(self), *final(self)),
            same_framebuffer(*old(self), *final(self)),
            final(self).registers@ == old(self).registers@.update(
                x as int,
                old(self).registers@[x as int] | old(self).registers@[y as int],
            ),
            same_stack(*old(self), *final(self)),
            same_index(*old(self), *final(self)),
            same_timers(*old(self), *final(self)),
            final(self).program_counter == old(self).program_counter + 2,
    {
        let vx = self.registers[x as usize];
        let vy = self.registers[y as usize];
        self.registers[x as usize] = vx | vy;
        self.program_counter = self.program_counter + 2;
    }

    /// 8xy2 bitwise and of registers `x` and `y` into `x`.
    fn and_8xy2(&mut self, x: u8, y: u8)
        requires
            x < 16,
            y < 16,
            old(self).program_counter <= 4094,
        ensures
            same_memory(*old(self), *final(self)),
            same_framebuffer(*old(self), *final(self)),
            final(self).registers@ == old(self).registers@.update(
                x as int,
                old(self).registers@[x as int] & old(self).registers@[y as int],
            ),
            same_stack(*old(self), *final(self)),
            same_index(*old(self), *final(self)),
            same_timers(*old(self), *final(self)),
            final(self).program_counter == old(self).program_counter + 2,
    {
        let vx = self.registers[x as usize];
        let vy = self.registers[y as usize];
        self.registers[x as usize] = vx & vy;
        self.program_counter = self.program_counter + 2;
    }

    /// 8xy3 bitwise xor of registers `x` and `y` into `x`.
    fn xor_8xy3(&mut self, x: u8, y: u8)
        requires
            x < 16,
            y < 16,
            old(self).program_counter <= 4094,
        ensures
            same_memory(*old(self), *final(self)),
            same_framebuffer(*old(self), *final(self)),
            final(self).registers@ == old(self).registers@.update(
                x as int,
                old(self).registers@[x as int] ^ old(self).registers@[y as int],
            ),
            same_stack(*old(self), *final(self)),
            same_index(*old(self), *final(self)),
            same_timers(*old(self), *final(self)),
            final(self).program_counter == old(self).program_counter + 2,
    {
        let vx = self.registers[x as usize];
        let vy = self.registers[y as usize];
        self.registers[x as usize] = vx ^ vy;
        self.program_counter = self.program_counter + 2;
    }

    /// 8xy4 add registers `x` and `y` into `x`, wrapping; the flag records
    /// whether a carry occurred.
    fn add_8xy4(&mut self, x: u8, y: u8)
        requires
            x < 16,
            y < 16,
            old(self).program_counter <= 4094,
        ensures
            same_memory(*old(self), *final(self)),
            same_framebuffer(*old(self), *final(self)),
            final(self).registers@ == old(self).registers@.update(
                x as int,
                spec_wrap_add(old(self).registers@[x as int], old(self).registers@[y as int]),
            ).update(
                15,
                if old(self).registers@[x as int] + old(self).registers@[y as int] > 255 {
                    1u8
                } else {
                    0u8
                },
            ),
            same_stack(*old(self), *final(self)),
            same_index(*old(self), *final(self)),
            same_timers(*old(self), *final(self)),
            final(self).program_counter == old(self).program_counter + 2,
    {
        let vx = self.registers[x as usize];
        let vy = self.registers[y as usize];
        let carry: u8 = if (vx as u16) + (vy as u16) > 255 {
            1
        } else {
            0
        };
        self.registers[x as usize] = vx.wrapping_add(vy);
        self.registers[0xF] = carry;
        self.program_counter = self.program_counter + 2;
    }

    /// 8xy5 subtract register `y` from `x` into `x`, wrapping; the flag
    /// records that no borrow occurred.
    fn sub_8xy5(&mut self, x: u8, y: u8)
        requires
            x < 16,
            y < 16,
            old(self).program_counter <= 4094,
        ensures
            same_memory(*old(self), *final(self)),
            same_framebuffer(*old(self), *final(self)),
            final(self).registers@ == old(self).registers@.update(
                x as int,
                spec_wrap_sub(old(self).registers@[x as int], old(self).registers@[y as int]),
            ).update(
                15,
                if old(self).registers@[x as int] >= old(self).registers@[y as int] {
                    1u8
                } else {
                    0u8
                },
            ),
            same_stack(*old(self), *final(self)),
            same_index(*old(self), *final(self)),
            same_timers(*old(self), *final(self)),
            final(self).program_counter == old(self).program_counter + 2,
    {
        let vx = self.registers[x as usize];
        let vy = self.registers[y as usize];
        let no_borrow: u8 = if vx >= vy {
            1
        } else {
            0
        };
        self.registers[x as usize] = vx.wrapping_sub(vy);
        self.registers[0xF] = no_borrow;
        self.program_counter = self.program_counter + 2;
    }

    /// 8xy6 shift register `x` right by one; the flag records the bit that
    /// fell off (the pre-shift least significant bit).
    fn shr_8xy6(&mut self, x: u8)
        requires
            x < 16,
            old(self).program_counter <= 4094,
        ensures
            same_memory(*old(self), *final(self)),
            same_framebuffer(*old(self), *final(self)),
            final(self).registers@ == old(self).registers@.update(
                x as int,
                old(self).registers@[x as int] >> 1u8,
            ).update(15, old(self).registers@[x as int] & 1u8),
            same_stack(*old(self), *final(self)),
            same_index(*old(self), *final(self)),
            same_timers(*old(self), *final(self)),
            final(self).program_counter == old(self).program_counter + 2,
    {
        let vx = self.registers[x as usize];
        self.registers[x as usize] = vx >> 1u8;
        self.registers[0xF] = vx & 1u8;
        self.program_counter = self.program_counter + 2;
    }

    /// 8xy7 subtract register `x` from `y` into `x`, wrapping; the flag
    /// records that no borrow occurred.
    fn sub_8xy7(&mut self, x: u8, y: u8)
        requires
            x < 16,
            y < 16,
            old(self).program_counter <= 4094,
        ensures
            same_memory(*old(self), *final(self)),
            same_framebuffer(*old(self), *final(self)),
            final(self).registers@ == old(self).registers@.update(
                x as int,
                spec_wrap_sub(old(self).registers@[y as int], old(self).registers@[x as int]),
            ).update(
                15,
                if old(self).registers@[y as int] >= old(self).registers@[x as int] {
                    1u8
                } else {
                    0u8
                },
            ),
            same_stack(*old(self), *final(self)),
            same_index(*old(self), *final(self)),
            same_timers(*old(self), *final(self)),
            final(self).program_counter == old(self).program_counter + 2,
    {
        let vx = self.registers[x as usize];
        let vy = self.registers[y as usize];
        let no_borrow: u8 = if vy >= vx {
            1
        } else {
            0
        };
        self.registers[x as usize] = vy.wrapping_sub(vx);
        self.registers[0xF] = no_borrow;
        self.program_counter = self.program_counter + 2;
    }

    /// 8xyE shift register `x` left by one; the flag records the bit that
    /// fell off (the pre-shift most significant bit).
    fn shl_8xye(&mut self, x: u8)
        requires
            x < 16,
            old(self).program_counter <= 4094,
        ensures
            same_memory(*old(self), *final(self)),
            same_framebuffer(*old(self), *final(self)),
            final(self).registers@ == old(self).registers@.update(
                x as int,
                old(self).registers@[x as int] << 1u8,
            ).update(15, (old(self).registers@[x as int] >> 7u8) & 1u8),
            same_stack(*old(self), *final(self)),
            same_index(*old(self), *final(self)),
            same_timers(*old(self), *final(self)),
            final(self).program_counter == old(self).program_counter + 2,
    {
        let vx = self.registers[x as usize];
        self.registers[x as usize] = vx << 1u8;
        self.registers[0xF] = (vx >> 7u8) & 1u8;
        self.program_counter = self.program_counter + 2;
    }

    /// 9xy0 skip the next instruction when registers `x` and `y` differ.
    fn sne_9xy0(&mut self, x: u8, y: u8)
        requires
            x < 16,
            y < 16,
            old(self).program_counter <= 4094,
        ensures
            same_memory(*old(self), *final(self)),
            same_framebuffer(*old(self), *final(self)),
            same_registers(*old(self), *final(self)),
            same_stack(*old(self), *final(self)),
            same_index(*old(self), *final(self)),
            same_timers(*old(self), *final(self)),
            final(self).program_counter == old(self).program_counter + (if old(self).registers@[x
                as int] != old(self).registers@[y as int] {
                4int
            } else {
                2int
            }),
    {
        if self.registers[x as usize] != self.registers[y as usize] {
            self.program_counter = self.program_counter + 4;
        } else {
            self.program_counter = self.program_counter + 2;
        }
    }

    /// Annn load address `nnn` into the index register.
    fn ldi_annn(&mut self, address: u16)
        requires
            old(self).program_counter <= 4094,
        ensures
            same_memory(*old(self), *final(self)),
            same_framebuffer(*old(self), *final(self)),
            same_registers(*old(self), *final(self)),
            same_stack(*old(self), *final(self)),
            final(self).index_register == address,
            same_timers(*old(self), *final(self)),
            final(self).program_counter == old(self).program_counter + 2,
    {
        self.index_register = address;
        self.program_counter = self.program_counter + 2;
    }

    /// Bnnn jump to address `nnn` plus register 0.
    fn jpa_bnnn(&mut self, address: u16)
        requires
            address < 4096,
        ensures
            same_memory(*old(self), *final(self)),
            same_framebuffer(*old(self), *final(self)),
            same_registers(*old(self), *final(self)),
            same_stack(*old(self), *final(self)),
            same_index(*old(self), *final(self)),
            same_timers(*old(self), *final(self)),
            final(self).program_counter == address + old(self).registers@[0],
    {
        let offset = self.registers[0] as u16;
        self.program_counter = address + offset;
    }

    /// Cxkk mask a random byte with `kk` into register `x`. The byte comes
    /// in as an argument, so the transition is exact for whatever the
    /// generator produced.
    fn rnd_cxkk(&mut self, x: u8, kk: u8, random: u8)
        requires
            x < 16,
            old(self).program_counter <= 4094,
        ensures
            same_memory(*old(self), *final(self)),
            same_framebuffer(*old(self), *final(self)),
            final(self).registers@ == old(self).registers@.update(x as int, random & kk),
            same_stack(*old(self), *final(self)),
            same_index(*old(self), *final(self)),
            same_timers(*old(self), *final(self)),
            final(self).program_counter == old(self).program_counter + 2,
    {
        self.registers[x as usize] = random & kk;
        self.program_counter = self.program_counter + 2;
    }

    /// Ex9E skip the next instruction when the key named by register `x`
    /// is pressed; a register value outside the 16-key matrix faults.
    fn skk_ex9e(&mut self, x: u8, keys: [bool; 16]) -> (r: Result<(), EngineError>)
        requires
            x < 16,
            old(self).program_counter <= 4094,
        ensures
            match r {
                Ok(()) => old(self).registers@[x as int] < 16 && same_memory(
                    *old(self),
                    *final(self),
                ) && same_framebuffer(*old(self), *final(self)) && same_registers(
                    *old(self),
                    *final(self),
                ) && same_stack(*old(self), *final(self)) && same_index(*old(self), *final(self))
                    && same_timers(*old(self), *final(self)) && final(self).program_counter == old(
                    self,
                ).program_counter + (if keys[old(self).registers@[x as int] as int] {
                    4int
                } else {
                    2int
                }),
                Err(e) => e == EngineError::AddressOutOfRange && old(self).registers@[x as int]
                    >= 16 && *final(self) == *old(self),
            },
    {
        let vx = self.registers[x as usize];
        if vx >= 16 {
            return Err(EngineError::AddressOutOfRange);
        }
        if keys[vx as usize] {
            self.program_counter = self.program_counter + 4;
        } else {
            self.program_counter = self.program_counter + 2;
        }
        Ok(())
    }

    /// ExA1 skip the next instruction when the key named by register `x`
    /// is not pressed; a register value outside the 16-key matrix faults.
    fn sknk_exa1(&mut self, x: u8, keys: [bool; 16]) -> (r: Result<(), EngineError>)
        requires
            x < 16,
            old(self).program_counter <= 4094,
        ensures
            match r {
                Ok(()) => old(self).registers@[x as int] < 16 && same_memory(
                    *old(self),
                    *final(self),
                ) && same_framebuffer(*old(self), *final(self)) && same_registers(
                    *old(self),
                    *final(self),
                ) && same_stack(*old(self), *final(self)) && same_index(*old(self), *final(self))
                    && same_timers(*old(self), *final(self)) && final(self).program_counter == old(
                    self,
                ).program_counter + (if !keys[old(self).registers@[x as int] as int] {
                    4int
                } else {
                    2int
                }),
                Err(e) => e == EngineError::AddressOutOfRange && old(self).registers@[x as int]
                    >= 16 && *final(self) == *old(self),
            },
    {
        let vx = self.registers[x as usize];
        if vx >= 16 {
            return Err(EngineError::AddressOutOfRange);
        }
        if !keys[vx as usize] {
            self.program_counter = self.program_counter + 4;
        } else {
            self.program_counter = self.program_counter + 2;
        }
        Ok(())
    }

    /// Fx07 load the delay timer into register `x`.
    fn ldd_fx07(&mut self, x: u8)
        requires
            x < 16,
            old(self).program_counter <= 4094,
        ensures
            same_memory(*old(self), *final(self)),
            same_framebuffer(*old(self), *final(self)),
            final(self).registers@ == old(self).registers@.update(x as int, old(self).delay_timer),
            same_stack(*old(self), *final(self)),
            same_index(*old(self), *final(self)),
            same_timers(*old(self), *final(self)),
            final(self).program_counter == old(self).program_counter + 2,
    {
        let t = self.delay_timer;
        self.registers[x as usize] = t;
        self.program_counter = self.program_counter + 2;
    }

    /// Fx15 load register `x` into the delay timer.
    fn ldd_fx15(&mut self, x: u8)
        requires
            x < 16,
            old(self).program_counter <= 4094,
        ensures
            same_memory(*old(self), *final(self)),
            same_framebuffer(*old(self), *final(self)),
            same_registers(*old(self), *final(self)),
            same_stack(*old(self), *final(self)),
            same_index(*old(self), *final(self)),
            final(self).delay_timer == old(self).registers@[x as int],
            final(self).sound_timer == old(self).sound_timer,
            final(self).program_counter == old(self).program_counter + 2,
    {
        self.delay_timer = self.registers[x as usize];
        self.program_counter = self.program_counter + 2;
    }

    /// Fx18 load register `x` into the sound timer.
    fn lds_fx18(&mut self, x: u8)
        requires
            x < 16,
            old(self).program_counter <= 4094,
        ensures
            same_memory(*old(self), *final(self)),
            same_framebuffer(*old(self), *final(self)),
            same_registers(*old(self), *final(self)),
            same_stack(*old(self), *final(self)),
            same_index(*old(self), *final(self)),
            final(self).delay_timer == old(self).delay_timer,
            final(self).sound_timer == old(self).registers@[x as int],
            final(self).program_counter == old(self).program_counter + 2,
    {
        self.sound_timer = self.registers[x as usize];
        self.program_counter = self.program_counter + 2;
    }

    /// Fx1E add register `x` to the index register, wrapping at 16 bits.
    fn adi_fx1e(&mut self, x: u8)
        requires
            x < 16,
            old(self).program_counter <= 4094,
        ensures
            same_memory(*old(self), *final(self)),
            same_framebuffer(*old(self), *final(self)),
            same_registers(*old(self), *final(self)),
            same_stack(*old(self), *final(self)),
            final(self).index_register == spec_wrap_add16(
                old(self).index_register,
                old(self).registers@[x as int] as u16,
            ),
            same_timers(*old(self), *final(self)),
            final(self).program_counter == old(self).program_counter + 2,
    {
        let vx = self.registers[x as usize] as u16;
        self.index_register = self.index_register.wrapping_add(vx);
        self.program_counter = self.program_counter + 2;
    }

    /// Dxyn draw an `n`-row sprite, read from memory at the index
    /// register, at position (register `x`, register `y`): eight pixels
    /// per row, XOR-composed onto the frame buffer with per-pixel
    /// wraparound in both directions. The flag records whether any pixel
    /// was turned from set to unset. A sprite read past the end of memory
    /// faults before anything is drawn.
    fn drw_dxyn(&mut self, x: u8, y: u8, n: u8) -> (res: Result<(), EngineError>)
        requires
            x < 16,
            y < 16,
            n < 16,
            old(self).wf(),
            old(self).program_counter <= 4094,
        ensures
            final(self).wf(),
            match res {
                Ok(()) => old(self).index_register + n <= 4096 && same_memory(
                    *old(self),
                    *final(self),
                ) && final(self).framebuffer@ == spec_draw_fb(
                    old(self).framebuffer@,
                    old(self).memory@,
                    old(self).index_register as int,
                    old(self).registers@[x as int] as int,
                    old(self).registers@[y as int] as int,
                    n as int,
                ) && final(self).registers@ == old(self).registers@.update(
                    15,
                    if spec_collision(
                        old(self).framebuffer@,
                        old(self).memory@,
                        old(self).index_register as int,
                        old(self).registers@[x as int] as int,
                        old(self).registers@[y as int] as int,
                        n as int,
                    ) {
                        1u8
                    } else {
                        0u8
                    },
                ) && same_stack(*old(self), *final(self)) && same_index(*old(self), *final(self))
                    && same_timers(*old(self), *final(self)) && final(self).program_counter == old(
                    self,
                ).program_counter + 2,
                Err(e) => e == EngineError::AddressOutOfRange && old(self).index_register + n
                    > 4096 && *final(self) == *old(self),
            },
    {
        let i = self.index_register as usize;
        if i + (n as usize) > 4096 {
            return Err(EngineError::AddressOutOfRange);
        }
        let vx = self.registers[x as usize] as usize;
        let vy = self.registers[y as usize] as usize;
        let mut collide = false;
        let ghost fb0 = self.framebuffer@;
        let ghost mem0 = self.memory@;
        for row in 0..(n as usize)
            invariant
                i == old(self).index_register,
                i + n <= 4096,
                n < 16,
                row <= n,
                vx == old(self).registers@[x as int],
                vy == old(self).registers@[y as int],
                fb0 == old(self).framebuffer@,
                mem0 == old(self).memory@,
                forall|p: int| 0 <= p < 2048 ==> fb0[p] == 0 || fb0[p] == 1,
                self.memory == old(self).memory,
                self.registers == old(self).registers,
                self.index_register == old(self).index_register,
                self.program_counter == old(self).program_counter,
                self.stack == old(self).stack,
                self.stack_pointer == old(self).stack_pointer,
                self.delay_timer == old(self).delay_timer,
                self.sound_timer == old(self).sound_timer,
                forall|idx: int|
                    0 <= idx < 2048 ==> self.framebuffer@[idx] == (if spec_covered(
                        mem0,
                        i as int,
                        vx as int,
                        vy as int,
                        row as int,
                        idx,
                    ) {
                        spec_toggle(fb0[idx])
                    } else {
                        fb0[idx]
                    }),
                collide == spec_collision(fb0, mem0, i as int, vx as int, vy as int, row as int),
        {
            let row_byte = self.memory[i + row];
            for col in 0..8usize
                invariant
                    i == old(self).index_register,
                    i + n <= 4096,
                    n < 16,
                    row < n,
                    col <= 8,
                    vx == old(self).registers@[x as int],
                    vy == old(self).registers@[y as int],
                    fb0 == old(self).framebuffer@,
                    mem0 == old(self).memory@,
                    row_byte == mem0[i + row],
                    forall|p: int| 0 <= p < 2048 ==> fb0[p] == 0 || fb0[p] == 1,
                    self.memory == old(self).memory,
                    self.registers == old(self).registers,
                    self.index_register == old(self).index_register,
                    self.program_counter == old(self).program_counter,
                    self.stack == old(self).stack,
                    self.stack_pointer == old(self).stack_pointer,
                    self.delay_timer == old(self).delay_timer,
                    self.sound_timer == old(self).sound_timer,
                    forall|idx: int|
                        0 <= idx < 2048 ==> self.framebuffer@[idx] == (if spec_covered(
                            mem0,
                            i as int,
                            vx as int,
                            vy as int,
                            row as int,
                            idx,
                        ) || spec_covered_row(
                            mem0,
                            i as int,
                            vx as int,
                            vy as int,
                            row as int,
                            col as int,
                            idx,
                        ) {
                            spec_toggle(fb0[idx])
                        } else {
                            fb0[idx]
                        }),
                    collide == (spec_collision(
                        fb0,
                        mem0,
                        i as int,
                        vx as int,
                        vy as int,
                        row as int,
                    ) || spec_row_collision(
                        fb0,
                        mem0,
                        i as int,
                        vx as int,
                        vy as int,
                        row as int,
                        col as int,
                    )),
            {
                let shift: u8 = (7 - col) as u8;
                let bit = (row_byte >> shift) & 1u8;
                proof {
                    lemma_cell_bounds(vx as int, vy as int, row as int, col as int);
                    lemma_cell_fresh(mem0, i as int, vx as int, vy as int, row as int, col as int);
                    vstd::arithmetic::div_mod::lemma_mod_bound((vy + row) as int, 32);
                    vstd::arithmetic::div_mod::lemma_mod_bound((vx + col) as int, 64);
                }
                if bit == 1 {
                    let xx = (vx + col) % 64;
                    let yy = (vy + row) % 32;
                    let idx = yy * 64 + xx;
                    proof {
                        assert(spec_px(mem0[i + row], col as int));
                        assert(idx == spec_cell(vx as int, vy as int, row as int, col as int));
                    }
                    if self.framebuffer[idx] == 1 {
                        collide = true;
                        self.framebuffer[idx] = 0;
                    } else {
                        self.framebuffer[idx] = 1;
                    }
                    proof {
                        assert forall|q: int| 0 <= q < 2048 implies self.framebuffer@[q] == (
                        if spec_covered(mem0, i as int, vx as int, vy as int, row as int, q)
                            || spec_covered_row(
                            mem0,
                            i as int,
                            vx as int,
                            vy as int,
                            row as int,
                            col + 1 as int,
                            q,
                        ) {
                            spec_toggle(fb0[q])
                        } else {
                            fb0[q]
                        }) by {
                            lemma_covered_row_extend(
                                mem0,
                                i as int,
                                vx as int,
                                vy as int,
                                row as int,
                                col as int,
                                q,
                            );
                        }
                        lemma_row_collision_extend(
                            fb0,
                            mem0,
                            i as int,
                            vx as int,
                            vy as int,
                            row as int,
                            col as int,
                        );
                    }
                } else {
                    proof {
                        assert(!spec_px(mem0[i + row], col as int));
                        assert forall|q: int| 0 <= q < 2048 implies self.framebuffer@[q] == (
                        if spec_covered(mem0, i as int, vx as int, vy as int, row as int, q)
                            || spec_covered_row(
                            mem0,
                            i as int,
                            vx as int,
                            vy as int,
                            row as int,
                            col + 1 as int,
                            q,
                        ) {
                            spec_toggle(fb0[q])
                        } else {
                            fb0[q]
                        }) by {
                            lemma_covered_row_extend(
                                mem0,
                                i as int,
                                vx as int,
                                vy as int,
                                row as int,
                                col as int,
                                q,
                            );
                        }
                        lemma_row_collision_extend(
                            fb0,
                            mem0,
                            i as int,
                            vx as int,
                            vy as int,
                            row as int,
                            col as int,
                        );
                    }
                }
            }
            proof {
                assert forall|q: int| 0 <= q < 2048 implies self.framebuffer@[q] == (
                if spec_covered(mem0, i as int, vx as int, vy as int, row + 1 as int, q) {
                    spec_toggle(fb0[q])
                } else {
                    fb0[q]
                }) by {
                    lemma_covered_extend(mem0, i as int, vx as int, vy as int, row as int, q);
                }
                lemma_collision_extend(fb0, mem0, i as int, vx as int, vy as int, row as int);
            }
        }
        self.registers[0xF] = if collide {
            1
        } else {
            0
        };
        self.program_counter = self.program_counter + 2;
        proof {
            assert(self.framebuffer@ =~= spec_draw_fb(
                fb0,
                mem0,
                i as int,
                vx as int,
                vy as int,
                n as int,
            ));
        }
        Ok(())
    }

    /// Fx0A wait for a key: when some key is pressed, store the lowest
    /// pressed index in register `x` and move on; otherwise leave the
    /// program counter in place so the same instruction runs next tick.
    fn ldk_fx0a(&mut self, x: u8, keys: [bool; 16])
        requires
            x < 16,
            old(self).program_counter <= 4094,
        ensures
            same_memory(*old(self), *final(self)),
            same_framebuffer(*old(self), *final(self)),
            same_stack(*old(self), *final(self)),
            same_index(*old(self), *final(self)),
            same_timers(*old(self), *final(self)),
            if spec_key_pressed(keys) {
                final(self).registers@ == old(self).registers@.update(
                    x as int,
                    spec_lowest_key(keys) as u8,
                ) && final(self).program_counter == old(self).program_counter + 2
            } else {
                same_registers(*old(self), *final(self)) && final(self).program_counter == old(
                    self,
                ).program_counter
            },
    {
        let mut k: usize = 0;
        while k < 16
            invariant_except_break
                k <= 16,
                forall|j: int| 0 <= j < k ==> !keys[j],
                spec_lowest_key(keys) == spec_lowest_key_from(keys, k as int),
            ensures
                (k < 16 && keys[k as int] && spec_lowest_key(keys) == k) || (k == 16 && forall|
                    j: int,
                |
                    0 <= j < 16 ==> !keys[j]),
            decreases 16 - k,
        {
            if keys[k] {
                break ;
            }
            k = k + 1;
        }
        if k < 16 {
            proof {
                assert(spec_key_pressed(keys));
            }
            self.registers[x as usize] = k as u8;
            self.program_counter = self.program_counter + 2;
        } else {
            proof {
                assert(!spec_key_pressed(keys));
            }
        }
    }

    /// Fx33 store the decimal digits of register `x` at the index
    /// register: hundreds, tens, ones; a write past the end of memory
    /// faults before anything is written.
    fn str_fx33(&mut self, x: u8) -> (r: Result<(), EngineError>)
        requires
            x < 16,
            old(self).program_counter <= 4094,
        ensures
            match r {
                Ok(()) => old(self).index_register + 3 <= 4096 && final(self).memory@ == spec_bcd(
                    old(self).memory@,
                    old(self).index_register as int,
                    old(self).registers@[x as int],
                ) && same_framebuffer(*old(self), *final(self)) && same_registers(
                    *old(self),
                    *final(self),
                ) && same_stack(*old(self), *final(self)) && same_index(*old(self), *final(self))
                    && same_timers(*old(self), *final(self)) && final(self).program_counter == old(
                    self,
                ).program_counter + 2,
                Err(e) => e == EngineError::AddressOutOfRange && old(self).index_register + 3
                    > 4096 && *final(self) == *old(self),
            },
    {
        if self.index_register > 4093 {
            return Err(EngineError::AddressOutOfRange);
        }
        let i = self.index_register as usize;
        let vx = self.registers[x as usize];
        self.memory[i] = vx / 100;
        self.memory[i + 1] = (vx / 10) % 10;
        self.memory[i + 2] = vx % 10;
        self.program_counter = self.program_counter + 2;
        Ok(())
    }

    /// Fx55 store registers 0 through `x` to memory at the index register;
    /// a write past the end of memory faults before anything is written.
    fn str_fx55(&mut self, x: u8) -> (r: Result<(), EngineError>)
        requires
            x < 16,
            old(self).program_counter <= 4094,
        ensures
            match r {
                Ok(()) => old(self).index_register + x + 1 <= 4096 && final(self).memory@
                    == spec_store_registers(
                    old(self).memory@,
                    old(self).registers@,
                    old(self).index_register as int,
                    x as int,
                ) && same_framebuffer(*old(self), *final(self)) && same_registers(
                    *old(self),
                    *final(self),
                ) && same_stack(*old(self), *final(self)) && same_index(*old(self), *final(self))
                    && same_timers(*old(self), *final(self)) && final(self).program_counter == old(
                    self,
                ).program_counter + 2,
                Err(e) => e == EngineError::AddressOutOfRange && old(self).index_register + x + 1
                    > 4096 && *final(self) == *old(self),
            },
    {
        let i = self.index_register as usize;
        if i + (x as usize) + 1 > 4096 {
            return Err(EngineError::AddressOutOfRange);
        }
        for reg in 0..(x as usize) + 1
            invariant
                i == old(self).index_register,
                x < 16,
                i + x + 1 <= 4096,
                reg <= x + 1,
                forall|a: int|
                    0 <= a < 4096 ==> self.memory@[a] == (if i <= a < i + reg {
                        old(self).registers@[a - i]
                    } else {
                        old(self).memory@[a]
                    }),
                self.framebuffer == old(self).framebuffer,
                self.registers == old(self).registers,
                self.index_register == old(self).index_register,
                self.program_counter == old(self).program_counter,
                self.stack == old(self).stack,
                self.stack_pointer == old(self).stack_pointer,
                self.delay_timer == old(self).delay_timer,
                self.sound_timer == old(self).sound_timer,
        {
            let v = self.registers[reg];
            self.memory[i + reg] = v;
        }
        self.program_counter = self.program_counter + 2;
        proof {
            assert(final(self).memory@ =~= spec_store_registers(
                old(self).memory@,
                old(self).registers@,
                old(self).index_register as int,
                x as int,
            ));
        }
        Ok(())
    }

    /// Fx65 load registers 0 through `x` from memory at the index
    /// register; a read past the end of memory faults before anything is
    /// loaded.
    fn ldr_fx65(&mut self, x: u8) -> (r: Result<(), EngineError>)
        requires
            x < 16,
            old(self).program_counter <= 4094,
        ensures
            match r {
                Ok(()) => old(self).index_register + x + 1 <= 4096 && same_memory(
                    *old(self),
                    *final(self),
                ) && same_framebuffer(*old(self), *final(self)) && final(self).registers@
                    == spec_load_registers(
                    old(self).registers@,
                    old(self).memory@,
                    old(self).index_register as int,
                    x as int,
                ) && same_stack(*old(self), *final(self)) && same_index(*old(self), *final(self))
                    && same_timers(*old(self), *final(self)) && final(self).program_counter == old(
                    self,
                ).program_counter + 2,
                Err(e) => e == EngineError::AddressOutOfRange && old(self).index_register + x + 1
                    > 4096 && *final(self) == *old(self),
            },
    {
        let i = self.index_register as usize;
        if i + (x as usize) + 1 > 4096 {
            return Err(EngineError::AddressOutOfRange);
        }
        for reg in 0..(x as usize) + 1
            invariant
                i == old(self).index_register,
                x < 16,
                i + x + 1 <= 4096,
                reg <= x + 1,
                forall|j: int|
                    0 <= j < 16 ==> self.registers@[j] == (if 0 <= j < reg {
                        old(self).memory@[i + j]
                    } else {
                        old(self).registers@[j]
                    }),
                self.memory == old(self).memory,
                self.framebuffer == old(self).framebuffer,
                self.index_register == old(self).index_register,
                self.program_counter == old(self).program_counter,
                self.stack == old(self).stack,
                self.stack_pointer == old(self).stack_pointer,
                self.delay_timer == old(self).delay_timer,
                self.sound_timer == old(self).sound_timer,
        {
            let v = self.memory[i + reg];
            self.registers[reg] = v;
        }
        self.program_counter = self.program_counter + 2;
        proof {
            assert(final(self).registers@ =~= spec_load_registers(
                old(self).registers@,
                old(self).memory@,
                old(self).index_register as int,
                x as int,
            ));
        }
        Ok(())
    }

    /// Fx29 point the index register at the font glyph for register `x`'s
    /// value, five bytes per glyph.
    fn ldi_fx29(&mut self, x: u8)
        requires
            x < 16,
            old(self).program_counter <= 4094,
        ensures
            same_memory(*old(self), *final(self)),
            same_framebuffer(*old(self), *final(self)),
            same_registers(*old(self), *final(self)),
            same_stack(*old(self), *final(self)),
            final(self).index_register == old(self).registers@[x as int] * 5,
            same_timers(*old(self), *final(self)),
            final(self).program_counter == old(self).program_counter + 2,
    {
        let vx = self.registers[x as usize] as u16;
        self.index_register = vx * 5;
        self.program_counter = self.program_counter + 2;
    }
}

} // verus!
