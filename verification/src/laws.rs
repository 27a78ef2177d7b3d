//! Laws of the machine: properties that relate several instructions or
//! several ticks, proved against the step relation and the draw model.

use vstd::prelude::*;
use crate::EngineError;
use crate::engine::Engine;
use crate::instruction::{
    InstructionType, lemma_fields_bounded, spec_decode, spec_kk, spec_nnn, spec_x,
};
use crate::semantics::{
    lemma_cell_bounds, spec_cell, spec_collision, spec_covered, spec_draw_fb, spec_key_pressed,
    spec_px, spec_sprite_has_pixel, spec_step, spec_step_fault, spec_toggle, spec_word,
};

verus! {

/// A load-immediate writes through: after executing `load-imm(x, kk)`,
/// register `x` reads back exactly `kk`, whatever the rest of the state.
pub proof fn lemma_load_imm_reads_back(pre: Engine, post: Engine, keys: [bool; 16], rnd: u8)
    requires
        spec_decode(spec_word(pre.memory@, pre.program_counter as int)) == Some(
            InstructionType::LDV,
        ),
        spec_step(pre, post, keys, rnd),
    ensures
        post.registers@[spec_x(spec_word(pre.memory@, pre.program_counter as int)) as int]
            == spec_kk(spec_word(pre.memory@, pre.program_counter as int)),
{
    let w = spec_word(pre.memory@, pre.program_counter as int);
    lemma_fields_bounded(w);
}

/// A shift-right reports the pre-shift least significant bit in the flag
/// register, whatever the operand.
pub proof fn lemma_shift_right_flag(pre: Engine, post: Engine, keys: [bool; 16], rnd: u8)
    requires
        spec_decode(spec_word(pre.memory@, pre.program_counter as int)) == Some(
            InstructionType::SHR_STORE,
        ),
        spec_step(pre, post, keys, rnd),
    ensures
        post.registers@[15] == pre.registers@[spec_x(
            spec_word(pre.memory@, pre.program_counter as int),
        ) as int] & 1u8,
{
    let w = spec_word(pre.memory@, pre.program_counter as int);
    lemma_fields_bounded(w);
}

/// Call/return stack discipline: a call followed by a return from the
/// called address brings the program counter to the instruction after the
/// call and restores the stack pointer.
pub proof fn lemma_call_return_discipline(
    s0: Engine,
    s1: Engine,
    s2: Engine,
    keys1: [bool; 16],
    keys2: [bool; 16],
    rnd1: u8,
    rnd2: u8,
)
    requires
        s0.program_counter + 1 < 4096,
        s0.stack_pointer < 16,
        spec_decode(spec_word(s0.memory@, s0.program_counter as int)) == Some(
            InstructionType::CALL,
        ),
        spec_step(s0, s1, keys1, rnd1),
        spec_decode(spec_word(s1.memory@, s1.program_counter as int)) == Some(
            InstructionType::RET,
        ),
        spec_step(s1, s2, keys2, rnd2),
    ensures
        s2.program_counter == s0.program_counter + 2,
        s2.stack_pointer == s0.stack_pointer,
{
    let pushed = s1.stack@[s0.stack_pointer as int];
    assert(pushed == (s0.program_counter + 2) as u16);
    assert(s2.program_counter == s1.stack@[s1.stack_pointer - 1]);
}

/// A jump to its own address is a fixed point: the tick succeeds, and with
/// both timers already at zero it leaves every part of the state exactly
/// as it was, however often it runs.
pub proof fn lemma_jump_fixed_point(s: Engine, keys: [bool; 16], rnd: u8)
    requires
        s.wf(),
        s.program_counter + 1 < 4096,
        spec_word(s.memory@, s.program_counter as int) == 0x1000 + s.program_counter,
        s.delay_timer == 0,
        s.sound_timer == 0,
    ensures
        spec_step_fault(s) is None,
        spec_step(s, s, keys, rnd),
        forall|post: Engine| spec_step(s, post, keys, rnd) ==> post == s,
{
    let w = spec_word(s.memory@, s.program_counter as int);
    let pc = s.program_counter;
    assert(spec_nnn(w) == pc && spec_decode(w) == Some(InstructionType::JPA)) by {
        assert(((w & 0xF000) >> 12) as u8 == 1 && (w & 0x0FFF) == pc) by (bit_vector)
            requires
                w == 0x1000 + pc,
                pc < 4096,
        ;
    }
    assert forall|post: Engine| spec_step(s, post, keys, rnd) implies post == s by {
        assert(post.memory =~= s.memory);
        assert(post.framebuffer =~= s.framebuffer);
        assert(post.registers =~= s.registers);
        assert(post.stack =~= s.stack);
    }
}

/// Drawing a sprite twice at the same position on a clear frame buffer
/// toggles every touched pixel back off: the first draw reports no
/// collision, and the second collides exactly when the sprite has a set
/// pixel at all.
pub proof fn lemma_draw_twice_restores(fb: Seq<u8>, mem: Seq<u8>, i: int, vx: int, vy: int, n: int)
    requires
        fb.len() == 2048,
        forall|p: int| 0 <= p < 2048 ==> fb[p] == 0,
        0 <= vx,
        0 <= vy,
        0 <= n,
    ensures
        !spec_collision(fb, mem, i, vx, vy, n),
        spec_draw_fb(spec_draw_fb(fb, mem, i, vx, vy, n), mem, i, vx, vy, n) == fb,
        spec_collision(spec_draw_fb(fb, mem, i, vx, vy, n), mem, i, vx, vy, n)
            <==> spec_sprite_has_pixel(mem, i, n),
{
    let fb1 = spec_draw_fb(fb, mem, i, vx, vy, n);
    if spec_collision(fb, mem, i, vx, vy, n) {
        let idx = choose|idx: int|
            0 <= idx < 2048 && spec_covered(mem, i, vx, vy, n, idx) && fb[idx] == 1;
        assert(false);
    }
    assert(spec_draw_fb(fb1, mem, i, vx, vy, n) =~= fb);
    if spec_collision(fb1, mem, i, vx, vy, n) {
        let idx = choose|idx: int|
            0 <= idx < 2048 && spec_covered(mem, i, vx, vy, n, idx) && fb1[idx] == 1;
        let (r, b) = choose|r: int, b: int|
            0 <= r < n && 0 <= b < 8 && idx == spec_cell(vx, vy, r, b) && spec_px(mem[i + r], b);
        assert(0 <= r < n && 0 <= b < 8 && spec_px(mem[i + r], b));
        assert(spec_sprite_has_pixel(mem, i, n));
    }
    if spec_sprite_has_pixel(mem, i, n) {
        let (r, b) = choose|r: int, b: int|
            0 <= r < n && 0 <= b < 8 && #[trigger] spec_px(mem[i + r], b);
        let idx = spec_cell(vx, vy, r, b);
        lemma_cell_bounds(vx, vy, r, b);
        assert(spec_covered(mem, i, vx, vy, n, idx));
        assert(fb1[idx] == spec_toggle(fb[idx]));
        assert(spec_collision(fb1, mem, i, vx, vy, n));
    }
}

/// A word outside the defined opcode space is surfaced as a decode
/// failure: the tick faults with `UnknownInstructionType`, and by the tick
/// contract a faulting tick leaves the state exactly as it was.
pub proof fn lemma_unknown_word_faults(s: Engine)
    requires
        s.program_counter + 1 < 4096,
        spec_decode(spec_word(s.memory@, s.program_counter as int)) is None,
    ensures
        spec_step_fault(s) == Some(EngineError::UnknownInstructionType),
{
}

/// A blocked wait-key holds the program counter and the registers in
/// place: while no key is pressed, the same instruction is fetched again
/// on the next tick.
pub proof fn lemma_wait_key_blocks(pre: Engine, post: Engine, keys: [bool; 16], rnd: u8)
    requires
        spec_decode(spec_word(pre.memory@, pre.program_counter as int)) == Some(
            InstructionType::LDK,
        ),
        !spec_key_pressed(keys),
        spec_step(pre, post, keys, rnd),
    ensures
        post.program_counter == pre.program_counter,
        post.registers@ == pre.registers@,
{
}

} // verus!
