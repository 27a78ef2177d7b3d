//! The mathematical model of one machine step: what each instruction does
//! to the state, which faults arise, and on which inputs.

use vstd::prelude::*;
use crate::EngineError;
use crate::engine::Engine;
use crate::instruction::{
    InstructionType, spec_decode, spec_kk, spec_n, spec_nnn, spec_x, spec_y,
};

verus! {

/// The big-endian 16-bit word formed by two consecutive memory bytes.
pub open spec fn spec_word(mem: Seq<u8>, pc: int) -> u16
    recommends
        0 <= pc,
        pc + 1 < mem.len(),
{
    (mem[pc] * 256 + mem[pc + 1]) as u16
}

/// One timer decay step: down by one, saturating at zero.
pub open spec fn spec_dec(t: u8) -> u8 {
    if t == 0 {
        0
    } else {
        (t - 1) as u8
    }
}

/// 8-bit addition, wrapping on overflow.
pub open spec fn spec_wrap_add(a: u8, b: u8) -> u8 {
    if a + b > 255 {
        (a + b - 256) as u8
    } else {
        (a + b) as u8
    }
}

/// 8-bit subtraction, wrapping on underflow.
pub open spec fn spec_wrap_sub(a: u8, b: u8) -> u8 {
    if a - b < 0 {
        (a - b + 256) as u8
    } else {
        (a - b) as u8
    }
}

/// 16-bit addition, wrapping on overflow.
pub open spec fn spec_wrap_add16(a: u16, b: u16) -> u16 {
    if a + b > 65535 {
        (a + b - 65536) as u16
    } else {
        (a + b) as u16
    }
}

/// Memory is untouched by the step.
pub open spec fn same_memory(pre: Engine, post: Engine) -> bool {
    post.memory@ == pre.memory@
}

/// The frame buffer is untouched by the step.
pub open spec fn same_framebuffer(pre: Engine, post: Engine) -> bool {
    post.framebuffer@ == pre.framebuffer@
}

/// The general registers are untouched by the step.
pub open spec fn same_registers(pre: Engine, post: Engine) -> bool {
    post.registers@ == pre.registers@
}

/// The call stack and its pointer are untouched by the step.
pub open spec fn same_stack(pre: Engine, post: Engine) -> bool {
    post.stack@ == pre.stack@ && post.stack_pointer == pre.stack_pointer
}

/// The index register is untouched by the step.
pub open spec fn same_index(pre: Engine, post: Engine) -> bool {
    post.index_register == pre.index_register
}

/// Both timers are untouched by the step.
pub open spec fn same_timers(pre: Engine, post: Engine) -> bool {
    post.delay_timer == pre.delay_timer && post.sound_timer == pre.sound_timer
}

/// Both timers have decayed by exactly one step.
pub open spec fn timers_decayed(pre: Engine, post: Engine) -> bool {
    post.delay_timer == spec_dec(pre.delay_timer) && post.sound_timer == spec_dec(pre.sound_timer)
}

/// Some key of the 16-key matrix is pressed.
pub open spec fn spec_key_pressed(keys: [bool; 16]) -> bool {
    exists|i: int| 0 <= i < 16 && keys[i]
}

/// The lowest pressed key index at or above `i`, or 16 when none is.
pub open spec fn spec_lowest_key_from(keys: [bool; 16], i: int) -> int
    recommends
        0 <= i <= 16,
    decreases 16 - i,
{
    if i < 0 || i >= 16 {
        16
    } else if keys[i] {
        i
    } else {
        spec_lowest_key_from(keys, i + 1)
    }
}

/// The lowest pressed key index, or 16 when no key is pressed.
pub open spec fn spec_lowest_key(keys: [bool; 16]) -> int {
    spec_lowest_key_from(keys, 0)
}

/// Whether bit `b` (0 = leftmost) of a sprite row byte is set.
pub open spec fn spec_px(byte: u8, b: int) -> bool
    recommends
        0 <= b < 8,
{
    (byte >> ((7 - b) as u8)) & 1 == 1
}

/// The frame buffer cell that sprite pixel (`r`, `b`) lands on when drawn
/// at (`vx`, `vy`), wrapping per pixel in both directions.
pub open spec fn spec_cell(vx: int, vy: int, r: int, b: int) -> int {
    ((vy + r) % 32) * 64 + ((vx + b) % 64)
}

/// One pixel toggled by a draw.
pub open spec fn spec_toggle(p: u8) -> u8 {
    if p == 1 {
        0
    } else {
        1
    }
}

/// Whether cell `idx` is touched by some set sprite pixel among the first
/// `rows` sprite rows read from memory at `i`.
pub open spec fn spec_covered(
    mem: Seq<u8>,
    i: int,
    vx: int,
    vy: int,
    rows: int,
    idx: int,
) -> bool {
    exists|r: int, b: int|
        0 <= r < rows && 0 <= b < 8 && idx == spec_cell(vx, vy, r, b) && spec_px(mem[i + r], b)
}

/// The frame buffer after XOR-drawing an `n`-row sprite read from memory
/// at `i` onto position (`vx`, `vy`): every touched cell toggles.
pub open spec fn spec_draw_fb(
    fb: Seq<u8>,
    mem: Seq<u8>,
    i: int,
    vx: int,
    vy: int,
    n: int,
) -> Seq<u8> {
    Seq::new(
        2048,
        |idx: int|
            if spec_covered(mem, i, vx, vy, n, idx) {
                spec_toggle(fb[idx])
            } else {
                fb[idx]
            },
    )
}

/// Whether the draw turns some set pixel off again: a touched cell was
/// already lit.
pub open spec fn spec_collision(
    fb: Seq<u8>,
    mem: Seq<u8>,
    i: int,
    vx: int,
    vy: int,
    n: int,
) -> bool {
    exists|idx: int| 0 <= idx < 2048 && spec_covered(mem, i, vx, vy, n, idx) && fb[idx] == 1
}

/// Whether cell `idx` is touched by a set sprite pixel of row `r` among
/// the first `blim` bits of that row.
pub open spec fn spec_covered_row(
    mem: Seq<u8>,
    i: int,
    vx: int,
    vy: int,
    r: int,
    blim: int,
    idx: int,
) -> bool {
    exists|b: int| 0 <= b < blim && idx == spec_cell(vx, vy, r, b) && spec_px(mem[i + r], b)
}

/// Whether some set sprite pixel among the first `blim` bits of row `r`
/// lands on a lit cell of `fb`.
pub open spec fn spec_row_collision(
    fb: Seq<u8>,
    mem: Seq<u8>,
    i: int,
    vx: int,
    vy: int,
    r: int,
    blim: int,
) -> bool {
    exists|b: int|
        0 <= b < blim && spec_px(mem[i + r], b) && fb[spec_cell(vx, vy, r, b)] == 1
}

/// Whether any of the first `n` sprite rows read from memory at `i` has a
/// set pixel at all.
pub open spec fn spec_sprite_has_pixel(mem: Seq<u8>, i: int, n: int) -> bool {
    exists|r: int, b: int| 0 <= r < n && 0 <= b < 8 && #[trigger] spec_px(mem[i + r], b)
}

/// Wrapping addition under a modulus stays in a one-period window: the sum
/// of a residue and an offset below the modulus wraps at most once.
pub proof fn lemma_mod_window(a: int, r: int, m: int)
    requires
        0 <= a,
        0 <= r < m,
        0 < m,
    ensures
        (a + r) % m == if a % m + r < m {
            a % m + r
        } else {
            a % m + r - m
        },
{
    vstd::arithmetic::div_mod::lemma_add_mod_noop(a, r, m);
    vstd::arithmetic::div_mod::lemma_small_mod(r as nat, m as nat);
    vstd::arithmetic::div_mod::lemma_mod_bound(a, m);
    let s = a % m + r;
    if s < m {
        vstd::arithmetic::div_mod::lemma_small_mod(s as nat, m as nat);
    } else {
        vstd::arithmetic::div_mod::lemma_mod_sub_multiples_vanish(s, m);
        vstd::arithmetic::div_mod::lemma_small_mod((s - m) as nat, m as nat);
    }
}

/// Every sprite pixel lands inside the frame buffer.
pub proof fn lemma_cell_bounds(vx: int, vy: int, r: int, b: int)
    requires
        0 <= vx,
        0 <= vy,
        0 <= r,
        0 <= b,
    ensures
        0 <= spec_cell(vx, vy, r, b) < 2048,
{
    vstd::arithmetic::div_mod::lemma_mod_bound(vy + r, 32);
    vstd::arithmetic::div_mod::lemma_mod_bound(vx + b, 64);
}

/// Distinct sprite pixels of one draw land on distinct frame buffer
/// cells: with at most 32 rows and 8 bits, the per-pixel wraparound never
/// folds two pixels onto one cell.
pub proof fn lemma_cell_inj(vx: int, vy: int, r1: int, b1: int, r2: int, b2: int)
    requires
        0 <= vx,
        0 <= vy,
        0 <= r1 < 32,
        0 <= r2 < 32,
        0 <= b1 < 8,
        0 <= b2 < 8,
        spec_cell(vx, vy, r1, b1) == spec_cell(vx, vy, r2, b2),
    ensures
        r1 == r2,
        b1 == b2,
{
    vstd::arithmetic::div_mod::lemma_mod_bound(vy + r1, 32);
    vstd::arithmetic::div_mod::lemma_mod_bound(vy + r2, 32);
    vstd::arithmetic::div_mod::lemma_mod_bound(vx + b1, 64);
    vstd::arithmetic::div_mod::lemma_mod_bound(vx + b2, 64);
    assert((vy + r1) % 32 == (vy + r2) % 32 && (vx + b1) % 64 == (vx + b2) % 64);
    lemma_mod_window(vy, r1, 32);
    lemma_mod_window(vy, r2, 32);
    lemma_mod_window(vx, b1, 64);
    lemma_mod_window(vx, b2, 64);
}

/// Extending the scanned part of a row by one bit covers exactly one more
/// candidate cell.
pub proof fn lemma_covered_row_extend(
    mem: Seq<u8>,
    i: int,
    vx: int,
    vy: int,
    r: int,
    b: int,
    idx: int,
)
    requires
        0 <= b,
    ensures
        spec_covered_row(mem, i, vx, vy, r, b + 1, idx) <==> (spec_covered_row(
            mem,
            i,
            vx,
            vy,
            r,
            b,
            idx,
        ) || (idx == spec_cell(vx, vy, r, b) && spec_px(mem[i + r], b))),
{
    if spec_covered_row(mem, i, vx, vy, r, b + 1, idx) {
        let bb = choose|bb: int|
            0 <= bb < b + 1 && idx == spec_cell(vx, vy, r, bb) && spec_px(mem[i + r], bb);
        if bb < b {
            assert(spec_covered_row(mem, i, vx, vy, r, b, idx));
        }
    }
    if spec_covered_row(mem, i, vx, vy, r, b, idx) {
        let bb = choose|bb: int|
            0 <= bb < b && idx == spec_cell(vx, vy, r, bb) && spec_px(mem[i + r], bb);
        assert(0 <= bb < b + 1 && idx == spec_cell(vx, vy, r, bb) && spec_px(mem[i + r], bb));
        assert(spec_covered_row(mem, i, vx, vy, r, b + 1, idx));
    }
    if idx == spec_cell(vx, vy, r, b) && spec_px(mem[i + r], b) {
        assert(0 <= b < b + 1 && idx == spec_cell(vx, vy, r, b) && spec_px(mem[i + r], b));
        assert(spec_covered_row(mem, i, vx, vy, r, b + 1, idx));
    }
}

/// Extending the drawn part of a sprite by one row covers exactly the
/// cells of that row on top of what was covered before.
pub proof fn lemma_covered_extend(mem: Seq<u8>, i: int, vx: int, vy: int, r: int, idx: int)
    requires
        0 <= r,
    ensures
        spec_covered(mem, i, vx, vy, r + 1, idx) <==> (spec_covered(mem, i, vx, vy, r, idx)
            || spec_covered_row(mem, i, vx, vy, r, 8, idx)),
{
    if spec_covered(mem, i, vx, vy, r + 1, idx) {
        let (rr, bb) = choose|rr: int, bb: int|
            0 <= rr < r + 1 && 0 <= bb < 8 && idx == spec_cell(vx, vy, rr, bb) && spec_px(
                mem[i + rr],
                bb,
            );
        if rr < r {
            assert(spec_covered(mem, i, vx, vy, r, idx));
        } else {
            assert(0 <= bb < 8 && idx == spec_cell(vx, vy, r, bb) && spec_px(mem[i + r], bb));
            assert(spec_covered_row(mem, i, vx, vy, r, 8, idx));
        }
    }
    if spec_covered(mem, i, vx, vy, r, idx) {
        let (rr, bb) = choose|rr: int, bb: int|
            0 <= rr < r && 0 <= bb < 8 && idx == spec_cell(vx, vy, rr, bb) && spec_px(
                mem[i + rr],
                bb,
            );
        assert(0 <= rr < r + 1 && 0 <= bb < 8 && idx == spec_cell(vx, vy, rr, bb) && spec_px(
            mem[i + rr],
            bb,
        ));
        assert(spec_covered(mem, i, vx, vy, r + 1, idx));
    }
    if spec_covered_row(mem, i, vx, vy, r, 8, idx) {
        let bb = choose|bb: int|
            0 <= bb < 8 && idx == spec_cell(vx, vy, r, bb) && spec_px(mem[i + r], bb);
        assert(0 <= r < r + 1 && 0 <= bb < 8 && idx == spec_cell(vx, vy, r, bb) && spec_px(
            mem[i + r],
            bb,
        ));
        assert(spec_covered(mem, i, vx, vy, r + 1, idx));
    }
}

/// Extending the scanned part of a row by one bit can raise the collision
/// flag only through that one bit.
pub proof fn lemma_row_collision_extend(
    fb: Seq<u8>,
    mem: Seq<u8>,
    i: int,
    vx: int,
    vy: int,
    r: int,
    b: int,
)
    requires
        0 <= b,
    ensures
        spec_row_collision(fb, mem, i, vx, vy, r, b + 1) <==> (spec_row_collision(
            fb,
            mem,
            i,
            vx,
            vy,
            r,
            b,
        ) || (spec_px(mem[i + r], b) && fb[spec_cell(vx, vy, r, b)] == 1)),
{
    if spec_row_collision(fb, mem, i, vx, vy, r, b + 1) {
        let bb = choose|bb: int|
            0 <= bb < b + 1 && spec_px(mem[i + r], bb) && fb[spec_cell(vx, vy, r, bb)] == 1;
        if bb < b {
            assert(spec_row_collision(fb, mem, i, vx, vy, r, b));
        }
    }
    if spec_row_collision(fb, mem, i, vx, vy, r, b) {
        let bb = choose|bb: int|
            0 <= bb < b && spec_px(mem[i + r], bb) && fb[spec_cell(vx, vy, r, bb)] == 1;
        assert(0 <= bb < b + 1 && spec_px(mem[i + r], bb) && fb[spec_cell(vx, vy, r, bb)] == 1);
        assert(spec_row_collision(fb, mem, i, vx, vy, r, b + 1));
    }
    if spec_px(mem[i + r], b) && fb[spec_cell(vx, vy, r, b)] == 1 {
        assert(0 <= b < b + 1 && spec_px(mem[i + r], b) && fb[spec_cell(vx, vy, r, b)] == 1);
        assert(spec_row_collision(fb, mem, i, vx, vy, r, b + 1));
    }
}

/// Drawing one more row raises the collision flag exactly when that row
/// collides or an earlier one did.
pub proof fn lemma_collision_extend(fb: Seq<u8>, mem: Seq<u8>, i: int, vx: int, vy: int, r: int)
    requires
        0 <= r,
        0 <= vx,
        0 <= vy,
    ensures
        spec_collision(fb, mem, i, vx, vy, r + 1) <==> (spec_collision(fb, mem, i, vx, vy, r)
            || spec_row_collision(fb, mem, i, vx, vy, r, 8)),
{
    if spec_collision(fb, mem, i, vx, vy, r + 1) {
        let idx = choose|idx: int|
            0 <= idx < 2048 && spec_covered(mem, i, vx, vy, r + 1, idx) && fb[idx] == 1;
        lemma_covered_extend(mem, i, vx, vy, r, idx);
        if spec_covered(mem, i, vx, vy, r, idx) {
            assert(spec_collision(fb, mem, i, vx, vy, r));
        } else {
            let bb = choose|bb: int|
                0 <= bb < 8 && idx == spec_cell(vx, vy, r, bb) && spec_px(mem[i + r], bb);
            assert(0 <= bb < 8 && spec_px(mem[i + r], bb) && fb[spec_cell(vx, vy, r, bb)] == 1);
            assert(spec_row_collision(fb, mem, i, vx, vy, r, 8));
        }
    }
    if spec_collision(fb, mem, i, vx, vy, r) {
        let idx = choose|idx: int|
            0 <= idx < 2048 && spec_covered(mem, i, vx, vy, r, idx) && fb[idx] == 1;
        lemma_covered_extend(mem, i, vx, vy, r, idx);
        assert(0 <= idx < 2048 && spec_covered(mem, i, vx, vy, r + 1, idx) && fb[idx] == 1);
        assert(spec_collision(fb, mem, i, vx, vy, r + 1));
    }
    if spec_row_collision(fb, mem, i, vx, vy, r, 8) {
        let bb = choose|bb: int|
            0 <= bb < 8 && spec_px(mem[i + r], bb) && fb[spec_cell(vx, vy, r, bb)] == 1;
        let idx = spec_cell(vx, vy, r, bb);
        lemma_cell_bounds(vx, vy, r, bb);
        assert(0 <= r < r + 1 && 0 <= bb < 8 && idx == spec_cell(vx, vy, r, bb) && spec_px(
            mem[i + r],
            bb,
        ));
        assert(spec_covered(mem, i, vx, vy, r + 1, idx));
        assert(spec_collision(fb, mem, i, vx, vy, r + 1));
    }
}

/// The cell a sprite pixel lands on is untouched by the pixels drawn
/// before it, so a draw reads each cell it toggles in its original state.
pub proof fn lemma_cell_fresh(mem: Seq<u8>, i: int, vx: int, vy: int, r: int, b: int)
    requires
        0 <= vx,
        0 <= vy,
        0 <= r < 32,
        0 <= b < 8,
    ensures
        !spec_covered(mem, i, vx, vy, r, spec_cell(vx, vy, r, b)),
        !spec_covered_row(mem, i, vx, vy, r, b, spec_cell(vx, vy, r, b)),
{
    let idx = spec_cell(vx, vy, r, b);
    if spec_covered(mem, i, vx, vy, r, idx) {
        let (rr, bb) = choose|rr: int, bb: int|
            0 <= rr < r && 0 <= bb < 8 && idx == spec_cell(vx, vy, rr, bb) && spec_px(
                mem[i + rr],
                bb,
            );
        lemma_cell_inj(vx, vy, rr, bb, r, b);
    }
    if spec_covered_row(mem, i, vx, vy, r, b, idx) {
        let bb = choose|bb: int|
            0 <= bb < b && idx == spec_cell(vx, vy, r, bb) && spec_px(mem[i + r], bb);
        lemma_cell_inj(vx, vy, r, bb, r, b);
    }
}

/// Memory after storing registers `0..=x` at addresses `i..=i+x`.
pub open spec fn spec_store_registers(mem: Seq<u8>, regs: Seq<u8>, i: int, x: int) -> Seq<u8> {
    Seq::new(
        4096,
        |a: int|
            if i <= a <= i + x {
                regs[a - i]
            } else {
                mem[a]
            },
    )
}

/// Registers after loading `0..=x` from memory addresses `i..=i+x`.
pub open spec fn spec_load_registers(regs: Seq<u8>, mem: Seq<u8>, i: int, x: int) -> Seq<u8> {
    Seq::new(
        16,
        |j: int|
            if 0 <= j <= x {
                mem[i + j]
            } else {
                regs[j]
            },
    )
}

/// Memory after storing the three decimal digits of `v` at `i`, `i + 1`
/// and `i + 2` (hundreds, tens, ones).
pub open spec fn spec_bcd(mem: Seq<u8>, i: int, v: u8) -> Seq<u8> {
    mem.update(i, (v / 100) as u8).update(i + 1, ((v / 10) % 10) as u8).update(
        i + 2,
        (v % 10) as u8,
    )
}

/// The fault a tick of state `s` reports, or `None` when the tick
/// succeeds. Faults depend on the state alone and leave it unchanged.
pub open spec fn spec_step_fault(s: Engine) -> Option<EngineError> {
    if s.program_counter + 1 >= 4096 {
        Some(EngineError::AddressOutOfRange)
    } else {
        let w = spec_word(s.memory@, s.program_counter as int);
        match spec_decode(w) {
            None => Some(EngineError::UnknownInstructionType),
            Some(t) => match t {
                InstructionType::RET => if s.stack_pointer == 0 {
                    Some(EngineError::StackUnderflow)
                } else {
                    None
                },
                InstructionType::CALL => if s.stack_pointer >= 16 {
                    Some(EngineError::StackOverflow)
                } else {
                    None
                },
                InstructionType::DRW => if s.index_register + spec_n(w) > 4096 {
                    Some(EngineError::AddressOutOfRange)
                } else {
                    None
                },
                InstructionType::SKPK => if s.registers@[spec_x(w) as int] >= 16 {
                    Some(EngineError::AddressOutOfRange)
                } else {
                    None
                },
                InstructionType::SKPNK => if s.registers@[spec_x(w) as int] >= 16 {
                    Some(EngineError::AddressOutOfRange)
                } else {
                    None
                },
                InstructionType::LDBR => if s.index_register + 3 > 4096 {
                    Some(EngineError::AddressOutOfRange)
                } else {
                    None
                },
                InstructionType::LDIR => if s.index_register + spec_x(w) + 1 > 4096 {
                    Some(EngineError::AddressOutOfRange)
                } else {
                    None
                },
                InstructionType::LDMR => if s.index_register + spec_x(w) + 1 > 4096 {
                    Some(EngineError::AddressOutOfRange)
                } else {
                    None
                },
                _ => None,
            },
        }
    }
}

/// The full transition of one successful tick: `post` is `pre` after
/// fetching, decoding and executing the instruction at the program counter
/// and decaying both timers once. For the random instruction, `rnd` is the
/// byte the generator returned; every other instruction ignores it.
pub open spec fn spec_step(pre: Engine, post: Engine, keys: [bool; 16], rnd: u8) -> bool {
    let w = spec_word(pre.memory@, pre.program_counter as int);
    let x = spec_x(w) as int;
    let y = spec_y(w) as int;
    let n = spec_n(w) as int;
    let kk = spec_kk(w);
    let nnn = spec_nnn(w);
    let vx = pre.registers@[x];
    let vy = pre.registers@[y];
    match spec_decode(w) {
        None => false,
        Some(t) => match t {
            InstructionType::SYS => {
                &&& same_memory(pre, post)
                &&& same_framebuffer(pre, post)
                &&& same_registers(pre, post)
                &&& same_stack(pre, post)
                &&& same_index(pre, post)
                &&& timers_decayed(pre, post)
                &&& post.program_counter == pre.program_counter + 2
            },
            InstructionType::CLS => {
                &&& same_memory(pre, post)
                &&& post.framebuffer@ == Seq::new(2048, |i: int| 0u8)
                &&& same_registers(pre, post)
                &&& same_stack(pre, post)
                &&& same_index(pre, post)
                &&& timers_decayed(pre, post)
                &&& post.program_counter == pre.program_counter + 2
            },
            InstructionType::RET => {
                &&& same_memory(pre, post)
                &&& same_framebuffer(pre, post)
                &&& same_registers(pre, post)
                &&& post.stack@ == pre.stack@
                &&& post.stack_pointer == pre.stack_pointer - 1
                &&& same_index(pre, post)
                &&& timers_decayed(pre, post)
                &&& post.program_counter == pre.stack@[pre.stack_pointer - 1]
            },
            InstructionType::JPA => {
                &&& same_memory(pre, post)
                &&& same_framebuffer(pre, post)
                &&& same_registers(pre, post)
                &&& same_stack(pre, post)
                &&& same_index(pre, post)
                &&& timers_decayed(pre, post)
                &&& post.program_counter == nnn
            },
            InstructionType::CALL => {
                &&& same_memory(pre, post)
                &&& same_framebuffer(pre, post)
                &&& same_registers(pre, post)
                &&& post.stack@ == pre.stack@.update(
                    pre.stack_pointer as int,
                    (pre.program_counter + 2) as u16,
                )
                &&& post.stack_pointer == pre.stack_pointer + 1
                &&& same_index(pre, post)
                &&& timers_decayed(pre, post)
                &&& post.program_counter == nnn
            },
            InstructionType::SEV => {
                &&& same_memory(pre, post)
                &&& same_framebuffer(pre, post)
                &&& same_registers(pre, post)
                &&& same_stack(pre, post)
                &&& same_index(pre, post)
                &&& timers_decayed(pre, post)
                &&& post.program_counter == pre.program_counter + (if vx == kk {
                    4int
                } else {
                    2int
                })
            },
            InstructionType::SNEV => {
                &&& same_memory(pre, post)
                &&& same_framebuffer(pre, post)
                &&& same_registers(pre, post)
                &&& same_stack(pre, post)
                &&& same_index(pre, post)
                &&& timers_decayed(pre, post)
                &&& post.program_counter == pre.program_counter + (if vx != kk {
                    4int
                } else {
                    2int
                })
            },
            InstructionType::SER => {
                &&& same_memory(pre, post)
                &&& same_framebuffer(pre, post)
                &&& same_registers(pre, post)
                &&& same_stack(pre, post)
                &&& same_index(pre, post)
                &&& timers_decayed(pre, post)
                &&& post.program_counter == pre.program_counter + (if vx == vy {
                    4int
                } else {
                    2int
                })
            },
            InstructionType::LDV => {
                &&& same_memory(pre, post)
                &&& same_framebuffer(pre, post)
                &&& post.registers@ == pre.registers@.update(x, kk)
                &&& same_stack(pre, post)
                &&& same_index(pre, post)
                &&& timers_decayed(pre, post)
                &&& post.program_counter == pre.program_counter + 2
            },
            InstructionType::ADDV => {
                &&& same_memory(pre, post)
                &&& same_framebuffer(pre, post)
                &&& post.registers@ == pre.registers@.update(x, spec_wrap_add(vx, kk))
                &&& same_stack(pre, post)
                &&& same_index(pre, post)
                &&& timers_decayed(pre, post)
                &&& post.program_counter == pre.program_counter + 2
            },
            InstructionType::LDR => {
                &&& same_memory(pre, post)
                &&& same_framebuffer(pre, post)
                &&& post.registers@ == pre.registers@.update(x, vy)
                &&& same_stack(pre, post)
                &&& same_index(pre, post)
                &&& timers_decayed(pre, post)
                &&& post.program_counter == pre.program_counter + 2
            },
            InstructionType::ORR => {
                &&& same_memory(pre, post)
                &&& same_framebuffer(pre, post)
                &&& post.registers@ == pre.registers@.update(x, vx | vy)
                &&& same_stack(pre, post)
                &&& same_index(pre, post)
                &&& timers_decayed(pre, post)
                &&& post.program_counter == pre.program_counter + 2
            },
            InstructionType::ANDR => {
                &&& same_memory(pre, post)
                &&& same_framebuffer(pre, post)
                &&& post.registers@ == pre.registers@.update(x, vx & vy)
                &&& same_stack(pre, post)
                &&& same_index(pre, post)
                &&& timers_decayed(pre, post)
                &&& post.program_counter == pre.program_counter + 2
            },
            InstructionType::XORR => {
                &&& same_memory(pre, post)
                &&& same_framebuffer(pre, post)
                &&& post.registers@ == pre.registers@.update(x, vx ^ vy)
                &&& same_stack(pre, post)
                &&& same_index(pre, post)
                &&& timers_decayed(pre, post)
                &&& post.program_counter == pre.program_counter + 2
            },
            InstructionType::ANDR_CARRY => {
                &&& same_memory(pre, post)
                &&& same_framebuffer(pre, post)
                &&& post.registers@ == pre.registers@.update(x, spec_wrap_add(vx, vy)).update(
                    15,
                    if vx + vy > 255 {
                        1u8
                    } else {
                        0u8
                    },
                )
                &&& same_stack(pre, post)
                &&& same_index(pre, post)
                &&& timers_decayed(pre, post)
                &&& post.program_counter == pre.program_counter + 2
            },
            InstructionType::SUBR_BORROW => {
                &&& same_memory(pre, post)
                &&& same_framebuffer(pre, post)
                &&& post.registers@ == pre.registers@.update(x, spec_wrap_sub(vx, vy)).update(
                    15,
                    if vx >= vy {
                        1u8
                    } else {
                        0u8
                    },
                )
                &&& same_stack(pre, post)
                &&& same_index(pre, post)
                &&& timers_decayed(pre, post)
                &&& post.program_counter == pre.program_counter + 2
            },
            InstructionType::SHR_STORE => {
                &&& same_memory(pre, post)
                &&& same_framebuffer(pre, post)
                &&& post.registers@ == pre.registers@.update(x, vx >> 1u8).update(15, vx & 1u8)
                &&& same_stack(pre, post)
                &&& same_index(pre, post)
                &&& timers_decayed(pre, post)
                &&& post.program_counter == pre.program_counter + 2
            },
            InstructionType::SUBR_BORROW_REVERSE => {
                &&& same_memory(pre, post)
                &&& same_framebuffer(pre, post)
                &&& post.registers@ == pre.registers@.update(x, spec_wrap_sub(vy, vx)).update(
                    15,
                    if vy >= vx {
                        1u8
                    } else {
                        0u8
                    },
                )
                &&& same_stack(pre, post)
                &&& same_index(pre, post)
                &&& timers_decayed(pre, post)
                &&& post.program_counter == pre.program_counter + 2
            },
            InstructionType::SHL_STORE => {
                &&& same_memory(pre, post)
                &&& same_framebuffer(pre, post)
                &&& post.registers@ == pre.registers@.update(x, vx << 1u8).update(
                    15,
                    (vx >> 7u8) & 1u8,
                )
                &&& same_stack(pre, post)
                &&& same_index(pre, post)
                &&& timers_decayed(pre, post)
                &&& post.program_counter == pre.program_counter + 2
            },
            InstructionType::SNER => {
                &&& same_memory(pre, post)
                &&& same_framebuffer(pre, post)
                &&& same_registers(pre, post)
                &&& same_stack(pre, post)
                &&& same_index(pre, post)
                &&& timers_decayed(pre, post)
                &&& post.program_counter == pre.program_counter + (if vx != vy {
                    4int
                } else {
                    2int
                })
            },
            InstructionType::LDA => {
                &&& same_memory(pre, post)
                &&& same_framebuffer(pre, post)
                &&& same_registers(pre, post)
                &&& same_stack(pre, post)
                &&& post.index_register == nnn
                &&& timers_decayed(pre, post)
                &&& post.program_counter == pre.program_counter + 2
            },
            InstructionType::JPAD => {
                &&& same_memory(pre, post)
                &&& same_framebuffer(pre, post)
                &&& same_registers(pre, post)
                &&& same_stack(pre, post)
                &&& same_index(pre, post)
                &&& timers_decayed(pre, post)
                &&& post.program_counter == nnn + pre.registers@[0]
            },
            InstructionType::RND => {
                &&& same_memory(pre, post)
                &&& same_framebuffer(pre, post)
                &&& post.registers@ == pre.registers@.update(x, rnd & kk)
                &&& same_stack(pre, post)
                &&& same_index(pre, post)
                &&& timers_decayed(pre, post)
                &&& post.program_counter == pre.program_counter + 2
            },
            InstructionType::DRW => {
                &&& same_memory(pre, post)
                &&& post.framebuffer@ == spec_draw_fb(
                    pre.framebuffer@,
                    pre.memory@,
                    pre.index_register as int,
                    vx as int,
                    vy as int,
                    n,
                )
                &&& post.registers@ == pre.registers@.update(
                    15,
                    if spec_collision(
                        pre.framebuffer@,
                        pre.memory@,
                        pre.index_register as int,
                        vx as int,
                        vy as int,
                        n,
                    ) {
                        1u8
                    } else {
                        0u8
                    },
                )
                &&& same_stack(pre, post)
                &&& same_index(pre, post)
                &&& timers_decayed(pre, post)
                &&& post.program_counter == pre.program_counter + 2
            },
            InstructionType::SKPK => {
                &&& same_memory(pre, post)
                &&& same_framebuffer(pre, post)
                &&& same_registers(pre, post)
                &&& same_stack(pre, post)
                &&& same_index(pre, post)
                &&& timers_decayed(pre, post)
                &&& post.program_counter == pre.program_counter + (if keys[vx as int] {
                    4int
                } else {
                    2int
                })
            },
            InstructionType::SKPNK => {
                &&& same_memory(pre, post)
                &&& same_framebuffer(pre, post)
                &&& same_registers(pre, post)
                &&& same_stack(pre, post)
                &&& same_index(pre, post)
                &&& timers_decayed(pre, post)
                &&& post.program_counter == pre.program_counter + (if !keys[vx as int] {
                    4int
                } else {
                    2int
                })
            },
            InstructionType::LDD => {
                &&& same_memory(pre, post)
                &&& same_framebuffer(pre, post)
                &&& post.registers@ == pre.registers@.update(x, pre.delay_timer)
                &&& same_stack(pre, post)
                &&& same_index(pre, post)
                &&& timers_decayed(pre, post)
                &&& post.program_counter == pre.program_counter + 2
            },
            InstructionType::LDK => {
                &&& same_memory(pre, post)
                &&& same_framebuffer(pre, post)
                &&& same_stack(pre, post)
                &&& same_index(pre, post)
                &&& timers_decayed(pre, post)
                &&& if spec_key_pressed(keys) {
                    post.registers@ == pre.registers@.update(x, spec_lowest_key(keys) as u8)
                        && post.program_counter == pre.program_counter + 2
                } else {
                    same_registers(pre, post) && post.program_counter == pre.program_counter
                }
            },
            InstructionType::LDDR => {
                &&& same_memory(pre, post)
                &&& same_framebuffer(pre, post)
                &&& same_registers(pre, post)
                &&& same_stack(pre, post)
                &&& same_index(pre, post)
                &&& post.delay_timer == spec_dec(vx)
                &&& post.sound_timer == spec_dec(pre.sound_timer)
                &&& post.program_counter == pre.program_counter + 2
            },
            InstructionType::LDSR => {
                &&& same_memory(pre, post)
                &&& same_framebuffer(pre, post)
                &&& same_registers(pre, post)
                &&& same_stack(pre, post)
                &&& same_index(pre, post)
                &&& post.delay_timer == spec_dec(pre.delay_timer)
                &&& post.sound_timer == spec_dec(vx)
                &&& post.program_counter == pre.program_counter + 2
            },
            InstructionType::ADDI => {
                &&& same_memory(pre, post)
                &&& same_framebuffer(pre, post)
                &&& same_registers(pre, post)
                &&& same_stack(pre, post)
                &&& post.index_register == spec_wrap_add16(pre.index_register, vx as u16)
                &&& timers_decayed(pre, post)
                &&& post.program_counter == pre.program_counter + 2
            },
            InstructionType::LDSPR => {
                &&& same_memory(pre, post)
                &&& same_framebuffer(pre, post)
                &&& same_registers(pre, post)
                &&& same_stack(pre, post)
                &&& post.index_register == vx * 5
                &&& timers_decayed(pre, post)
                &&& post.program_counter == pre.program_counter + 2
            },
            InstructionType::LDBR => {
                &&& post.memory@ == spec_bcd(pre.memory@, pre.index_register as int, vx)
                &&& same_framebuffer(pre, post)
                &&& same_registers(pre, post)
                &&& same_stack(pre, post)
                &&& same_index(pre, post)
                &&& timers_decayed(pre, post)
                &&& post.program_counter == pre.program_counter + 2
            },
            InstructionType::LDIR => {
                &&& post.memory@ == spec_store_registers(
                    pre.memory@,
                    pre.registers@,
                    pre.index_register as int,
                    x,
                )
                &&& same_framebuffer(pre, post)
                &&& same_registers(pre, post)
                &&& same_stack(pre, post)
                &&& same_index(pre, post)
                &&& timers_decayed(pre, post)
                &&& post.program_counter == pre.program_counter + 2
            },
            InstructionType::LDMR => {
                &&& same_memory(pre, post)
                &&& same_framebuffer(pre, post)
                &&& post.registers@ == spec_load_registers(
                    pre.registers@,
                    pre.memory@,
                    pre.index_register as int,
                    x,
                )
                &&& same_stack(pre, post)
                &&& same_index(pre, post)
                &&& timers_decayed(pre, post)
                &&& post.program_counter == pre.program_counter + 2
            },
        },
    }
}

} // verus!
