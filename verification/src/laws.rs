use vstd::prelude::*;
use crate::graphics::{blank_display, lemma_draw_on_blank_never_collides, lemma_draw_twice_restores, DISPLAY_ROWS};
use crate::input::KEY_COUNT;
use crate::memory::{digit_sprites, MEMORY_SIZE, SPRITE_SIZE};
use crate::registers::{FLAG_REGISTER, REGISTER_COUNT};
use crate::stack::STACK_SIZE;
use crate::state::MachineState;

verus! {

/// A machine state whose parts have the sizes of the real machine.
pub open spec fn well_sized(s: MachineState) -> bool {
    &&& s.v.len() == REGISTER_COUNT
    &&& s.memory.len() == MEMORY_SIZE
    &&& s.display.len() == DISPLAY_ROWS
}

/// Returning from a subroutine undoes calling it: the program counter and
/// the stack are back to what they were before the call.
pub proof fn lemma_ret_undoes_call(s: MachineState, addr: u16)
    requires
        s.stack.len() < STACK_SIZE,
    ensures
        s.call(addr).ret() == s,
{
    assert(s.stack.push(s.pc).drop_last() =~= s.stack);
}

/// Storing `V0`..`Vx` to memory at `I` and loading them back leaves the
/// registers as they were: the load reads what the store wrote.
pub proof fn lemma_load_reads_stored_registers(s: MachineState, x: int)
    requires
        well_sized(s),
        0 <= x < REGISTER_COUNT,
        s.i + x + 1 <= MEMORY_SIZE,
    ensures
        s.ld_i_vx(x).ld_vx_i(x) == s.ld_i_vx(x).advance(1),
        s.ld_i_vx(x).ld_vx_i(x).v == s.v,
{
    let t = s.ld_i_vx(x);
    assert(t.bytes_at_i(x + 1) =~= s.v.subrange(0, x + 1));
    assert(crate::memory::overwrite(t.v, 0, t.bytes_at_i(x + 1)) =~= s.v);
}

/// Loading `V0`..`Vx` from memory at `I` and storing them back leaves memory
/// as it was.
pub proof fn lemma_store_of_loaded_registers_keeps_memory(s: MachineState, x: int)
    requires
        well_sized(s),
        0 <= x < REGISTER_COUNT,
        s.i + x + 1 <= MEMORY_SIZE,
    ensures
        s.ld_vx_i(x).ld_i_vx(x).memory == s.memory,
{
    let t = s.ld_vx_i(x);
    assert(t.v.subrange(0, x + 1) =~= s.bytes_at_i(x + 1));
    assert(crate::memory::overwrite(s.memory, s.i as int, s.bytes_at_i(x + 1)) =~= s.memory);
}

/// Drawing the same sprite twice at the same place leaves the screen as it
/// was before the first drawing.
pub proof fn lemma_drw_twice_restores_display(s: MachineState, x: u8, y: u8, n: u8)
    requires
        well_sized(s),
        s.i + n <= MEMORY_SIZE,
    ensures
        s.drw(x, y, n).drw(x, y, n).display == s.display,
{
    let t = s.drw(x, y, n);
    assert(t.bytes_at_i(n as int) == s.bytes_at_i(n as int));
    lemma_draw_twice_restores(s.display, s.bytes_at_i(n as int), x as usize, y as usize);
}

/// A sprite of at most `DISPLAY_ROWS` lines drawn on a blank screen clears
/// `VF`: no pixel is turned off.
pub proof fn lemma_drw_on_blank_screen_clears_flag(s: MachineState, x: u8, y: u8, n: u8)
    requires
        well_sized(s),
        s.display == blank_display(),
        n <= DISPLAY_ROWS,
        s.i + n <= MEMORY_SIZE,
    ensures
        s.drw(x, y, n).v[FLAG_REGISTER as int] == 0,
{
    lemma_draw_on_blank_never_collides(s.bytes_at_i(n as int), x as usize, y as usize);
}

/// The three bytes that `Fx33` stores are decimal digits, and read as the
/// hundreds, tens and ones of a number they give back `Vx`.
pub proof fn lemma_ld_b_stores_decimal_digits(s: MachineState, x: int)
    requires
        well_sized(s),
        0 <= x < REGISTER_COUNT,
        s.i + 3 <= MEMORY_SIZE,
    ensures
        ({
            let m = s.ld_b(x).memory;
            let i = s.i as int;
            &&& m[i] < 10 && m[i + 1] < 10 && m[i + 2] < 10
            &&& 100 * m[i] + 10 * m[i + 1] + m[i + 2] == s.v[x]
        }),
{
    let m = s.ld_b(x).memory;
    let i = s.i as int;
    let digits = MachineState::decimal_digits(s.v[x]);
    assert(m[i] == digits[0]);
    assert(m[i + 1] == digits[1]);
    assert(m[i + 2] == digits[2]);
}

/// `8xy4` keeps the whole sum: the new `Vx` plus 256 times the carry in `VF`
/// is `Vx + Vy`. (When `x` is `F` the carry overwrites the sum.)
pub proof fn lemma_add_vx_vy_keeps_sum(s: MachineState, x: int, y: int)
    requires
        well_sized(s),
        0 <= x < REGISTER_COUNT,
        0 <= y < REGISTER_COUNT,
        x != FLAG_REGISTER,
    ensures
        s.add_vx_vy(x, y).v[x] + 256 * s.add_vx_vy(x, y).v[FLAG_REGISTER as int] == s.v[x] + s.v[y],
{
}

/// `8xy5` keeps the whole difference: the new `Vx` minus 256 times the
/// borrow in `VF` is `Vx - Vy`.
pub proof fn lemma_sub_keeps_difference(s: MachineState, x: int, y: int)
    requires
        well_sized(s),
        0 <= x < REGISTER_COUNT,
        0 <= y < REGISTER_COUNT,
        x != FLAG_REGISTER,
    ensures
        s.sub(x, y).v[x] - 256 * s.sub(x, y).v[FLAG_REGISTER as int] == s.v[x] - s.v[y],
{
}

/// `8xy7` keeps the whole difference: the new `Vx` minus 256 times the
/// borrow in `VF` is `Vy - Vx`.
pub proof fn lemma_subn_keeps_difference(s: MachineState, x: int, y: int)
    requires
        well_sized(s),
        0 <= x < REGISTER_COUNT,
        0 <= y < REGISTER_COUNT,
        x != FLAG_REGISTER,
    ensures
        s.subn(x, y).v[x] - 256 * s.subn(x, y).v[FLAG_REGISTER as int] == s.v[y] - s.v[x],
{
}

/// `8xy6` loses no bit: twice the new `Vx` plus the bit in `VF` is the old `Vx`.
pub proof fn lemma_shr_keeps_bits(s: MachineState, x: int)
    requires
        well_sized(s),
        0 <= x < REGISTER_COUNT,
        x != FLAG_REGISTER,
    ensures
        2 * s.shr(x).v[x] + s.shr(x).v[FLAG_REGISTER as int] == s.v[x],
{
}

/// `8xyE` loses no bit: the new `Vx` plus 256 times the bit in `VF` is twice
/// the old `Vx`.
pub proof fn lemma_shl_keeps_bits(s: MachineState, x: int)
    requires
        well_sized(s),
        0 <= x < REGISTER_COUNT,
        x != FLAG_REGISTER,
    ensures
        s.shl(x).v[x] + 256 * s.shl(x).v[FLAG_REGISTER as int] == 2 * s.v[x],
{
}

/// Of `3xkk` and `4xkk` with the same operands, exactly one skips the next
/// instruction.
pub proof fn lemma_se_sne_exactly_one_skips(s: MachineState, x: int, value: u8)
    requires
        s.can_advance(2),
    ensures
        (s.se(x, value).pc == s.pc + 2) != (s.sne(x, value).pc == s.pc + 2),
        s.se(x, value).pc + s.sne(x, value).pc == 2 * s.pc + 3,
{
}

/// Of `Ex9E` and `ExA1` for the same key, exactly one skips the next
/// instruction.
pub proof fn lemma_skp_sknp_exactly_one_skips(s: MachineState, key: u8)
    requires
        key < KEY_COUNT,
        s.can_advance(2),
    ensures
        (s.skp(key).pc == s.pc + 2) != (s.sknp(key).pc == s.pc + 2),
        s.skp(key).pc + s.sknp(key).pc == 2 * s.pc + 3,
{
}

/// Reading the delay timer gives back what was last written to it.
pub proof fn lemma_delay_timer_reads_back(s: MachineState, x: int, y: int)
    requires
        well_sized(s),
        0 <= x < REGISTER_COUNT,
        0 <= y < REGISTER_COUNT,
    ensures
        s.ld_dt_vx(x).ld_vx_dt(y).v[y] == s.v[x],
{
}

/// While the digit sprites sit at the start of memory, `Fx29` points `I` at
/// the sprite of the digit in `Vx`.
pub proof fn lemma_ld_f_points_at_digit_sprite(s: MachineState, x: int)
    requires
        well_sized(s),
        0 <= x < REGISTER_COUNT,
        s.v[x] < 16,
        s.memory.subrange(0, digit_sprites().len() as int) == digit_sprites(),
    ensures
        ({
            let t = s.ld_f(x);
            let d = s.v[x] as int;
            t.memory.subrange(t.i as int, t.i + SPRITE_SIZE)
                == digit_sprites().subrange(d * SPRITE_SIZE, d * SPRITE_SIZE + SPRITE_SIZE)
        }),
{
    let t = s.ld_f(x);
    let d = s.v[x] as int;
    assert(t.i == d * 5);
    let prefix = s.memory.subrange(0, 80);
    assert(t.memory.subrange(t.i as int, t.i + 5) =~= prefix.subrange(d * 5, d * 5 + 5));
}

/// `Cxkk` sets no bit of `Vx` that is clear in the mask.
pub proof fn lemma_rnd_within_mask(s: MachineState, x: int, mask: u8, byte: u8)
    requires
        well_sized(s),
        0 <= x < REGISTER_COUNT,
    ensures
        s.rnd(x, mask, byte).v[x] & mask == s.rnd(x, mask, byte).v[x],
{
    assert((byte & mask) & mask == byte & mask) by (bit_vector);
}

} // verus!
