use vstd::prelude::*;
use crate::graphics::{line_erases_pixel, lemma_collision_iff_some_line_erases, DISPLAY_ROWS};
use crate::input::KEY_COUNT;
use crate::laws::well_sized;
use crate::memory::MEMORY_SIZE;
use crate::registers::{FLAG_REGISTER, REGISTER_COUNT};
use crate::state::MachineState;

verus! {

/// Bit `k` of `b` is set.
pub open spec fn bit(b: u8, k: u8) -> bool {
    (b >> k) & 1 == 1
}

/// `t` has the address register, timers, stack, memory, screen and keypad of `s`.
pub open spec fn same_machine_parts(s: MachineState, t: MachineState) -> bool {
    &&& t.i == s.i
    &&& t.delay_timer == s.delay_timer
    &&& t.sound_timer == s.sound_timer
    &&& t.stack == s.stack
    &&& t.memory == s.memory
    &&& t.display == s.display
    &&& t.keys == s.keys
}

/// Every register of `t` but `Vx` holds what it held in `s`.
pub open spec fn other_registers_kept(s: MachineState, t: MachineState, x: int) -> bool {
    &&& t.v.len() == s.v.len()
    &&& forall|k: int| 0 <= k < s.v.len() && k != x ==> t.v[k] == s.v[k]
}

proof fn lemma_or_bits(a: u8, c: u8)
    by (bit_vector)
    ensures
        forall|k: u8| k < 8 ==> (((a | c) >> k) & 1 == 1) == (((a >> k) & 1 == 1) || ((c >> k) & 1 == 1)),
{
}

proof fn lemma_and_bits(a: u8, c: u8)
    by (bit_vector)
    ensures
        forall|k: u8| k < 8 ==> (((a & c) >> k) & 1 == 1) == (((a >> k) & 1 == 1) && ((c >> k) & 1 == 1)),
{
}

proof fn lemma_xor_bits(a: u8, c: u8)
    by (bit_vector)
    ensures
        forall|k: u8| k < 8 ==> (((a ^ c) >> k) & 1 == 1) == (((a >> k) & 1 == 1) != ((c >> k) & 1 == 1)),
{
}

/// `6xkk` puts `value` in `Vx` and touches nothing else but the program counter.
pub proof fn lemma_ld_vx_loads_value(s: MachineState, x: int, value: u8)
    requires
        well_sized(s),
        0 <= x < REGISTER_COUNT,
        s.can_advance(1),
    ensures
        s.ld_vx(x, value).v[x] == value,
        other_registers_kept(s, s.ld_vx(x, value), x),
        same_machine_parts(s, s.ld_vx(x, value)),
        s.ld_vx(x, value).pc == s.pc + 1,
{
}

/// `7xkk` adds `value` to `Vx`, keeping the sum modulo 256.
pub proof fn lemma_add_vx_adds_mod_256(s: MachineState, x: int, value: u8)
    requires
        well_sized(s),
        0 <= x < REGISTER_COUNT,
        s.can_advance(1),
    ensures
        s.add_vx(x, value).v[x] == (s.v[x] + value) % 256,
        other_registers_kept(s, s.add_vx(x, value), x),
        same_machine_parts(s, s.add_vx(x, value)),
        s.add_vx(x, value).pc == s.pc + 1,
{
}

/// `8xy0` copies `Vy` into `Vx`.
pub proof fn lemma_ld_vx_vy_copies(s: MachineState, x: int, y: int)
    requires
        well_sized(s),
        0 <= x < REGISTER_COUNT,
        0 <= y < REGISTER_COUNT,
        s.can_advance(1),
    ensures
        s.ld_vx_vy(x, y).v[x] == s.v[y],
        other_registers_kept(s, s.ld_vx_vy(x, y), x),
        same_machine_parts(s, s.ld_vx_vy(x, y)),
        s.ld_vx_vy(x, y).pc == s.pc + 1,
{
}

/// `8xy1`: each bit of the new `Vx` is set exactly when it is set in the old
/// `Vx` or in `Vy`.
pub proof fn lemma_or_is_bitwise_or(s: MachineState, x: int, y: int)
    requires
        well_sized(s),
        0 <= x < REGISTER_COUNT,
        0 <= y < REGISTER_COUNT,
        s.can_advance(1),
    ensures
        forall|k: u8| k < 8 ==> bit(#[trigger] s.or(x, y).v[x], k) == (bit(s.v[x], k) || bit(s.v[y], k)),
        other_registers_kept(s, s.or(x, y), x),
        same_machine_parts(s, s.or(x, y)),
        s.or(x, y).pc == s.pc + 1,
{
    lemma_or_bits(s.v[x], s.v[y]);
}

/// `8xy2`: each bit of the new `Vx` is set exactly when it is set in both the
/// old `Vx` and `Vy`.
pub proof fn lemma_and_is_bitwise_and(s: MachineState, x: int, y: int)
    requires
        well_sized(s),
        0 <= x < REGISTER_COUNT,
        0 <= y < REGISTER_COUNT,
        s.can_advance(1),
    ensures
        forall|k: u8| k < 8 ==> bit(#[trigger] s.and(x, y).v[x], k) == (bit(s.v[x], k) && bit(s.v[y], k)),
        other_registers_kept(s, s.and(x, y), x),
        same_machine_parts(s, s.and(x, y)),
        s.and(x, y).pc == s.pc + 1,
{
    lemma_and_bits(s.v[x], s.v[y]);
}

/// `8xy3`: each bit of the new `Vx` is set exactly when the old `Vx` and `Vy`
/// differ in it.
pub proof fn lemma_xor_is_bitwise_xor(s: MachineState, x: int, y: int)
    requires
        well_sized(s),
        0 <= x < REGISTER_COUNT,
        0 <= y < REGISTER_COUNT,
        s.can_advance(1),
    ensures
        forall|k: u8| k < 8 ==> bit(#[trigger] s.xor(x, y).v[x], k) == (bit(s.v[x], k) != bit(s.v[y], k)),
        other_registers_kept(s, s.xor(x, y), x),
        same_machine_parts(s, s.xor(x, y)),
        s.xor(x, y).pc == s.pc + 1,
{
    lemma_xor_bits(s.v[x], s.v[y]);
}

/// `0nnn` sets the program counter to `addr` and changes nothing else.
pub proof fn lemma_jp_jumps(s: MachineState, addr: u16)
    ensures
        s.jp(addr).pc == addr,
        s.jp(addr).v == s.v,
        same_machine_parts(s, s.jp(addr)),
{
}

/// `Bnnn` sets the program counter to `addr` plus `V0` and changes nothing else.
pub proof fn lemma_jp_v0_jumps_offset(s: MachineState, addr: u16)
    requires
        well_sized(s),
        addr < 0x1000,
    ensures
        s.jp_v0(addr).pc == addr + s.v[0],
        s.jp_v0(addr).v == s.v,
        same_machine_parts(s, s.jp_v0(addr)),
{
}

/// `00E0` turns every pixel off and changes nothing else but the program counter.
pub proof fn lemma_cls_blanks_screen(s: MachineState)
    requires
        s.can_advance(1),
    ensures
        s.cls().display.len() == DISPLAY_ROWS,
        forall|r: int| 0 <= r < DISPLAY_ROWS ==> #[trigger] s.cls().display[r] == 0,
        s.cls().v == s.v,
        s.cls().i == s.i && s.cls().stack == s.stack && s.cls().memory == s.memory,
        s.cls().delay_timer == s.delay_timer && s.cls().sound_timer == s.sound_timer,
        s.cls().keys == s.keys,
        s.cls().pc == s.pc + 1,
{
}

/// `Fx07` copies the delay timer into `Vx`.
pub proof fn lemma_ld_vx_dt_reads_delay_timer(s: MachineState, x: int)
    requires
        well_sized(s),
        0 <= x < REGISTER_COUNT,
        s.can_advance(1),
    ensures
        s.ld_vx_dt(x).v[x] == s.delay_timer,
        other_registers_kept(s, s.ld_vx_dt(x), x),
        same_machine_parts(s, s.ld_vx_dt(x)),
        s.ld_vx_dt(x).pc == s.pc + 1,
{
}

/// `Fx15` sets the delay timer to `Vx`, whatever it held before.
pub proof fn lemma_ld_dt_vx_sets_delay_timer(s: MachineState, x: int)
    requires
        well_sized(s),
        0 <= x < REGISTER_COUNT,
        s.can_advance(1),
    ensures
        s.ld_dt_vx(x).delay_timer == s.v[x],
        s.ld_dt_vx(x).sound_timer == s.sound_timer,
        s.ld_dt_vx(x).v == s.v,
        s.ld_dt_vx(x).i == s.i,
        s.ld_dt_vx(x).pc == s.pc + 1,
{
}

/// `Fx18` sets the sound timer to `Vx`, whatever it held before.
pub proof fn lemma_ld_st_sets_sound_timer(s: MachineState, x: int)
    requires
        well_sized(s),
        0 <= x < REGISTER_COUNT,
        s.can_advance(1),
    ensures
        s.ld_st(x).sound_timer == s.v[x],
        s.ld_st(x).delay_timer == s.delay_timer,
        s.ld_st(x).v == s.v,
        s.ld_st(x).i == s.i,
        s.ld_st(x).pc == s.pc + 1,
{
}

/// `Cxkk` with random byte `byte`: each bit of the new `Vx` is set exactly
/// when it is set in both `byte` and `mask`.
pub proof fn lemma_rnd_masks_byte(s: MachineState, x: int, mask: u8, byte: u8)
    requires
        well_sized(s),
        0 <= x < REGISTER_COUNT,
        s.can_advance(1),
    ensures
        forall|k: u8| k < 8 ==> bit(#[trigger] s.rnd(x, mask, byte).v[x], k) == (bit(byte, k) && bit(mask, k)),
        other_registers_kept(s, s.rnd(x, mask, byte), x),
        same_machine_parts(s, s.rnd(x, mask, byte)),
        s.rnd(x, mask, byte).pc == s.pc + 1,
{
    lemma_and_bits(byte, mask);
}

/// `Annn` puts `value` in `I`.
pub proof fn lemma_ld_i_loads(s: MachineState, value: u16)
    requires
        s.can_advance(1),
    ensures
        s.ld_i(value).i == value,
        s.ld_i(value).v == s.v,
        s.ld_i(value).memory == s.memory,
        s.ld_i(value).pc == s.pc + 1,
{
}

/// `Fx1E` adds `Vx` to `I` as numbers.
pub proof fn lemma_add_i_adds(s: MachineState, x: int)
    requires
        well_sized(s),
        0 <= x < REGISTER_COUNT,
        s.i + s.v[x] <= u16::MAX,
        s.can_advance(1),
    ensures
        s.add_i(x).i == s.i + s.v[x],
        s.add_i(x).v == s.v,
        s.add_i(x).memory == s.memory,
        s.add_i(x).pc == s.pc + 1,
{
}

/// `Fx29` sets `I` to five times the digit in `Vx`, the address of its sprite.
pub proof fn lemma_ld_f_loads_sprite_address(s: MachineState, x: int)
    requires
        well_sized(s),
        0 <= x < REGISTER_COUNT,
        s.can_advance(1),
    ensures
        s.ld_f(x).i == 5 * s.v[x],
        s.ld_f(x).v == s.v,
        s.ld_f(x).memory == s.memory,
        s.ld_f(x).pc == s.pc + 1,
{
}

/// `3xkk`: with `Vx == value` the next instruction is skipped (program
/// counter up by 2), otherwise it is not (up by 1); nothing else changes.
pub proof fn lemma_se_skips_iff_equal(s: MachineState, x: int, value: u8)
    requires
        well_sized(s),
        0 <= x < REGISTER_COUNT,
        s.can_advance(2),
    ensures
        s.v[x] == value ==> s.se(x, value).pc == s.pc + 2,
        s.v[x] != value ==> s.se(x, value).pc == s.pc + 1,
        s.se(x, value).v == s.v,
        same_machine_parts(s, s.se(x, value)),
{
}

/// `4xkk`: with `Vx != value` the next instruction is skipped, otherwise it
/// is not; nothing else changes.
pub proof fn lemma_sne_skips_iff_different(s: MachineState, x: int, value: u8)
    requires
        well_sized(s),
        0 <= x < REGISTER_COUNT,
        s.can_advance(2),
    ensures
        s.v[x] != value ==> s.sne(x, value).pc == s.pc + 2,
        s.v[x] == value ==> s.sne(x, value).pc == s.pc + 1,
        s.sne(x, value).v == s.v,
        same_machine_parts(s, s.sne(x, value)),
{
}

/// `5xy0`: with `Vx == Vy` the next instruction is skipped, otherwise it is
/// not; nothing else changes.
pub proof fn lemma_se_v_skips_iff_registers_equal(s: MachineState, x: int, y: int)
    requires
        well_sized(s),
        0 <= x < REGISTER_COUNT,
        0 <= y < REGISTER_COUNT,
        s.can_advance(2),
    ensures
        s.v[x] == s.v[y] ==> s.se_v(x, y).pc == s.pc + 2,
        s.v[x] != s.v[y] ==> s.se_v(x, y).pc == s.pc + 1,
        s.se_v(x, y).v == s.v,
        same_machine_parts(s, s.se_v(x, y)),
{
}

/// `Ex9E`: with bit `key` of the keypad state set the next instruction is
/// skipped, otherwise it is not; nothing else changes.
pub proof fn lemma_skp_skips_iff_key_down(s: MachineState, key: u8)
    requires
        key < KEY_COUNT,
        s.can_advance(2),
    ensures
        (s.keys >> key) & 1 == 1 ==> s.skp(key).pc == s.pc + 2,
        (s.keys >> key) & 1 != 1 ==> s.skp(key).pc == s.pc + 1,
        s.skp(key).v == s.v,
        same_machine_parts(s, s.skp(key)),
{
}

/// `ExA1`: with bit `key` of the keypad state clear the next instruction is
/// skipped, otherwise it is not; nothing else changes.
pub proof fn lemma_sknp_skips_iff_key_up(s: MachineState, key: u8)
    requires
        key < KEY_COUNT,
        s.can_advance(2),
    ensures
        (s.keys >> key) & 1 != 1 ==> s.sknp(key).pc == s.pc + 2,
        (s.keys >> key) & 1 == 1 ==> s.sknp(key).pc == s.pc + 1,
        s.sknp(key).v == s.v,
        same_machine_parts(s, s.sknp(key)),
{
}

/// `2nnn` puts the current program counter on top of the stack and jumps to `addr`.
pub proof fn lemma_call_pushes_return_address(s: MachineState, addr: u16)
    ensures
        s.call(addr).pc == addr,
        s.call(addr).stack.len() == s.stack.len() + 1,
        s.call(addr).stack.last() == s.pc,
        s.call(addr).stack.drop_last() == s.stack,
        s.call(addr).v == s.v,
{
    assert(s.stack.push(s.pc).drop_last() =~= s.stack);
}

/// `Dxyn` sets `VF` to 1 exactly when some line of the sprite, any of them,
/// lands on a pixel lit at the time it is drawn, and to 0 otherwise.
pub proof fn lemma_drw_flags_any_erased_pixel(s: MachineState, x: u8, y: u8, n: u8)
    requires
        well_sized(s),
        s.i + n <= MEMORY_SIZE,
        s.can_advance(1),
    ensures
        ({
            let sprite = s.memory.subrange(s.i as int, s.i + n);
            let erased = exists|k: int|
                0 <= k < n && #[trigger] line_erases_pixel(s.display, sprite, x as usize, y as usize, k);
            &&& erased ==> s.drw(x, y, n).v[FLAG_REGISTER as int] == 1
            &&& !erased ==> s.drw(x, y, n).v[FLAG_REGISTER as int] == 0
        }),
        other_registers_kept(s, s.drw(x, y, n), FLAG_REGISTER as int),
        s.drw(x, y, n).memory == s.memory,
        s.drw(x, y, n).i == s.i,
        s.drw(x, y, n).pc == s.pc + 1,
{
    let sprite = s.memory.subrange(s.i as int, s.i + n);
    lemma_collision_iff_some_line_erases(s.display, sprite, x as usize, y as usize);
}

} // verus!
