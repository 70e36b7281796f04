use rand::rngs::SmallRng;
use vstd::prelude::*;
use crate::graphics::{blank_display, draw_collides, draw_rows};
use crate::input::key_down;
use crate::memory::{overwrite, SPRITE_SIZE, SPRITE_START_LOCATION};
use crate::registers::FLAG_REGISTER;

verus! {

/// The whole machine as plain values: what each instruction is specified over.
#[verifier::ext_equal]
pub struct MachineState {
    /// `V0`..`VF`.
    pub v: Seq<u8>,
    /// The address register `I`.
    pub i: u16,
    /// The program counter.
    pub pc: u16,
    pub delay_timer: u8,
    pub sound_timer: u8,
    /// Return addresses, bottom first.
    pub stack: Seq<u16>,
    /// Main memory, one byte per address.
    pub memory: Seq<u8>,
    /// Screen rows, column `c` of a row being bit `c`.
    pub display: Seq<u64>,
    /// Keypad state, bit `k` set while key `k` is down.
    pub keys: u16,
    /// The random-number generator, opaque.
    pub rng: SmallRng,
}

/// 1 if `b` holds, else 0: the value instructions put in `VF`.
pub open spec fn flag(b: bool) -> u8 {
    if b {
        1
    } else {
        0
    }
}

impl MachineState {
    /// The generator replaced by `g`.
    pub open spec fn with_rng(self, g: SmallRng) -> MachineState {
        MachineState { rng: g, ..self }
    }

    /// All of `V0`..`VF` replaced by `v`.
    pub open spec fn with_v(self, v: Seq<u8>) -> MachineState {
        MachineState { v: v, ..self }
    }

    /// `Vx` set to `value`.
    pub open spec fn set_v(self, x: int, value: u8) -> MachineState {
        MachineState { v: self.v.update(x, value), ..self }
    }

    /// The program counter moved `n` instructions on.
    pub open spec fn advance(self, n: int) -> MachineState {
        MachineState { pc: (self.pc + n) as u16, ..self }
    }

    /// The program counter moved past the next instruction when `cond` holds,
    /// onto it otherwise.
    pub open spec fn skip_if(self, cond: bool) -> MachineState {
        self.advance(if cond { 2 } else { 1 })
    }

    /// The program counter can move `n` instructions on without overflow.
    pub open spec fn can_advance(self, n: int) -> bool {
        self.pc + n <= u16::MAX
    }

    /// `00EE`: return to the address on top of the stack.
    pub open spec fn ret(self) -> MachineState {
        MachineState { pc: self.stack.last(), stack: self.stack.drop_last(), ..self }
    }

    /// `0nnn`: jump to `addr`.
    pub open spec fn jp(self, addr: u16) -> MachineState {
        MachineState { pc: addr, ..self }
    }

    /// `00E0`: clear the screen.
    pub open spec fn cls(self) -> MachineState {
        MachineState { display: blank_display(), ..self }.advance(1)
    }

    /// `2nnn`: push the program counter and jump to `addr`.
    pub open spec fn call(self, addr: u16) -> MachineState {
        MachineState { stack: self.stack.push(self.pc), pc: addr, ..self }
    }

    /// `3xkk`: skip when `Vx == value`.
    pub open spec fn se(self, x: int, value: u8) -> MachineState {
        self.skip_if(self.v[x] == value)
    }

    /// `4xkk`: skip when `Vx != value`.
    pub open spec fn sne(self, x: int, value: u8) -> MachineState {
        self.skip_if(self.v[x] != value)
    }

    /// `5xy0`: skip when `Vx == Vy`.
    pub open spec fn se_v(self, x: int, y: int) -> MachineState {
        self.skip_if(self.v[x] == self.v[y])
    }

    /// `6xkk`: `Vx = value`.
    pub open spec fn ld_vx(self, x: int, value: u8) -> MachineState {
        self.set_v(x, value).advance(1)
    }

    /// `7xkk`: `Vx = (Vx + value) mod 256`.
    pub open spec fn add_vx(self, x: int, value: u8) -> MachineState {
        self.set_v(x, ((self.v[x] + value) % 256) as u8).advance(1)
    }

    /// `8xy0`: `Vx = Vy`.
    pub open spec fn ld_vx_vy(self, x: int, y: int) -> MachineState {
        self.set_v(x, self.v[y]).advance(1)
    }

    /// `8xy1`: `Vx = Vx | Vy`.
    pub open spec fn or(self, x: int, y: int) -> MachineState {
        self.set_v(x, self.v[x] | self.v[y]).advance(1)
    }

    /// `8xy2`: `Vx = Vx & Vy`.
    pub open spec fn and(self, x: int, y: int) -> MachineState {
        self.set_v(x, self.v[x] & self.v[y]).advance(1)
    }

    /// `8xy3`: `Vx = Vx ^ Vy`.
    pub open spec fn xor(self, x: int, y: int) -> MachineState {
        self.set_v(x, self.v[x] ^ self.v[y]).advance(1)
    }

    /// `8xy4`: `Vx = (Vx + Vy) mod 256`, then `VF` = 1 when the sum exceeded 255.
    pub open spec fn add_vx_vy(self, x: int, y: int) -> MachineState {
        let sum = self.v[x] + self.v[y];
        self.set_v(x, (sum % 256) as u8).set_v(FLAG_REGISTER as int, flag(sum > 255)).advance(1)
    }

    /// `8xy5`: `Vx = (Vx - Vy) mod 256`, then `VF` = 1 when `Vy` exceeded `Vx`.
    pub open spec fn sub(self, x: int, y: int) -> MachineState {
        let diff = self.v[x] - self.v[y];
        self.set_v(x, ((diff + 256) % 256) as u8).set_v(FLAG_REGISTER as int, flag(diff < 0)).advance(1)
    }

    /// `8xy6`: `VF` = the low bit of `Vx`, then `Vx` halved.
    pub open spec fn shr(self, x: int) -> MachineState {
        let s = self.set_v(FLAG_REGISTER as int, self.v[x] % 2);
        s.set_v(x, s.v[x] / 2).advance(1)
    }

    /// `8xy7`: `Vx = (Vy - Vx) mod 256`, then `VF` = 1 when `Vx` exceeded `Vy`.
    pub open spec fn subn(self, x: int, y: int) -> MachineState {
        let diff = self.v[y] - self.v[x];
        self.set_v(x, ((diff + 256) % 256) as u8).set_v(FLAG_REGISTER as int, flag(diff < 0)).advance(1)
    }

    /// `8xyE`: `VF` = the high bit of `Vx`, then `Vx` doubled mod 256.
    pub open spec fn shl(self, x: int) -> MachineState {
        let s = self.set_v(FLAG_REGISTER as int, flag(self.v[x] >= 128));
        s.set_v(x, ((2 * s.v[x]) % 256) as u8).advance(1)
    }

    /// `Annn`: `I = value`.
    pub open spec fn ld_i(self, value: u16) -> MachineState {
        MachineState { i: value, ..self }.advance(1)
    }

    /// `Bnnn`: jump to `addr + V0`.
    pub open spec fn jp_v0(self, addr: u16) -> MachineState {
        MachineState { pc: (addr + self.v[0]) as u16, ..self }
    }

    /// `Cxkk` with `byte` as the random byte: `Vx = byte & mask`.
    pub open spec fn rnd(self, x: int, mask: u8, byte: u8) -> MachineState {
        self.set_v(x, byte & mask).advance(1)
    }

    /// The `n` bytes of memory from `I` on.
    pub open spec fn bytes_at_i(self, n: int) -> Seq<u8> {
        self.memory.subrange(self.i as int, self.i + n)
    }

    /// `Dxyn`: XOR the `n`-byte sprite at `I` onto the screen at (`x`, `y`),
    /// then `VF` = 1 when a lit pixel was turned off.
    pub open spec fn drw(self, x: u8, y: u8, n: u8) -> MachineState {
        let sprite = self.bytes_at_i(n as int);
        let collision = draw_collides(self.display, sprite, x as usize, y as usize);
        MachineState {
            display: draw_rows(self.display, sprite, x as usize, y as usize),
            ..self
        }.set_v(FLAG_REGISTER as int, flag(collision)).advance(1)
    }

    /// `Ex9E`: skip when key `x` is down.
    pub open spec fn skp(self, x: u8) -> MachineState {
        self.skip_if(key_down(self.keys, x))
    }

    /// `ExA1`: skip when key `x` is up.
    pub open spec fn sknp(self, x: u8) -> MachineState {
        self.skip_if(!key_down(self.keys, x))
    }

    /// `Fx07`: `Vx` = delay timer.
    pub open spec fn ld_vx_dt(self, x: int) -> MachineState {
        self.set_v(x, self.delay_timer).advance(1)
    }

    /// `Fx15`: delay timer = `Vx`.
    pub open spec fn ld_dt_vx(self, x: int) -> MachineState {
        MachineState { delay_timer: self.v[x], ..self }.advance(1)
    }

    /// `Fx18`: sound timer = `Vx`.
    pub open spec fn ld_st(self, x: int) -> MachineState {
        MachineState { sound_timer: self.v[x], ..self }.advance(1)
    }

    /// `Fx1E`: `I = I + Vx`.
    pub open spec fn add_i(self, x: int) -> MachineState {
        MachineState { i: (self.i + self.v[x]) as u16, ..self }.advance(1)
    }

    /// The address of the sprite for digit `d`.
    pub open spec fn digit_sprite_address(d: u8) -> int {
        SPRITE_START_LOCATION + d * SPRITE_SIZE
    }

    /// `Fx29`: `I` = address of the sprite for digit `Vx`.
    pub open spec fn ld_f(self, x: int) -> MachineState {
        MachineState { i: Self::digit_sprite_address(self.v[x]) as u16, ..self }.advance(1)
    }

    /// The hundreds, tens and ones digits of `b`.
    pub open spec fn decimal_digits(b: u8) -> Seq<u8> {
        seq![b / 100, (b / 10) % 10, b % 10]
    }

    /// `Fx33`: the decimal digits of `Vx` at `I`, `I+1`, `I+2`.
    pub open spec fn ld_b(self, x: int) -> MachineState {
        MachineState {
            memory: overwrite(self.memory, self.i as int, Self::decimal_digits(self.v[x])),
            ..self
        }.advance(1)
    }

    /// `Fx55`: `V0`..`Vx` stored in memory from `I` on.
    pub open spec fn ld_i_vx(self, x: int) -> MachineState {
        MachineState {
            memory: overwrite(self.memory, self.i as int, self.v.subrange(0, x + 1)),
            ..self
        }.advance(1)
    }

    /// `Fx65`: `V0`..`Vx` loaded from memory from `I` on.
    pub open spec fn ld_vx_i(self, x: int) -> MachineState {
        self.with_v(overwrite(self.v, 0, self.bytes_at_i(x + 1))).advance(1)
    }
}

} // verus!
