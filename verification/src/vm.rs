use rand::rngs::SmallRng;
use vstd::prelude::*;
use crate::graphics::Graphics;
use crate::input::{key_down, Input, KEY_COUNT};
use crate::memory::{Memory, initial_memory, overwrite, MEMORY_SIZE, SPRITE_SIZE, SPRITE_START_LOCATION};
use crate::random::{next_random_byte, seeded_generator};
use crate::registers::{Registers, FLAG_REGISTER, REGISTER_COUNT};
use crate::stack::{Stack, STACK_SIZE};
use crate::state::MachineState;
use crate::graphics::blank_display;

verus! {

/// A CHIP-8 machine.
pub struct VM {
    pub memory: Memory,
    pub registers: Registers,
    pub stack: Stack,
    pub graphics: Graphics,
    pub input: Input,
    pub rng: SmallRng,
}

impl View for VM {
    type V = MachineState;

    open spec fn view(&self) -> MachineState {
        MachineState {
            v: self.registers.v@,
            i: self.registers.i,
            pc: self.registers.program_counter,
            delay_timer: self.registers.delay_timer,
            sound_timer: self.registers.sound_timer,
            stack: self.stack@,
            memory: self.memory.data@,
            display: self.graphics.display@,
            keys: self.input.state,
            rng: self.rng,
        }
    }
}

impl VM {
    /// A machine at start-up: registers, timers and stack empty, the digit
    /// sprites in memory, a blank screen, no key down.
    pub fn new() -> (vm: VM)
        ensures
            vm@.v == Seq::new(REGISTER_COUNT as nat, |k: int| 0u8),
            vm@.i == 0,
            vm@.pc == 0,
            vm@.delay_timer == 0,
            vm@.sound_timer == 0,
            vm@.stack == Seq::<u16>::empty(),
            vm@.memory == initial_memory(),
            vm@.display == blank_display(),
            vm@.keys == 0,
    {
        VM {
            memory: Memory::new_with_initial_sprites(),
            registers: Registers::new(),
            stack: Stack::new(),
            graphics: Graphics::new(),
            input: Input::new(),
            rng: seeded_generator(0),
        }
    }

    /// Return from a subroutine.
    ///
    /// Code: `00EE`
    ///
    /// The program counter is set to the address on top of the stack, which
    /// is taken off.
    pub fn ret(&mut self)
        requires
            old(self)@.stack.len() > 0,
        ensures
            final(self)@ == old(self)@.ret(),
    {
        self.registers.program_counter = self.stack.pop();
    }

    /// Jump to a machine code routine at `addr`.
    ///
    /// Code: `0nnn`
    pub fn jp(&mut self, addr: u16)
        requires
            addr < 0x1000,
        ensures
            final(self)@ == old(self)@.jp(addr),
    {
        self.registers.program_counter = addr;
    }

    /// Clear the display.
    ///
    /// Code: `00E0`
    pub fn cls(&mut self)
        requires
            old(self)@.can_advance(1),
        ensures
            final(self)@ == old(self)@.cls(),
    {
        self.graphics.clear();
        self.registers.program_counter = self.registers.program_counter + 1;
    }

    /// Call subroutine at `addr`.
    ///
    /// Code: `2nnn`
    ///
    /// The current program counter is pushed on the stack, then set to `addr`.
    pub fn call(&mut self, addr: u16)
        requires
            addr < 0x1000,
            old(self)@.stack.len() < STACK_SIZE,
        ensures
            final(self)@ == old(self)@.call(addr),
    {
        self.stack.push(self.registers.program_counter);
        self.registers.program_counter = addr;
    }

    /// Skip next instruction if `Vx` = `value`.
    ///
    /// Code: `3xkk`
    pub fn se(&mut self, x: u8, value: u8)
        requires
            x < REGISTER_COUNT,
            old(self)@.can_advance(if old(self)@.v[x as int] == value { 2 } else { 1 }),
        ensures
            final(self)@ == old(self)@.se(x as int, value),
    {
        if self.registers.v[x as usize] == value {
            self.registers.program_counter = self.registers.program_counter + 2;
        } else {
            self.registers.program_counter = self.registers.program_counter + 1;
        }
    }

    /// Skip next instruction if `Vx` != `value`.
    ///
    /// Code: `4xkk`
    pub fn sne(&mut self, x: u8, value: u8)
        requires
            x < REGISTER_COUNT,
            old(self)@.can_advance(if old(self)@.v[x as int] != value { 2 } else { 1 }),
        ensures
            final(self)@ == old(self)@.sne(x as int, value),
    {
        if self.registers.v[x as usize] != value {
            self.registers.program_counter = self.registers.program_counter + 2;
        } else {
            self.registers.program_counter = self.registers.program_counter + 1;
        }
    }

    /// Skip next instruction if `Vx` = `Vy`.
    ///
    /// Code: `5xy0`
    pub fn se_v(&mut self, x: u8, y: u8)
        requires
            x < REGISTER_COUNT,
            y < REGISTER_COUNT,
            old(self)@.can_advance(
                if old(self)@.v[x as int] == old(self)@.v[y as int] { 2 } else { 1 },
            ),
        ensures
            final(self)@ == old(self)@.se_v(x as int, y as int),
    {
        if self.registers.v[x as usize] == self.registers.v[y as usize] {
            self.registers.program_counter = self.registers.program_counter + 2;
        } else {
            self.registers.program_counter = self.registers.program_counter + 1;
        }
    }

    /// Set `Vx` = `value`.
    ///
    /// Code: `6xkk`
    pub fn ld_vx(&mut self, x: u8, value: u8)
        requires
            x < REGISTER_COUNT,
            old(self)@.can_advance(1),
        ensures
            final(self)@ == old(self)@.ld_vx(x as int, value),
    {
        self.registers.v[x as usize] = value;
        self.registers.program_counter = self.registers.program_counter + 1;
    }

    /// Set `Vx` = `Vx` + `value`, wrapping past 255.
    ///
    /// Code: `7xkk`
    pub fn add_vx(&mut self, x: u8, value: u8)
        requires
            x < REGISTER_COUNT,
            old(self)@.can_advance(1),
        ensures
            final(self)@ == old(self)@.add_vx(x as int, value),
    {
        let result = self.registers.v[x as usize].wrapping_add(value);
        self.registers.v[x as usize] = result;
        self.registers.program_counter = self.registers.program_counter + 1;
    }

    /// Set `Vx` = `Vy`.
    ///
    /// Code: `8xy0`
    pub fn ld_vx_vy(&mut self, x: u8, y: u8)
        requires
            x < REGISTER_COUNT,
            y < REGISTER_COUNT,
            old(self)@.can_advance(1),
        ensures
            final(self)@ == old(self)@.ld_vx_vy(x as int, y as int),
    {
        self.registers.v[x as usize] = self.registers.v[y as usize];
        self.registers.program_counter = self.registers.program_counter + 1;
    }

    /// Set `Vx` = `Vx` OR `Vy`.
    ///
    /// Code: `8xy1`
    pub fn or(&mut self, vx: u8, vy: u8)
        requires
            vx < REGISTER_COUNT,
            vy < REGISTER_COUNT,
            old(self)@.can_advance(1),
        ensures
            final(self)@ == old(self)@.or(vx as int, vy as int),
    {
        let result = self.registers.v[vx as usize] | self.registers.v[vy as usize];
        self.registers.v[vx as usize] = result;
        self.registers.program_counter = self.registers.program_counter + 1;
    }

    /// Set `Vx` = `Vx` AND `Vy`.
    ///
    /// Code: `8xy2`
    pub fn and(&mut self, vx: u8, vy: u8)
        requires
            vx < REGISTER_COUNT,
            vy < REGISTER_COUNT,
            old(self)@.can_advance(1),
        ensures
            final(self)@ == old(self)@.and(vx as int, vy as int),
    {
        let result = self.registers.v[vx as usize] & self.registers.v[vy as usize];
        self.registers.v[vx as usize] = result;
        self.registers.program_counter = self.registers.program_counter + 1;
    }

    /// Set `Vx` = `Vx` XOR `Vy`.
    ///
    /// Code: `8xy3`
    pub fn xor(&mut self, vx: u8, vy: u8)
        requires
            vx < REGISTER_COUNT,
            vy < REGISTER_COUNT,
            old(self)@.can_advance(1),
        ensures
            final(self)@ == old(self)@.xor(vx as int, vy as int),
    {
        let result = self.registers.v[vx as usize] ^ self.registers.v[vy as usize];
        self.registers.v[vx as usize] = result;
        self.registers.program_counter = self.registers.program_counter + 1;
    }

    /// Set `Vx` = `Vx` + `Vy`, set `VF` = carry.
    ///
    /// Code: `8xy4`
    pub fn add_vx_vy(&mut self, x: u8, y: u8)
        requires
            x < REGISTER_COUNT,
            y < REGISTER_COUNT,
            old(self)@.can_advance(1),
        ensures
            final(self)@ == old(self)@.add_vx_vy(x as int, y as int),
    {
        let a = self.registers.v[x as usize];
        let b = self.registers.v[y as usize];
        let is_overflow = a > 255 - b;
        self.registers.v[x as usize] = a.wrapping_add(b);
        self.registers.v[FLAG_REGISTER] = if is_overflow { 1 } else { 0 };
        self.registers.program_counter = self.registers.program_counter + 1;
    }

    /// Set `Vx` = `Vx` - `Vy`, set `VF` = borrow.
    ///
    /// Code: `8xy5`
    pub fn sub(&mut self, x: u8, y: u8)
        requires
            x < REGISTER_COUNT,
            y < REGISTER_COUNT,
            old(self)@.can_advance(1),
        ensures
            final(self)@ == old(self)@.sub(x as int, y as int),
    {
        let a = self.registers.v[x as usize];
        let b = self.registers.v[y as usize];
        let is_overflow = a < b;
        self.registers.v[x as usize] = a.wrapping_sub(b);
        self.registers.v[FLAG_REGISTER] = if is_overflow { 1 } else { 0 };
        self.registers.program_counter = self.registers.program_counter + 1;
    }

    /// Set `Vx` = `Vx` SHR 1.
    ///
    /// Code: `8xy6`
    ///
    /// `VF` is set to the least-significant bit of `Vx`, then `Vx` is divided by 2.
    pub fn shr(&mut self, vx: u8)
        requires
            vx < REGISTER_COUNT,
            old(self)@.can_advance(1),
        ensures
            final(self)@ == old(self)@.shr(vx as int),
    {
        self.registers.v[FLAG_REGISTER] = self.registers.v[vx as usize] % 2;
        let b = self.registers.v[vx as usize];
        assert(b >> 1 == b / 2) by (bit_vector);
        self.registers.v[vx as usize] = b >> 1;
        self.registers.program_counter = self.registers.program_counter + 1;
    }

    /// Set `Vx` = `Vy` - `Vx`, set `VF` = borrow.
    ///
    /// Code: `8xy7`
    pub fn subn(&mut self, x: u8, y: u8)
        requires
            x < REGISTER_COUNT,
            y < REGISTER_COUNT,
            old(self)@.can_advance(1),
        ensures
            final(self)@ == old(self)@.subn(x as int, y as int),
    {
        let a = self.registers.v[x as usize];
        let b = self.registers.v[y as usize];
        let is_overflow = b < a;
        self.registers.v[x as usize] = b.wrapping_sub(a);
        self.registers.v[FLAG_REGISTER] = if is_overflow { 1 } else { 0 };
        self.registers.program_counter = self.registers.program_counter + 1;
    }

    /// Set `Vx` = `Vx` SHL 1.
    ///
    /// Code: `8xyE`
    ///
    /// `VF` is set to the most-significant bit of `Vx`, then `Vx` is
    /// multiplied by 2, dropping the bit shifted out.
    pub fn shl(&mut self, vx: u8)
        requires
            vx < REGISTER_COUNT,
            old(self)@.can_advance(1),
        ensures
            final(self)@ == old(self)@.shl(vx as int),
    {
        let significant_bit = self.registers.v[vx as usize] >= 0b10000000;
        self.registers.v[FLAG_REGISTER] = if significant_bit { 1 } else { 0 };
        let b = self.registers.v[vx as usize];
        assert(b << 1 == ((2 * b) % 256) as u8) by (bit_vector);
        self.registers.v[vx as usize] = b << 1;
        self.registers.program_counter = self.registers.program_counter + 1;
    }

    /// Set `I` = `value`.
    ///
    /// Code: `Annn`
    pub fn ld_i(&mut self, value: u16)
        requires
            value < 0x1000,
            old(self)@.can_advance(1),
        ensures
            final(self)@ == old(self)@.ld_i(value),
    {
        self.registers.i = value;
        self.registers.program_counter = self.registers.program_counter + 1;
    }

    /// Jump to location `addr` + `V0`.
    ///
    /// Code: `Bnnn`
    pub fn jp_v0(&mut self, addr: u16)
        requires
            addr < 0x1000,
        ensures
            final(self)@ == old(self)@.jp_v0(addr),
    {
        self.registers.program_counter = addr + (self.registers.v[0] as u16);
    }

    /// Set `Vx` = `random` AND `mask`: the random-number instruction once the
    /// random byte has been drawn.
    pub fn rnd_with_byte(&mut self, vx: u8, mask: u8, random: u8)
        requires
            vx < REGISTER_COUNT,
            old(self)@.can_advance(1),
        ensures
            final(self)@ == old(self)@.rnd(vx as int, mask, random),
    {
        self.registers.v[vx as usize] = random & mask;
        self.registers.program_counter = self.registers.program_counter + 1;
    }

    /// Set `Vx` = random byte AND `mask`.
    ///
    /// Code: `Cxkk`
    ///
    /// A byte is drawn from the machine's generator, which advances.
    pub fn rnd(&mut self, vx: u8, mask: u8)
        requires
            vx < REGISTER_COUNT,
            old(self)@.can_advance(1),
        ensures
            exists|random: u8|
                final(self)@ == old(self)@.with_rng(final(self).rng).rnd(vx as int, mask, random),
    {
        let random = next_random_byte(&mut self.rng);
        let ghost drawn = self@;
        assert(drawn == old(self)@.with_rng(self.rng));
        self.rnd_with_byte(vx, mask, random);
        assert(self@ == old(self)@.with_rng(self.rng).rnd(vx as int, mask, random));
    }

    /// Display the `n`-byte sprite at memory location `I` at (`vx`, `vy`),
    /// set `VF` = collision.
    ///
    /// Code: `Dxyn`
    ///
    /// The sprite's bytes are XORed onto the screen, one row each; pixels
    /// past an edge wrap around to the opposite side.
    pub fn drw(&mut self, vx: u8, vy: u8, n: u8)
        requires
            old(self)@.i + n <= MEMORY_SIZE,
            old(self)@.can_advance(1),
        ensures
            final(self)@ == old(self)@.drw(vx, vy, n),
    {
        let sprite_start = self.registers.i as usize;
        let sprite_end = sprite_start + n as usize;
        let sprite = self.memory.get_slice(sprite_start, sprite_end);
        let is_collision = self.graphics.draw_sprite(vx as usize, vy as usize, sprite);
        self.registers.v[FLAG_REGISTER] = if is_collision { 1 } else { 0 };
        self.registers.program_counter = self.registers.program_counter + 1;
    }

    /// Skip next instruction if key `x` is pressed.
    ///
    /// Code: `Ex9E`
    pub fn skp(&mut self, x: u8)
        requires
            x < KEY_COUNT,
            old(self)@.can_advance(if key_down(old(self)@.keys, x) { 2 } else { 1 }),
        ensures
            final(self)@ == old(self)@.skp(x),
    {
        let increment_value: u16 = if self.input.is_key_pressed(x) { 2 } else { 1 };
        self.registers.program_counter = self.registers.program_counter + increment_value;
    }

    /// Skip next instruction if key `x` is not pressed.
    ///
    /// Code: `ExA1`
    pub fn sknp(&mut self, x: u8)
        requires
            x < KEY_COUNT,
            old(self)@.can_advance(if key_down(old(self)@.keys, x) { 1 } else { 2 }),
        ensures
            final(self)@ == old(self)@.sknp(x),
    {
        let increment_value: u16 = if self.input.is_key_pressed(x) { 1 } else { 2 };
        self.registers.program_counter = self.registers.program_counter + increment_value;
    }

    /// Set `Vx` = delay timer value.
    ///
    /// Code: `Fx07`
    pub fn ld_vx_dt(&mut self, x: u8)
        requires
            x < REGISTER_COUNT,
            old(self)@.can_advance(1),
        ensures
            final(self)@ == old(self)@.ld_vx_dt(x as int),
    {
        self.registers.v[x as usize] = self.registers.delay_timer;
        self.registers.program_counter = self.registers.program_counter + 1;
    }

    /// Set delay timer = `Vx`.
    ///
    /// Code: `Fx15`
    pub fn ld_dt_vx(&mut self, x: u8)
        requires
            x < REGISTER_COUNT,
            old(self)@.can_advance(1),
        ensures
            final(self)@ == old(self)@.ld_dt_vx(x as int),
    {
        self.registers.delay_timer = self.registers.v[x as usize];
        self.registers.program_counter = self.registers.program_counter + 1;
    }

    /// Set sound timer = `Vx`.
    ///
    /// Code: `Fx18`
    pub fn ld_st(&mut self, x: u8)
        requires
            x < REGISTER_COUNT,
            old(self)@.can_advance(1),
        ensures
            final(self)@ == old(self)@.ld_st(x as int),
    {
        self.registers.sound_timer = self.registers.v[x as usize];
        self.registers.program_counter = self.registers.program_counter + 1;
    }

    /// Set `I` = `I` + `Vx`.
    ///
    /// Code: `Fx1E`
    pub fn add_i(&mut self, x: u8)
        requires
            x < REGISTER_COUNT,
            old(self)@.i + old(self)@.v[x as int] <= u16::MAX,
            old(self)@.can_advance(1),
        ensures
            final(self)@ == old(self)@.add_i(x as int),
    {
        self.registers.i = self.registers.i + self.registers.v[x as usize] as u16;
        self.registers.program_counter = self.registers.program_counter + 1;
    }

    /// Set `I` = location of sprite for digit `Vx`.
    ///
    /// Code: `Fx29`
    pub fn ld_f(&mut self, x: u8)
        requires
            x < REGISTER_COUNT,
            old(self)@.can_advance(1),
        ensures
            final(self)@ == old(self)@.ld_f(x as int),
    {
        let sprite_num = self.registers.v[x as usize] as usize;
        let sprite_location = SPRITE_START_LOCATION + (sprite_num * SPRITE_SIZE);
        self.registers.i = sprite_location as u16;
        self.registers.program_counter = self.registers.program_counter + 1;
    }

    /// Store the decimal representation of `Vx` in memory locations `I`,
    /// `I+1`, and `I+2`: hundreds, tens, ones.
    ///
    /// Code: `Fx33`
    pub fn ld_b(&mut self, x: u8)
        requires
            x < REGISTER_COUNT,
            old(self)@.i + 3 <= MEMORY_SIZE,
            old(self)@.can_advance(1),
        ensures
            final(self)@ == old(self)@.ld_b(x as int),
    {
        let number = self.registers.v[x as usize];
        let ones = number % 10;
        let tens = number / 10 % 10;
        let hundreds = number / 100;
        let digits: [u8; 3] = [hundreds, tens, ones];
        assert(digits@ =~= MachineState::decimal_digits(number));
        let start_pos = self.registers.i as usize;
        self.memory.write_slice(start_pos, digits.as_slice());
        self.registers.program_counter = self.registers.program_counter + 1;
    }

    /// Store `V0` through `Vx` in memory starting at location `I`.
    ///
    /// Code: `Fx55`
    pub fn ld_i_vx(&mut self, x: u8)
        requires
            x < REGISTER_COUNT,
            old(self)@.i + x + 1 <= MEMORY_SIZE,
            old(self)@.can_advance(1),
        ensures
            final(self)@ == old(self)@.ld_i_vx(x as int),
    {
        let registers = vstd::slice::slice_subrange(self.registers.v.as_slice(), 0, x as usize + 1);
        let start_memory_pos = self.registers.i as usize;
        self.memory.write_slice(start_memory_pos, registers);
        self.registers.program_counter = self.registers.program_counter + 1;
    }

    /// Read `V0` through `Vx` from memory starting at location `I`.
    ///
    /// Code: `Fx65`
    pub fn ld_vx_i(&mut self, x: u8)
        requires
            x < REGISTER_COUNT,
            old(self)@.i + x + 1 <= MEMORY_SIZE,
            old(self)@.can_advance(1),
        ensures
            final(self)@ == old(self)@.ld_vx_i(x as int),
    {
        let count = x as usize + 1;
        let start_memory_pos = self.registers.i as usize;
        let memory = self.memory.get_slice(start_memory_pos, start_memory_pos + count);
        let mut k: usize = 0;
        while k < count
            invariant
                count == x + 1,
                count <= REGISTER_COUNT,
                memory@ == old(self)@.bytes_at_i(count as int),
                memory@.len() == count,
                k <= count,
                self@ == old(self)@.with_v(overwrite(old(self)@.v, 0, memory@.subrange(0, k as int))),
            decreases count - k,
        {
            self.registers.v[k] = memory[k];
            k = k + 1;
            assert(self.registers.v@ =~= overwrite(old(self)@.v, 0, memory@.subrange(0, k as int)));
        }
        assert(memory@.subrange(0, count as int) =~= memory@);
        self.registers.program_counter = self.registers.program_counter + 1;
    }
}

} // verus!
