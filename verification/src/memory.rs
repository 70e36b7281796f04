use vstd::prelude::*;

verus! {

/// Number of addressable bytes.
pub const MEMORY_SIZE: usize = 4096;

/// Number of bytes in one hexadecimal digit sprite.
pub const SPRITE_SIZE: usize = 5;

/// Address of the sprite for digit `0`; the sprite for digit `d` starts at
/// `SPRITE_START_LOCATION + d * SPRITE_SIZE`.
pub const SPRITE_START_LOCATION: usize = 0;

/// The sprites of the sixteen hexadecimal digits, `0` to `F`, one after the other.
pub open spec fn digit_sprites() -> Seq<u8> {
    seq![
        0xF0u8, 0x90, 0x90, 0x90, 0xF0, // 0
        0x20, 0x60, 0x20, 0x20, 0x70, // 1
        0xF0, 0x10, 0xF0, 0x80, 0xF0, // 2
        0xF0, 0x10, 0xF0, 0x10, 0xF0, // 3
        0x90, 0x90, 0xF0, 0x10, 0x10, // 4
        0xF0, 0x80, 0xF0, 0x10, 0xF0, // 5
        0xF0, 0x80, 0xF0, 0x90, 0xF0, // 6
        0xF0, 0x10, 0x20, 0x40, 0x40, // 7
        0xF0, 0x90, 0xF0, 0x90, 0xF0, // 8
        0xF0, 0x90, 0xF0, 0x10, 0xF0, // 9
        0xF0, 0x90, 0xF0, 0x90, 0x90, // A
        0xE0, 0x90, 0xE0, 0x90, 0xE0, // B
        0xF0, 0x80, 0x80, 0x80, 0xF0, // C
        0xE0, 0x90, 0x90, 0x90, 0xE0, // D
        0xF0, 0x80, 0xF0, 0x80, 0xF0, // E
        0xF0, 0x80, 0xF0, 0x80, 0x80, // F
    ]
}

/// The memory right after start-up: the digit sprites at
/// `SPRITE_START_LOCATION`, zero everywhere else.
pub open spec fn initial_memory() -> Seq<u8> {
    digit_sprites() + Seq::new((MEMORY_SIZE - digit_sprites().len()) as nat, |k: int| 0u8)
}

/// `bytes` written over `mem` from address `start` on.
pub open spec fn overwrite(mem: Seq<u8>, start: int, bytes: Seq<u8>) -> Seq<u8> {
    mem.subrange(0, start) + bytes + mem.subrange(start + bytes.len(), mem.len() as int)
}

/// The byte-addressed main memory.
pub struct Memory {
    pub data: [u8; 4096],
}

fn digit_sprite_bytes() -> (r: [u8; 80])
    ensures
        r@ == digit_sprites(),
{
    let r: [u8; 80] = [
        0xF0, 0x90, 0x90, 0x90, 0xF0,
        0x20, 0x60, 0x20, 0x20, 0x70,
        0xF0, 0x10, 0xF0, 0x80, 0xF0,
        0xF0, 0x10, 0xF0, 0x10, 0xF0,
        0x90, 0x90, 0xF0, 0x10, 0x10,
        0xF0, 0x80, 0xF0, 0x10, 0xF0,
        0xF0, 0x80, 0xF0, 0x90, 0xF0,
        0xF0, 0x10, 0x20, 0x40, 0x40,
        0xF0, 0x90, 0xF0, 0x90, 0xF0,
        0xF0, 0x90, 0xF0, 0x10, 0xF0,
        0xF0, 0x90, 0xF0, 0x90, 0x90,
        0xE0, 0x90, 0xE0, 0x90, 0xE0,
        0xF0, 0x80, 0x80, 0x80, 0xF0,
        0xE0, 0x90, 0x90, 0x90, 0xE0,
        0xF0, 0x80, 0xF0, 0x80, 0xF0,
        0xF0, 0x80, 0xF0, 0x80, 0x80,
    ];
    assert(r@ =~= digit_sprites());
    r
}

impl Memory {
    /// Memory filled with zeros.
    pub fn new() -> (r: Memory)
        ensures
            r.data@ == Seq::new(MEMORY_SIZE as nat, |k: int| 0u8),
    {
        let r = Memory { data: [0u8; 4096] };
        assert(r.data@ =~= Seq::new(MEMORY_SIZE as nat, |k: int| 0u8));
        r
    }

    /// Memory holding the digit sprites, zero elsewhere.
    pub fn new_with_initial_sprites() -> (r: Memory)
        ensures
            r.data@ == initial_memory(),
    {
        let mut r = Memory::new();
        let sprites = digit_sprite_bytes();
        r.write_slice(SPRITE_START_LOCATION, &sprites);
        assert(r.data@ =~= initial_memory());
        r
    }

    /// The bytes at addresses `start..end`.
    pub fn get_slice(&self, start: usize, end: usize) -> (r: &[u8])
        requires
            start <= end <= MEMORY_SIZE,
        ensures
            r@ == self.data@.subrange(start as int, end as int),
    {
        vstd::slice::slice_subrange(self.data.as_slice(), start, end)
    }

    /// Copy `bytes` into memory from address `start` on.
    pub fn write_slice(&mut self, start: usize, bytes: &[u8])
        requires
            start + bytes@.len() <= MEMORY_SIZE,
        ensures
            final(self).data@ == overwrite(old(self).data@, start as int, bytes@),
    {
        let n = bytes.len();
        let mut k: usize = 0;
        while k < n
            invariant
                n == bytes@.len(),
                start + n <= MEMORY_SIZE,
                k <= n,
                self.data@ == overwrite(old(self).data@, start as int, bytes@.subrange(0, k as int)),
            decreases n - k,
        {
            self.data[start + k] = bytes[k];
            k = k + 1;
            assert(self.data@ =~= overwrite(old(self).data@, start as int, bytes@.subrange(0, k as int)));
        }
        assert(bytes@.subrange(0, n as int) =~= bytes@);
    }
}

} // verus!
