use vstd::prelude::*;

verus! {

/// Number of pixel rows on the screen.
pub const DISPLAY_ROWS: usize = 32;

/// Number of pixel columns on the screen; a row is one `u64`, column `c` being bit `c`.
pub const DISPLAY_COLUMNS: usize = 64;

/// The bits that sprite byte `byte` covers in a row when its first column is
/// `x`; columns past the right edge wrap around to the left edge.
pub open spec fn placed_row(byte: u8, x: usize) -> u64 {
    let s = (x % 64) as u64;
    if s == 0 {
        byte as u64
    } else {
        ((byte as u64) << s) | ((byte as u64) >> (64u64 - s))
    }
}

/// The screen row that line `k` of a sprite drawn at row `y` lands on; rows
/// past the bottom edge wrap around to the top.
pub open spec fn sprite_line_row(y: usize, k: int) -> int {
    (y + k) % (DISPLAY_ROWS as int)
}

/// The screen after the lines of `sprite` are XORed onto `display`, one
/// after the other, with the sprite's top left corner at (`x`, `y`).
pub open spec fn draw_rows(display: Seq<u64>, sprite: Seq<u8>, x: usize, y: usize) -> Seq<u64>
    decreases sprite.len(),
{
    if sprite.len() == 0 {
        display
    } else {
        let before = draw_rows(display, sprite.drop_last(), x, y);
        let row = sprite_line_row(y, sprite.len() - 1);
        before.update(row, before[row] ^ placed_row(sprite.last(), x))
    }
}

/// Whether drawing `sprite` onto `display` at (`x`, `y`) turns some lit
/// pixel off.
pub open spec fn draw_collides(display: Seq<u64>, sprite: Seq<u8>, x: usize, y: usize) -> bool
    decreases sprite.len(),
{
    if sprite.len() == 0 {
        false
    } else {
        let before = draw_rows(display, sprite.drop_last(), x, y);
        let row = sprite_line_row(y, sprite.len() - 1);
        draw_collides(display, sprite.drop_last(), x, y) || before[row] & placed_row(sprite.last(), x)
            != 0
    }
}

/// The XOR of the lines of `sprite` that land on screen row `r` when the
/// sprite is drawn at (`x`, `y`).
pub open spec fn row_mask(sprite: Seq<u8>, x: usize, y: usize, r: int) -> u64
    decreases sprite.len(),
{
    if sprite.len() == 0 {
        0
    } else {
        let m = row_mask(sprite.drop_last(), x, y, r);
        if sprite_line_row(y, sprite.len() - 1) == r {
            m ^ placed_row(sprite.last(), x)
        } else {
            m
        }
    }
}

/// A blank screen.
pub open spec fn blank_display() -> Seq<u64> {
    Seq::new(DISPLAY_ROWS as nat, |r: int| 0u64)
}

proof fn lemma_xor_assoc(a: u64, b: u64, c: u64)
    ensures
        (a ^ b) ^ c == a ^ (b ^ c),
{
    assert((a ^ b) ^ c == a ^ (b ^ c)) by (bit_vector);
}

/// Drawing a sprite XORs each screen row with the lines of the sprite that
/// land on it.
pub proof fn lemma_draw_rows_is_row_xor(display: Seq<u64>, sprite: Seq<u8>, x: usize, y: usize)
    requires
        display.len() == DISPLAY_ROWS,
    ensures
        draw_rows(display, sprite, x, y).len() == DISPLAY_ROWS,
        forall|r: int|
            0 <= r < DISPLAY_ROWS ==> #[trigger] draw_rows(display, sprite, x, y)[r] == display[r]
                ^ row_mask(sprite, x, y, r),
    decreases sprite.len(),
{
    if sprite.len() == 0 {
        assert forall|r: int| 0 <= r < DISPLAY_ROWS implies #[trigger] draw_rows(display, sprite, x, y)[r]
            == display[r] ^ row_mask(sprite, x, y, r) by {
            let d = display[r];
            assert(d ^ 0u64 == d) by (bit_vector);
        }
    } else {
        lemma_draw_rows_is_row_xor(display, sprite.drop_last(), x, y);
        let row = sprite_line_row(y, sprite.len() - 1);
        assert forall|r: int| 0 <= r < DISPLAY_ROWS implies #[trigger] draw_rows(display, sprite, x, y)[r]
            == display[r] ^ row_mask(sprite, x, y, r) by {
            if r == row {
                lemma_xor_assoc(
                    display[r],
                    row_mask(sprite.drop_last(), x, y, r),
                    placed_row(sprite.last(), x),
                );
            }
        }
    }
}

/// Drawing the same sprite twice at the same place leaves the screen as it
/// was.
pub proof fn lemma_draw_twice_restores(display: Seq<u64>, sprite: Seq<u8>, x: usize, y: usize)
    requires
        display.len() == DISPLAY_ROWS,
    ensures
        draw_rows(draw_rows(display, sprite, x, y), sprite, x, y) == display,
{
    let once = draw_rows(display, sprite, x, y);
    lemma_draw_rows_is_row_xor(display, sprite, x, y);
    lemma_draw_rows_is_row_xor(once, sprite, x, y);
    let twice = draw_rows(once, sprite, x, y);
    assert forall|r: int| 0 <= r < DISPLAY_ROWS implies #[trigger] twice[r] == display[r] by {
        let d = display[r];
        let m = row_mask(sprite, x, y, r);
        assert((d ^ m) ^ m == d) by (bit_vector);
    }
    assert(twice =~= display);
}

proof fn lemma_distinct_line_rows(y: usize, j: int, k: int)
    requires
        0 <= j < k,
        k - j < DISPLAY_ROWS,
    ensures
        sprite_line_row(y, j) != sprite_line_row(y, k),
{
    let a = y + j;
    let b = y + k;
    vstd::arithmetic::div_mod::lemma_fundamental_div_mod(a, 32);
    vstd::arithmetic::div_mod::lemma_fundamental_div_mod(b, 32);
    if a % 32 == b % 32 {
        assert(b - a == 32 * (b / 32 - a / 32));
        assert(false) by (nonlinear_arith)
            requires
                b - a == 32 * (b / 32 - a / 32),
                0 < b - a < 32,
        ;
    }
}

/// A screen row that no line of the sprite lands on is left as it was.
proof fn lemma_row_mask_untouched(sprite: Seq<u8>, x: usize, y: usize, r: int)
    requires
        forall|k: int| 0 <= k < sprite.len() ==> sprite_line_row(y, k) != r,
    ensures
        row_mask(sprite, x, y, r) == 0,
    decreases sprite.len(),
{
    if sprite.len() > 0 {
        assert(sprite_line_row(y, sprite.len() - 1) != r);
        lemma_row_mask_untouched(sprite.drop_last(), x, y, r);
    }
}

/// A sprite of at most `DISPLAY_ROWS` lines drawn onto a blank screen turns
/// no pixel off, so no collision is reported.
pub proof fn lemma_draw_on_blank_never_collides(sprite: Seq<u8>, x: usize, y: usize)
    requires
        sprite.len() <= DISPLAY_ROWS,
    ensures
        !draw_collides(blank_display(), sprite, x, y),
    decreases sprite.len(),
{
    if sprite.len() > 0 {
        let prefix = sprite.drop_last();
        let last = sprite.len() - 1;
        let row = sprite_line_row(y, last);
        lemma_draw_on_blank_never_collides(prefix, x, y);
        assert forall|k: int| 0 <= k < prefix.len() implies sprite_line_row(y, k) != row by {
            lemma_distinct_line_rows(y, k, last);
        }
        lemma_row_mask_untouched(prefix, x, y, row);
        lemma_draw_rows_is_row_xor(blank_display(), prefix, x, y);
        let before = draw_rows(blank_display(), prefix, x, y);
        let p = placed_row(sprite.last(), x);
        assert(before[row] == 0u64 ^ 0u64);
        assert((0u64 ^ 0u64) & p == 0) by (bit_vector);
    }
}

proof fn lemma_rotated_byte_bits(b: u64, s: u64, j: u64)
    by (bit_vector)
    requires
        0 < s < 64,
        b < 256,
        j < 64,
    ensures
        (((b << s) | (b >> ((64u64 - s) as u64))) >> (((s + j) % 64) as u64)) & 1 == (b >> j) & 1,
{
}

proof fn lemma_unrotated_byte_bits(b: u64, j: u64)
    by (bit_vector)
    requires
        b < 256,
        j < 64,
    ensures
        (b >> (((0 + j) % 64) as u64)) & 1 == (b >> j) & 1,
{
}

/// A sprite byte placed at column `x` lights column `(x + j) mod 64` exactly
/// when bit `j` of the byte is set; for `j` from 8 on nothing is lit, so the
/// byte covers the eight columns from `x` on, wrapping past the right edge.
pub proof fn lemma_placed_row_columns(byte: u8, x: usize)
    ensures
        forall|j: u64|
            j < 64 ==> (#[trigger] (placed_row(byte, x) >> (((x % 64) as u64 + j) % 64)) & 1) == ((byte as u64) >> j) & 1,
{
    let s = (x % 64) as u64;
    let b = byte as u64;
    assert forall|j: u64| j < 64 implies (#[trigger] (placed_row(byte, x) >> ((s + j) % 64)) & 1) == (b >> j) & 1 by {
        if s == 0 {
            lemma_unrotated_byte_bits(b, j);
        } else {
            lemma_rotated_byte_bits(b, s, j);
        }
    }
}

/// Line `k` of `sprite`, drawn at (`x`, `y`), lands on a lit pixel of the
/// screen as it stands once lines `0..k` have been drawn.
pub open spec fn line_erases_pixel(display: Seq<u64>, sprite: Seq<u8>, x: usize, y: usize, k: int) -> bool {
    let screen = draw_rows(display, sprite.subrange(0, k), x, y);
    screen[(y + k) % 32] & placed_row(sprite[k], x) != 0
}

/// A collision is reported exactly when some line of the sprite, any line and
/// not only the last, turns off a pixel that was lit when that line was drawn.
pub proof fn lemma_collision_iff_some_line_erases(display: Seq<u64>, sprite: Seq<u8>, x: usize, y: usize)
    ensures
        draw_collides(display, sprite, x, y) <==> exists|k: int|
            0 <= k < sprite.len() && #[trigger] line_erases_pixel(display, sprite, x, y, k),
    decreases sprite.len(),
{
    if sprite.len() > 0 {
        let prefix = sprite.drop_last();
        let last = sprite.len() - 1;
        lemma_collision_iff_some_line_erases(display, prefix, x, y);
        assert forall|k: int| 0 <= k < prefix.len() implies line_erases_pixel(display, prefix, x, y, k)
            == line_erases_pixel(display, sprite, x, y, k) by {
            assert(prefix.subrange(0, k) =~= sprite.subrange(0, k));
        }
        assert(sprite.subrange(0, last) =~= prefix);
        if draw_collides(display, sprite, x, y) {
            if draw_collides(display, prefix, x, y) {
                let k = choose|k: int| 0 <= k < prefix.len() && #[trigger] line_erases_pixel(display, prefix, x, y, k);
                assert(line_erases_pixel(display, sprite, x, y, k));
            } else {
                assert(line_erases_pixel(display, sprite, x, y, last));
            }
        }
        if exists|k: int| 0 <= k < sprite.len() && #[trigger] line_erases_pixel(display, sprite, x, y, k) {
            let k = choose|k: int| 0 <= k < sprite.len() && #[trigger] line_erases_pixel(display, sprite, x, y, k);
            if k < last {
                assert(line_erases_pixel(display, prefix, x, y, k));
            }
        }
    }
}

/// The screen, one `u64` per row.
pub struct Graphics {
    pub display: [u64; 32],
}

fn placed_row_bits(byte: u8, x: usize) -> (r: u64)
    ensures
        r == placed_row(byte, x),
{
    let s: u64 = (x % 64) as u64;
    if s == 0 {
        byte as u64
    } else {
        ((byte as u64) << s) | ((byte as u64) >> (64u64 - s))
    }
}

impl Graphics {
    /// A blank screen.
    pub fn new() -> (r: Graphics)
        ensures
            r.display@ == blank_display(),
    {
        let r = Graphics { display: [0u64; 32] };
        assert(r.display@ =~= blank_display());
        r
    }

    /// Turn every pixel off.
    pub fn clear(&mut self)
        ensures
            final(self).display@ == blank_display(),
    {
        let mut r: usize = 0;
        while r < DISPLAY_ROWS
            invariant
                r <= DISPLAY_ROWS,
                forall|k: int| 0 <= k < r ==> self.display@[k] == 0,
            decreases DISPLAY_ROWS - r,
        {
            self.display[r] = 0;
            r = r + 1;
        }
        assert(self.display@ =~= blank_display());
    }

    /// XOR `sprite` onto the screen with its top left corner at (`x`, `y`),
    /// one byte per line, and tell whether a lit pixel was turned off.
    pub fn draw_sprite(&mut self, x: usize, y: usize, sprite: &[u8]) -> (collision: bool)
        ensures
            final(self).display@ == draw_rows(old(self).display@, sprite@, x, y),
            collision == draw_collides(old(self).display@, sprite@, x, y),
    {
        let n = sprite.len();
        let mut collision = false;
        let mut row: usize = y % DISPLAY_ROWS;
        let mut k: usize = 0;
        while k < n
            invariant
                n == sprite@.len(),
                k <= n,
                row == sprite_line_row(y, k as int),
                self.display@ == draw_rows(old(self).display@, sprite@.subrange(0, k as int), x, y),
                collision == draw_collides(old(self).display@, sprite@.subrange(0, k as int), x, y),
            decreases n - k,
        {
            let bits = placed_row_bits(sprite[k], x);
            let current = self.display[row];
            if current & bits != 0 {
                collision = true;
            }
            self.display[row] = current ^ bits;
            proof {
                let next = sprite@.subrange(0, k + 1);
                assert(next.drop_last() =~= sprite@.subrange(0, k as int));
            }
            k = k + 1;
            row = if row + 1 == DISPLAY_ROWS { 0 } else { row + 1 };
        }
        assert(sprite@.subrange(0, n as int) =~= sprite@);
        collision
    }
}

} // verus!
