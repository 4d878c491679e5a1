//! The 64x32 monochrome framebuffer and its XOR sprite compositing.

use vstd::prelude::*;

verus! {

/// Pixels per row.
pub const WIDTH: usize = 64;

/// Rows on the screen.
pub const HEIGHT: usize = 32;

/// Whether column `j` of a sprite row is lit; column 0 is the most
/// significant bit.
pub open spec fn row_bit(row: u8, j: int) -> bool {
    row & (0x80u8 >> (j as u8)) != 0
}

/// Whether the `k`-th sprite bit is lit. Bits are numbered in drawing order:
/// bit `k` is column `k % 8` of row `k / 8`.
pub open spec fn sprite_bit(sprite: Seq<u8>, k: int) -> bool {
    row_bit(sprite[k / 8], k % 8)
}

/// The framebuffer cell that the `k`-th bit of a sprite drawn at `(x, y)`
/// falls on. Both coordinates wrap around the screen edges.
pub open spec fn target(x: int, y: int, k: int) -> int {
    ((y + k / 8) % 32) * 64 + (x + k % 8) % 64
}

/// Whether the `k`-th bit of the sprite is lit and falls on cell `c`.
pub open spec fn lands(x: int, y: int, sprite: Seq<u8>, k: int, c: int) -> bool {
    sprite_bit(sprite, k) && target(x, y, k) == c
}

/// Whether an odd number of the first `k` sprite bits land on cell `c`, that
/// is, whether drawing those bits flips the cell.
pub open spec fn flipped(x: int, y: int, sprite: Seq<u8>, k: int, c: int) -> bool
    decreases k,
{
    if k <= 0 {
        false
    } else {
        flipped(x, y, sprite, k - 1, c) != lands(x, y, sprite, k - 1, c)
    }
}

/// The framebuffer after the first `k` bits of the sprite have been drawn at
/// `(x, y)`: each cell is the old cell XOR whether it was flipped.
pub open spec fn drawn_upto(pixels: Seq<bool>, x: int, y: int, sprite: Seq<u8>, k: int) -> Seq<
    bool,
> {
    Seq::new(pixels.len(), |c: int| pixels[c] != flipped(x, y, sprite, k, c))
}

/// The framebuffer after the whole sprite has been drawn at `(x, y)`.
pub open spec fn drawn(pixels: Seq<bool>, x: int, y: int, sprite: Seq<u8>) -> Seq<bool> {
    drawn_upto(pixels, x, y, sprite, 8 * (sprite.len() as int))
}

/// Whether the `k`-th sprite bit is lit and finds its cell already set when
/// its turn comes.
pub open spec fn strikes(pixels: Seq<bool>, x: int, y: int, sprite: Seq<u8>, k: int) -> bool {
    sprite_bit(sprite, k) && (pixels[target(x, y, k)] != flipped(
        x,
        y,
        sprite,
        k,
        target(x, y, k),
    ))
}

/// Whether one of the first `k` sprite bits strikes a set cell.
pub open spec fn collides_upto(pixels: Seq<bool>, x: int, y: int, sprite: Seq<u8>, k: int) -> bool {
    exists|h: int| 0 <= h < k && strikes(pixels, x, y, sprite, h)
}

/// Whether drawing the sprite at `(x, y)` reports a collision.
pub open spec fn collides(pixels: Seq<bool>, x: int, y: int, sprite: Seq<u8>) -> bool {
    collides_upto(pixels, x, y, sprite, 8 * (sprite.len() as int))
}

/// The screen: `WIDTH * HEIGHT` cells in row-major order.
pub struct Display {
    memory: Vec<bool>,
}

impl View for Display {
    type V = Seq<bool>;

    closed spec fn view(&self) -> Seq<bool> {
        self.memory@
    }
}

impl Display {
    /// Every display built by this module holds exactly one cell per pixel.
    pub open spec fn wf(&self) -> bool {
        self@.len() == WIDTH * HEIGHT
    }

    /// A blank screen.
    pub fn new() -> (display: Display)
        ensures
            display.wf(),
            display@ == Seq::new((WIDTH * HEIGHT) as nat, |c: int| false),
    {
        let memory: Vec<bool> = vec![false; WIDTH * HEIGHT];
        assert(memory@ =~= Seq::new((WIDTH * HEIGHT) as nat, |c: int| false));
        Display { memory }
    }

    /// The cell at column `x` of row `y`.
    pub fn get_pixel(&self, x: usize, y: usize) -> (lit: bool)
        requires
            self.wf(),
            y * WIDTH + x < WIDTH * HEIGHT,
        ensures
            lit == self@[y * WIDTH + x],
    {
        self.memory[y * WIDTH + x]
    }

    /// Overwrites the cell at column `x` of row `y`.
    pub fn set_pixel(&mut self, x: usize, y: usize, value: bool)
        requires
            old(self).wf(),
            y * WIDTH + x < WIDTH * HEIGHT,
        ensures
            final(self).wf(),
            final(self)@ == old(self)@.update(y * WIDTH + x, value),
    {
        self.memory[y * WIDTH + x] = value;
    }

    /// Turns every cell off.
    pub fn clear(&mut self)
        requires
            old(self).wf(),
        ensures
            final(self).wf(),
            final(self)@ == Seq::new((WIDTH * HEIGHT) as nat, |c: int| false),
    {
        for c in 0..WIDTH * HEIGHT
            invariant
                self.memory@.len() == WIDTH * HEIGHT,
                forall|d: int| 0 <= d < c ==> !self.memory@[d],
        {
            self.memory[c] = false;
        }
        assert(self.memory@ =~= Seq::new((WIDTH * HEIGHT) as nat, |c: int| false));
    }

    /// Composites `sprite` onto the screen with its top-left corner at
    /// `(x, y)`. Each byte is one row of eight pixels, most significant bit
    /// leftmost. A lit sprite bit toggles the cell under it and an unlit one
    /// leaves it alone; cells past the right or bottom edge wrap around to
    /// the opposite edge. Returns whether any lit bit landed on a cell that
    /// was set at that moment.
    pub fn draw(&mut self, x: usize, y: usize, sprite: &[u8]) -> (collision: bool)
        requires
            old(self).wf(),
        ensures
            final(self).wf(),
            final(self)@ == drawn(old(self)@, x as int, y as int, sprite@),
            collision == collides(old(self)@, x as int, y as int, sprite@),
    {
        let ghost before = self@;
        let ghost xi = x as int;
        let ghost yi = y as int;
        let mut collision = false;
        let rows: usize = sprite.len();
        let left: usize = x % WIDTH;
        let top: usize = y % HEIGHT;
        let mut i: usize = 0;
        while i < rows
            invariant
                i <= rows,
                rows == sprite@.len(),
                left == xi % 64,
                top == yi % 32,
                xi == x,
                yi == y,
                before.len() == 2048,
                self.memory@ == drawn_upto(before, xi, yi, sprite@, 8 * i),
                collision == collides_upto(before, xi, yi, sprite@, 8 * i),
            decreases rows - i,
        {
            let byte: u8 = sprite[i];
            let posy: usize = (top + i % HEIGHT) % HEIGHT;
            let mut j: usize = 0;
            while j < 8
                invariant
                    j <= 8,
                    i < rows,
                    rows == sprite@.len(),
                    byte == sprite@[i as int],
                    left == xi % 64,
                    posy == (yi + i) % 32,
                    before.len() == 2048,
                    self.memory@ == drawn_upto(before, xi, yi, sprite@, 8 * i + j),
                    collision == collides_upto(before, xi, yi, sprite@, 8 * i + j),
                decreases 8 - j,
            {
                let ghost k = 8 * i + j;
                let ghost held = self.memory@;
                let value: bool = byte & (0x80u8 >> (j as u8)) != 0;
                assert(value == sprite_bit(sprite@, k));
                let posx: usize = (left + j) % WIDTH;
                let pos: usize = posy * WIDTH + posx;
                assert(pos == target(xi, yi, k));
                if value {
                    let old_value: bool = self.memory[pos];
                    collision = collision || old_value;
                    self.memory[pos] = !old_value;
                    assert(old_value == strikes(before, xi, yi, sprite@, k));
                } else {
                    assert(!strikes(before, xi, yi, sprite@, k));
                }
                assert(self.memory@ =~= drawn_upto(before, xi, yi, sprite@, k + 1)) by {
                    assert forall|c: int| 0 <= c < 2048 implies self.memory@[c] == (before[c]
                        != flipped(xi, yi, sprite@, k + 1, c)) by {
                        assert(held[c] == (before[c] != flipped(xi, yi, sprite@, k, c)));
                    }
                }
                j += 1;
            }
            i += 1;
        }
        collision
    }

    /// The cells in row-major order, for a renderer to colour as it sees fit.
    pub fn get_buffer(&self) -> (buffer: Vec<bool>)
        requires
            self.wf(),
        ensures
            buffer@ == self@,
    {
        let mut buffer: Vec<bool> = Vec::new();
        for c in 0..WIDTH * HEIGHT
            invariant
                self.memory@.len() == WIDTH * HEIGHT,
                buffer@ == self.memory@.take(c as int),
        {
            buffer.push(self.memory[c]);
            assert(buffer@ =~= self.memory@.take(c + 1));
        }
        assert(self.memory@.take(2048) =~= self.memory@);
        buffer
    }
}

/// Whether some lit bit of the sprite drawn at `(x, y)` falls on cell `c`.
pub open spec fn covers(x: int, y: int, sprite: Seq<u8>, c: int) -> bool {
    exists|k: int| 0 <= k < 8 * sprite.len() && lands(x, y, sprite, k, c)
}

/// Drawing the same sprite twice at the same place restores the framebuffer
/// exactly.
pub proof fn lemma_draw_twice_restores(pixels: Seq<bool>, x: int, y: int, sprite: Seq<u8>)
    ensures
        drawn(drawn(pixels, x, y, sprite), x, y, sprite) == pixels,
{
    assert(drawn(drawn(pixels, x, y, sprite), x, y, sprite) =~= pixels);
}

/// If a cell was flipped by the first `k` bits, one of those bits landed on
/// it.
proof fn lemma_flipped_has_hit(x: int, y: int, sprite: Seq<u8>, k: int, c: int) -> (h: int)
    requires
        flipped(x, y, sprite, k, c),
    ensures
        0 <= h < k,
        lands(x, y, sprite, h, c),
    decreases k,
{
    if lands(x, y, sprite, k - 1, c) {
        k - 1
    } else {
        lemma_flipped_has_hit(x, y, sprite, k - 1, c)
    }
}

/// The first bit to land on a cell finds it as the framebuffer had it.
proof fn lemma_first_hit(x: int, y: int, sprite: Seq<u8>, k: int, c: int) -> (h: int)
    requires
        0 <= k,
        lands(x, y, sprite, k, c),
    ensures
        0 <= h <= k,
        lands(x, y, sprite, h, c),
        !flipped(x, y, sprite, h, c),
    decreases k,
{
    if flipped(x, y, sprite, k, c) {
        let earlier = lemma_flipped_has_hit(x, y, sprite, k, c);
        lemma_first_hit(x, y, sprite, earlier, c)
    } else {
        k
    }
}

/// Drawing a sprite a second time at the same place reports a collision as
/// soon as one of its lit bits falls on a pixel that the first draw left set.
pub proof fn lemma_second_draw_collides(
    pixels: Seq<bool>,
    x: int,
    y: int,
    sprite: Seq<u8>,
    k: int,
)
    requires
        0 <= k < 8 * sprite.len(),
        sprite_bit(sprite, k),
        0 <= target(x, y, k) < pixels.len(),
        drawn(pixels, x, y, sprite)[target(x, y, k)],
    ensures
        collides(drawn(pixels, x, y, sprite), x, y, sprite),
{
    let c = target(x, y, k);
    let h = lemma_first_hit(x, y, sprite, k, c);
    assert(strikes(drawn(pixels, x, y, sprite), x, y, sprite, h));
}

/// Within a sprite of at most 32 rows no two bits fall on the same cell.
proof fn lemma_targets_differ(x: int, y: int, h: int, k: int)
    requires
        0 <= x,
        0 <= y,
        0 <= h < 256,
        0 <= k < 256,
        target(x, y, h) == target(x, y, k),
    ensures
        h == k,
{
    let rh = (y + h / 8) % 32;
    let rk = (y + k / 8) % 32;
    let ch = (x + h % 8) % 64;
    let ck = (x + k % 8) % 64;
    assert(rh * 64 + ch == rk * 64 + ck);
    assert(rh == rk && ch == ck);
    assert(h / 8 == k / 8);
    assert(h % 8 == k % 8);
}

/// For a sprite of at most 32 rows, a cell is flipped by the first `k` bits
/// exactly when one of them lands on it.
proof fn lemma_flipped_short(x: int, y: int, sprite: Seq<u8>, k: int, c: int)
    requires
        0 <= x,
        0 <= y,
        0 <= k <= 256,
    ensures
        flipped(x, y, sprite, k, c) <==> exists|h: int| 0 <= h < k && lands(x, y, sprite, h, c),
    decreases k,
{
    if k > 0 {
        lemma_flipped_short(x, y, sprite, k - 1, c);
        if lands(x, y, sprite, k - 1, c) {
            assert forall|h: int| 0 <= h < k - 1 implies !lands(x, y, sprite, h, c) by {
                if lands(x, y, sprite, h, c) {
                    lemma_targets_differ(x, y, h, k - 1);
                }
            }
        } else {
            assert forall|h: int| 0 <= h < k && lands(x, y, sprite, h, c) implies 0 <= h < k - 1
                && lands(x, y, sprite, h, c) by {}
        }
    }
}

/// A sprite of at most 32 rows never overlaps itself, so drawing it is a
/// plain XOR: a cell changes exactly when a lit bit covers it, and the draw
/// collides exactly when a lit bit covers a cell that was set beforehand.
pub proof fn lemma_draw_short_sprite(pixels: Seq<bool>, x: int, y: int, sprite: Seq<u8>)
    requires
        0 <= x,
        0 <= y,
        sprite.len() <= 32,
    ensures
        drawn(pixels, x, y, sprite) == Seq::new(
            pixels.len(),
            |c: int| pixels[c] != covers(x, y, sprite, c),
        ),
        collides(pixels, x, y, sprite) <==> exists|k: int|
            0 <= k < 8 * sprite.len() && sprite_bit(sprite, k) && pixels[target(x, y, k)],
{
    let n = 8 * (sprite.len() as int);
    assert forall|c: int| flipped(x, y, sprite, n, c) == covers(x, y, sprite, c) by {
        lemma_flipped_short(x, y, sprite, n, c);
    }
    assert(drawn(pixels, x, y, sprite) =~= Seq::new(
        pixels.len(),
        |c: int| pixels[c] != covers(x, y, sprite, c),
    ));
    assert forall|k: int| 0 <= k < n implies !flipped(x, y, sprite, k, target(x, y, k)) by {
        if flipped(x, y, sprite, k, target(x, y, k)) {
            let h = lemma_flipped_has_hit(x, y, sprite, k, target(x, y, k));
            lemma_targets_differ(x, y, h, k);
        }
    }
    if collides(pixels, x, y, sprite) {
        let k = choose|k: int| 0 <= k < n && strikes(pixels, x, y, sprite, k);
        assert(sprite_bit(sprite, k) && pixels[target(x, y, k)]);
    }
    if exists|k: int| 0 <= k < n && sprite_bit(sprite, k) && pixels[target(x, y, k)] {
        let k = choose|k: int| 0 <= k < n && sprite_bit(sprite, k) && pixels[target(x, y, k)];
        assert(strikes(pixels, x, y, sprite, k));
    }
}

} // verus!
