//! The framebuffer: 64 by 32 monochrome pixels, packed eight to a byte with
//! the leftmost pixel in the most significant bit, and the XOR-blit of sprites.

use vstd::prelude::*;

verus! {

/// Width of the screen in pixels.
pub const SCREEN_WIDTH: u8 = 64;

/// Height of the screen in pixels.
pub const SCREEN_HEIGHT: u8 = 32;

/// Number of bytes that hold the packed pixels.
pub const SCREEN_LEN: usize = 256;

/// Bit `k` of a byte, counted from the most significant bit (`k` in `0..8`).
pub open spec fn bit_of(b: u8, k: u8) -> bool {
    (b >> ((7 - k) as u8)) & 1 == 1
}

/// The pixels of a packed framebuffer in row-major order from the top left:
/// the pixel at column `x` of row `y` is element `64 * y + x`.
pub open spec fn pixels_of(screen: Seq<u8>) -> Seq<bool> {
    Seq::new(2048, |p: int| bit_of(screen[p / 8], (p % 8) as u8))
}

/// The byte with only bit `k` set.
pub open spec fn bit_mask(k: u8) -> u8 {
    1u8 << ((7 - k) as u8)
}

/// XOR with a one-bit mask flips that bit and no other.
pub proof fn lemma_flip_bit(b: u8, s: u8, k: u8)
    requires
        s < 8,
        k < 8,
    ensures
        bit_of(b ^ bit_mask(s), k) == (bit_of(b, k) != (k == s)),
        bit_of(b ^ 0, k) == bit_of(b, k),
{
    assert(((b ^ (1u8 << ((7 - s) as u8))) >> ((7 - k) as u8)) & 1 == 1 <==> (((b >> ((7 - k) as u8))
        & 1 == 1) != (k == s))) by (bit_vector)
        requires
            s < 8,
            k < 8,
    ;
    assert(b ^ 0 == b) by (bit_vector);
}

/// The zero byte has no bit set.
pub proof fn lemma_zero_bits(k: u8)
    ensures
        !bit_of(0u8, k),
{
    assert((0u8 >> ((7 - k) as u8)) & 1 != 1) by (bit_vector);
}

/// A byte is determined by its eight bits.
pub proof fn lemma_bits_determine_byte(a: u8, b: u8)
    requires
        forall|k: u8| k < 8 ==> bit_of(a, k) == bit_of(b, k),
    ensures
        a == b,
{
    assert(bit_of(a, 0) == bit_of(b, 0));
    assert(bit_of(a, 1) == bit_of(b, 1));
    assert(bit_of(a, 2) == bit_of(b, 2));
    assert(bit_of(a, 3) == bit_of(b, 3));
    assert(bit_of(a, 4) == bit_of(b, 4));
    assert(bit_of(a, 5) == bit_of(b, 5));
    assert(bit_of(a, 6) == bit_of(b, 6));
    assert(bit_of(a, 7) == bit_of(b, 7));
    assert(a == b) by (bit_vector)
        requires
            ((a >> 7u8) & 1 == 1) == ((b >> 7u8) & 1 == 1),
            ((a >> 6u8) & 1 == 1) == ((b >> 6u8) & 1 == 1),
            ((a >> 5u8) & 1 == 1) == ((b >> 5u8) & 1 == 1),
            ((a >> 4u8) & 1 == 1) == ((b >> 4u8) & 1 == 1),
            ((a >> 3u8) & 1 == 1) == ((b >> 3u8) & 1 == 1),
            ((a >> 2u8) & 1 == 1) == ((b >> 2u8) & 1 == 1),
            ((a >> 1u8) & 1 == 1) == ((b >> 1u8) & 1 == 1),
            ((a >> 0u8) & 1 == 1) == ((b >> 0u8) & 1 == 1),
    ;
}

/// A packed framebuffer is determined by its pixels.
pub proof fn lemma_pixels_determine_screen(a: Seq<u8>, b: Seq<u8>)
    requires
        a.len() == 256,
        b.len() == 256,
        pixels_of(a) == pixels_of(b),
    ensures
        a == b,
{
    assert forall|i: int| 0 <= i < 256 implies a[i] == b[i] by {
        assert forall|k: u8| k < 8 implies bit_of(a[i], k) == bit_of(b[i], k) by {
            let p = 8 * i + k;
            assert(p / 8 == i && (p % 8) as u8 == k);
            assert(pixels_of(a)[p] == bit_of(a[i], k));
            assert(pixels_of(b)[p] == bit_of(b[i], k));
        }
        lemma_bits_determine_byte(a[i], b[i]);
    }
    assert(a =~= b);
}

/// Whether a sprite has a set bit on pixel `p` of the screen. The sprite is
/// the `n` bytes of `mem` from `index` on, one byte per row, and is anchored
/// with its top left corner at column `vx mod 64` of row `vy mod 32`; columns
/// and rows past the edge of the screen wrap around.
pub open spec fn sprite_covers(mem: Seq<u8>, index: int, n: int, vx: int, vy: int, p: int) -> bool {
    let dx = (p % 64 - vx) % 64;
    let dy = (p / 64 - vy) % 32;
    dx < 8 && dy < n && bit_of(mem[index + dy], dx as u8)
}

/// The screen after a sprite has been XORed into it.
pub open spec fn blit(pixels: Seq<bool>, mem: Seq<u8>, index: int, n: int, vx: int, vy: int) -> Seq<
    bool,
> {
    Seq::new(2048, |p: int| pixels[p] != sprite_covers(mem, index, n, vx, vy, p))
}

/// Whether XORing a sprite into the screen turns a lit pixel off.
pub open spec fn blit_collides(
    pixels: Seq<bool>,
    mem: Seq<u8>,
    index: int,
    n: int,
    vx: int,
    vy: int,
) -> bool {
    exists|p: int| 0 <= p < 2048 && pixels[p] && sprite_covers(mem, index, n, vx, vy, p)
}

/// Whether a sprite has a set bit on pixel `p` among the bits that a draw
/// has handled when it has finished `row` rows and `col` columns of the next.
#[verifier::opaque]
pub open spec fn sprite_covers_upto(
    mem: Seq<u8>,
    index: int,
    n: int,
    vx: int,
    vy: int,
    p: int,
    row: int,
    col: int,
) -> bool {
    let dx = (p % 64 - vx) % 64;
    let dy = (p / 64 - vy) % 32;
    sprite_covers(mem, index, n, vx, vy, p) && (dy < row || (dy == row && dx < col))
}

/// The screen when a draw has finished `row` rows and `col` columns of the next.
pub open spec fn blit_upto(
    pixels: Seq<bool>,
    mem: Seq<u8>,
    index: int,
    n: int,
    vx: int,
    vy: int,
    row: int,
    col: int,
) -> Seq<bool> {
    Seq::new(2048, |p: int| pixels[p] != sprite_covers_upto(mem, index, n, vx, vy, p, row, col))
}

/// Whether a draw has turned a lit pixel off when it has finished `row` rows
/// and `col` columns of the next.
pub open spec fn collides_upto(
    pixels: Seq<bool>,
    mem: Seq<u8>,
    index: int,
    n: int,
    vx: int,
    vy: int,
    row: int,
    col: int,
) -> bool {
    exists|p: int|
        0 <= p < 2048 && pixels[p] && #[trigger] sprite_covers_upto(
            mem,
            index,
            n,
            vx,
            vy,
            p,
            row,
            col,
        )
}

/// The pixel that column `col` of row `row` of a sprite anchored at
/// (`vx`, `vy`) falls on.
pub open spec fn sprite_target(vx: int, vy: int, row: int, col: int) -> int {
    64 * ((vy + row) % 32) + (vx + col) % 64
}

/// The pixel that a sprite position falls on is the only one at that offset
/// from the anchor.
proof fn lemma_target_offsets(vx: int, vy: int, row: int, col: int, p: int)
    requires
        0 <= row < 32,
        0 <= col < 64,
        0 <= p < 2048,
    ensures
        ((p % 64 - vx) % 64 == col && (p / 64 - vy) % 32 == row) <==> p == sprite_target(
            vx,
            vy,
            row,
            col,
        ),
{
    let a = p % 64;
    let b = p / 64;
    assert(((a - vx) % 64 == col) <==> (a == (vx + col) % 64));
    assert(((b - vy) % 32 == row) <==> (b == (vy + row) % 32));
}

/// One bit of a draw, seen from one pixel: the bit lands on its target and
/// nowhere else.
proof fn lemma_cover_step(
    mem: Seq<u8>,
    index: int,
    n: int,
    vx: int,
    vy: int,
    row: int,
    col: int,
    p: int,
)
    requires
        0 <= row < n <= 32,
        0 <= col < 8,
        0 <= p < 2048,
    ensures
        sprite_covers_upto(mem, index, n, vx, vy, p, row, col + 1) == if p == sprite_target(
            vx,
            vy,
            row,
            col,
        ) {
            bit_of(mem[index + row], col as u8)
        } else {
            sprite_covers_upto(mem, index, n, vx, vy, p, row, col)
        },
        p == sprite_target(vx, vy, row, col) ==> !sprite_covers_upto(
            mem,
            index,
            n,
            vx,
            vy,
            p,
            row,
            col,
        ),
{
    reveal(sprite_covers_upto);
    lemma_target_offsets(vx, vy, row, col, p);
}

/// Before its first bit a draw has changed nothing.
pub proof fn lemma_blit_start(pixels: Seq<bool>, mem: Seq<u8>, index: int, n: int, vx: int, vy: int)
    requires
        pixels.len() == 2048,
    ensures
        blit_upto(pixels, mem, index, n, vx, vy, 0, 0) == pixels,
        !collides_upto(pixels, mem, index, n, vx, vy, 0, 0),
{
    reveal(sprite_covers_upto);
    assert(blit_upto(pixels, mem, index, n, vx, vy, 0, 0) =~= pixels);
}

/// One bit of a draw: the pixel it falls on is XORed with the bit, and the
/// draw collides from then on if the pixel was lit and the bit is set.
pub proof fn lemma_blit_step(
    pixels: Seq<bool>,
    mem: Seq<u8>,
    index: int,
    n: int,
    vx: int,
    vy: int,
    row: int,
    col: int,
)
    requires
        pixels.len() == 2048,
        0 <= row < n <= 32,
        0 <= col < 8,
    ensures
        ({
            let target = sprite_target(vx, vy, row, col);
            let bit = bit_of(mem[index + row], col as u8);
            let shown = blit_upto(pixels, mem, index, n, vx, vy, row, col);
            &&& 0 <= target < 2048
            &&& shown[target] == pixels[target]
            &&& blit_upto(pixels, mem, index, n, vx, vy, row, col + 1) == shown.update(
                target,
                shown[target] != bit,
            )
            &&& collides_upto(pixels, mem, index, n, vx, vy, row, col + 1) == (collides_upto(
                pixels,
                mem,
                index,
                n,
                vx,
                vy,
                row,
                col,
            ) || (bit && pixels[target]))
        }),
{
    let target = sprite_target(vx, vy, row, col);
    let bit = bit_of(mem[index + row], col as u8);
    let shown = blit_upto(pixels, mem, index, n, vx, vy, row, col);
    assert forall|p: int| 0 <= p < 2048 implies (#[trigger] sprite_covers_upto(
        mem,
        index,
        n,
        vx,
        vy,
        p,
        row,
        col + 1,
    ) == if p == target {
        bit
    } else {
        sprite_covers_upto(mem, index, n, vx, vy, p, row, col)
    }) && (p == target ==> !sprite_covers_upto(mem, index, n, vx, vy, p, row, col)) by {
        lemma_cover_step(mem, index, n, vx, vy, row, col, p);
    }
    lemma_cover_step(mem, index, n, vx, vy, row, col, target);
    assert(shown[target] == pixels[target]);
    assert(blit_upto(pixels, mem, index, n, vx, vy, row, col + 1) =~= shown.update(
        target,
        shown[target] != bit,
    ));
    if collides_upto(pixels, mem, index, n, vx, vy, row, col + 1) {
        let p = choose|p: int|
            0 <= p < 2048 && pixels[p] && #[trigger] sprite_covers_upto(
                mem,
                index,
                n,
                vx,
                vy,
                p,
                row,
                col + 1,
            );
        if p != target {
            assert(sprite_covers_upto(mem, index, n, vx, vy, p, row, col));
        }
    }
    if collides_upto(pixels, mem, index, n, vx, vy, row, col) {
        let p = choose|p: int|
            0 <= p < 2048 && pixels[p] && #[trigger] sprite_covers_upto(
                mem,
                index,
                n,
                vx,
                vy,
                p,
                row,
                col,
            );
        assert(sprite_covers_upto(mem, index, n, vx, vy, p, row, col + 1));
    }
    if bit && pixels[target] {
        assert(sprite_covers_upto(mem, index, n, vx, vy, target, row, col + 1));
    }
}

/// The end of a row of a draw is the start of the next row.
pub proof fn lemma_blit_row_end(
    pixels: Seq<bool>,
    mem: Seq<u8>,
    index: int,
    n: int,
    vx: int,
    vy: int,
    row: int,
)
    requires
        pixels.len() == 2048,
    ensures
        blit_upto(pixels, mem, index, n, vx, vy, row, 8) == blit_upto(
            pixels,
            mem,
            index,
            n,
            vx,
            vy,
            row + 1,
            0,
        ),
        collides_upto(pixels, mem, index, n, vx, vy, row, 8) == collides_upto(
            pixels,
            mem,
            index,
            n,
            vx,
            vy,
            row + 1,
            0,
        ),
{
    reveal(sprite_covers_upto);
    assert forall|p: int|
        sprite_covers_upto(mem, index, n, vx, vy, p, row, 8) == sprite_covers_upto(
            mem,
            index,
            n,
            vx,
            vy,
            p,
            row + 1,
            0,
        ) by {}
    assert(blit_upto(pixels, mem, index, n, vx, vy, row, 8) =~= blit_upto(
        pixels,
        mem,
        index,
        n,
        vx,
        vy,
        row + 1,
        0,
    ));
    if collides_upto(pixels, mem, index, n, vx, vy, row, 8) {
        let p = choose|p: int|
            0 <= p < 2048 && pixels[p] && #[trigger] sprite_covers_upto(
                mem,
                index,
                n,
                vx,
                vy,
                p,
                row,
                8,
            );
        assert(sprite_covers_upto(mem, index, n, vx, vy, p, row + 1, 0));
    }
    if collides_upto(pixels, mem, index, n, vx, vy, row + 1, 0) {
        let p = choose|p: int|
            0 <= p < 2048 && pixels[p] && #[trigger] sprite_covers_upto(
                mem,
                index,
                n,
                vx,
                vy,
                p,
                row + 1,
                0,
            );
        assert(sprite_covers_upto(mem, index, n, vx, vy, p, row, 8));
    }
}

/// After its last row a draw has XORed the whole sprite into the screen.
pub proof fn lemma_blit_done(pixels: Seq<bool>, mem: Seq<u8>, index: int, n: int, vx: int, vy: int)
    requires
        pixels.len() == 2048,
    ensures
        blit_upto(pixels, mem, index, n, vx, vy, n, 0) == blit(pixels, mem, index, n, vx, vy),
        collides_upto(pixels, mem, index, n, vx, vy, n, 0) == blit_collides(
            pixels,
            mem,
            index,
            n,
            vx,
            vy,
        ),
{
    reveal(sprite_covers_upto);
    assert forall|p: int|
        sprite_covers_upto(mem, index, n, vx, vy, p, n, 0) == sprite_covers(
            mem,
            index,
            n,
            vx,
            vy,
            p,
        ) by {}
    assert(blit_upto(pixels, mem, index, n, vx, vy, n, 0) =~= blit(pixels, mem, index, n, vx, vy));
    if collides_upto(pixels, mem, index, n, vx, vy, n, 0) {
        let p = choose|p: int|
            0 <= p < 2048 && pixels[p] && #[trigger] sprite_covers_upto(
                mem,
                index,
                n,
                vx,
                vy,
                p,
                n,
                0,
            );
        assert(sprite_covers(mem, index, n, vx, vy, p));
    }
    if blit_collides(pixels, mem, index, n, vx, vy) {
        let p = choose|p: int| 0 <= p < 2048 && pixels[p] && sprite_covers(mem, index, n, vx, vy, p);
        assert(sprite_covers_upto(mem, index, n, vx, vy, p, n, 0));
    }
}

} // verus!
