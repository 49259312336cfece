use vstd::prelude::*;
use vstd::arithmetic::div_mod::{
    lemma_fundamental_div_mod, lemma_mod_multiples_vanish, lemma_small_mod,
};

verus! {

/// Monochrome 64x32 frame buffer. Pixel (px, py) lives at index py * 64 + px.
///
/// Pixels only ever change by XOR-composition with sprite rows; a draw
/// reports a collision exactly when some set pixel was flipped off.
pub struct FrameBuffer {
    pub pixels: Vec<bool>,
}

pub open spec fn blank_screen() -> Seq<bool> {
    Seq::new(2048, |p: int| false)
}

/// Weight of sprite-byte column `c`: bit 7 of the byte is the leftmost pixel.
pub open spec fn col_weight(c: int) -> int {
    if c == 0 {
        128
    } else if c == 1 {
        64
    } else if c == 2 {
        32
    } else if c == 3 {
        16
    } else if c == 4 {
        8
    } else if c == 5 {
        4
    } else if c == 6 {
        2
    } else {
        1
    }
}

/// Whether column `c` of sprite byte `b` is a set pixel.
pub open spec fn sprite_bit(b: u8, c: int) -> bool {
    (b as int / col_weight(c)) % 2 == 1
}

/// The sprite row that lands on screen row `py` for a sprite anchored at
/// row `sy`: with wrapping the offset is taken modulo 32, without it rows
/// past the bottom edge are clipped.
pub open spec fn row_of(py: int, sy: int, wrap: bool) -> int {
    if wrap {
        (py - sy) % 32
    } else {
        py - sy
    }
}

/// The sprite column that lands on screen column `px`, as `row_of`.
pub open spec fn col_of(px: int, sx: int, wrap: bool) -> int {
    if wrap {
        (px - sx) % 64
    } else {
        px - sx
    }
}

/// Whether an `n`-row sprite anchored at (sx, sy) touches pixel index `p`.
pub open spec fn covered(sx: int, sy: int, n: int, wrap: bool, p: int) -> bool {
    0 <= row_of(p / 64, sy, wrap) < n && 0 <= col_of(p % 64, sx, wrap) < 8
}

/// The sprite bit that lands on pixel index `p`.
pub open spec fn bit_at(sprite: Seq<u8>, sx: int, sy: int, wrap: bool, p: int) -> bool {
    sprite_bit(sprite[row_of(p / 64, sy, wrap)], col_of(p % 64, sx, wrap))
}

/// The screen after XOR-blitting `sprite` at (sx, sy): covered pixels are
/// flipped where the sprite bit is set, all others are untouched.
pub open spec fn screen_after_draw(
    screen: Seq<bool>,
    sprite: Seq<u8>,
    sx: int,
    sy: int,
    wrap: bool,
) -> Seq<bool> {
    Seq::new(
        2048,
        |p: int|
            if covered(sx, sy, sprite.len() as int, wrap, p) {
                screen[p] != bit_at(sprite, sx, sy, wrap, p)
            } else {
                screen[p]
            },
    )
}

/// Whether the draw flips any pixel from set to unset.
pub open spec fn draw_collision(
    screen: Seq<bool>,
    sprite: Seq<u8>,
    sx: int,
    sy: int,
    wrap: bool,
) -> bool {
    exists|p: int|
        0 <= p < 2048 && covered(sx, sy, sprite.len() as int, wrap, p) && screen[p] && bit_at(
            sprite,
            sx,
            sy,
            wrap,
            p,
        )
}

/// Coverage by the part of the sprite already blitted: the first `rows` full
/// rows plus the first `cols` columns of row `rows`.
pub open spec fn covered_upto(
    sx: int,
    sy: int,
    n: int,
    wrap: bool,
    rows: int,
    cols: int,
    p: int,
) -> bool {
    let r = row_of(p / 64, sy, wrap);
    let c = col_of(p % 64, sx, wrap);
    0 <= r < n && 0 <= c < 8 && (r < rows || (r == rows && c < cols))
}

/// Collision within the part already blitted.
pub open spec fn hit_upto(
    screen: Seq<bool>,
    sprite: Seq<u8>,
    sx: int,
    sy: int,
    wrap: bool,
    rows: int,
    cols: int,
) -> bool {
    exists|p: int|
        0 <= p < 2048 && covered_upto(sx, sy, sprite.len() as int, wrap, rows, cols, p)
            && screen[p] && bit_at(sprite, sx, sy, wrap, p)
}

/// The pixel index that sprite cell (row `r`, column `c`) lands on.
pub open spec fn target_pixel(sx: int, sy: int, wrap: bool, r: int, c: int) -> int {
    let px = if wrap {
        (sx + c) % 64
    } else {
        sx + c
    };
    let py = if wrap {
        (sy + r) % 32
    } else {
        sy + r
    };
    py * 64 + px
}

/// Wrapped placement inverts exactly: `(s + o) % m` sits `o` slots after `s`.
proof fn lemma_wrap_offset(s: int, o: int, m: int)
    requires
        0 <= s < m,
        0 <= o < m,
    ensures
        0 <= (s + o) % m < m,
        ((s + o) % m - s) % m == o,
{
    let t = (s + o) % m;
    let q = (s + o) / m;
    lemma_fundamental_div_mod(s + o, m);
    assert(t == s + o - m * q);
    assert(m * (-q) == -(m * q)) by (nonlinear_arith);
    assert(t - s == m * (-q) + o);
    lemma_mod_multiples_vanish(-q, o, m);
    lemma_small_mod(o as nat, m as nat);
}

/// Two screen coordinates below `m` with the same wrapped offset from `s`
/// are the same coordinate.
proof fn lemma_mod_inj(a: int, b: int, s: int, m: int)
    requires
        0 < m,
        0 <= a < m,
        0 <= b < m,
        (a - s) % m == (b - s) % m,
    ensures
        a == b,
{
    let qa = (a - s) / m;
    let qb = (b - s) / m;
    lemma_fundamental_div_mod(a - s, m);
    lemma_fundamental_div_mod(b - s, m);
    assert(a - b == m * qa - m * qb);
    assert(m * qa - m * qb == m * (qa - qb)) by (nonlinear_arith);
    assert(qa == qb) by (nonlinear_arith)
        requires
            m > 0,
            -m < m * (qa - qb) < m,
    ;
}

/// Blitting one more visible sprite cell extends the covered region by
/// exactly its target pixel.
proof fn lemma_region_step(sx: int, sy: int, n: int, wrap: bool, r: int, c: int)
    requires
        0 <= sx < 64,
        0 <= sy < 32,
        0 <= r < n,
        n <= 15,
        0 <= c < 8,
        !wrap ==> sx + c < 64 && sy + r < 32,
    ensures
        0 <= target_pixel(sx, sy, wrap, r, c) < 2048,
        row_of(target_pixel(sx, sy, wrap, r, c) / 64, sy, wrap) == r,
        col_of(target_pixel(sx, sy, wrap, r, c) % 64, sx, wrap) == c,
        forall|p: int|
            0 <= p < 2048 ==> (covered_upto(sx, sy, n, wrap, r, c + 1, p) <==> (covered_upto(
                sx,
                sy,
                n,
                wrap,
                r,
                c,
                p,
            ) || p == target_pixel(sx, sy, wrap, r, c))),
{
    let px = if wrap {
        (sx + c) % 64
    } else {
        sx + c
    };
    let py = if wrap {
        (sy + r) % 32
    } else {
        sy + r
    };
    let p0 = py * 64 + px;
    if wrap {
        lemma_wrap_offset(sx, c, 64);
        lemma_wrap_offset(sy, r, 32);
    }
    assert(0 <= px < 64 && 0 <= py < 32);
    assert(0 <= p0 < 2048);
    assert(p0 / 64 == py && p0 % 64 == px) by {
        vstd::arithmetic::div_mod::lemma_fundamental_div_mod_converse_div(p0, 64, py, px);
        vstd::arithmetic::div_mod::lemma_fundamental_div_mod_converse_mod(p0, 64, py, px);
    }
    assert(row_of(py, sy, wrap) == r && col_of(px, sx, wrap) == c);
    assert forall|p: int|
        0 <= p < 2048 && #[trigger] row_of(p / 64, sy, wrap) == r && col_of(p % 64, sx, wrap)
            == c implies p == p0 by {
        lemma_fundamental_div_mod(p, 64);
        let ppx = p % 64;
        let ppy = p / 64;
        assert(0 <= ppx < 64);
        assert(0 <= ppy < 32);
        if wrap {
            lemma_mod_inj(ppy, py, sy, 32);
            lemma_mod_inj(ppx, px, sx, 64);
        }
        assert(ppy == py && ppx == px);
    }
}

/// A sprite cell whose target lies past the right or bottom edge touches no
/// pixel when drawing clips.
proof fn lemma_clipped_step(sx: int, sy: int, n: int, r: int, c: int)
    requires
        0 <= sx < 64,
        0 <= sy < 32,
        0 <= r < n,
        n <= 15,
        0 <= c < 8,
        sx + c >= 64 || sy + r >= 32,
    ensures
        forall|p: int|
            0 <= p < 2048 ==> (covered_upto(sx, sy, n, false, r, c + 1, p) <==> covered_upto(
                sx,
                sy,
                n,
                false,
                r,
                c,
                p,
            )),
{
    assert forall|p: int|
        0 <= p < 2048 implies (covered_upto(sx, sy, n, false, r, c + 1, p) <==> covered_upto(
        sx,
        sy,
        n,
        false,
        r,
        c,
        p,
    )) by {
        lemma_fundamental_div_mod(p, 64);
        assert(0 <= p % 64 < 64);
        assert(0 <= p / 64 < 32);
    }
}

/// Executable mirror of `col_weight`.
fn col_weight_val(c: usize) -> (w: u8)
    requires
        c < 8,
    ensures
        w as int == col_weight(c as int),
        w > 0,
{
    if c == 0 {
        128
    } else if c == 1 {
        64
    } else if c == 2 {
        32
    } else if c == 3 {
        16
    } else if c == 4 {
        8
    } else if c == 5 {
        4
    } else if c == 6 {
        2
    } else {
        1
    }
}

impl FrameBuffer {
    pub open spec fn wf(self) -> bool {
        self.pixels@.len() == 2048
    }

    pub fn new() -> (r: FrameBuffer)
        ensures
            r.wf(),
            r.pixels@ == blank_screen(),
    {
        FrameBuffer { pixels: crate::util::false_vec(2048) }
    }

    /// Clears every pixel (instruction 00E0).
    pub fn clear(&mut self)
        ensures
            final(self).wf(),
            final(self).pixels@ == blank_screen(),
    {
        self.pixels = crate::util::false_vec(2048);
    }

    pub fn pixel(&self, px: usize, py: usize) -> (r: bool)
        requires
            self.wf(),
            px < 64,
            py < 32,
        ensures
            r == self.pixels@[py * 64 + px],
    {
        self.pixels[py * 64 + px]
    }

    /// XOR-blits `sprite` anchored at (sx, sy), wrapping or clipping pixels
    /// that run off the edge, and reports whether any set pixel was flipped
    /// off.
    #[verifier::loop_isolation(false)]
    #[verifier::rlimit(60)]
    pub fn draw_sprite(&mut self, sx: u8, sy: u8, sprite: &Vec<u8>, wrap: bool) -> (col: bool)
        requires
            old(self).wf(),
            sx < 64,
            sy < 32,
            sprite@.len() <= 15,
        ensures
            final(self).wf(),
            final(self).pixels@ == screen_after_draw(
                old(self).pixels@,
                sprite@,
                sx as int,
                sy as int,
                wrap,
            ),
            col == draw_collision(old(self).pixels@, sprite@, sx as int, sy as int, wrap),
    {
        let ghost orig = old(self).pixels@;
        let ghost n = sprite@.len() as int;
        let ghost sxi = sx as int;
        let ghost syi = sy as int;
        let mut collision = false;
        let mut r: usize = 0;
        while r < sprite.len()
            invariant
                self.wf(),
                r <= sprite@.len(),
                forall|p: int|
                    0 <= p < 2048 ==> self.pixels@[p] == (if covered_upto(
                        sxi,
                        syi,
                        n,
                        wrap,
                        r as int,
                        0,
                        p,
                    ) {
                        orig[p] != bit_at(sprite@, sxi, syi, wrap, p)
                    } else {
                        orig[p]
                    }),
                collision == hit_upto(orig, sprite@, sxi, syi, wrap, r as int, 0),
            decreases sprite@.len() - r,
        {
            let row_byte = sprite[r];
            let mut c: usize = 0;
            while c < 8
                invariant
                    self.wf(),
                    r < sprite@.len(),
                    c <= 8,
                    row_byte == sprite@[r as int],
                    forall|p: int|
                        0 <= p < 2048 ==> self.pixels@[p] == (if covered_upto(
                            sxi,
                            syi,
                            n,
                            wrap,
                            r as int,
                            c as int,
                            p,
                        ) {
                            orig[p] != bit_at(sprite@, sxi, syi, wrap, p)
                        } else {
                            orig[p]
                        }),
                    collision == hit_upto(orig, sprite@, sxi, syi, wrap, r as int, c as int),
                decreases 8 - c,
            {
                let w = col_weight_val(c);
                let bit = (row_byte / w) % 2 == 1;
                proof {
                    assert(bit == sprite_bit(sprite@[r as int], c as int));
                }
                let sxc: usize = sx as usize + c;
                let syr: usize = sy as usize + r;
                if wrap || (sxc < 64 && syr < 32) {
                    proof {
                        lemma_region_step(sxi, syi, n, wrap, r as int, c as int);
                    }
                    let px: usize = if wrap {
                        sxc % 64
                    } else {
                        sxc
                    };
                    let py: usize = if wrap {
                        syr % 32
                    } else {
                        syr
                    };
                    let p0: usize = py * 64 + px;
                    let ghost p0i = target_pixel(sxi, syi, wrap, r as int, c as int);
                    proof {
                        assert(p0 as int == p0i);
                        assert(bit_at(sprite@, sxi, syi, wrap, p0i) == bit);
                        assert(!covered_upto(sxi, syi, n, wrap, r as int, c as int, p0i));
                    }
                    if bit {
                        let prev = self.pixels[p0];
                        if prev {
                            collision = true;
                        }
                        self.pixels.set(p0, !prev);
                        proof {
                            assert(hit_upto(
                                orig,
                                sprite@,
                                sxi,
                                syi,
                                wrap,
                                r as int,
                                c as int + 1,
                            ) == (hit_upto(orig, sprite@, sxi, syi, wrap, r as int, c as int)
                                || orig[p0i])) by {
                                if orig[p0i] {
                                    assert(covered_upto(sxi, syi, n, wrap, r as int, c as int + 1, p0i)
                                        && orig[p0i] && bit_at(sprite@, sxi, syi, wrap, p0i));
                                }
                                if hit_upto(orig, sprite@, sxi, syi, wrap, r as int, c as int) {
                                    let pw = choose|p: int|
                                        0 <= p < 2048 && covered_upto(sxi, syi, n, wrap, r as int, c as int, p)
                                            && orig[p] && bit_at(sprite@, sxi, syi, wrap, p);
                                    assert(covered_upto(sxi, syi, n, wrap, r as int, c as int + 1, pw));
                                }
                            }
                        }
                    } else {
                        proof {
                            assert(hit_upto(
                                orig,
                                sprite@,
                                sxi,
                                syi,
                                wrap,
                                r as int,
                                c as int + 1,
                            ) == hit_upto(orig, sprite@, sxi, syi, wrap, r as int, c as int)) by {
                                if hit_upto(orig, sprite@, sxi, syi, wrap, r as int, c as int) {
                                    let pw = choose|p: int|
                                        0 <= p < 2048 && covered_upto(sxi, syi, n, wrap, r as int, c as int, p)
                                            && orig[p] && bit_at(sprite@, sxi, syi, wrap, p);
                                    assert(covered_upto(sxi, syi, n, wrap, r as int, c as int + 1, pw));
                                }
                                if hit_upto(orig, sprite@, sxi, syi, wrap, r as int, c as int + 1) {
                                    let pw = choose|p: int|
                                        0 <= p < 2048 && covered_upto(sxi, syi, n, wrap, r as int, c as int + 1, p)
                                            && orig[p] && bit_at(sprite@, sxi, syi, wrap, p);
                                    assert(pw != p0i);
                                    assert(covered_upto(sxi, syi, n, wrap, r as int, c as int, pw));
                                }
                            }
                        }
                    }
                } else {
                    proof {
                        lemma_clipped_step(sxi, syi, n, r as int, c as int);
                        assert(hit_upto(orig, sprite@, sxi, syi, wrap, r as int, c as int + 1)
                            == hit_upto(orig, sprite@, sxi, syi, wrap, r as int, c as int)) by {
                            if hit_upto(orig, sprite@, sxi, syi, wrap, r as int, c as int) {
                                let pw = choose|p: int|
                                    0 <= p < 2048 && covered_upto(sxi, syi, n, wrap, r as int, c as int, p)
                                        && orig[p] && bit_at(sprite@, sxi, syi, wrap, p);
                                assert(covered_upto(sxi, syi, n, wrap, r as int, c as int + 1, pw));
                            }
                            if hit_upto(orig, sprite@, sxi, syi, wrap, r as int, c as int + 1) {
                                let pw = choose|p: int|
                                    0 <= p < 2048 && covered_upto(sxi, syi, n, wrap, r as int, c as int + 1, p)
                                        && orig[p] && bit_at(sprite@, sxi, syi, wrap, p);
                                assert(covered_upto(sxi, syi, n, wrap, r as int, c as int, pw));
                            }
                        }
                    }
                }
                c += 1;
            }
            proof {
                assert forall|p: int| 0 <= p < 2048 implies covered_upto(
                    sxi,
                    syi,
                    n,
                    wrap,
                    r as int,
                    8,
                    p,
                ) == covered_upto(sxi, syi, n, wrap, r as int + 1, 0, p) by {}
                assert(hit_upto(orig, sprite@, sxi, syi, wrap, r as int + 1, 0) == hit_upto(
                    orig,
                    sprite@,
                    sxi,
                    syi,
                    wrap,
                    r as int,
                    8,
                )) by {
                    if hit_upto(orig, sprite@, sxi, syi, wrap, r as int, 8) {
                        let pw = choose|p: int|
                            0 <= p < 2048 && covered_upto(sxi, syi, n, wrap, r as int, 8, p)
                                && orig[p] && bit_at(sprite@, sxi, syi, wrap, p);
                        assert(covered_upto(sxi, syi, n, wrap, r as int + 1, 0, pw));
                    }
                    if hit_upto(orig, sprite@, sxi, syi, wrap, r as int + 1, 0) {
                        let pw = choose|p: int|
                            0 <= p < 2048 && covered_upto(sxi, syi, n, wrap, r as int + 1, 0, p)
                                && orig[p] && bit_at(sprite@, sxi, syi, wrap, p);
                        assert(covered_upto(sxi, syi, n, wrap, r as int, 8, pw));
                    }
                }
            }
            r += 1;
        }
        proof {
            assert(self.pixels@ =~= screen_after_draw(orig, sprite@, sxi, syi, wrap));
            assert(collision == draw_collision(orig, sprite@, sxi, syi, wrap)) by {
                if hit_upto(orig, sprite@, sxi, syi, wrap, n, 0) {
                    let pw = choose|p: int|
                        0 <= p < 2048 && covered_upto(sxi, syi, n, wrap, n, 0, p) && orig[p]
                            && bit_at(sprite@, sxi, syi, wrap, p);
                    assert(covered(sxi, syi, n, wrap, pw));
                }
                if draw_collision(orig, sprite@, sxi, syi, wrap) {
                    let pw = choose|p: int|
                        0 <= p < 2048 && covered(sxi, syi, n, wrap, p) && orig[p] && bit_at(
                            sprite@,
                            sxi,
                            syi,
                            wrap,
                            p,
                        );
                    assert(covered_upto(sxi, syi, n, wrap, n, 0, pw));
                }
            }
        }
        collision
    }
}

/// Drawing the same sprite at the same spot twice restores every pixel:
/// XOR-composition is its own inverse.
pub proof fn lemma_draw_twice_restores(
    screen: Seq<bool>,
    sprite: Seq<u8>,
    sx: int,
    sy: int,
    wrap: bool,
)
    requires
        screen.len() == 2048,
    ensures
        screen_after_draw(screen_after_draw(screen, sprite, sx, sy, wrap), sprite, sx, sy, wrap)
            == screen,
{
    assert(screen_after_draw(screen_after_draw(screen, sprite, sx, sy, wrap), sprite, sx, sy, wrap)
        =~= screen);
}

/// After drawing onto a blank screen, repeating the same draw collides
/// exactly when the sprite shows any set pixel on screen.
pub proof fn lemma_second_draw_collides(sprite: Seq<u8>, sx: int, sy: int, wrap: bool)
    ensures
        draw_collision(
            screen_after_draw(blank_screen(), sprite, sx, sy, wrap),
            sprite,
            sx,
            sy,
            wrap,
        ) == exists|p: int|
            0 <= p < 2048 && covered(sx, sy, sprite.len() as int, wrap, p) && bit_at(
                sprite,
                sx,
                sy,
                wrap,
                p,
            ),
{
    let first = screen_after_draw(blank_screen(), sprite, sx, sy, wrap);
    let n = sprite.len() as int;
    if draw_collision(first, sprite, sx, sy, wrap) {
        let pw = choose|p: int|
            0 <= p < 2048 && covered(sx, sy, n, wrap, p) && first[p] && bit_at(sprite, sx, sy, wrap, p);
        assert(covered(sx, sy, n, wrap, pw) && bit_at(sprite, sx, sy, wrap, pw));
    }
    if exists|p: int| 0 <= p < 2048 && covered(sx, sy, n, wrap, p) && bit_at(sprite, sx, sy, wrap, p) {
        let pw = choose|p: int|
            0 <= p < 2048 && covered(sx, sy, n, wrap, p) && bit_at(sprite, sx, sy, wrap, p);
        assert(first[pw]);
        assert(0 <= pw < 2048 && covered(sx, sy, n, wrap, pw) && first[pw] && bit_at(sprite, sx, sy, wrap, pw));
    }
}

} // verus!
