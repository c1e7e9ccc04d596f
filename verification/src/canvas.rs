//! Filled and outlined rectangles in a row-major 32-bit pixel buffer,
//! clipped to the image.
use vstd::prelude::*;
use vstd::arithmetic::div_mod::{lemma_fundamental_div_mod, lemma_fundamental_div_mod_converse, lemma_mod_pos_bound};
use crate::font::on_screen;

verus! {

/// Whether buffer index `k` of a `bw` x `bh` image lies in the rectangle at
/// (`x`, `y`) of size `w` x `h`.
pub open spec fn in_box(k: int, bw: int, bh: int, x: int, y: int, w: int, h: int) -> bool {
    on_screen(k, bw, bh) && x <= k % bw < x + w && y <= k / bw < y + h
}

/// `buf` with every pixel for which `hit` holds set to `color`.
pub open spec fn painted(buf: Seq<u32>, hit: spec_fn(int) -> bool, color: u32) -> Seq<u32> {
    Seq::new(buf.len(), |k: int| if hit(k) { color } else { buf[k] })
}

proof fn lemma_index(px: int, py: int, w: int, h: int)
    requires
        0 <= px < w,
        0 <= py < h,
    ensures
        (py * w + px) / w == py,
        (py * w + px) % w == px,
        0 <= py * w + px < w * h,
{
    lemma_fundamental_div_mod_converse(py * w + px, w, py, px);
    assert(0 <= py * w + px < w * h) by (nonlinear_arith)
        requires
            0 <= px < w,
            0 <= py < h,
    ;
}

/// Fills the rectangle at (`x`, `y`) of size `w` x `h`, clipped to the image.
pub fn fill_rect(
    buffer: &mut [u32],
    buf_w: usize,
    buf_h: usize,
    x: usize,
    y: usize,
    w: usize,
    h: usize,
    color: u32,
)
    requires
        buf_w * buf_h <= old(buffer)@.len(),
        w > 0 ==> x + (w - 1) <= usize::MAX,
    ensures
        final(buffer)@ == painted(
            old(buffer)@,
            |k: int| in_box(k, buf_w as int, buf_h as int, x as int, y as int, w as int, h as int),
            color,
        ),
{
    let ghost old_buf = buffer@;
    let ghost hit = |k: int| in_box(k, buf_w as int, buf_h as int, x as int, y as int, w as int, h as int);
    if buf_w == 0 || x >= buf_w || y >= buf_h || w == 0 || h == 0 {
        proof {
            assert forall|k: int| 0 <= k < old_buf.len() implies !#[trigger] hit(k) by {
                if buf_w > 0 && 0 <= k {
                    lemma_mod_pos_bound(k, buf_w as int);
                }
            }
            assert(buffer@ =~= painted(old_buf, hit, color));
        }
        return;
    }
    let x_end = if w < buf_w - x {
        x + w
    } else {
        buf_w
    };
    let y_end = if h < buf_h - y {
        y + h
    } else {
        buf_h
    };
    let mut py = y;
    while py < y_end
        invariant
            buf_w > 0,
            buf_w * buf_h <= old_buf.len(),
            x < x_end <= buf_w,
            x_end == buf_w || x_end == x + w,
            x_end <= x + w,
            y <= py,
            y_end <= buf_h,
            y_end == buf_h || y_end == y + h,
            y_end <= y + h,
            hit == (|k: int| in_box(k, buf_w as int, buf_h as int, x as int, y as int, w as int, h as int)),
            buffer@.len() == old_buf.len(),
            forall|k: int|
                0 <= k < old_buf.len() ==> #[trigger] buffer@[k] == (if hit(k) && k / (buf_w as int)
                    < py {
                    color
                } else {
                    old_buf[k]
                }),
        decreases y_end - py,
    {
        let mut px = x;
        while px < x_end
            invariant
                buf_w > 0,
                buf_w * buf_h <= old_buf.len(),
                x <= px,
                x < x_end <= buf_w,
                x_end == buf_w || x_end == x + w,
                x_end <= x + w,
                y <= py < y_end,
                y_end <= buf_h,
                y_end <= y + h,
                hit == (|k: int| in_box(k, buf_w as int, buf_h as int, x as int, y as int, w as int, h as int)),
                buffer@.len() == old_buf.len(),
                forall|k: int|
                    0 <= k < old_buf.len() ==> #[trigger] buffer@[k] == (if hit(k) && (k / (
                    buf_w as int) < py || (k / (buf_w as int) == py && k % (buf_w as int) < px)) {
                        color
                    } else {
                        old_buf[k]
                    }),
            decreases x_end - px,
        {
            proof {
                lemma_index(px as int, py as int, buf_w as int, buf_h as int);
            }
            let blen = buffer.len();
            assert(py * buf_w + px < blen);
            let idx = py * buf_w + px;
            buffer[idx] = color;
            proof {
                assert forall|k: int| 0 <= k < old_buf.len() implies #[trigger] buffer@[k] == (if hit(
                    k,
                ) && (k / (buf_w as int) < py || (k / (buf_w as int) == py && k % (buf_w as int)
                    < px + 1)) {
                    color
                } else {
                    old_buf[k]
                }) by {
                    if k == idx {
                        assert(k / (buf_w as int) == py);
                        assert(k % (buf_w as int) == px);
                        assert(hit(k));
                    } else if k / (buf_w as int) == py && k % (buf_w as int) == px {
                        lemma_fundamental_div_mod(k, buf_w as int);
                        let q = k / (buf_w as int);
                        let r = k % (buf_w as int);
                        assert(k == py * buf_w + px) by (nonlinear_arith)
                            requires
                                k == (buf_w as int) * q + r,
                                q == py,
                                r == px,
                        ;
                    }
                }
            }
            px = px + 1;
        }
        proof {
            assert forall|k: int| 0 <= k < old_buf.len() implies #[trigger] buffer@[k] == (if hit(k)
                && k / (buf_w as int) < py + 1 {
                color
            } else {
                old_buf[k]
            }) by {
                if 0 <= k {
                    lemma_mod_pos_bound(k, buf_w as int);
                }
            }
        }
        py = py + 1;
    }
    proof {
        assert forall|k: int| 0 <= k < old_buf.len() implies #[trigger] buffer@[k] == (if hit(k) {
            color
        } else {
            old_buf[k]
        }) by {
            if hit(k) {
                assert(k / (buf_w as int) < py);
            }
        }
        assert(buffer@ =~= painted(old_buf, hit, color));
    }
}

/// Whether index `k` lies on the one-pixel border of the rectangle.
pub open spec fn on_outline(k: int, bw: int, bh: int, x: int, y: int, w: int, h: int) -> bool {
    w > 0 && h > 0 && (in_box(k, bw, bh, x, y, w, 1) || in_box(k, bw, bh, x, y + h - 1, w, 1)
        || in_box(k, bw, bh, x, y, 1, h) || in_box(k, bw, bh, x + w - 1, y, 1, h))
}

/// Draws the one-pixel border of the rectangle, clipped to the image.
pub fn draw_rect_outline(
    buffer: &mut [u32],
    buf_w: usize,
    buf_h: usize,
    x: usize,
    y: usize,
    w: usize,
    h: usize,
    color: u32,
)
    requires
        buf_w * buf_h <= old(buffer)@.len(),
        w > 0 && h > 0 ==> x + (w - 1) <= usize::MAX && y + (h - 1) <= usize::MAX,
    ensures
        final(buffer)@ == painted(
            old(buffer)@,
            |k: int| on_outline(k, buf_w as int, buf_h as int, x as int, y as int, w as int, h as int),
            color,
        ),
{
    let ghost old_buf = buffer@;
    if w == 0 || h == 0 {
        proof {
            assert(buffer@ =~= painted(
                old_buf,
                |k: int| on_outline(k, buf_w as int, buf_h as int, x as int, y as int, w as int, h as int),
                color,
            ));
        }
        return;
    }
    fill_rect(buffer, buf_w, buf_h, x, y, w, 1, color);
    let ghost b1 = buffer@;
    fill_rect(buffer, buf_w, buf_h, x, y + (h - 1), w, 1, color);
    let ghost b2 = buffer@;
    fill_rect(buffer, buf_w, buf_h, x, y, 1, h, color);
    let ghost b3 = buffer@;
    fill_rect(buffer, buf_w, buf_h, x + (w - 1), y, 1, h, color);
    proof {
        assert(buffer@ =~= painted(
            old_buf,
            |k: int| on_outline(k, buf_w as int, buf_h as int, x as int, y as int, w as int, h as int),
            color,
        ));
    }
}

/// Whether index `k` lies in the rectangle with its corners cut off by `r`:
/// the middle band, and the left and right bands between the cuts.
pub open spec fn in_rounded(k: int, bw: int, bh: int, x: int, y: int, w: int, h: int, r: int) -> bool {
    in_box(k, bw, bh, x + r, y, w - 2 * r, h) || in_box(k, bw, bh, x, y + r, r, h - 2 * r) || in_box(
        k,
        bw,
        bh,
        x + w - r,
        y + r,
        r,
        h - 2 * r,
    )
}

/// The corner cut: the radius, at most half the width and half the height.
pub open spec fn corner(radius: int, w: int, h: int) -> int {
    let a = if radius < w / 2 {
        radius
    } else {
        w / 2
    };
    if a < h / 2 {
        a
    } else {
        h / 2
    }
}

/// Fills the rectangle with its corners cut by `radius`, clipped to the image.
pub fn fill_rounded_rect(
    buffer: &mut [u32],
    buf_w: usize,
    buf_h: usize,
    x: usize,
    y: usize,
    w: usize,
    h: usize,
    radius: usize,
    color: u32,
)
    requires
        buf_w * buf_h <= old(buffer)@.len(),
        x + w <= usize::MAX,
        y + h <= usize::MAX,
    ensures
        final(buffer)@ == painted(
            old(buffer)@,
            |k: int|
                in_rounded(
                    k,
                    buf_w as int,
                    buf_h as int,
                    x as int,
                    y as int,
                    w as int,
                    h as int,
                    corner(radius as int, w as int, h as int),
                ),
            color,
        ),
{
    let ghost old_buf = buffer@;
    let a = if radius < w / 2 {
        radius
    } else {
        w / 2
    };
    let r = if a < h / 2 {
        a
    } else {
        h / 2
    };
    fill_rect(buffer, buf_w, buf_h, x + r, y, w - 2 * r, h, color);
    fill_rect(buffer, buf_w, buf_h, x, y + r, r, h - 2 * r, color);
    fill_rect(buffer, buf_w, buf_h, x + w - r, y + r, r, h - 2 * r, color);
    proof {
        assert(buffer@ =~= painted(
            old_buf,
            |k: int|
                in_rounded(
                    k,
                    buf_w as int,
                    buf_h as int,
                    x as int,
                    y as int,
                    w as int,
                    h as int,
                    corner(radius as int, w as int, h as int),
                ),
            color,
        ));
    }
}

} // verus!
