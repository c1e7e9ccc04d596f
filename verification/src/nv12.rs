//! RGBA to NV12 conversion for the hardware encoder: a full-resolution luma
//! plane followed by interleaved U and V samples, one pair for each 2x2 block
//! taken from its top-left pixel (BT.601 studio range, integer arithmetic).
use vstd::prelude::*;
use vstd::arithmetic::div_mod::{
    lemma_fundamental_div_mod, lemma_fundamental_div_mod_converse, lemma_hoist_over_denominator,
};

verus! {

/// Luma of a pixel: `((66 r + 129 g + 25 b + 128) >> 8) + 16`.
pub open spec fn luma(r: int, g: int, b: int) -> int {
    (66 * r + 129 * g + 25 * b + 128) / 256 + 16
}

/// `x` clamped to 0..=255.
pub open spec fn clamp_byte(x: int) -> int {
    if x < 0 {
        0
    } else if x > 255 {
        255
    } else {
        x
    }
}

/// Blue-difference chroma: `((-38 r - 74 g + 112 b + 128) >> 8) + 128`, clamped.
pub open spec fn chroma_u(r: int, g: int, b: int) -> int {
    clamp_byte((-38 * r - 74 * g + 112 * b + 128) / 256 + 128)
}

/// Red-difference chroma: `((112 r - 94 g - 18 b + 128) >> 8) + 128`, clamped.
pub open spec fn chroma_v(r: int, g: int, b: int) -> int {
    clamp_byte((112 * r - 94 * g - 18 * b + 128) / 256 + 128)
}

/// Pixel `p` (in row-major order) is converted when its red, green and blue
/// bytes lie in the input.
pub open spec fn px_ready(rgba_len: int, p: int) -> bool {
    4 * p + 2 < rgba_len
}

pub open spec fn luma_at(rgba: Seq<u8>, p: int) -> u8 {
    luma(rgba[4 * p] as int, rgba[4 * p + 1] as int, rgba[4 * p + 2] as int) as u8
}

pub open spec fn u_at(rgba: Seq<u8>, p: int) -> u8 {
    chroma_u(rgba[4 * p] as int, rgba[4 * p + 1] as int, rgba[4 * p + 2] as int) as u8
}

pub open spec fn v_at(rgba: Seq<u8>, p: int) -> u8 {
    chroma_v(rgba[4 * p] as int, rgba[4 * p + 1] as int, rgba[4 * p + 2] as int) as u8
}

/// The pixel whose U sample lands at chroma index `u`: row `2 * (u / w)`,
/// column `u % w`.
pub open spec fn uv_source(w: int, u: int) -> int {
    2 * (u / w) * w + u % w
}

/// Whether a converted pixel among the first `cur` writes its U sample at
/// chroma index `u`: its row and column are even and it is in the image.
pub open spec fn uv_from(rgba_len: int, w: int, h: int, u: int, cur: int) -> bool {
    &&& w > 0
    &&& u >= 0
    &&& (u % w) % 2 == 0
    &&& 2 * (u / w) < h
    &&& uv_source(w, u) < cur
    &&& px_ready(rgba_len, uv_source(w, u))
}

/// The output after converting the first `cur` pixels into `old`. In the
/// chroma plane a pair is written only when both bytes fit; where a row's last
/// V sample and the next row's first U sample meet (odd widths), the U sample,
/// written later, is the one that stays.
pub open spec fn nv12_partial(rgba: Seq<u8>, w: int, h: int, old: Seq<u8>, cur: int) -> Seq<u8> {
    Seq::new(
        old.len(),
        |k: int|
            if k < w * h {
                if k < cur && px_ready(rgba.len() as int, k) {
                    luma_at(rgba, k)
                } else {
                    old[k]
                }
            } else {
                let u = k - w * h;
                let uvl = old.len() - w * h;
                if u + 1 < uvl && uv_from(rgba.len() as int, w, h, u, cur) {
                    u_at(rgba, uv_source(w, u))
                } else if uv_from(rgba.len() as int, w, h, u - 1, cur) {
                    v_at(rgba, uv_source(w, u - 1))
                } else {
                    old[k]
                }
            },
    )
}

/// The whole conversion of a `w` x `h` image into `old`.
pub open spec fn spec_rgba_to_nv12(rgba: Seq<u8>, w: int, h: int, old: Seq<u8>) -> Seq<u8> {
    nv12_partial(rgba, w, h, old, w * h)
}

proof fn lemma_uv_source(w: int, u: int)
    requires
        w > 0,
        u >= 0,
    ensures
        uv_source(w, u) / w == 2 * (u / w),
        uv_source(w, u) % w == u % w,
        uv_source(w, u) >= 0,
        u == (u / w) * w + u % w,
{
    lemma_fundamental_div_mod(u, w);
    assert(u / w >= 0 && u % w >= 0 && u % w < w) by {
        vstd::arithmetic::div_mod::lemma_mod_pos_bound(u, w);
        vstd::arithmetic::div_mod::lemma_div_pos_is_pos(u, w);
    }
    lemma_fundamental_div_mod_converse(uv_source(w, u), w, 2 * (u / w), u % w);
    assert(u == (u / w) * w + u % w) by (nonlinear_arith)
        requires
            u == w * (u / w) + u % w,
    ;
    assert(uv_source(w, u) >= 0) by (nonlinear_arith)
        requires
            u / w >= 0,
            u % w >= 0,
            w > 0,
    ;
}

proof fn lemma_luma_range(r: int, g: int, b: int)
    requires
        0 <= r <= 255,
        0 <= g <= 255,
        0 <= b <= 255,
    ensures
        16 <= luma(r, g, b) <= 235,
        16 <= (-38 * r - 74 * g + 112 * b + 128) / 256 + 128 <= 240,
        16 <= (112 * r - 94 * g - 18 * b + 128) / 256 + 128 <= 240,
        chroma_u(r, g, b) == (-38 * r - 74 * g + 112 * b + 128) / 256 + 128,
        chroma_v(r, g, b) == (112 * r - 94 * g - 18 * b + 128) / 256 + 128,
        chroma_u(r, g, b) == (112 * b + 128 + 32768 - (38 * r + 74 * g)) / 256,
        chroma_v(r, g, b) == (112 * r + 128 + 32768 - (94 * g + 18 * b)) / 256,
{
    let xu = -38 * r - 74 * g + 112 * b + 128;
    let xv = 112 * r - 94 * g - 18 * b + 128;
    lemma_hoist_over_denominator(xu, 128, 256);
    lemma_hoist_over_denominator(xv, 128, 256);
    assert(-28560 <= xu <= 28688);
    assert(-28432 <= xv <= 28688);
}

/// Every sample the conversion writes lies in the studio range: luma in
/// 16..=235, both chroma samples in 16..=240.
pub proof fn lemma_samples_in_studio_range(r: u8, g: u8, b: u8)
    ensures
        16 <= luma(r as int, g as int, b as int) <= 235,
        16 <= chroma_u(r as int, g as int, b as int) <= 240,
        16 <= chroma_v(r as int, g as int, b as int) <= 240,
{
    lemma_luma_range(r as int, g as int, b as int);
}

/// Converts a `width` x `height` RGBA image into `nv12`, which holds the luma
/// plane followed by the chroma plane (see [`spec_rgba_to_nv12`]).
pub fn rgba_to_nv12(rgba: &[u8], width: usize, height: usize, nv12: &mut [u8])
    requires
        width * height <= old(nv12)@.len(),
        width * height * 4 <= usize::MAX,
    ensures
        final(nv12)@ == spec_rgba_to_nv12(rgba@, width as int, height as int, old(nv12)@),
{
    let ghost old_buf = nv12@;
    let ghost w = width as int;
    let ghost h = height as int;
    let wh = width * height;
    let uv_len = nv12.len() - wh;
    let mut j: usize = 0;
    proof {
        assert(nv12@ =~= nv12_partial(rgba@, w, h, old_buf, 0));
    }
    while j < height
        invariant
            j <= height,
            w == width,
            h == height,
            wh == width * height,
            wh <= old_buf.len(),
            uv_len == old_buf.len() - wh,
            width * height * 4 <= usize::MAX,
            nv12@.len() == old_buf.len(),
            nv12@ == nv12_partial(rgba@, w, h, old_buf, j * w),
        decreases height - j,
    {
        let mut i: usize = 0;
        proof {
            assert(j * w + 0 == j * w);
        }
        while i < width
            invariant
                j < height,
                i <= width,
                w == width,
                h == height,
                wh == width * height,
                wh <= old_buf.len(),
                uv_len == old_buf.len() - wh,
                width * height * 4 <= usize::MAX,
                nv12@.len() == old_buf.len(),
                nv12@ == nv12_partial(rgba@, w, h, old_buf, j * w + i),
            decreases width - i,
        {
            proof {
                assert(j * w + i < w * h) by (nonlinear_arith)
                    requires
                        j < h,
                        i < w,
                ;
                assert(4 * (j * w + i) + 2 < 4 * (w * h)) by (nonlinear_arith)
                    requires
                        j * w + i < w * h,
                ;
                lemma_fundamental_div_mod_converse(j * w + i, w, j as int, i as int);
            }
            let p = j * width + i;
            let px = p * 4;
            let ghost prev = nv12@;
            let ghost cur = p as int;
            if px + 2 < rgba.len() {
                let r = rgba[px] as u32;
                let g = rgba[px + 1] as u32;
                let b = rgba[px + 2] as u32;
                proof {
                    lemma_luma_range(r as int, g as int, b as int);
                }
                let y_val = (66 * r + 129 * g + 25 * b + 128) / 256 + 16;
                nv12[p] = y_val as u8;
                if j % 2 == 0 && i % 2 == 0 {
                    proof {
                        assert((j / 2) * w + i <= j * w + i) by (nonlinear_arith)
                            requires
                                j % 2 == 0,
                                0 <= j,
                                w >= 0,
                        ;
                    }
                    let uv_idx = (j / 2) * width + i;
                    if uv_idx + 1 < uv_len {
                        let u_val = (112 * b + 128 + 32768 - (38 * r + 74 * g)) / 256;
                        let v_val = (112 * r + 128 + 32768 - (94 * g + 18 * b)) / 256;
                        nv12[wh + uv_idx] = u_val as u8;
                        nv12[wh + uv_idx + 1] = v_val as u8;
                    }
                }
            }
            proof {
                lemma_step(rgba@, w, h, old_buf, prev, nv12@, cur, j as int, i as int);
            }
            i = i + 1;
        }
        proof {
            assert(j * w + w == (j + 1) * w) by (nonlinear_arith);
        }
        j = j + 1;
    }
    proof {
        assert(j * w == w * h) by (nonlinear_arith)
            requires
                j == h,
        ;
    }
}

/// The pixel at row `j`, column `i` is the U source of chroma index `u`
/// exactly when its row is even and `u` is its chroma index.
proof fn lemma_src_is_cur(w: int, h: int, j: int, i: int, cur: int, u: int)
    requires
        w > 0,
        0 <= j,
        0 <= i < w,
        cur == j * w + i,
        cur / w == j,
        cur % w == i,
        u >= 0,
    ensures
        (uv_source(w, u) == cur) == (j % 2 == 0 && u == (j / 2) * w + i),
{
    lemma_uv_source(w, u);
    if uv_source(w, u) == cur {
        assert(j == 2 * (u / w));
        assert(i == u % w);
        assert(u == (j / 2) * w + i);
    }
    if j % 2 == 0 && u == (j / 2) * w + i {
        lemma_fundamental_div_mod_converse(u, w, j / 2, i);
        assert(2 * (j / 2) * w == j * w) by (nonlinear_arith)
            requires
                j % 2 == 0,
        ;
    }
}

/// One pixel's conversion turns the state after `cur` pixels into the state
/// after `cur + 1`.
proof fn lemma_step(
    rgba: Seq<u8>,
    w: int,
    h: int,
    old: Seq<u8>,
    prev: Seq<u8>,
    next: Seq<u8>,
    cur: int,
    j: int,
    i: int,
)
    requires
        0 <= j < h,
        0 <= i < w,
        cur == j * w + i,
        cur / w == j,
        cur % w == i,
        w * h <= old.len(),
        prev == nv12_partial(rgba, w, h, old, cur),
        next.len() == prev.len(),
        ({
            let ready = px_ready(rgba.len() as int, cur);
            let uidx = (j / 2) * w + i;
            let uvl = old.len() - w * h;
            let writes_uv = ready && j % 2 == 0 && i % 2 == 0 && uidx + 1 < uvl;
            forall|k: int|
                0 <= k < next.len() ==> #[trigger] next[k] == (if k == cur && ready {
                    luma_at(rgba, cur)
                } else if writes_uv && k == w * h + uidx {
                    u_at(rgba, cur)
                } else if writes_uv && k == w * h + uidx + 1 {
                    v_at(rgba, cur)
                } else {
                    prev[k]
                })
        }),
    ensures
        next == nv12_partial(rgba, w, h, old, cur + 1),
{
    let ready = px_ready(rgba.len() as int, cur);
    let uidx = (j / 2) * w + i;
    let uvl = old.len() - w * h;
    let target = nv12_partial(rgba, w, h, old, cur + 1);
    assert(w > 0);
    assert(cur < w * h) by (nonlinear_arith)
        requires
            cur == j * w + i,
            0 <= j < h,
            0 <= i < w,
    ;
    assert forall|k: int| 0 <= k < next.len() implies next[k] == target[k] by {
        if k < w * h {
        } else {
            let u = k - w * h;
            if u >= 0 {
                lemma_uv_source(w, u);
                lemma_src_is_cur(w, h, j, i, cur, u);
            }
            if u - 1 >= 0 {
                lemma_uv_source(w, u - 1);
                lemma_src_is_cur(w, h, j, i, cur, u - 1);
            }
            if ready && j % 2 == 0 && i % 2 == 0 && u == uidx + 1 && uidx + 1 < uvl {
                // The U sample at `u` comes from a later pixel, if from any.
                if (u % w) % 2 == 0 && u / w * 2 < h {
                    lemma_fundamental_div_mod(u, w);
                    if i + 1 < w {
                        lemma_fundamental_div_mod_converse(u, w, j / 2, i + 1);
                    } else {
                        assert(u == (j / 2 + 1) * w + 0) by (nonlinear_arith)
                            requires
                                u == (j / 2) * w + i + 1,
                                i + 1 == w,
                        ;
                        lemma_fundamental_div_mod_converse(u, w, j / 2 + 1, 0);
                        assert(uv_source(w, u) == 2 * (j / 2 + 1) * w);
                        assert(2 * (j / 2 + 1) * w > cur) by (nonlinear_arith)
                            requires
                                cur == j * w + i,
                                i < w,
                                j % 2 == 0,
                                w > 0,
                        ;
                    }
                }
            }
        }
    }
    assert(next =~= target);
}

} // verus!
