//! The 8x13 bitmap font of the agent window, drawn at any integer scale into
//! a row-major 32-bit pixel buffer.
use vstd::prelude::*;
use vstd::arithmetic::div_mod::{lemma_fundamental_div_mod_converse, lemma_multiply_divide_lt};
use vstd::string::StringSliceAdditionalSpecFns;
use crate::text::chars_of;

verus! {

pub const FONT_WIDTH: usize = 8;

pub const FONT_HEIGHT: usize = 13;

/// Number of glyphs: the printable ASCII characters from space to `~`.
pub const GLYPH_COUNT: usize = 95;

/// A bitmap font: thirteen row bytes per glyph, the leftmost pixel in the high
/// bit, glyphs in ASCII order from space.
pub struct Font {
    rows: Vec<u8>,
}

impl Font {
    pub closed spec fn rows(&self) -> Seq<u8> {
        self.rows@
    }

    pub closed spec fn wf(&self) -> bool {
        self.rows@.len() == GLYPH_COUNT * FONT_HEIGHT
    }

    /// A font from its row bytes; `None` unless there are thirteen per glyph.
    pub fn new(rows: Vec<u8>) -> (r: Option<Font>)
        ensures
            r is Some <==> rows@.len() == GLYPH_COUNT * FONT_HEIGHT,
            r matches Some(f) ==> f.wf() && f.rows() == rows@,
    {
        if rows.len() == GLYPH_COUNT * FONT_HEIGHT {
            Some(Font { rows })
        } else {
            None
        }
    }
}

/// Whether the glyph of `c` sets the pixel at `row`, `col`; characters
/// outside space..`~` have no pixels.
pub open spec fn glyph_bit(rows: Seq<u8>, c: char, row: int, col: int) -> bool {
    let a = c as u32 as int;
    &&& 32 <= a <= 126
    &&& 0 <= row < 13
    &&& 0 <= col < 8
    &&& (rows[(a - 32) * 13 + row] & (0x80u8 >> (col as u8))) != 0
}

/// Whether `c`, drawn with its top-left corner at (`x`, `y`) and every glyph
/// pixel as a `scale` x `scale` square, covers the pixel (`px`, `py`).
pub open spec fn char_covers(
    rows: Seq<u8>,
    c: char,
    x: int,
    y: int,
    scale: int,
    px: int,
    py: int,
) -> bool {
    &&& scale > 0
    &&& x <= px < x + 8 * scale
    &&& y <= py < y + 13 * scale
    &&& glyph_bit(rows, c, (py - y) / scale, (px - x) / scale)
}

/// Whether buffer index `k` is a pixel of a `w` x `h` image.
pub open spec fn on_screen(k: int, w: int, h: int) -> bool {
    w > 0 && 0 <= k && k / w < h
}

proof fn lemma_index_of(px: int, py: int, w: int)
    requires
        0 <= px < w,
        0 <= py,
    ensures
        (py * w + px) / w == py,
        (py * w + px) % w == px,
        0 <= py * w + px,
{
    lemma_fundamental_div_mod_converse(py * w + px, w, py, px);
    assert(0 <= py * w) by (nonlinear_arith)
        requires
            0 <= py,
            0 < w,
    ;
}

proof fn lemma_index_bound(px: int, py: int, w: int, h: int)
    requires
        0 <= px < w,
        0 <= py < h,
    ensures
        py * w + px < w * h,
{
    assert(py * w + px < w * h) by (nonlinear_arith)
        requires
            0 <= px < w,
            0 <= py < h,
    ;
}

/// Draws `c` with its top-left corner at (`x`, `y`), clipped to the
/// `buf_w` x `buf_h` image in `buffer`.
pub fn draw_char(
    font: &Font,
    buffer: &mut [u32],
    buf_w: usize,
    buf_h: usize,
    x: usize,
    y: usize,
    c: char,
    color: u32,
    scale: usize,
)
    requires
        font.wf(),
        32 <= c as u32 <= 126 ==> buf_w * buf_h <= old(buffer)@.len(),
        32 <= c as u32 <= 126 ==> x + 8 * scale <= usize::MAX,
        32 <= c as u32 <= 126 ==> y + 13 * scale <= usize::MAX,
    ensures
        final(buffer)@.len() == old(buffer)@.len(),
        !(32 <= c as u32 <= 126) ==> final(buffer)@ == old(buffer)@,
        final(buffer)@ == char_drawn(
            font.rows(),
            old(buffer)@,
            buf_w as int,
            buf_h as int,
            x as int,
            y as int,
            c,
            color,
            scale as int,
        ),
        forall|k: int|
            0 <= k < old(buffer)@.len() ==> #[trigger] final(buffer)@[k] == (if on_screen(
                k,
                (buf_w as int),
                buf_h as int,
            ) && char_covers(
                font.rows(),
                c,
                x as int,
                y as int,
                scale as int,
                k % (buf_w as int),
                k / (buf_w as int),
            ) {
                color
            } else {
                old(buffer)@[k]
            }),
{
    let ghost old_buf = buffer@;
    let code = c as u32;
    if scale == 0 || code < 32 || code > 126 || buf_w == 0 {
        assert(buffer@ =~= char_drawn(
            font.rows(),
            old_buf,
            buf_w as int,
            buf_h as int,
            x as int,
            y as int,
            c,
            color,
            scale as int,
        ));
        return;
    }
    let gi = (code - 32) as usize;
    let x_end = if x + 8 * scale < buf_w {
        x + 8 * scale
    } else {
        buf_w
    };
    let y_end = if y + 13 * scale < buf_h {
        y + 13 * scale
    } else {
        buf_h
    };
    let ghost rows = font.rows();
    let mut py = y;
    while py < y_end
        invariant
            font.wf(),
            rows == font.rows(),
            buf_w > 0,
            scale > 0,
            32 <= code <= 126,
            gi == code - 32,
            code == c as u32,
            buf_w * buf_h <= old_buf.len(),
            x_end <= buf_w,
            x_end <= x + 8 * scale,
            x_end == buf_w || x_end == x + 8 * scale,
            y_end == buf_h || y_end == y + 13 * scale,
            y_end <= buf_h,
            y_end <= y + 13 * scale,
            y <= py,
            buffer@.len() == old_buf.len(),
            forall|k: int|
                0 <= k < old_buf.len() ==> #[trigger] buffer@[k] == (if on_screen(
                    k,
                    (buf_w as int),
                    buf_h as int,
                ) && char_covers(
                    rows,
                    c,
                    x as int,
                    y as int,
                    scale as int,
                    k % (buf_w as int),
                    k / (buf_w as int),
                ) && k / (buf_w as int) < py {
                    color
                } else {
                    old_buf[k]
                }),
        decreases y_end - py,
    {
        let row = (py - y) / scale;
        proof {
            lemma_multiply_divide_lt((py - y) as int, scale as int, 13);
        }
        let bits = font.rows[gi * 13 + row];
        let mut px = x;
        while px < x_end
            invariant
                font.wf(),
                rows == font.rows(),
                buf_w > 0,
                scale > 0,
                32 <= code <= 126,
                gi == code - 32,
                code == c as u32,
                buf_w * buf_h <= old_buf.len(),
                x_end <= buf_w,
                x_end <= x + 8 * scale,
                x_end == buf_w || x_end == x + 8 * scale,
                y <= py < y_end,
                y_end <= buf_h,
                y_end <= y + 13 * scale,
                row == (py - y) / scale as int,
                row < 13,
                bits == rows[gi * 13 + row],
                x <= px,
                buffer@.len() == old_buf.len(),
                forall|k: int|
                    0 <= k < old_buf.len() ==> #[trigger] buffer@[k] == (if on_screen(
                        k,
                        (buf_w as int),
                        buf_h as int,
                    ) && char_covers(
                        rows,
                        c,
                        x as int,
                        y as int,
                        scale as int,
                        k % (buf_w as int),
                        k / (buf_w as int),
                    ) && ((k / buf_w as int) < py || (k / (buf_w as int) == py && k % (buf_w as int)
                        < px)) {
                        color
                    } else {
                        old_buf[k]
                    }),
            decreases x_end - px,
        {
            let col = (px - x) / scale;
            proof {
                lemma_multiply_divide_lt((px - x) as int, scale as int, 8);
                lemma_index_of(px as int, py as int, buf_w as int);
                lemma_index_bound(px as int, py as int, (buf_w as int), buf_h as int);
            }
            let blen = buffer.len();
            assert(py * buf_w + px < blen);
            let idx = py * buf_w + px;
            let ghost prev = buffer@;
            if (bits & (0x80u8 >> (col as u8))) != 0 {
                buffer[idx] = color;
            }
            proof {
                assert(glyph_bit(rows, c, row as int, col as int) == ((bits & (0x80u8 >> (col as u8))) != 0));
                assert forall|k: int| 0 <= k < old_buf.len() implies #[trigger] buffer@[k] == (if on_screen(
                    k,
                    (buf_w as int),
                    buf_h as int,
                ) && char_covers(
                    rows,
                    c,
                    x as int,
                    y as int,
                    scale as int,
                    k % (buf_w as int),
                    k / (buf_w as int),
                ) && ((k / buf_w as int) < py || (k / (buf_w as int) == py && k % (buf_w as int)
                    < px + 1)) {
                    color
                } else {
                    old_buf[k]
                }) by {
                    assert(prev[k] == buffer@[k] || k == idx);
                    if k == idx {
                        assert(k / (buf_w as int) == py);
                        assert(k % (buf_w as int) == px);
                    } else {
                        if k / (buf_w as int) == py && k % (buf_w as int) == px {
                            assert(k == (k / buf_w as int) * buf_w + k % buf_w as int) by {
                                vstd::arithmetic::div_mod::lemma_fundamental_div_mod(
                                    k,
                                    (buf_w as int),
                                );
                            }
                        }
                    }
                }
            }
            px = px + 1;
        }
        proof {
            assert forall|k: int| 0 <= k < old_buf.len() implies #[trigger] buffer@[k] == (if on_screen(
                k,
                (buf_w as int),
                buf_h as int,
            ) && char_covers(
                rows,
                c,
                x as int,
                y as int,
                scale as int,
                k % (buf_w as int),
                k / (buf_w as int),
            ) && k / (buf_w as int) < py + 1 {
                color
            } else {
                old_buf[k]
            }) by {
                if k / (buf_w as int) == py {
                    vstd::arithmetic::div_mod::lemma_mod_pos_bound(k, buf_w as int);
                }
            }
        }
        py = py + 1;
    }
    proof {
        assert forall|k: int| 0 <= k < old_buf.len() implies #[trigger] buffer@[k] == (if on_screen(
            k,
            (buf_w as int),
            buf_h as int,
        ) && char_covers(
            rows,
            c,
            x as int,
            y as int,
            scale as int,
            k % (buf_w as int),
            k / (buf_w as int),
        ) {
            color
        } else {
            old_buf[k]
        }) by {
            if on_screen(k, (buf_w as int), buf_h as int) && char_covers(
                rows,
                c,
                x as int,
                y as int,
                scale as int,
                k % (buf_w as int),
                k / (buf_w as int),
            ) {
                assert(k / (buf_w as int) < py);
            }
        }
        assert(buffer@ =~= char_drawn(
            rows,
            old_buf,
            buf_w as int,
            buf_h as int,
            x as int,
            y as int,
            c,
            color,
            scale as int,
        ));
    }
}

/// Where the pen stands before the `i`-th character of `text` drawn from
/// (`x`, `y`): each character advances it by one glyph width, a newline takes
/// it back to `x` and down by 15 rows (13 rows and 2 of spacing), all scaled.
pub open spec fn pen(text: Seq<char>, x: int, y: int, scale: int, i: int) -> (int, int)
    decreases i,
{
    if i <= 0 {
        (x, y)
    } else {
        let p = pen(text, x, y, scale, i - 1);
        if text[i - 1] == '\n' {
            (x, p.1 + 15 * scale)
        } else {
            (p.0 + 8 * scale, p.1)
        }
    }
}

/// Whether one of the first `n` characters of `text`, drawn from (`x`, `y`),
/// covers the pixel (`px`, `py`).
pub open spec fn text_covers(
    rows: Seq<u8>,
    text: Seq<char>,
    x: int,
    y: int,
    scale: int,
    n: int,
    px: int,
    py: int,
) -> bool {
    exists|j: int|
        0 <= j < n && #[trigger] char_covers(
            rows,
            text[j],
            pen(text, x, y, scale, j).0,
            pen(text, x, y, scale, j).1,
            scale,
            px,
            py,
        )
}

/// `buf`, a `w` x `h` image, after drawing `c` at (`x`, `y`): the pixels the
/// glyph covers take `color`, the rest keep theirs.
pub open spec fn char_drawn(
    rows: Seq<u8>,
    buf: Seq<u32>,
    w: int,
    h: int,
    x: int,
    y: int,
    c: char,
    color: u32,
    scale: int,
) -> Seq<u32> {
    Seq::new(
        buf.len(),
        |k: int|
            if on_screen(k, w, h) && char_covers(rows, c, x, y, scale, k % w, k / w) {
                color
            } else {
                buf[k]
            },
    )
}

/// `buf` after drawing the first `n` characters of `text` one after another,
/// each at its pen position.
pub open spec fn chars_drawn(
    rows: Seq<u8>,
    buf: Seq<u32>,
    w: int,
    h: int,
    text: Seq<char>,
    x: int,
    y: int,
    color: u32,
    scale: int,
    n: nat,
) -> Seq<u32>
    decreases n,
{
    if n == 0 {
        buf
    } else {
        let p = pen(text, x, y, scale, n - 1);
        char_drawn(
            rows,
            chars_drawn(rows, buf, w, h, text, x, y, color, scale, (n - 1) as nat),
            w,
            h,
            p.0,
            p.1,
            text[n - 1],
            color,
            scale,
        )
    }
}

/// Drawing the characters of a text one after another, each where the pen
/// stands, colours exactly the pixels one of them covers.
pub proof fn lemma_chars_drawn_cover(
    rows: Seq<u8>,
    buf: Seq<u32>,
    w: int,
    h: int,
    text: Seq<char>,
    x: int,
    y: int,
    color: u32,
    scale: int,
    n: nat,
)
    requires
        n <= text.len(),
    ensures
        chars_drawn(rows, buf, w, h, text, x, y, color, scale, n) =~= Seq::new(
            buf.len(),
            |k: int|
                if on_screen(k, w, h) && text_covers(rows, text, x, y, scale, n as int, k % w, k / w) {
                    color
                } else {
                    buf[k]
                },
        ),
    decreases n,
{
    if n > 0 {
        let m = (n - 1) as nat;
        lemma_chars_drawn_cover(rows, buf, w, h, text, x, y, color, scale, m);
        let p = pen(text, x, y, scale, m as int);
        assert forall|k: int| 0 <= k < buf.len() implies #[trigger] chars_drawn(
            rows,
            buf,
            w,
            h,
            text,
            x,
            y,
            color,
            scale,
            n,
        )[k] == (if on_screen(k, w, h) && text_covers(rows, text, x, y, scale, n as int, k % w, k / w) {
            color
        } else {
            buf[k]
        }) by {
            let px = k % w;
            let py = k / w;
            if char_covers(rows, text[m as int], p.0, p.1, scale, px, py) {
                assert(text_covers(rows, text, x, y, scale, n as int, px, py));
            }
            if text_covers(rows, text, x, y, scale, n as int, px, py) {
                let j = choose|j: int|
                    0 <= j < n && #[trigger] char_covers(
                        rows,
                        text[j],
                        pen(text, x, y, scale, j).0,
                        pen(text, x, y, scale, j).1,
                        scale,
                        px,
                        py,
                    );
                if j < m {
                    assert(text_covers(rows, text, x, y, scale, m as int, px, py));
                }
            }
            if text_covers(rows, text, x, y, scale, m as int, px, py) {
                let j = choose|j: int|
                    0 <= j < m && #[trigger] char_covers(
                        rows,
                        text[j],
                        pen(text, x, y, scale, j).0,
                        pen(text, x, y, scale, j).1,
                        scale,
                        px,
                        py,
                    );
                assert(text_covers(rows, text, x, y, scale, n as int, px, py));
            }
        }
    }
}

proof fn lemma_pen_bounds(text: Seq<char>, x: int, y: int, scale: int, i: int)
    requires
        0 <= i <= text.len(),
        scale >= 0,
    ensures
        x <= pen(text, x, y, scale, i).0 <= x + 8 * scale * i,
        y <= pen(text, x, y, scale, i).1 <= y + 15 * scale * i,
    decreases i,
{
    if i > 0 {
        lemma_pen_bounds(text, x, y, scale, i - 1);
        assert(8 * scale * (i - 1) + 8 * scale == 8 * scale * i) by (nonlinear_arith);
        assert(15 * scale * (i - 1) + 15 * scale == 15 * scale * i) by (nonlinear_arith);
        assert(0 <= 8 * scale * (i - 1)) by (nonlinear_arith)
            requires
                scale >= 0,
                i >= 1,
        ;
    }
}

/// Draws `text` from (`x`, `y`): characters side by side, a newline starting
/// a new line under the first.
pub fn draw_text(
    font: &Font,
    buffer: &mut [u32],
    buf_w: usize,
    buf_h: usize,
    x: usize,
    y: usize,
    text: &str,
    color: u32,
    scale: usize,
)
    requires
        font.wf(),
        buf_w * buf_h <= old(buffer)@.len(),
        x + 8 * scale * (text@.len() + 1) <= usize::MAX,
        y + 15 * scale * (text@.len() + 1) <= usize::MAX,
    ensures
        final(buffer)@.len() == old(buffer)@.len(),
        forall|k: int|
            0 <= k < old(buffer)@.len() ==> #[trigger] final(buffer)@[k] == (if on_screen(
                k,
                buf_w as int,
                buf_h as int,
            ) && text_covers(
                font.rows(),
                text@,
                x as int,
                y as int,
                scale as int,
                text@.len() as int,
                k % (buf_w as int),
                k / (buf_w as int),
            ) {
                color
            } else {
                old(buffer)@[k]
            }),
        final(buffer)@ == chars_drawn(
            font.rows(),
            old(buffer)@,
            buf_w as int,
            buf_h as int,
            text@,
            x as int,
            y as int,
            color,
            scale as int,
            text@.len(),
        ),
{
    let ghost old_buf = buffer@;
    let ghost rows = font.rows();
    let chars = chars_of(text);
    let ghost t = text@;
    let n = chars.len();
    proof {
        assert(8 * scale * (n + 1) == 8 * scale * n + 8 * scale) by (nonlinear_arith);
        assert(15 * scale * (n + 1) == 15 * scale * n + 15 * scale) by (nonlinear_arith);
        assert(0 <= 8 * scale * n) by (nonlinear_arith);
        assert(0 <= 15 * scale * n) by (nonlinear_arith);
    }
    let char_w = 8 * scale;
    let line_h = 15 * scale;
    let mut cur_x = x;
    let mut cur_y = y;
    let mut i: usize = 0;
    while i < n
        invariant
            font.wf(),
            rows == font.rows(),
            chars@ == t,
            t == text@,
            n == t.len(),
            char_w == 8 * scale,
            line_h == 15 * scale,
            i <= n,
            buf_w * buf_h <= old_buf.len(),
            x + 8 * scale * (n + 1) <= usize::MAX,
            y + 15 * scale * (n + 1) <= usize::MAX,
            cur_x == pen(t, x as int, y as int, scale as int, i as int).0,
            cur_y == pen(t, x as int, y as int, scale as int, i as int).1,
            buffer@.len() == old_buf.len(),
            forall|k: int|
                0 <= k < old_buf.len() ==> #[trigger] buffer@[k] == (if on_screen(
                    k,
                    buf_w as int,
                    buf_h as int,
                ) && text_covers(
                    rows,
                    t,
                    x as int,
                    y as int,
                    scale as int,
                    i as int,
                    k % (buf_w as int),
                    k / (buf_w as int),
                ) {
                    color
                } else {
                    old_buf[k]
                }),
        decreases n - i,
    {
        proof {
            lemma_pen_bounds(t, x as int, y as int, scale as int, i as int);
            assert(8 * scale * i + 8 * scale <= 8 * scale * n + 8 * scale) by (nonlinear_arith)
                requires
                    i < n,
            ;
            assert(15 * scale * i + 15 * scale <= 15 * scale * n + 15 * scale) by (nonlinear_arith)
                requires
                    i < n,
            ;
            assert(8 * scale * (n + 1) == 8 * scale * n + 8 * scale) by (nonlinear_arith);
            assert(15 * scale * (n + 1) == 15 * scale * n + 15 * scale) by (nonlinear_arith);
        }
        let c = chars[i];
        let ghost prev = buffer@;
        if c == '\n' {
            cur_x = x;
            cur_y = cur_y + line_h;
        } else {
            draw_char(font, buffer, buf_w, buf_h, cur_x, cur_y, c, color, scale);
            cur_x = cur_x + char_w;
        }
        proof {
            let p = pen(t, x as int, y as int, scale as int, i as int);
            assert forall|k: int| 0 <= k < old_buf.len() implies #[trigger] buffer@[k] == (if on_screen(
                k,
                buf_w as int,
                buf_h as int,
            ) && text_covers(
                rows,
                t,
                x as int,
                y as int,
                scale as int,
                i + 1,
                k % (buf_w as int),
                k / (buf_w as int),
            ) {
                color
            } else {
                old_buf[k]
            }) by {
                let px = k % (buf_w as int);
                let py = k / (buf_w as int);
                let now = char_covers(rows, t[i as int], p.0, p.1, scale as int, px, py);
                if now {
                    assert(text_covers(rows, t, x as int, y as int, scale as int, i + 1, px, py));
                }
                if text_covers(rows, t, x as int, y as int, scale as int, i + 1, px, py) {
                    let j = choose|j: int|
                        0 <= j < i + 1 && #[trigger] char_covers(
                            rows,
                            t[j],
                            pen(t, x as int, y as int, scale as int, j).0,
                            pen(t, x as int, y as int, scale as int, j).1,
                            scale as int,
                            px,
                            py,
                        );
                    if j < i {
                        assert(text_covers(rows, t, x as int, y as int, scale as int, i as int, px, py));
                    }
                }
                if text_covers(rows, t, x as int, y as int, scale as int, i as int, px, py) {
                    let j = choose|j: int|
                        0 <= j < i && #[trigger] char_covers(
                            rows,
                            t[j],
                            pen(t, x as int, y as int, scale as int, j).0,
                            pen(t, x as int, y as int, scale as int, j).1,
                            scale as int,
                            px,
                            py,
                        );
                    assert(text_covers(rows, t, x as int, y as int, scale as int, i + 1, px, py));
                }
            }
        }
        i = i + 1;
    }
    proof {
        lemma_chars_drawn_cover(
            rows,
            old_buf,
            buf_w as int,
            buf_h as int,
            t,
            x as int,
            y as int,
            color,
            scale as int,
            n as nat,
        );
        assert(buffer@ =~= chars_drawn(
            rows,
            old_buf,
            buf_w as int,
            buf_h as int,
            t,
            x as int,
            y as int,
            color,
            scale as int,
            n as nat,
        ));
    }
}

/// The width of `text` in pixels: eight per byte of its UTF-8 form, scaled.
pub fn text_width(text: &str, scale: usize) -> (w: usize)
    requires
        text.spec_bytes().len() * 8 <= usize::MAX,
        text.spec_bytes().len() * 8 * scale <= usize::MAX,
    ensures
        w == text.spec_bytes().len() * 8 * scale,
{
    text.len() * FONT_WIDTH * scale
}

} // verus!
