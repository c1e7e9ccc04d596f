//! The viewer's heads-up display: a 5x7 capital-letter font and the box
//! that shows frame rate and round-trip time over the remote screen.
use vstd::prelude::*;
use vstd::arithmetic::div_mod::{lemma_fundamental_div_mod, lemma_fundamental_div_mod_converse, lemma_mod_pos_bound};
use crate::canvas::{fill_rect, in_box, painted};
use crate::font::on_screen;
use crate::text::{chars_of, decimal, push_decimal, push_str, string_of};

verus! {

/// ASCII uppercase of one character.
pub open spec fn ascii_upper(c: char) -> char {
    if 'a' <= c && c <= 'z' {
        ((c as u32) - 32) as char
    } else {
        c
    }
}

/// The seven row bitmaps of a character, five pixels wide with the leftmost
/// in bit 4; letters in either case share a glyph, and characters without
/// one are blank.
pub open spec fn hud_glyph(c: char) -> Seq<u8> {
    let u = ascii_upper(c);
    if u == '0' {
        seq![31u8, 17u8, 17u8, 17u8, 17u8, 17u8, 31u8]
    } else if u == '1' {
        seq![4u8, 12u8, 4u8, 4u8, 4u8, 4u8, 14u8]
    } else if u == '2' {
        seq![31u8, 1u8, 1u8, 31u8, 16u8, 16u8, 31u8]
    } else if u == '3' {
        seq![31u8, 1u8, 1u8, 31u8, 1u8, 1u8, 31u8]
    } else if u == '4' {
        seq![17u8, 17u8, 17u8, 31u8, 1u8, 1u8, 1u8]
    } else if u == '5' {
        seq![31u8, 16u8, 16u8, 31u8, 1u8, 1u8, 31u8]
    } else if u == '6' {
        seq![31u8, 16u8, 16u8, 31u8, 17u8, 17u8, 31u8]
    } else if u == '7' {
        seq![31u8, 1u8, 2u8, 4u8, 8u8, 8u8, 8u8]
    } else if u == '8' {
        seq![31u8, 17u8, 17u8, 31u8, 17u8, 17u8, 31u8]
    } else if u == '9' {
        seq![31u8, 17u8, 17u8, 31u8, 1u8, 1u8, 31u8]
    } else if u == 'A' {
        seq![14u8, 17u8, 17u8, 31u8, 17u8, 17u8, 17u8]
    } else if u == 'B' {
        seq![30u8, 17u8, 17u8, 30u8, 17u8, 17u8, 30u8]
    } else if u == 'C' {
        seq![15u8, 16u8, 16u8, 16u8, 16u8, 16u8, 15u8]
    } else if u == 'D' {
        seq![28u8, 18u8, 17u8, 17u8, 17u8, 18u8, 28u8]
    } else if u == 'E' {
        seq![31u8, 16u8, 16u8, 30u8, 16u8, 16u8, 31u8]
    } else if u == 'F' {
        seq![31u8, 16u8, 16u8, 30u8, 16u8, 16u8, 16u8]
    } else if u == 'G' {
        seq![15u8, 16u8, 16u8, 23u8, 17u8, 17u8, 15u8]
    } else if u == 'H' {
        seq![17u8, 17u8, 17u8, 31u8, 17u8, 17u8, 17u8]
    } else if u == 'I' {
        seq![14u8, 4u8, 4u8, 4u8, 4u8, 4u8, 14u8]
    } else if u == 'J' {
        seq![1u8, 1u8, 1u8, 1u8, 17u8, 17u8, 14u8]
    } else if u == 'K' {
        seq![17u8, 18u8, 20u8, 24u8, 20u8, 18u8, 17u8]
    } else if u == 'L' {
        seq![16u8, 16u8, 16u8, 16u8, 16u8, 16u8, 31u8]
    } else if u == 'M' {
        seq![17u8, 27u8, 21u8, 17u8, 17u8, 17u8, 17u8]
    } else if u == 'N' {
        seq![17u8, 25u8, 21u8, 19u8, 17u8, 17u8, 17u8]
    } else if u == 'O' {
        seq![14u8, 17u8, 17u8, 17u8, 17u8, 17u8, 14u8]
    } else if u == 'P' {
        seq![30u8, 17u8, 17u8, 30u8, 16u8, 16u8, 16u8]
    } else if u == 'Q' {
        seq![14u8, 17u8, 17u8, 17u8, 21u8, 18u8, 13u8]
    } else if u == 'R' {
        seq![30u8, 17u8, 17u8, 30u8, 20u8, 18u8, 17u8]
    } else if u == 'S' {
        seq![15u8, 16u8, 16u8, 14u8, 1u8, 1u8, 30u8]
    } else if u == 'T' {
        seq![31u8, 4u8, 4u8, 4u8, 4u8, 4u8, 4u8]
    } else if u == 'U' {
        seq![17u8, 17u8, 17u8, 17u8, 17u8, 17u8, 14u8]
    } else if u == 'V' {
        seq![17u8, 17u8, 17u8, 17u8, 17u8, 10u8, 4u8]
    } else if u == 'W' {
        seq![17u8, 17u8, 17u8, 21u8, 21u8, 27u8, 17u8]
    } else if u == 'X' {
        seq![17u8, 17u8, 10u8, 4u8, 10u8, 17u8, 17u8]
    } else if u == 'Y' {
        seq![17u8, 17u8, 10u8, 4u8, 4u8, 4u8, 4u8]
    } else if u == 'Z' {
        seq![31u8, 1u8, 2u8, 4u8, 8u8, 16u8, 31u8]
    } else if u == ':' {
        seq![0u8, 4u8, 0u8, 0u8, 4u8, 0u8, 0u8]
    } else if u == '-' {
        seq![0u8, 0u8, 0u8, 31u8, 0u8, 0u8, 0u8]
    } else {
        seq![0u8, 0u8, 0u8, 0u8, 0u8, 0u8, 0u8]
    }
}

fn hud_glyph_exec(c: char) -> (g: [u8; 7])
    ensures
        g@ == hud_glyph(c),
{
    let u = if 'a' <= c && c <= 'z' {
        ((c as u8) - 32) as char
    } else {
        c
    };
    let g: [u8; 7] =     if u == '0' {
        [31, 17, 17, 17, 17, 17, 31]
    } else if u == '1' {
        [4, 12, 4, 4, 4, 4, 14]
    } else if u == '2' {
        [31, 1, 1, 31, 16, 16, 31]
    } else if u == '3' {
        [31, 1, 1, 31, 1, 1, 31]
    } else if u == '4' {
        [17, 17, 17, 31, 1, 1, 1]
    } else if u == '5' {
        [31, 16, 16, 31, 1, 1, 31]
    } else if u == '6' {
        [31, 16, 16, 31, 17, 17, 31]
    } else if u == '7' {
        [31, 1, 2, 4, 8, 8, 8]
    } else if u == '8' {
        [31, 17, 17, 31, 17, 17, 31]
    } else if u == '9' {
        [31, 17, 17, 31, 1, 1, 31]
    } else if u == 'A' {
        [14, 17, 17, 31, 17, 17, 17]
    } else if u == 'B' {
        [30, 17, 17, 30, 17, 17, 30]
    } else if u == 'C' {
        [15, 16, 16, 16, 16, 16, 15]
    } else if u == 'D' {
        [28, 18, 17, 17, 17, 18, 28]
    } else if u == 'E' {
        [31, 16, 16, 30, 16, 16, 31]
    } else if u == 'F' {
        [31, 16, 16, 30, 16, 16, 16]
    } else if u == 'G' {
        [15, 16, 16, 23, 17, 17, 15]
    } else if u == 'H' {
        [17, 17, 17, 31, 17, 17, 17]
    } else if u == 'I' {
        [14, 4, 4, 4, 4, 4, 14]
    } else if u == 'J' {
        [1, 1, 1, 1, 17, 17, 14]
    } else if u == 'K' {
        [17, 18, 20, 24, 20, 18, 17]
    } else if u == 'L' {
        [16, 16, 16, 16, 16, 16, 31]
    } else if u == 'M' {
        [17, 27, 21, 17, 17, 17, 17]
    } else if u == 'N' {
        [17, 25, 21, 19, 17, 17, 17]
    } else if u == 'O' {
        [14, 17, 17, 17, 17, 17, 14]
    } else if u == 'P' {
        [30, 17, 17, 30, 16, 16, 16]
    } else if u == 'Q' {
        [14, 17, 17, 17, 21, 18, 13]
    } else if u == 'R' {
        [30, 17, 17, 30, 20, 18, 17]
    } else if u == 'S' {
        [15, 16, 16, 14, 1, 1, 30]
    } else if u == 'T' {
        [31, 4, 4, 4, 4, 4, 4]
    } else if u == 'U' {
        [17, 17, 17, 17, 17, 17, 14]
    } else if u == 'V' {
        [17, 17, 17, 17, 17, 10, 4]
    } else if u == 'W' {
        [17, 17, 17, 21, 21, 27, 17]
    } else if u == 'X' {
        [17, 17, 10, 4, 10, 17, 17]
    } else if u == 'Y' {
        [17, 17, 10, 4, 4, 4, 4]
    } else if u == 'Z' {
        [31, 1, 2, 4, 8, 16, 31]
    } else if u == ':' {
        [0, 4, 0, 0, 4, 0, 0]
    } else if u == '-' {
        [0, 0, 0, 31, 0, 0, 0]
    } else {
        [0, 0, 0, 0, 0, 0, 0]
    };
    assert(g@ =~= hud_glyph(c));
    g
}

/// Whether the glyph of `c` sets the pixel at `row`, `col`.
pub open spec fn hud_bit(c: char, row: int, col: int) -> bool {
    0 <= row < 7 && 0 <= col < 5 && ((hud_glyph(c)[row] >> ((4 - col) as u8)) & 1u8) != 0
}

/// Whether `c` drawn at (`x`, `y`) covers the pixel (`px`, `py`).
pub open spec fn hud_char_covers(c: char, x: int, y: int, px: int, py: int) -> bool {
    x <= px < x + 5 && y <= py < y + 7 && hud_bit(c, py - y, px - x)
}

proof fn lemma_index(px: int, py: int, w: int, h: int)
    requires
        0 <= px < w,
        0 <= py < h,
    ensures
        (py * w + px) / w == py,
        (py * w + px) % w == px,
        0 <= py * w + px < w * h,
{
    lemma_fundamental_div_mod_converse(py * w + px, w, py, px);
    assert(0 <= py * w + px < w * h) by (nonlinear_arith)
        requires
            0 <= px < w,
            0 <= py < h,
    ;
}

/// Draws one HUD character at (`x`, `y`), clipped to the image.
pub fn draw_char(
    buffer: &mut [u32],
    width: usize,
    height: usize,
    x: usize,
    y: usize,
    c: char,
    color: u32,
)
    requires
        width * height <= old(buffer)@.len(),
        x + 5 <= usize::MAX,
        y + 7 <= usize::MAX,
    ensures
        final(buffer)@ == painted(
            old(buffer)@,
            |k: int|
                on_screen(k, width as int, height as int) && hud_char_covers(
                    c,
                    x as int,
                    y as int,
                    k % (width as int),
                    k / (width as int),
                ),
            color,
        ),
{
    let ghost old_buf = buffer@;
    let ghost hit = |k: int|
        on_screen(k, width as int, height as int) && hud_char_covers(
            c,
            x as int,
            y as int,
            k % (width as int),
            k / (width as int),
        );
    let bitmap = hud_glyph_exec(c);
    if width == 0 {
        proof {
            assert(buffer@ =~= painted(old_buf, hit, color));
        }
        return;
    }
    let mut row: usize = 0;
    while row < 7
        invariant
            width > 0,
            width * height <= old_buf.len(),
            x + 5 <= usize::MAX,
            y + 7 <= usize::MAX,
            row <= 7,
            bitmap@ == hud_glyph(c),
            hit == (|k: int|
                on_screen(k, width as int, height as int) && hud_char_covers(
                    c,
                    x as int,
                    y as int,
                    k % (width as int),
                    k / (width as int),
                )),
            buffer@.len() == old_buf.len(),
            forall|k: int|
                0 <= k < old_buf.len() ==> #[trigger] buffer@[k] == (if hit(k) && k / (width as int)
                    - y < row {
                    color
                } else {
                    old_buf[k]
                }),
        decreases 7 - row,
    {
        let mut col: usize = 0;
        while col < 5
            invariant
                width > 0,
                width * height <= old_buf.len(),
                x + 5 <= usize::MAX,
                y + 7 <= usize::MAX,
                row < 7,
                col <= 5,
                bitmap@ == hud_glyph(c),
                hit == (|k: int|
                    on_screen(k, width as int, height as int) && hud_char_covers(
                        c,
                        x as int,
                        y as int,
                        k % (width as int),
                        k / (width as int),
                    )),
                buffer@.len() == old_buf.len(),
                forall|k: int|
                    0 <= k < old_buf.len() ==> #[trigger] buffer@[k] == (if hit(k) && (k / (
                    width as int) - y < row || (k / (width as int) - y == row && k % (width as int)
                        - x < col)) {
                        color
                    } else {
                        old_buf[k]
                    }),
            decreases 5 - col,
        {
            let on = ((bitmap[row] >> ((4 - col) as u8)) & 1) != 0;
            let px = x + col;
            let py = y + row;
            let ghost prev = buffer@;
            if on && px < width && py < height {
                proof {
                    lemma_index(px as int, py as int, width as int, height as int);
                }
                let blen = buffer.len();
                assert(py * width + px < blen);
                buffer[py * width + px] = color;
            }
            proof {
                assert forall|k: int| 0 <= k < old_buf.len() implies #[trigger] buffer@[k] == (if hit(
                    k,
                ) && (k / (width as int) - y < row || (k / (width as int) - y == row && k % (
                width as int) - x < col + 1)) {
                    color
                } else {
                    old_buf[k]
                }) by {
                    lemma_mod_pos_bound(k, width as int);
                    if k / (width as int) == py && k % (width as int) == px {
                        lemma_fundamental_div_mod(k, width as int);
                        let q = k / (width as int);
                        let r = k % (width as int);
                        assert(k == py * width + px) by (nonlinear_arith)
                            requires
                                k == (width as int) * q + r,
                                q == py,
                                r == px,
                        ;
                        if on && px < width && py < height {
                            assert(hit(k));
                        } else {
                            assert(!hit(k));
                        }
                    } else if on && px < width && py < height {
                        lemma_index(px as int, py as int, width as int, height as int);
                        assert(k != py * width + px);
                    }
                }
            }
            col = col + 1;
        }
        proof {
            assert forall|k: int| 0 <= k < old_buf.len() implies #[trigger] buffer@[k] == (if hit(k)
                && k / (width as int) - y < row + 1 {
                color
            } else {
                old_buf[k]
            }) by {}
        }
        row = row + 1;
    }
    proof {
        assert forall|k: int| 0 <= k < old_buf.len() implies #[trigger] buffer@[k] == (if hit(k) {
            color
        } else {
            old_buf[k]
        }) by {}
        assert(buffer@ =~= painted(old_buf, hit, color));
    }
}

/// Whether one of the first `n` characters of `text`, drawn eight pixels
/// apart from (`x`, `y`), covers the pixel (`px`, `py`).
pub open spec fn hud_text_covers(text: Seq<char>, x: int, y: int, n: int, px: int, py: int) -> bool {
    exists|j: int| 0 <= j < n && #[trigger] hud_char_covers(text[j], x + 8 * j, y, px, py)
}

/// Draws a line of HUD text from (`x`, `y`).
pub fn draw_text(
    buffer: &mut [u32],
    width: usize,
    height: usize,
    x: usize,
    y: usize,
    text: &str,
    color: u32,
)
    requires
        width * height <= old(buffer)@.len(),
        x + 8 * (text@.len() + 1) <= usize::MAX,
        y + 7 <= usize::MAX,
    ensures
        final(buffer)@ == painted(
            old(buffer)@,
            |k: int|
                on_screen(k, width as int, height as int) && hud_text_covers(
                    text@,
                    x as int,
                    y as int,
                    text@.len() as int,
                    k % (width as int),
                    k / (width as int),
                ),
            color,
        ),
{
    let ghost old_buf = buffer@;
    let chars = chars_of(text);
    let ghost t = text@;
    let mut cursor = x;
    let mut i: usize = 0;
    while i < chars.len()
        invariant
            chars@ == t,
            t == text@,
            i <= chars.len(),
            width * height <= old_buf.len(),
            x + 8 * (t.len() + 1) <= usize::MAX,
            y + 7 <= usize::MAX,
            cursor == x + 8 * i,
            buffer@ == painted(
                old_buf,
                |k: int|
                    on_screen(k, width as int, height as int) && hud_text_covers(
                        t,
                        x as int,
                        y as int,
                        i as int,
                        k % (width as int),
                        k / (width as int),
                    ),
                color,
            ),
        decreases chars.len() - i,
    {
        let ghost prev = buffer@;
        draw_char(buffer, width, height, cursor, y, chars[i], color);
        proof {
            assert forall|k: int| 0 <= k < old_buf.len() implies #[trigger] buffer@[k] == (if on_screen(
                k,
                width as int,
                height as int,
            ) && hud_text_covers(
                t,
                x as int,
                y as int,
                i + 1,
                k % (width as int),
                k / (width as int),
            ) {
                color
            } else {
                old_buf[k]
            }) by {
                let px = k % (width as int);
                let py = k / (width as int);
                if hud_char_covers(t[i as int], x + 8 * i, y as int, px, py) {
                    assert(hud_text_covers(t, x as int, y as int, i + 1, px, py));
                }
                if hud_text_covers(t, x as int, y as int, i + 1, px, py) {
                    let j = choose|j: int|
                        0 <= j < i + 1 && #[trigger] hud_char_covers(t[j], x + 8 * j, y as int, px, py);
                    if j < i {
                        assert(hud_text_covers(t, x as int, y as int, i as int, px, py));
                    }
                }
                if hud_text_covers(t, x as int, y as int, i as int, px, py) {
                    let j = choose|j: int|
                        0 <= j < i && #[trigger] hud_char_covers(t[j], x + 8 * j, y as int, px, py);
                    assert(hud_text_covers(t, x as int, y as int, i + 1, px, py));
                }
            }
            assert(buffer@ =~= painted(
                old_buf,
                |k: int|
                    on_screen(k, width as int, height as int) && hud_text_covers(
                        t,
                        x as int,
                        y as int,
                        i + 1,
                        k % (width as int),
                        k / (width as int),
                    ),
                color,
            ));
        }
        cursor = cursor + 8;
        i = i + 1;
    }
}

/// `FPS:<fps> RTT:<rtt>MS`.
pub open spec fn status_text(fps: u32, rtt: u64) -> Seq<char> {
    "FPS:"@ + decimal(fps as nat) + " RTT:"@ + decimal(rtt as nat) + "MS"@
}

/// The HUD box's left edge on an image `width` pixels wide.
pub open spec fn status_x(width: int) -> int {
    width - 222
}

/// The image after the status box: on images at least 250 x 40, a dark
/// 210 x 28 box 12 pixels from the top right corner, with the frame rate and
/// round-trip time written in white.
pub open spec fn spec_render_status(old: Seq<u32>, width: int, height: int, fps: u32, rtt: u64) -> Seq<u32> {
    if width < 250 || height < 40 {
        old
    } else {
        let boxed = painted(
            old,
            |k: int| in_box(k, width, height, status_x(width), 12, 210, 28),
            0x101827u32,
        );
        painted(
            boxed,
            |k: int|
                on_screen(k, width, height) && hud_text_covers(
                    status_text(fps, rtt),
                    status_x(width) + 10,
                    21,
                    status_text(fps, rtt).len() as int,
                    k % width,
                    k / width,
                ),
            0xFFFFFFu32,
        )
    }
}

/// Draws the frame rate and round-trip time over the remote screen.
pub fn render_status(buffer: &mut [u32], width: usize, height: usize, fps: u32, rtt: u64)
    requires
        width * height <= old(buffer)@.len(),
    ensures
        final(buffer)@ == spec_render_status(old(buffer)@, width as int, height as int, fps, rtt),
{
    if width < 250 || height < 40 {
        return;
    }
    let x = width - 222;
    let blen = buffer.len();
    proof {
        assert(width <= usize::MAX / 40) by (nonlinear_arith)
            requires
                width * height <= blen,
                blen <= usize::MAX,
                height >= 40,
        ;
    }
    fill_rect(buffer, width, height, x, 12, 210, 28, 0x101827);
    let mut out: Vec<char> = Vec::new();
    push_str(&mut out, "FPS:");
    push_decimal(&mut out, fps as u64);
    push_str(&mut out, " RTT:");
    push_decimal(&mut out, rtt);
    push_str(&mut out, "MS");
    let text = string_of(out.as_slice());
    proof {
        crate::text::lemma_decimal_len(fps as nat);
        crate::text::lemma_decimal_len(rtt as nat);
        reveal_strlit("FPS:");
        reveal_strlit(" RTT:");
        reveal_strlit("MS");
        assert(text@ == status_text(fps, rtt));
        assert(text@.len() <= 51);
    }
    draw_text(buffer, width, height, x + 10, 21, text.as_str(), 0xFFFFFF);
}

} // verus!
