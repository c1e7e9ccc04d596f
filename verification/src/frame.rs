//! A frame of the agent window as a list of drawing operations, and the
//! painting of such a list into a pixel buffer.
use vstd::prelude::*;
use crate::canvas::{
    corner, draw_rect_outline, fill_rect, fill_rounded_rect, in_box, in_rounded, on_outline, painted,
};
use crate::font::{draw_text, on_screen, text_covers, Font};

verus! {

/// One drawing operation.
pub enum DrawOp {
    /// Every pixel of the buffer.
    Clear { color: u32 },
    Fill { x: usize, y: usize, w: usize, h: usize, color: u32 },
    Outline { x: usize, y: usize, w: usize, h: usize, color: u32 },
    Rounded { x: usize, y: usize, w: usize, h: usize, radius: usize, color: u32 },
    Text { x: usize, y: usize, text: String, color: u32, scale: usize },
}

/// A drawing operation as plain values.
pub enum DrawOpView {
    Clear { color: u32 },
    Fill { x: usize, y: usize, w: usize, h: usize, color: u32 },
    Outline { x: usize, y: usize, w: usize, h: usize, color: u32 },
    Rounded { x: usize, y: usize, w: usize, h: usize, radius: usize, color: u32 },
    Text { x: usize, y: usize, text: Seq<char>, color: u32, scale: usize },
}

impl View for DrawOp {
    type V = DrawOpView;

    open spec fn view(&self) -> DrawOpView {
        match *self {
            DrawOp::Clear { color } => DrawOpView::Clear { color },
            DrawOp::Fill { x, y, w, h, color } => DrawOpView::Fill { x, y, w, h, color },
            DrawOp::Outline { x, y, w, h, color } => DrawOpView::Outline { x, y, w, h, color },
            DrawOp::Rounded { x, y, w, h, radius, color } => DrawOpView::Rounded {
                x,
                y,
                w,
                h,
                radius,
                color,
            },
            DrawOp::Text { x, y, text, color, scale } => DrawOpView::Text {
                x,
                y,
                text: text@,
                color,
                scale,
            },
        }
    }
}

/// Whether an operation's coordinates stay within `usize` while it is drawn.
pub open spec fn op_fits(op: DrawOpView) -> bool {
    match op {
        DrawOpView::Clear { .. } => true,
        DrawOpView::Fill { x, w, .. } => w > 0 ==> x + (w - 1) <= usize::MAX,
        DrawOpView::Outline { x, y, w, h, .. } => w > 0 && h > 0 ==> x + (w - 1) <= usize::MAX
            && y + (h - 1) <= usize::MAX,
        DrawOpView::Rounded { x, y, w, h, .. } => x + w <= usize::MAX && y + h <= usize::MAX,
        DrawOpView::Text { x, y, text, scale, .. } => x + 8 * scale * (text.len() + 1)
            <= usize::MAX && y + 15 * scale * (text.len() + 1) <= usize::MAX,
    }
}

/// The buffer after one operation on a `bw` x `bh` image drawn with font
/// rows `rows`; an operation whose coordinates would leave `usize` is skipped.
pub open spec fn apply_op(buf: Seq<u32>, rows: Seq<u8>, op: DrawOpView, bw: int, bh: int) -> Seq<u32> {
    if !op_fits(op) {
        buf
    } else {
        match op {
            DrawOpView::Clear { color } => painted(buf, |k: int| true, color),
            DrawOpView::Fill { x, y, w, h, color } => painted(
                buf,
                |k: int| in_box(k, bw, bh, x as int, y as int, w as int, h as int),
                color,
            ),
            DrawOpView::Outline { x, y, w, h, color } => painted(
                buf,
                |k: int| on_outline(k, bw, bh, x as int, y as int, w as int, h as int),
                color,
            ),
            DrawOpView::Rounded { x, y, w, h, radius, color } => painted(
                buf,
                |k: int|
                    in_rounded(
                        k,
                        bw,
                        bh,
                        x as int,
                        y as int,
                        w as int,
                        h as int,
                        corner(radius as int, w as int, h as int),
                    ),
                color,
            ),
            DrawOpView::Text { x, y, text, color, scale } => painted(
                buf,
                |k: int|
                    on_screen(k, bw, bh) && text_covers(
                        rows,
                        text,
                        x as int,
                        y as int,
                        scale as int,
                        text.len() as int,
                        k % bw,
                        k / bw,
                    ),
                color,
            ),
        }
    }
}

/// The buffer after the operations, in order.
pub open spec fn paint_ops(buf: Seq<u32>, rows: Seq<u8>, ops: Seq<DrawOpView>, bw: int, bh: int) -> Seq<
    u32,
>
    decreases ops.len(),
{
    if ops.len() == 0 {
        buf
    } else {
        apply_op(paint_ops(buf, rows, ops.drop_last(), bw, bh), rows, ops.last(), bw, bh)
    }
}

/// A frame being built: its operations, in drawing order.
pub struct Frame {
    pub ops: Vec<DrawOp>,
}

impl View for Frame {
    type V = Seq<DrawOpView>;

    open spec fn view(&self) -> Seq<DrawOpView> {
        self.ops@.map_values(|o: DrawOp| o@)
    }
}

impl Frame {
    pub fn new() -> (f: Self)
        ensures
            f@ == Seq::<DrawOpView>::empty(),
    {
        let f = Frame { ops: Vec::new() };
        assert(f@ =~= Seq::<DrawOpView>::empty());
        f
    }

    fn add(&mut self, op: DrawOp)
        ensures
            final(self)@ == old(self)@.push(op@),
    {
        self.ops.push(op);
        assert(self@ =~= old(self)@.push(op@));
    }

    pub fn clear(&mut self, color: u32)
        ensures
            final(self)@ == old(self)@.push(DrawOpView::Clear { color }),
    {
        self.add(DrawOp::Clear { color });
    }

    pub fn fill(&mut self, x: usize, y: usize, w: usize, h: usize, color: u32)
        ensures
            final(self)@ == old(self)@.push(DrawOpView::Fill { x, y, w, h, color }),
    {
        self.add(DrawOp::Fill { x, y, w, h, color });
    }

    pub fn outline(&mut self, x: usize, y: usize, w: usize, h: usize, color: u32)
        ensures
            final(self)@ == old(self)@.push(DrawOpView::Outline { x, y, w, h, color }),
    {
        self.add(DrawOp::Outline { x, y, w, h, color });
    }

    pub fn rounded(&mut self, x: usize, y: usize, w: usize, h: usize, radius: usize, color: u32)
        ensures
            final(self)@ == old(self)@.push(DrawOpView::Rounded { x, y, w, h, radius, color }),
    {
        self.add(DrawOp::Rounded { x, y, w, h, radius, color });
    }

    pub fn text(&mut self, x: usize, y: usize, text: &str, color: u32, scale: usize)
        ensures
            final(self)@ == old(self)@.push(DrawOpView::Text { x, y, text: text@, color, scale }),
    {
        self.add(DrawOp::Text { x, y, text: String::from_str(text), color, scale });
    }
}

proof fn lemma_mul_le_div(n: int, d: int, a: int)
    requires
        d > 0,
        a >= 0,
        n >= 0,
    ensures
        (n * d <= a) == (n <= a / d),
{
    vstd::arithmetic::div_mod::lemma_fundamental_div_mod(a, d);
    vstd::arithmetic::div_mod::lemma_mod_pos_bound(a, d);
    let q = a / d;
    let r = a % d;
    if n <= q {
        assert(n * d <= q * d) by (nonlinear_arith)
            requires
                n <= q,
                d > 0,
        ;
        assert(q * d <= a) by (nonlinear_arith)
            requires
                a == d * q + r,
                r >= 0,
        ;
    } else {
        assert(n * d >= (q + 1) * d) by (nonlinear_arith)
            requires
                n >= q + 1,
                d > 0,
        ;
        assert((q + 1) * d > a) by (nonlinear_arith)
            requires
                a == d * q + r,
                r < d,
        ;
    }
}

fn op_fits_exec(op: &DrawOp) -> (b: bool)
    ensures
        b == op_fits(op@),
{
    match op {
        DrawOp::Clear { .. } => true,
        DrawOp::Fill { x, w, .. } => *w == 0 || *w - 1 <= usize::MAX - *x,
        DrawOp::Outline { x, y, w, h, .. } => *w == 0 || *h == 0 || (*w - 1 <= usize::MAX - *x && *h
            - 1 <= usize::MAX - *y),
        DrawOp::Rounded { x, y, w, h, .. } => *w <= usize::MAX - *x && *h <= usize::MAX - *y,
        DrawOp::Text { x, y, text, scale, .. } => {
            let n = crate::text::chars_of(text.as_str()).len();
            let n1 = n as u128 + 1;
            let s = *scale as u128;
            if s == 0 {
                return true;
            }
            let a = (usize::MAX - *x) as u128;
            let b = (usize::MAX - *y) as u128;
            proof {
                lemma_mul_le_div(n1 as int, (s * 8) as int, a as int);
                lemma_mul_le_div(n1 as int, (s * 15) as int, b as int);
                assert(8 * s * n1 == n1 * (s * 8)) by (nonlinear_arith);
                assert(15 * s * n1 == n1 * (s * 15)) by (nonlinear_arith);
            }
            n1 <= a / (s * 8) && n1 <= b / (s * 15)
        },
    }
}

/// Draws one operation.
pub fn apply(font: &Font, buffer: &mut [u32], bw: usize, bh: usize, op: &DrawOp)
    requires
        font.wf(),
        bw * bh <= old(buffer)@.len(),
    ensures
        final(buffer)@ == apply_op(old(buffer)@, font.rows(), op@, bw as int, bh as int),
{
    let ghost old_buf = buffer@;
    if !op_fits_exec(op) {
        return;
    }
    match op {
        DrawOp::Clear { color } => {
            let mut i: usize = 0;
            while i < buffer.len()
                invariant
                    buffer@.len() == old_buf.len(),
                    i <= buffer@.len(),
                    forall|k: int| 0 <= k < old_buf.len() ==> #[trigger] buffer@[k] == (if k < i {
                        *color
                    } else {
                        old_buf[k]
                    }),
                decreases buffer@.len() - i,
            {
                buffer[i] = *color;
                i += 1;
            }
            assert(buffer@ =~= painted(old_buf, |k: int| true, *color));
        },
        DrawOp::Fill { x, y, w, h, color } => {
            fill_rect(buffer, bw, bh, *x, *y, *w, *h, *color);
        },
        DrawOp::Outline { x, y, w, h, color } => {
            draw_rect_outline(buffer, bw, bh, *x, *y, *w, *h, *color);
        },
        DrawOp::Rounded { x, y, w, h, radius, color } => {
            fill_rounded_rect(buffer, bw, bh, *x, *y, *w, *h, *radius, *color);
        },
        DrawOp::Text { x, y, text, color, scale } => {
            draw_text(font, buffer, bw, bh, *x, *y, text.as_str(), *color, *scale);
            assert(buffer@ =~= apply_op(old_buf, font.rows(), op@, bw as int, bh as int));
        },
    }
}

/// Draws the operations in order.
pub fn paint(font: &Font, buffer: &mut [u32], bw: usize, bh: usize, ops: &[DrawOp])
    requires
        font.wf(),
        bw * bh <= old(buffer)@.len(),
    ensures
        final(buffer)@ == paint_ops(
            old(buffer)@,
            font.rows(),
            ops@.map_values(|o: DrawOp| o@),
            bw as int,
            bh as int,
        ),
{
    let ghost old_buf = buffer@;
    let ghost all = ops@.map_values(|o: DrawOp| o@);
    let mut i: usize = 0;
    assert(all.take(0) =~= Seq::<DrawOpView>::empty());
    while i < ops.len()
        invariant
            font.wf(),
            bw * bh <= old_buf.len(),
            i <= ops.len(),
            all == ops@.map_values(|o: DrawOp| o@),
            buffer@.len() == old_buf.len(),
            buffer@ == paint_ops(old_buf, font.rows(), all.take(i as int), bw as int, bh as int),
        decreases ops.len() - i,
    {
        apply(font, buffer, bw, bh, &ops[i]);
        proof {
            assert(all.take(i + 1).drop_last() =~= all.take(i as int));
            assert(all.take(i + 1).last() == ops@[i as int]@);
        }
        i += 1;
    }
    assert(all.take(ops.len() as int) =~= all);
}

} // verus!
