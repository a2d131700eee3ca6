//! The pixel canvas and its serialization to the plain-text PPM ("P3")
//! image format.
//!
//! The encoder is specified character by character: a header of three
//! newline-terminated lines, then every channel of every pixel in row-major
//! order as decimal digits with single separators, wrapped so that no line
//! exceeds 70 characters, a newline closing every image row, and a final
//! trailing newline.

use crate::color::Color;
use crate::math::SCALE;
use crate::math::Scalar;
use crate::math::round_div;
use crate::math::round_div_i128;
use vstd::prelude::*;
use vstd::string::StringExecFns;

verus! {

/// A pixel's channel as a byte: the channel value scaled by 255, rounded to
/// the nearest integer, then clamped into `[0, 255]`.
pub open spec fn quant(c: int) -> int {
    let q = round_div(c * 255, SCALE as int);
    if q < 0 {
        0
    } else if q > 255 {
        255
    } else {
        q
    }
}

/// The decimal digit `d` as a character.
pub open spec fn digit_char(d: int) -> char {
    if d == 0 {
        '0'
    } else if d == 1 {
        '1'
    } else if d == 2 {
        '2'
    } else if d == 3 {
        '3'
    } else if d == 4 {
        '4'
    } else if d == 5 {
        '5'
    } else if d == 6 {
        '6'
    } else if d == 7 {
        '7'
    } else if d == 8 {
        '8'
    } else {
        '9'
    }
}

/// The decimal digits of `n`, most significant first.
pub open spec fn dec_chars(n: int) -> Seq<char>
    recommends
        n >= 0,
    decreases n,
{
    if n < 10 {
        seq![digit_char(n)]
    } else {
        dec_chars(n / 10).push(digit_char(n % 10))
    }
}

/// One channel token appended to the output: its decimal digits cost
/// `digits + 1` columns (the trailing separator is budgeted with the token).
/// With a separator pending, a token that would push the current line past
/// 70 columns turns that separator into a newline and restarts the column
/// count at the token's own cost; otherwise the separator is a space.
pub open spec fn tok_step(out: Seq<char>, col: int, v: int, pending: bool) -> (Seq<char>, int) {
    let d = dec_chars(v).len() + 1;
    if pending {
        if col + d > 70 {
            (out + seq!['\n'] + dec_chars(v), d as int)
        } else {
            (out + seq![' '] + dec_chars(v), col + d)
        }
    } else {
        (out + dec_chars(v), col + d)
    }
}

/// One pixel appended to the output: its three quantized channels, then a
/// newline with a fresh column count whenever the pixel closes an image row.
/// Only the first pixel of a row starts without a pending separator.
pub open spec fn px_step(
    st: (Seq<char>, int),
    c: Color,
    first_in_row: bool,
    last_in_row: bool,
) -> (Seq<char>, int) {
    let s1 = tok_step(st.0, st.1, quant(c.r.raw as int), !first_in_row);
    let s2 = tok_step(s1.0, s1.1, quant(c.g.raw as int), true);
    let s3 = tok_step(s2.0, s2.1, quant(c.b.raw as int), true);
    if last_in_row {
        (s3.0.push('\n'), 0)
    } else {
        s3
    }
}

/// Output text and column count after the first `n` pixels of a canvas of
/// width `w`.
pub open spec fn body_state(data: Seq<Color>, w: int, n: int) -> (Seq<char>, int)
    decreases n,
{
    if n <= 0 {
        (Seq::empty(), 0)
    } else {
        px_step(body_state(data, w, n - 1), data[n - 1], (n - 1) % w == 0, n % w == 0)
    }
}

/// The three header lines: the magic `P3`, the dimensions, and the maximum
/// channel value 255.
pub open spec fn header_chars(w: int, h: int) -> Seq<char> {
    seq!['P', '3', '\n'] + dec_chars(w) + seq![' '] + dec_chars(h) + seq!['\n', '2', '5', '5', '\n']
}

/// The full PPM text of a canvas.
pub open spec fn ppm_spec(w: int, h: int, data: Seq<Color>) -> Seq<char> {
    header_chars(w, h) + body_state(data, w, data.len() as int).0
}

/// A pixel with every channel exactly zero.
pub open spec fn black_spec(c: Color) -> bool {
    c.r.raw == 0 && c.g.raw == 0 && c.b.raw == 0
}

/// A 2D grid addressed by `(x, y)`, stored row-major: index `y * width + x`.
#[derive(Debug)]
pub struct Vec2D<T> {
    data: Vec<T>,
    width: usize,
    height: usize,
}

/// The pixel canvas: a 2D grid of colors.
pub type Canvas = Vec2D<Color>;

impl<T> Vec2D<T> {
    /// The grid contents, row-major.
    pub closed spec fn grid(&self) -> Seq<T> {
        self.data@
    }

    /// The grid width.
    pub closed spec fn width_spec(&self) -> int {
        self.width as int
    }

    /// The grid height.
    pub closed spec fn height_spec(&self) -> int {
        self.height as int
    }

    /// The grid holds exactly `width * height` cells.
    pub open spec fn wf(&self) -> bool {
        self.grid().len() == self.width_spec() * self.height_spec()
    }
}

impl Vec2D<Color> {
    /// A canvas of the given dimensions with every pixel black.
    pub fn create_canvas(width: usize, height: usize) -> (r: Canvas)
        requires
            width * height <= usize::MAX,
        ensures
            r.wf(),
            r.width_spec() == width,
            r.height_spec() == height,
            forall|k: int| 0 <= k < r.grid().len() ==> black_spec(#[trigger] r.grid()[k]),
    {
        let n = width * height;
        let black = Color::new(Scalar::from_raw(0), Scalar::from_raw(0), Scalar::from_raw(0));
        let mut data: Vec<Color> = Vec::new();
        let mut k: usize = 0;
        while k < n
            invariant
                k <= n,
                black_spec(black),
                data@.len() == k,
                forall|m: int| 0 <= m < k ==> black_spec(#[trigger] data@[m]),
            decreases n - k,
        {
            data.push(black);
            proof {
                assert(data@[k as int] == black);
            }
            k = k + 1;
        }
        Vec2D { data, width, height }
    }

    /// Overwrite the pixel at `(x, y)`. Out-of-range coordinates are a
    /// caller bug, ruled out by contract.
    pub fn write_pixel(&mut self, x: usize, y: usize, color: Color)
        requires
            old(self).wf(),
            x < old(self).width_spec(),
            y < old(self).height_spec(),
        ensures
            final(self).wf(),
            final(self).width_spec() == old(self).width_spec(),
            final(self).height_spec() == old(self).height_spec(),
            final(self).grid() == old(self).grid().update(
                y * old(self).width_spec() + x,
                color,
            ),
    {
        let total = self.data.len();
        proof {
            assert(self.width_spec() * (y as int) + x < self.width_spec() * self.height_spec()
                && y * self.width_spec() + x == self.width_spec() * (y as int) + x)
                by (nonlinear_arith)
                requires
                    0 <= x < self.width_spec(),
                    0 <= y < self.height_spec(),
            ;
        }
        let idx = self.width * y + x;
        self.data.set(idx, color);
        proof {
            assert(self.grid() =~= old(self).grid().update(
                y * old(self).width_spec() + x,
                color,
            ));
        }
    }

    /// The pixel at `(x, y)`. Out-of-range coordinates are a caller bug,
    /// ruled out by contract.
    pub fn read_pixel(&self, x: usize, y: usize) -> (r: Color)
        requires
            self.wf(),
            x < self.width_spec(),
            y < self.height_spec(),
        ensures
            r == self.grid()[y * self.width_spec() + x],
    {
        let total = self.data.len();
        proof {
            assert(self.width_spec() * (y as int) + x < self.width_spec() * self.height_spec()
                && y * self.width_spec() + x == self.width_spec() * (y as int) + x)
                by (nonlinear_arith)
                requires
                    0 <= x < self.width_spec(),
                    0 <= y < self.height_spec(),
            ;
        }
        let idx = self.width * y + x;
        self.data[idx]
    }

    /// The canvas serialized as PPM text, byte for byte as [`ppm_spec`]
    /// states it.
    #[verifier::rlimit(30)]
    pub fn to_ppm_str(&self) -> (r: String)
        requires
            self.wf(),
        ensures
            r@ == ppm_spec(self.width_spec(), self.height_spec(), self.grid()),
    {
        let mut s = String::new();
        proof {
            reveal_strlit("P3\n");
            reveal_strlit(" ");
            reveal_strlit("\n255\n");
            reveal_strlit("\n");
        }
        s.append("P3\n");
        push_dec(&mut s, self.width as u64);
        s.append(" ");
        push_dec(&mut s, self.height as u64);
        s.append("\n255\n");
        proof {
            assert(s@ =~= header_chars(self.width_spec(), self.height_spec()));
        }
        let ghost hdr = s@;
        let mut col: usize = 0;
        let mut idx: usize = 0;
        while idx < self.data.len()
            invariant
                self.wf(),
                idx <= self.grid().len(),
                col <= 70,
                hdr == header_chars(self.width_spec(), self.height_spec()),
                s@ == hdr + body_state(self.grid(), self.width_spec(), idx as int).0,
                col as int == body_state(self.grid(), self.width_spec(), idx as int).1,
                idx < self.grid().len() ==> (idx as int % self.width_spec() == 0 ==> col == 0),
            decreases self.grid().len() - idx,
        {
            proof {
                if self.width == 0 {
                    assert(self.width_spec() * self.height_spec() == 0) by (nonlinear_arith)
                        requires
                            self.width_spec() == 0,
                    ;
                    assert(false);
                }
            }
            let c = self.data[idx];
            let q0 = quant_channel(c.r);
            let q1 = quant_channel(c.g);
            let q2 = quant_channel(c.b);
            let first = idx % self.width == 0;
            emit_token(&mut s, &mut col, q0, !first);
            emit_token(&mut s, &mut col, q1, true);
            emit_token(&mut s, &mut col, q2, true);
            let ghost xpre = s@;
            if (idx + 1) % self.width == 0 {
                proof {
                    reveal_strlit("\n");
                }
                s.append("\n");
                col = 0;
                proof {
                    assert(s@ =~= xpre.push('\n'));
                }
            }
            proof {
                let g = self.grid();
                let w = self.width_spec();
                let st0 = body_state(g, w, idx as int);
                lemma_px_append(
                    hdr,
                    st0,
                    g[idx as int],
                    idx as int % w == 0,
                    (idx as int + 1) % w == 0,
                );
                assert(s@ == hdr + body_state(g, w, idx as int + 1).0);
                assert(col as int == body_state(g, w, idx as int + 1).1);
            }
            idx = idx + 1;
        }
        s
    }
}

/// Prepending a fixed prefix to the output stream commutes with one token
/// step.
proof fn lemma_tok_append(h: Seq<char>, o: Seq<char>, col: int, v: int, p: bool)
    ensures
        tok_step(h + o, col, v, p).0 == h + tok_step(o, col, v, p).0,
        tok_step(h + o, col, v, p).1 == tok_step(o, col, v, p).1,
{
    assert(((h + o) + seq!['\n']) + dec_chars(v) =~= h + ((o + seq!['\n']) + dec_chars(v)));
    assert(((h + o) + seq![' ']) + dec_chars(v) =~= h + ((o + seq![' ']) + dec_chars(v)));
    assert((h + o) + dec_chars(v) =~= h + (o + dec_chars(v)));
}

/// Prepending a fixed prefix to the output stream commutes with one pixel
/// step.
proof fn lemma_px_append(h: Seq<char>, st: (Seq<char>, int), c: Color, fir: bool, las: bool)
    ensures
        px_step((h + st.0, st.1), c, fir, las).0 == h + px_step(st, c, fir, las).0,
        px_step((h + st.0, st.1), c, fir, las).1 == px_step(st, c, fir, las).1,
{
    let q0 = quant(c.r.raw as int);
    let q1 = quant(c.g.raw as int);
    let q2 = quant(c.b.raw as int);
    lemma_tok_append(h, st.0, st.1, q0, !fir);
    let s1 = tok_step(st.0, st.1, q0, !fir);
    lemma_tok_append(h, s1.0, s1.1, q1, true);
    let s2 = tok_step(s1.0, s1.1, q1, true);
    lemma_tok_append(h, s2.0, s2.1, q2, true);
    let s3 = tok_step(s2.0, s2.1, q2, true);
    if las {
        assert((h + s3.0).push('\n') =~= h + s3.0.push('\n'));
    }
}

/// One channel as a byte, exactly as [`quant`] states it.
fn quant_channel(c: Scalar) -> (r: u8)
    ensures
        r as int == quant(c.raw as int),
{
    let n: i128 = c.raw as i128 * 255;
    let q = round_div_i128(n, SCALE as i128);
    if q < 0 {
        0
    } else if q > 255 {
        255
    } else {
        q as u8
    }
}

/// The decimal digit `d` as a one-character string slice.
fn digit_str(d: u64) -> (r: &'static str)
    requires
        d < 10,
    ensures
        r@ == seq![digit_char(d as int)],
{
    if d == 0 {
        proof {
            reveal_strlit("0");
        }
        "0"
    } else if d == 1 {
        proof {
            reveal_strlit("1");
        }
        "1"
    } else if d == 2 {
        proof {
            reveal_strlit("2");
        }
        "2"
    } else if d == 3 {
        proof {
            reveal_strlit("3");
        }
        "3"
    } else if d == 4 {
        proof {
            reveal_strlit("4");
        }
        "4"
    } else if d == 5 {
        proof {
            reveal_strlit("5");
        }
        "5"
    } else if d == 6 {
        proof {
            reveal_strlit("6");
        }
        "6"
    } else if d == 7 {
        proof {
            reveal_strlit("7");
        }
        "7"
    } else if d == 8 {
        proof {
            reveal_strlit("8");
        }
        "8"
    } else {
        proof {
            reveal_strlit("9");
        }
        "9"
    }
}

/// Append the decimal digits of `n` to `s`.
fn push_dec(s: &mut String, n: u64)
    ensures
        final(s)@ == old(s)@ + dec_chars(n as int),
    decreases n,
{
    if n >= 10 {
        push_dec(s, n / 10);
    }
    s.append(digit_str(n % 10));
    proof {
        assert(s@ =~= old(s)@ + dec_chars(n as int));
    }
}

/// The number of digits of a channel byte.
proof fn lemma_dec_len(v: int)
    requires
        0 <= v < 256,
    ensures
        v < 10 ==> dec_chars(v).len() == 1,
        10 <= v < 100 ==> dec_chars(v).len() == 2,
        100 <= v ==> dec_chars(v).len() == 3,
{
    if v >= 10 {
        assert(dec_chars(v / 10).len() == if v / 10 < 10 {
            1int
        } else {
            2int
        }) by {
            if v / 10 >= 10 {
                assert(dec_chars(v / 10 / 10).len() == 1);
            }
        }
    }
}

/// Append one channel token to `s`, keeping `col` at the running column
/// count, exactly as [`tok_step`] states it.
fn emit_token(s: &mut String, col: &mut usize, v: u8, pending: bool)
    requires
        *old(col) <= 70,
        pending || *old(col) == 0,
    ensures
        final(s)@ == tok_step(old(s)@, *old(col) as int, v as int, pending).0,
        *final(col) as int == tok_step(old(s)@, *old(col) as int, v as int, pending).1,
        *final(col) <= 70,
{
    proof {
        lemma_dec_len(v as int);
        reveal_strlit(" ");
        reveal_strlit("\n");
    }
    let d: usize = if v < 10 {
        2
    } else if v < 100 {
        3
    } else {
        4
    };
    if pending {
        if *col + d > 70 {
            s.append("\n");
            *col = d;
        } else {
            s.append(" ");
            *col = *col + d;
        }
    } else {
        *col = *col + d;
    }
    push_dec(s, v as u64);
    proof {
        assert(s@ =~= tok_step(old(s)@, *old(col) as int, v as int, pending).0);
    }
}

} // verus!
