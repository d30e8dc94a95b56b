//! A BGRX 32-bit pixel buffer over borrowed memory: each pixel is blue, green, red and
//! an unused byte; rows are `stride_bytes` apart (at least `4 × width`).

use vstd::prelude::*;
use vstd::arithmetic::div_mod::{lemma_fundamental_div_mod_converse, lemma_fundamental_div_mod};

verus! {

/// An 8-bit-per-channel RGB color.
#[derive(Debug, Clone, Copy, PartialEq, Eq, Structural)]
pub struct Rgb {
    pub r: u8,
    pub g: u8,
    pub b: u8,
}

impl Rgb {
    pub fn new(r: u8, g: u8, b: u8) -> (c: Self)
        ensures
            c == (Rgb { r, g, b }),
    {
        Rgb { r, g, b }
    }
}

/// A BGRX framebuffer borrowing its bytes.
pub struct BgrxFramebuffer<'a> {
    data: &'a mut [u8],
    width: u32,
    height: u32,
    stride_bytes: usize,
}

/// The abstract state of a framebuffer.
pub struct FbModel {
    pub bytes: Seq<u8>,
    pub width: u32,
    pub height: u32,
    pub stride: usize,
}

impl<'a> View for BgrxFramebuffer<'a> {
    type V = FbModel;

    closed spec fn view(&self) -> FbModel {
        FbModel { bytes: self.data@, width: self.width, height: self.height, stride: self.stride_bytes }
    }
}

/// Rows fit in the bytes and each row holds its pixels.
pub open spec fn fb_shape_ok(m: FbModel) -> bool {
    &&& m.stride * m.height <= m.bytes.len()
    &&& m.stride >= 4 * m.width
}

/// Byte offset of pixel `(x, y)`.
pub open spec fn pixel_offset(m: FbModel, x: int, y: int) -> int {
    y * m.stride + 4 * x
}

/// The color at `(x, y)`, or `None` outside the buffer.
pub open spec fn pixel_spec(m: FbModel, x: int, y: int) -> Option<Rgb> {
    if 0 <= x < m.width && 0 <= y < m.height {
        let o = pixel_offset(m, x, y);
        Some(Rgb { r: m.bytes[o + 2], g: m.bytes[o + 1], b: m.bytes[o] })
    } else {
        None
    }
}

/// Byte `k` (0..4) of a BGRX pixel of color `c`.
pub open spec fn channel(c: Rgb, k: int) -> u8 {
    if k == 0 { c.b } else if k == 1 { c.g } else if k == 2 { c.r } else { 0 }
}

/// `bytes` with the pixel at offset `o` set to `c`.
pub open spec fn with_pixel(bytes: Seq<u8>, o: int, c: Rgb) -> Seq<u8> {
    bytes.update(o, c.b).update(o + 1, c.g).update(o + 2, c.r).update(o + 3, 0)
}

/// `m` with pixel `(x, y)` set to `c` (unchanged outside the buffer).
pub open spec fn written(m: FbModel, x: int, y: int, c: Rgb) -> FbModel {
    if 0 <= x < m.width && 0 <= y < m.height {
        FbModel { bytes: with_pixel(m.bytes, pixel_offset(m, x, y), c), ..m }
    } else {
        m
    }
}

/// One channel of `f` laid over `b` with opacity `a` / 255, rounded to nearest.
pub open spec fn blend_channel(b: u8, f: u8, a: int) -> u8 {
    ((b * (255 - a) + f * a + 127) / 255) as u8
}

/// `m` after blending `fg` with opacity `alpha` onto pixel `(x, y)`.
pub open spec fn blended(m: FbModel, x: int, y: int, fg: Rgb, alpha: u8) -> FbModel {
    if alpha == 0 || !(0 <= x < m.width && 0 <= y < m.height) {
        m
    } else if alpha == 255 {
        written(m, x, y, fg)
    } else {
        let bg = pixel_spec(m, x, y)->0;
        written(m, x, y, Rgb {
            r: blend_channel(bg.r, fg.r, alpha as int),
            g: blend_channel(bg.g, fg.g, alpha as int),
            b: blend_channel(bg.b, fg.b, alpha as int),
        })
    }
}

/// Whether byte `i` belongs to a pixel in columns `[x0, x1)` of rows `[y0, y1)`.
pub open spec fn in_block(stride: int, i: int, x0: int, x1: int, y0: int, y1: int) -> bool {
    &&& y0 <= i / stride < y1
    &&& 4 * x0 <= i % stride < 4 * x1
}

/// `bytes` with every pixel of columns `[x0, x1)`, rows `[y0, y1)` set to `c`.
pub open spec fn block_filled(bytes: Seq<u8>, stride: int, x0: int, x1: int, y0: int, y1: int, c: Rgb) -> Seq<u8> {
    Seq::new(bytes.len(), |i: int| if in_block(stride, i, x0, x1, y0, y1) { channel(c, (i % stride) % 4) } else { bytes[i] })
}

/// `min(a + b, limit)` with the sum saturating at `u32::MAX`.
pub open spec fn clip_end(a: u32, b: u32, limit: u32) -> int {
    let s = if a + b > u32::MAX { u32::MAX as int } else { a + b };
    if s < limit { s } else { limit as int }
}

/// `m` after filling the rectangle at `(x, y)` of `w × h` pixels with `c`, clipped to
/// the buffer.
pub open spec fn rect_filled(m: FbModel, x: u32, y: u32, w: u32, h: u32, c: Rgb) -> FbModel {
    let x1 = clip_end(x, w, m.width);
    let y1 = clip_end(y, h, m.height);
    let x0 = if x < m.width { x as int } else { m.width as int };
    let y0 = if y < m.height { y as int } else { m.height as int };
    if w == 0 || h == 0 || x0 >= x1 || y0 >= y1 {
        m
    } else {
        FbModel { bytes: block_filled(m.bytes, m.stride as int, x0, x1, y0, y1, c), ..m }
    }
}

proof fn lemma_row_col(stride: int, row: int, col: int)
    requires
        stride > 0,
        row >= 0,
        0 <= col < stride,
    ensures
        (row * stride + col) / stride == row,
        (row * stride + col) % stride == col,
{
    lemma_fundamental_div_mod_converse(row * stride + col, stride, row, col);
}

impl<'a> BgrxFramebuffer<'a> {
    #[verifier::type_invariant]
    closed spec fn shape_inv(&self) -> bool {
        fb_shape_ok(self@)
    }

    /// A framebuffer over `data`, or `None` when `data` is shorter than `height` rows of
    /// `stride_bytes`, the stride cannot hold `width` pixels, or the size overflows.
    pub fn new(data: &'a mut [u8], width: u32, height: u32, stride_bytes: usize) -> (r: Option<Self>)
        requires
            4 * width <= usize::MAX,
        ensures
            match r {
                Some(fb) => fb@ == (FbModel { bytes: old(data)@, width, height, stride: stride_bytes })
                    && fb_shape_ok(fb@),
                None => !(stride_bytes * height <= usize::MAX && stride_bytes * height <= old(data)@.len()
                    && stride_bytes >= 4 * width),
            },
    {
        let min = match stride_bytes.checked_mul(height as usize) {
            Some(m) => m,
            None => {
                return None;
            },
        };
        if data.len() < min || stride_bytes < width as usize * 4 {
            return None;
        }
        Some(BgrxFramebuffer { data, width, height, stride_bytes })
    }

    pub fn width(&self) -> (r: u32)
        ensures
            r == self@.width,
    {
        self.width
    }

    pub fn height(&self) -> (r: u32)
        ensures
            r == self@.height,
    {
        self.height
    }

    pub fn stride_bytes(&self) -> (r: usize)
        ensures
            r == self@.stride,
    {
        self.stride_bytes
    }

    /// The color at `(x, y)`, or `None` outside the buffer.
    pub fn pixel_at(&self, x: u32, y: u32) -> (r: Option<Rgb>)
        ensures
            r == pixel_spec(self@, x as int, y as int),
            fb_shape_ok(self@),
    {
        proof { use_type_invariant(self); }
        if x >= self.width || y >= self.height {
            return None;
        }
        let ghost m = self@;
        let n = self.data.len();
        assert(y * m.stride + 4 * x + 4 <= m.stride * m.height && y * m.stride <= m.stride * m.height) by (nonlinear_arith)
            requires
                y < m.height,
                x < m.width,
                m.stride >= 4 * m.width;
        let offset = y as usize * self.stride_bytes + x as usize * 4;
        Some(Rgb { r: self.data[offset + 2], g: self.data[offset + 1], b: self.data[offset] })
    }

    /// Set pixel `(x, y)` to `c`; points outside the buffer are ignored.
    pub fn write_rgb(&mut self, x: u32, y: u32, c: Rgb)
        ensures
            final(self)@ == written(old(self)@, x as int, y as int, c),
    {
        proof { use_type_invariant(&*self); }
        if x >= self.width || y >= self.height {
            return;
        }
        let ghost m = self@;
        let n = self.data.len();
        assert(y * m.stride + 4 * x + 4 <= m.stride * m.height && y * m.stride <= m.stride * m.height) by (nonlinear_arith)
            requires
                y < m.height,
                x < m.width,
                m.stride >= 4 * m.width;
        let offset = y as usize * self.stride_bytes + x as usize * 4;
        self.data[offset] = c.b;
        self.data[offset + 1] = c.g;
        self.data[offset + 2] = c.r;
        self.data[offset + 3] = 0;
    }

    /// Set the pixel at signed coordinates `(x, y)` to `c`; points with a negative
    /// coordinate or outside the buffer are discarded.
    pub fn draw_pixel(&mut self, x: i32, y: i32, c: Rgb)
        ensures
            final(self)@ == written(old(self)@, x as int, y as int, c),
    {
        if x < 0 || y < 0 {
            return;
        }
        self.write_rgb(x as u32, y as u32, c);
    }

    /// Blend `fg` with opacity `alpha` (0–255) onto pixel `(x, y)` (see [`blended`]).
    pub fn blend_pixel(&mut self, x: u32, y: u32, fg: Rgb, alpha: u8)
        ensures
            final(self)@ == blended(old(self)@, x as int, y as int, fg, alpha),
    {
        if alpha == 0 || x >= self.width || y >= self.height {
            return;
        }
        if alpha == 255 {
            self.write_rgb(x, y, fg);
            return;
        }
        let bg = match self.pixel_at(x, y) {
            Some(c) => c,
            None => {
                return;
            },
        };
        let a = alpha as u32;
        let c = Rgb {
            r: blend_byte(bg.r, fg.r, a),
            g: blend_byte(bg.g, fg.g, a),
            b: blend_byte(bg.b, fg.b, a),
        };
        self.write_rgb(x, y, c);
    }
}

/// Progress of a block fill: rows `[y0, row)` done, and in row `row` the pixels of
/// columns `[x0, px)`.
pub open spec fn fill_progress(bytes: Seq<u8>, stride: int, x0: int, x1: int, y0: int, row: int, px: int, c: Rgb) -> Seq<u8> {
    Seq::new(bytes.len(), |i: int|
        if in_block(stride, i, x0, x1, y0, row) || (i / stride == row && 4 * x0 <= i % stride < 4 * px) {
            channel(c, (i % stride) % 4)
        } else {
            bytes[i]
        })
}

proof fn lemma_fill_step(bytes: Seq<u8>, stride: int, x0: int, x1: int, y0: int, row: int, px: int, c: Rgb)
    requires
        stride > 0,
        0 <= y0 <= row,
        0 <= x0 <= px < x1,
        4 * x1 <= stride,
        (row + 1) * stride <= bytes.len(),
    ensures
        fill_progress(bytes, stride, x0, x1, y0, row, px + 1, c)
            == with_pixel(fill_progress(bytes, stride, x0, x1, y0, row, px, c), row * stride + 4 * px, c),
{
    let o = row * stride + 4 * px;
    assert(o + 4 <= bytes.len()) by (nonlinear_arith)
        requires
            o == row * stride + 4 * px,
            4 * px + 4 <= stride,
            (row + 1) * stride <= bytes.len();
    let a = fill_progress(bytes, stride, x0, x1, y0, row, px + 1, c);
    let b = with_pixel(fill_progress(bytes, stride, x0, x1, y0, row, px, c), o, c);
    assert forall|i: int| 0 <= i < bytes.len() implies a[i] == b[i] by {
        lemma_fundamental_div_mod(i, stride);
        vstd::arithmetic::div_mod::lemma_mod_bound(i, stride);
        if o <= i < o + 4 {
            lemma_row_col(stride, row, 4 * px + (i - o));
            assert(i / stride == row);
            assert(i % stride == 4 * px + (i - o));
            lemma_fundamental_div_mod_converse(i % stride, 4, px, i - o);
        } else {
            if i / stride == row && 4 * px <= i % stride < 4 * px + 4 {
                assert(i == stride * row + i % stride);
                assert(stride * row == row * stride) by (nonlinear_arith);
                assert(false);
            }
        }
    }
    assert(a =~= b);
}

proof fn lemma_fill_row_done(bytes: Seq<u8>, stride: int, x0: int, x1: int, y0: int, row: int, c: Rgb)
    requires
        stride > 0,
        y0 <= row,
    ensures
        fill_progress(bytes, stride, x0, x1, y0, row, x1, c) == fill_progress(bytes, stride, x0, x1, y0, row + 1, x0, c),
        fill_progress(bytes, stride, x0, x1, y0, y0, x0, c) == bytes,
{
    assert(fill_progress(bytes, stride, x0, x1, y0, row, x1, c) =~= fill_progress(bytes, stride, x0, x1, y0, row + 1, x0, c));
    assert(fill_progress(bytes, stride, x0, x1, y0, y0, x0, c) =~= bytes);
}

impl<'a> BgrxFramebuffer<'a> {
    /// Fill the rectangle at `(x, y)` of `width × height` pixels with `c`, clipped to the
    /// buffer (see [`rect_filled`]).
    pub fn fill_rect_solid(&mut self, x: u32, y: u32, width: u32, height: u32, c: Rgb)
        ensures
            final(self)@ == rect_filled(old(self)@, x, y, width, height, c),
    {
        proof { use_type_invariant(&*self); }
        if width == 0 || height == 0 {
            return;
        }
        let xs = x.saturating_add(width);
        let ys = y.saturating_add(height);
        let x1 = if xs < self.width { xs } else { self.width };
        let y1 = if ys < self.height { ys } else { self.height };
        let x0 = if x < self.width { x } else { self.width };
        let y0 = if y < self.height { y } else { self.height };
        if x0 >= x1 || y0 >= y1 {
            return;
        }
        let ghost m = self@;
        let stride = self.stride_bytes;
        let n = self.data.len();
        assert(stride > 0);
        let mut row = y0;
        proof { lemma_fill_row_done(m.bytes, stride as int, x0 as int, x1 as int, y0 as int, y0 as int, c); }
        while row < y1
            invariant
                self@.width == m.width && self@.height == m.height && self@.stride == m.stride,
                stride == m.stride,
                n == m.bytes.len(),
                fb_shape_ok(m),
                stride > 0,
                x0 < x1 <= m.width,
                y0 <= row <= y1 <= m.height,
                self@.bytes == fill_progress(m.bytes, stride as int, x0 as int, x1 as int, y0 as int, row as int, x0 as int, c),
            decreases y1 - row,
        {
            assert((row as int + 1) * stride <= stride * m.height && row * stride <= n) by (nonlinear_arith)
                requires
                    row < m.height,
                    stride * m.height <= n;
            let base = row as usize * stride;
            let mut px = x0;
            while px < x1
                invariant
                    self@.width == m.width && self@.height == m.height && self@.stride == m.stride,
                    stride == m.stride,
                    n == m.bytes.len(),
                    fb_shape_ok(m),
                    stride > 0,
                    x0 <= px <= x1 <= m.width,
                    y0 <= row < y1 <= m.height,
                    base == row * stride,
                    (row as int + 1) * stride <= n,
                    self@.bytes == fill_progress(m.bytes, stride as int, x0 as int, x1 as int, y0 as int, row as int, px as int, c),
                decreases x1 - px,
            {
                proof {
                    lemma_fill_step(m.bytes, stride as int, x0 as int, x1 as int, y0 as int, row as int, px as int, c);
                }
                assert(row * stride + 4 * px + 4 <= n) by (nonlinear_arith)
                    requires
                        (row as int + 1) * stride <= n,
                        4 * px + 4 <= 4 * x1,
                        4 * x1 <= 4 * m.width,
                        4 * m.width <= stride;
                let o = base + px as usize * 4;
                self.data[o] = c.b;
                self.data[o + 1] = c.g;
                self.data[o + 2] = c.r;
                self.data[o + 3] = 0;
                px = px + 1;
            }
            proof { lemma_fill_row_done(m.bytes, stride as int, x0 as int, x1 as int, y0 as int, row as int, c); }
            row = row + 1;
        }
        assert(self@.bytes =~= block_filled(m.bytes, stride as int, x0 as int, x1 as int, y0 as int, y1 as int, c));
    }
}

/// [`blend_channel`] in `u32` arithmetic.
fn blend_byte(b: u8, f: u8, a: u32) -> (r: u8)
    requires
        a <= 255,
    ensures
        r == blend_channel(b, f, a as int),
{
    assert((b as int) * (255 - a) + (f as int) * a + 127 <= 255 * 255 + 127) by (nonlinear_arith)
        requires
            b <= 255,
            f <= 255,
            a <= 255;
    assert(((b as int) * (255 - a) + (f as int) * a + 127) / 255 <= 255) by (nonlinear_arith)
        requires
            (b as int) * (255 - a) + (f as int) * a + 127 <= 255 * 255 + 127;
    ((b as u32 * (255 - a) + f as u32 * a + 127) / 255) as u8
}

} // verus!
