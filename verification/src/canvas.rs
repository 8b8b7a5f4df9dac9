//! Pixel buffers: color quantization and row-major byte storage.

use vstd::prelude::*;
use crate::fx::{Fx, fx_clamp};
use crate::color::{Color, ColorV};

verus! {

/// Fixed width of the statically sized canvas, in pixels.
pub const CANVAS_WIDTH: usize = 512;

/// Fixed height of the statically sized canvas, in pixels.
pub const CANVAS_HEIGHT: usize = 512;

/// Quantized byte of one channel: the intensity clamped to `[0, 1]`,
/// scaled to 255 and truncated.
pub open spec fn quant(c: int) -> int {
    (fx_clamp(c, 0, 65536) * 255) / 65536
}

/// Quantization always lands in a byte.
pub proof fn lemma_quant_range(c: int)
    ensures
        0 <= quant(c) <= 255,
{
    let v = fx_clamp(c, 0, 65536);
    vstd::arithmetic::div_mod::lemma_div_is_ordered(0, v * 255, 65536);
    vstd::arithmetic::div_mod::lemma_div_is_ordered(v * 255, 65536int * 255, 65536);
}

/// A buffer with pixel `(x, y)`'s quantized channels written at their
/// row-major offsets.
pub open spec fn put_pixel(buf: Seq<u8>, width: int, x: int, y: int, c: ColorV) -> Seq<u8> {
    buf.update((y * width + x) * 3, quant(c.r) as u8).update(
        (y * width + x) * 3 + 1,
        quant(c.g) as u8,
    ).update((y * width + x) * 3 + 2, quant(c.b) as u8)
}

/// One channel intensity reduced to its output byte.
fn quantize(c: Fx) -> (b: u8)
    ensures
        b as int == quant(c@),
{
    let v = c.clamp(Fx { raw: 0 }, Fx { raw: 65536 });
    proof {
        lemma_quant_range(c@);
    }
    (((v.raw as u64) * 255u64) / 65536u64) as u8
}

/// A pixel buffer whose dimensions are fixed by the build.
pub struct StaticCanvas {
    buffer: Vec<u8>,
}

impl View for StaticCanvas {
    type V = Seq<u8>;

    closed spec fn view(&self) -> Seq<u8> {
        self.buffer@
    }
}

impl StaticCanvas {
    /// A black canvas of the fixed dimensions.
    pub fn new() -> (c: StaticCanvas)
        ensures
            c@.len() == CANVAS_WIDTH as int * CANVAS_HEIGHT as int * 3,
            forall|i: int| 0 <= i < c@.len() ==> c@[i] == 0u8,
    {
        let n: usize = CANVAS_WIDTH * CANVAS_HEIGHT * 3;
        let mut buffer: Vec<u8> = Vec::new();
        let mut i: usize = 0;
        while i < n
            invariant
                i == buffer@.len() <= n,
                forall|j: int| 0 <= j < i ==> buffer@[j] == 0u8,
            decreases n - i,
        {
            buffer.push(0);
            i = i + 1;
        }
        StaticCanvas { buffer }
    }

    /// Quantize a color into pixel `(x, y)`.
    pub fn set_pixel(&mut self, x: usize, y: usize, c: Color)
        requires
            old(self)@.len() == CANVAS_WIDTH as int * CANVAS_HEIGHT as int * 3,
            x < CANVAS_WIDTH,
            y < CANVAS_HEIGHT,
        ensures
            final (self)@ == put_pixel(old(self)@, CANVAS_WIDTH as int, x as int, y as int, c@),
    {
        let base: usize = (y * CANVAS_WIDTH + x) * 3;
        let r = quantize(c.r);
        let g = quantize(c.g);
        let b = quantize(c.b);
        self.buffer.set(base, r);
        self.buffer.set(base + 1, g);
        self.buffer.set(base + 2, b);
    }

    /// Hand the finished bytes over, row-major, three per pixel.
    pub fn into_array(self) -> (r: Vec<u8>)
        ensures
            r@ == self@,
    {
        self.buffer
    }
}

/// A pixel buffer sized at construction.
pub struct DynamicCanvas {
    buffer: Vec<u8>,
    width: usize,
    height: usize,
}

impl View for DynamicCanvas {
    type V = Seq<u8>;

    closed spec fn view(&self) -> Seq<u8> {
        self.buffer@
    }
}

impl DynamicCanvas {
    /// The canvas's fixed width in pixels.
    pub closed spec fn spec_width(&self) -> int {
        self.width as int
    }

    /// The canvas's fixed height in pixels.
    pub closed spec fn spec_height(&self) -> int {
        self.height as int
    }

    /// The buffer holds exactly three bytes per pixel.
    pub open spec fn wf(&self) -> bool {
        self@.len() == self.spec_width() * self.spec_height() * 3
    }

    /// A black canvas of the given dimensions.
    pub fn new(width: usize, height: usize) -> (c: DynamicCanvas)
        requires
            width * height * 3 <= usize::MAX,
        ensures
            c.wf(),
            c.spec_width() == width as int,
            c.spec_height() == height as int,
            forall|i: int| 0 <= i < c@.len() ==> c@[i] == 0u8,
    {
        proof {
            assert(width * height <= width * height * 3);
        }
        let n: usize = width * height * 3;
        let mut buffer: Vec<u8> = Vec::new();
        let mut i: usize = 0;
        while i < n
            invariant
                i == buffer@.len() <= n,
                forall|j: int| 0 <= j < i ==> buffer@[j] == 0u8,
            decreases n - i,
        {
            buffer.push(0);
            i = i + 1;
        }
        DynamicCanvas { buffer, width, height }
    }

    /// The width in pixels.
    pub fn width(&self) -> (w: usize)
        ensures
            w as int == self.spec_width(),
    {
        self.width
    }

    /// The height in pixels.
    pub fn height(&self) -> (h: usize)
        ensures
            h as int == self.spec_height(),
    {
        self.height
    }

    /// Quantize a color into pixel `(x, y)`.
    pub fn set_pixel(&mut self, x: usize, y: usize, c: Color)
        requires
            old(self).wf(),
            x < old(self).spec_width(),
            y < old(self).spec_height(),
        ensures
            final (self).wf(),
            final (self).spec_width() == old(self).spec_width(),
            final (self).spec_height() == old(self).spec_height(),
            final (self)@ == put_pixel(old(self)@, old(self).spec_width(), x as int, y as int, c@),
    {
        let n = self.buffer.len();
        proof {
            assert((y * self.width + x) * 3 + 2 < self.width * self.height * 3)
                by (nonlinear_arith)
                requires
                    x < self.width,
                    y < self.height,
            ;
            assert(n as int == self.width * self.height * 3);
        }
        let base: usize = (y * self.width + x) * 3;
        let r = quantize(c.r);
        let g = quantize(c.g);
        let b = quantize(c.b);
        self.buffer.set(base, r);
        self.buffer.set(base + 1, g);
        self.buffer.set(base + 2, b);
    }

    /// Hand the finished bytes over, row-major, three per pixel.
    pub fn into_vec(self) -> (r: Vec<u8>)
        ensures
            r@ == self@,
    {
        self.buffer
    }
}

} // verus!
