use vstd::prelude::*;

verus! {

/// Grey value written for a pixel whose field level reaches the threshold.
/// Kept below full white so that the white grid stays visible over blobs.
pub const LIT: u8 = 200;

/// Field level from which a pixel is lit.
pub const THRESHOLD: u8 = 100;

/// Alpha of every pixel.
pub const OPAQUE: u8 = 255;

/// Grey value of a pixel whose clamped field level is `level`.
pub open spec fn shade_spec(level: u8) -> u8 {
    if level < THRESHOLD {
        0
    } else {
        LIT
    }
}

/// The row-major RGBA8 bytes of a raster whose pixels have the given field levels.
pub open spec fn rgba_spec(levels: Seq<u8>) -> Seq<u8> {
    Seq::new(
        4 * levels.len(),
        |j: int|
            if j % 4 == 3 {
                OPAQUE
            } else {
                shade_spec(levels[j / 4])
            },
    )
}

/// Byte offset of pixel `(x, y)` in a row-major raster `width` pixels wide.
pub open spec fn offset_spec(width: int, x: int, y: int) -> int {
    4 * (y * width + x)
}

/// Field levels of `n` pixels with no ball contributing: zero everywhere.
pub open spec fn empty_field(n: nat) -> Seq<u8> {
    Seq::new(n, |i: int| 0u8)
}

/// With no balls the field is zero at every pixel, so the shaded raster is
/// opaque black: four bytes per pixel, colour channels 0, alpha 255.
pub proof fn lemma_empty_field_is_black(n: nat)
    ensures
        rgba_spec(empty_field(n)).len() == 4 * n,
        forall|j: int|
            0 <= j < 4 * n ==> #[trigger] rgba_spec(empty_field(n))[j] == if j % 4
                == 3 {
                OPAQUE
            } else {
                0u8
            },
{
    let zero = empty_field(n);
    assert forall|j: int| 0 <= j < 4 * n implies #[trigger] rgba_spec(zero)[j] == if j % 4 == 3 {
        OPAQUE
    } else {
        0u8
    } by {
        assert(zero[j / 4] == 0u8);
    }
}

/// Pixel `(x, y)` of a `width` by `height` raster sits at byte offset
/// `4 * (y * width + x)`: three grey channels shaded from that pixel's level,
/// then opaque alpha.
pub proof fn lemma_pixel_layout(levels: Seq<u8>, width: nat, height: nat, x: nat, y: nat)
    requires
        levels.len() == width * height,
        x < width,
        y < height,
    ensures
        ({
            let o = offset_spec(width as int, x as int, y as int);
            let g = shade_spec(levels[(y * width + x) as int]);
            &&& o + 3 < rgba_spec(levels).len()
            &&& rgba_spec(levels)[o] == g
            &&& rgba_spec(levels)[o + 1] == g
            &&& rgba_spec(levels)[o + 2] == g
            &&& rgba_spec(levels)[o + 3] == OPAQUE
        }),
{
    let p = y * width + x;
    assert(p < width * height) by (nonlinear_arith)
        requires
            x < width,
            y < height,
            p == y * width + x,
    ;
    let o = 4 * p;
    assert(o / 4 == p && (o + 1) / 4 == p && (o + 2) / 4 == p && (o + 3) / 4 == p);
    assert(o % 4 == 0 && (o + 1) % 4 == 1 && (o + 2) % 4 == 2 && (o + 3) % 4 == 3);
}

/// Maps a clamped field level to the grey value of its pixel.
pub fn shade(level: u8) -> (r: u8)
    ensures
        r == shade_spec(level),
{
    if level < THRESHOLD {
        0
    } else {
        LIT
    }
}

/// Byte offset of pixel `(x, y)`; the pixel lies inside a `width` by `height` raster.
pub fn pixel_offset(width: usize, height: usize, x: usize, y: usize) -> (r: usize)
    requires
        x < width,
        y < height,
        4 * (width * height) <= usize::MAX,
    ensures
        r == offset_spec(width as int, x as int, y as int),
        r + 3 < 4 * (width * height),
{
    proof {
        assert(y * width + x < width * height) by (nonlinear_arith)
            requires
                x < width,
                y < height,
        ;
    }
    4 * (y * width + x)
}

/// An owned raster of `width * height` RGBA8 pixels, row-major, allocated once
/// and overwritten in place each frame.
pub struct PixelBuffer {
    width: usize,
    height: usize,
    bytes: Vec<u8>,
}

impl View for PixelBuffer {
    type V = Seq<u8>;

    closed spec fn view(&self) -> Seq<u8> {
        self.bytes@
    }
}

impl PixelBuffer {
    pub closed spec fn spec_width(&self) -> nat {
        self.width as nat
    }

    pub closed spec fn spec_height(&self) -> nat {
        self.height as nat
    }

    /// The byte length matches the dimensions and fits the address space.
    pub closed spec fn wf(&self) -> bool {
        &&& self.bytes@.len() == 4 * (self.width * self.height)
        &&& 4 * (self.width * self.height) <= usize::MAX
    }

    /// A raster of the given size, every pixel opaque black.
    pub fn new(width: usize, height: usize) -> (r: PixelBuffer)
        requires
            4 * (width * height) <= usize::MAX,
        ensures
            r.wf(),
            r.spec_width() == width,
            r.spec_height() == height,
            r@ == rgba_spec(empty_field((width * height) as nat)),
    {
        proof {
            assert(width * height <= 4 * (width * height)) by (nonlinear_arith);
        }
        let total: usize = 4 * (width * height);
        let mut bytes: Vec<u8> = Vec::with_capacity(total);
        let ghost black = empty_field((width * height) as nat);
        let mut j: usize = 0;
        while j < total
            invariant
                j <= total,
                total == 4 * (width * height),
                black == empty_field((width * height) as nat),
                bytes@.len() == j,
                forall|k: int| 0 <= k < j ==> bytes@[k] == rgba_spec(black)[k],
            decreases total - j,
        {
            let b: u8 = if j % 4 == 3 { OPAQUE } else { 0 };
            bytes.push(b);
            assert(bytes@[j as int] == rgba_spec(black)[j as int]);
            j = j + 1;
        }
        let r = PixelBuffer { width, height, bytes };
        assert(r@ =~= rgba_spec(black));
        r
    }

    pub fn width(&self) -> (r: usize)
        ensures
            r == self.spec_width(),
    {
        self.width
    }

    pub fn height(&self) -> (r: usize)
        ensures
            r == self.spec_height(),
    {
        self.height
    }

    /// The raw bytes, row-major RGBA8, ready to hand to a display.
    pub fn bytes(&self) -> (r: &[u8])
        ensures
            r@ == self@,
    {
        self.bytes.as_slice()
    }

    /// The four channels of pixel `(x, y)`.
    pub fn pixel(&self, x: usize, y: usize) -> (r: (u8, u8, u8, u8))
        requires
            self.wf(),
            x < self.spec_width(),
            y < self.spec_height(),
        ensures
            ({
                let o = offset_spec(self.spec_width() as int, x as int, y as int);
                r == (self@[o], self@[o + 1], self@[o + 2], self@[o + 3])
            }),
    {
        let o: usize = pixel_offset(self.width, self.height, x, y);
        (self.bytes[o], self.bytes[o + 1], self.bytes[o + 2], self.bytes[o + 3])
    }

    /// Overwrites every pixel from its clamped field level, given row-major:
    /// grey `shade(level)` in the three colour channels, opaque alpha.
    /// The size and the allocation are kept.
    pub fn shade_levels(&mut self, levels: &Vec<u8>)
        requires
            old(self).wf(),
            levels@.len() == old(self).spec_width() * old(self).spec_height(),
        ensures
            final(self).wf(),
            final(self).spec_width() == old(self).spec_width(),
            final(self).spec_height() == old(self).spec_height(),
            final(self)@ == rgba_spec(levels@),
    {
        let n: usize = levels.len();
        let mut i: usize = 0;
        while i < n
            invariant
                self.wf(),
                self.width == old(self).width,
                self.height == old(self).height,
                n == levels@.len(),
                self.bytes@.len() == 4 * n,
                i <= n,
                forall|k: int| 0 <= k < 4 * i ==> self.bytes@[k] == rgba_spec(levels@)[k],
            decreases n - i,
        {
            let g = shade(levels[i]);
            let o: usize = 4 * i;
            self.bytes.set(o, g);
            self.bytes.set(o + 1, g);
            self.bytes.set(o + 2, g);
            self.bytes.set(o + 3, OPAQUE);
            i = i + 1;
        }
        assert(self@ =~= rgba_spec(levels@));
    }
}

} // verus!
