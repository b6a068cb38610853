//! The buffer of stored pixel colours that a render fills.
//!
//! Pixels are kept column by column: pixel `(column, row)` stands at
//! `column * height + row`. An image encoder takes rows of RGB bytes, top
//! row first, which `to_raster` lays out.
use vstd::prelude::*;
use vstd::arithmetic::div_mod::{
    lemma_fundamental_div_mod,
    lemma_fundamental_div_mod_converse,
};
use crate::colour::{DiffuseColour, build_diffuse_colour, channel};
use image::codecs::png::PngEncoder;
use image::{ColorType, ImageEncoder};

verus! {

/// Where pixel `(column, row)` stands in a buffer of the given height.
pub open spec fn index_of(column: int, row: int, height: int) -> int {
    column * height + row
}

/// Byte `k` of the row-major RGB raster of a column-major buffer.
pub open spec fn raster_byte(pixels: Seq<DiffuseColour>, width: int, height: int, k: int) -> u8 {
    let p = k / 3;
    channel(pixels[index_of(p % width, p / width, height)], k % 3)
}

proof fn lemma_cell_in_bounds(column: int, row: int, width: int, height: int)
    requires
        0 <= column < width,
        0 <= row < height,
    ensures
        0 <= index_of(column, row, height) < width * height,
{
    assert(0 <= column * height + row < width * height) by (nonlinear_arith)
        requires
            0 <= column < width,
            0 <= row < height,
    ;
}

proof fn lemma_split_in_bounds(p: int, width: int, height: int)
    requires
        0 <= p < width * height,
        0 < width,
    ensures
        0 <= p % width < width,
        0 <= p / width < height,
{
    lemma_fundamental_div_mod(p, width);
    let row = p / width;
    let column = p % width;
    assert(0 <= row < height) by (nonlinear_arith)
        requires
            p == width * row + column,
            0 <= column < width,
            0 <= p < width * height,
    ;
}

/// The position of the pixel at `index` in a buffer of `height` rows.
pub open spec fn position_of(index: int, height: int) -> (int, int) {
    (index / height, index % height)
}

/// Where pixel `(column, row)` stands in a column-major buffer of
/// `width` columns of `height` rows.
pub fn pixel_index(column: usize, row: usize, width: usize, height: usize) -> (r: usize)
    requires
        column < width,
        row < height,
        width * height <= usize::MAX,
    ensures
        r == index_of(column as int, row as int, height as int),
        r < width * height,
{
    proof {
        lemma_cell_in_bounds(column as int, row as int, width as int, height as int);
        assert(column * height <= width * height) by (nonlinear_arith)
            requires
                column < width,
        ;
    }
    column * height + row
}

/// The column and row of the pixel at `index` in a column-major buffer of
/// `width` columns of `height` rows.
pub fn pixel_position(index: usize, width: usize, height: usize) -> (r: (usize, usize))
    requires
        index < width * height,
    ensures
        r.0 as int == position_of(index as int, height as int).0,
        r.1 as int == position_of(index as int, height as int).1,
        r.0 < width,
        r.1 < height,
{
    proof {
        assert(height > 0) by (nonlinear_arith)
            requires
                index < width * height,
        ;
        assert(height * width == width * height) by (nonlinear_arith);
        lemma_split_in_bounds(index as int, height as int, width as int);
    }
    (index / height, index % height)
}

/// The buffer layout is consistent: the position of a pixel's index is that
/// pixel, and the index of the position at an index is that index.
pub proof fn lemma_index_position_round_trip(column: int, row: int, index: int, width: int, height: int)
    requires
        0 <= column < width,
        0 <= row < height,
        0 <= index < width * height,
    ensures
        position_of(index_of(column, row, height), height) == (column, row),
        index_of(position_of(index, height).0, position_of(index, height).1, height) == index,
{
    lemma_fundamental_div_mod_converse(column * height + row, height, column, row);
    assert(height > 0) by (nonlinear_arith)
        requires
            0 <= index < width * height,
            0 <= column < width,
    ;
    lemma_fundamental_div_mod(index, height);
    assert(index / height * height == height * (index / height)) by (nonlinear_arith);
}

/// The PNG file that image's encoder writes for an 8-bit RGB raster of the
/// given size, with its default compression and filtering.
pub uninterp spec fn png_of(raster: Seq<u8>, width: u32, height: u32) -> Seq<u8>;

/// Relies on image's `PngEncoder::new` and `ImageEncoder::write_image`
/// (0.24) with `ColorType::Rgb8`: on success the bytes written are the PNG
/// file of the raster. It panics unless the raster holds three bytes per
/// pixel. It fails, which gives `None`, only on a zero width or height: the
/// header check of png's `Writer::init`; writes into a `Vec` do not fail.
#[verifier::external_body]
fn encode_png(raster: &Vec<u8>, width: u32, height: u32) -> (r: Option<Vec<u8>>)
    requires
        raster@.len() == 3 * (width * height),
    ensures
        0 < width && 0 < height ==> r is Some,
        r matches Some(file) ==> file@ == png_of(raster@, width, height),
{
    let mut file: Vec<u8> = Vec::new();
    match PngEncoder::new(&mut file).write_image(raster.as_slice(), width, height, ColorType::Rgb8) {
        Ok(()) => Some(file),
        Err(_) => None,
    }
}

/// A `width` by `height` buffer of stored colours.
pub struct Framebuffer {
    width: usize,
    height: usize,
    pixels: Vec<DiffuseColour>,
}

impl Framebuffer {
    /// Number of columns.
    pub closed spec fn spec_width(&self) -> nat {
        self.width as nat
    }

    /// Number of rows.
    pub closed spec fn spec_height(&self) -> nat {
        self.height as nat
    }

    /// The colours, column by column.
    pub closed spec fn spec_pixels(&self) -> Seq<DiffuseColour> {
        self.pixels@
    }

    /// The buffer holds one colour per pixel, and its RGB raster fits in
    /// memory.
    pub closed spec fn wf(&self) -> bool {
        &&& self.pixels@.len() == self.width * self.height
        &&& 3 * (self.width * self.height) <= usize::MAX
    }

    /// The RGB raster of the buffer: rows of RGB bytes, top row first.
    pub open spec fn raster(&self) -> Seq<u8> {
        Seq::new(
            3 * (self.spec_width() * self.spec_height()),
            |k: int|
                raster_byte(
                    self.spec_pixels(),
                    self.spec_width() as int,
                    self.spec_height() as int,
                    k,
                ),
        )
    }

    /// A well-formed buffer holds one colour per pixel, and its RGB raster
    /// fits in memory.
    pub proof fn lemma_wf_size(&self)
        requires
            self.wf(),
        ensures
            self.spec_pixels().len() == self.spec_width() * self.spec_height(),
            3 * (self.spec_width() * self.spec_height()) <= usize::MAX,
    {
    }

    /// The colour of pixel `(column, row)`.
    pub open spec fn pixel(&self, column: int, row: int) -> DiffuseColour {
        self.spec_pixels()[index_of(column, row, self.spec_height() as int)]
    }

    /// A black buffer of `width` columns and `height` rows, or `None` where
    /// its RGB raster would not fit in memory.
    pub fn new(width: usize, height: usize) -> (r: Option<Framebuffer>)
        ensures
            r.is_some() <==> 3 * (width * height) <= usize::MAX,
            r matches Some(fb) ==> {
                &&& fb.wf()
                &&& fb.spec_width() == width
                &&& fb.spec_height() == height
                &&& fb.spec_pixels() == Seq::new(
                    (width * height) as nat,
                    |i: int| DiffuseColour { r: 0, g: 0, b: 0 },
                )
            },
    {
        let n = match width.checked_mul(height) {
            Some(n) => n,
            None => {
                assert(3 * (width * height) > usize::MAX) by (nonlinear_arith)
                    requires
                        width * height > usize::MAX,
                ;
                return None;
            },
        };
        if n > usize::MAX / 3 {
            return None;
        }
        let mut pixels: Vec<DiffuseColour> = Vec::new();
        let mut i: usize = 0;
        while i < n
            invariant
                i <= n,
                pixels@ == Seq::new(i as nat, |j: int| DiffuseColour { r: 0, g: 0, b: 0 }),
            decreases n - i,
        {
            pixels.push(build_diffuse_colour());
            i = i + 1;
        }
        Some(Framebuffer { width, height, pixels })
    }

    /// Number of columns.
    pub fn width(&self) -> (r: usize)
        ensures
            r == self.spec_width(),
    {
        self.width
    }

    /// Number of rows.
    pub fn height(&self) -> (r: usize)
        ensures
            r == self.spec_height(),
    {
        self.height
    }

    /// The colour of pixel `(column, row)`.
    pub fn get(&self, column: usize, row: usize) -> (r: DiffuseColour)
        requires
            self.wf(),
            column < self.spec_width(),
            row < self.spec_height(),
        ensures
            r == self.pixel(column as int, row as int),
    {
        let i = pixel_index(column, row, self.width, self.height);
        self.pixels[i]
    }

    /// Stores `colour` at pixel `(column, row)`; every other pixel keeps its
    /// colour.
    pub fn set(&mut self, column: usize, row: usize, colour: DiffuseColour)
        requires
            old(self).wf(),
            column < old(self).spec_width(),
            row < old(self).spec_height(),
        ensures
            final(self).wf(),
            final(self).spec_width() == old(self).spec_width(),
            final(self).spec_height() == old(self).spec_height(),
            final(self).spec_pixels() == old(self).spec_pixels().update(
                index_of(column as int, row as int, old(self).spec_height() as int),
                colour,
            ),
    {
        let i = pixel_index(column, row, self.width, self.height);
        self.pixels.set(i, colour);
    }

    /// The RGB bytes of the image, row by row from the top, each row from
    /// the left: pixel `(column, row)` gives bytes `3 * (row * width +
    /// column)` to `3 * (row * width + column) + 2`, red, green, blue.
    pub fn to_raster(&self) -> (r: Vec<u8>)
        requires
            self.wf(),
        ensures
            r@ == self.raster(),
            r@.len() == 3 * (self.spec_width() * self.spec_height()),
            forall|column: int, row: int, c: int|
                0 <= column < self.spec_width() && 0 <= row < self.spec_height() && 0 <= c < 3
                    ==> #[trigger] r@[3 * (row * self.spec_width() + column) + c] == channel(
                    self.pixel(column, row),
                    c,
                ),
    {
        let w = self.width;
        let h = self.height;
        let n = w * h;
        let mut out: Vec<u8> = Vec::new();
        let mut p: usize = 0;
        while p < n
            invariant
                self.wf(),
                w == self.width,
                h == self.height,
                n == w * h,
                p <= n,
                out@.len() == 3 * p,
                forall|k: int| 0 <= k < 3 * p ==> #[trigger] out@[k] == raster_byte(
                    self.pixels@,
                    w as int,
                    h as int,
                    k,
                ),
            decreases n - p,
        {
            proof {
                assert(w > 0) by (nonlinear_arith)
                    requires
                        p < w * h,
                ;
                lemma_split_in_bounds(p as int, w as int, h as int);
                lemma_cell_in_bounds((p % w) as int, (p / w) as int, w as int, h as int);
            }
            let column = p % w;
            let row = p / w;
            let colour = self.pixels[column * h + row];
            let ghost before = out@;
            out.push(colour.r);
            out.push(colour.g);
            out.push(colour.b);
            proof {
                assert forall|k: int| 0 <= k < 3 * (p + 1) implies #[trigger] out@[k] == raster_byte(
                    self.pixels@,
                    w as int,
                    h as int,
                    k,
                ) by {
                    if k >= 3 * p {
                        lemma_fundamental_div_mod_converse(k, 3, p as int, k - 3 * p);
                    } else {
                        assert(out@[k] == before[k]);
                    }
                }
            }
            p = p + 1;
        }
        proof {
            let wi = w as int;
            let hi = h as int;
            assert forall|column: int, row: int, c: int|
                0 <= column < wi && 0 <= row < hi && 0 <= c < 3 implies #[trigger] out@[3 * (row
                    * wi + column) + c] == channel(self.pixel(column, row), c) by {
                let q = row * wi + column;
                assert(0 <= q < wi * hi) by (nonlinear_arith)
                    requires
                        0 <= column < wi,
                        0 <= row < hi,
                        q == row * wi + column,
                ;
                lemma_fundamental_div_mod_converse(3 * q + c, 3, q, c);
                lemma_fundamental_div_mod_converse(q, wi, row, column);
            }
            assert(out@ =~= self.raster());
        }
        out
    }

    /// The buffer as a PNG file; `None` where a side is empty or does not
    /// fit the format's 32-bit sizes.
    pub fn to_png(&self) -> (r: Option<Vec<u8>>)
        requires
            self.wf(),
        ensures
            r is Some <==> (0 < self.spec_width() <= u32::MAX && 0 < self.spec_height()
                <= u32::MAX),
            r matches Some(file) ==> {
                &&& self.spec_width() <= u32::MAX
                &&& self.spec_height() <= u32::MAX
                &&& file@ == png_of(
                    self.raster(),
                    self.spec_width() as u32,
                    self.spec_height() as u32,
                )
            },
    {
        if self.width == 0 || self.height == 0 || self.width > u32::MAX as usize
            || self.height > u32::MAX as usize {
            return None;
        }
        let raster = self.to_raster();
        encode_png(&raster, self.width as u32, self.height as u32)
    }
}

} // verus!
