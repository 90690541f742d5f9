//! Rasters: single-band images of byte samples, stored row by row.

use vstd::prelude::*;

verus! {

/// What a raster holds: its size and its samples, row by row from the top,
/// each row from the left.
pub struct RasterView {
    pub width: nat,
    pub height: nat,
    pub samples: Seq<u8>,
}

impl RasterView {
    /// Neither side is zero, and there is one sample for each pixel.
    pub open spec fn wf(self) -> bool {
        &&& self.width > 0
        &&& self.height > 0
        &&& self.samples.len() == self.width * self.height
    }

    /// The sample of the pixel in column `x` of row `y`. The row stride is
    /// the width of the raster, which on a square raster is also its height.
    pub open spec fn at(self, x: int, y: int) -> u8
        recommends
            0 <= x < self.width,
            0 <= y < self.height,
    {
        self.samples[y * self.width + x]
    }
}

/// A raster whose sample buffer matches its size.
#[derive(Debug)]
pub struct Raster {
    width: u32,
    height: u32,
    samples: Vec<u8>,
}

impl View for Raster {
    type V = RasterView;

    closed spec fn view(&self) -> RasterView {
        RasterView {
            width: self.width as nat,
            height: self.height as nat,
            samples: self.samples@,
        }
    }
}

/// In a raster of `width` columns, the pixel in column `x` of row `y` is
/// sample number `y * width + x`, which lies inside a buffer of `height` rows,
/// and the sample number tells the column and the row.
pub proof fn lemma_row_major(x: int, y: int, width: int, height: int)
    requires
        0 <= x < width,
        0 <= y < height,
    ensures
        0 <= y * width + x < width * height,
        (y * width + x) % width == x,
        (y * width + x) / width == y,
{
    assert(0 <= y * width && y * width + width <= width * height) by (nonlinear_arith)
        requires
            0 <= y < height,
            0 < width,
    ;
    vstd::arithmetic::div_mod::lemma_fundamental_div_mod_converse(y * width + x, width, y, x);
}

impl Clone for Raster {
    fn clone(&self) -> (copy: Raster)
        ensures
            copy@ == self@,
    {
        proof {
            use_type_invariant(self);
        }
        Raster { width: self.width, height: self.height, samples: self.samples.clone() }
    }
}

impl Raster {
    #[verifier::type_invariant]
    spec fn inv(self) -> bool {
        self@.wf()
    }

    /// The raster of the given size over the given samples, if there are
    /// `width * height` of them and neither side is zero.
    pub fn new(width: u32, height: u32, samples: Vec<u8>) -> (made: Option<Raster>)
        ensures
            match made {
                Some(raster) => raster@ == (RasterView {
                    width: width as nat,
                    height: height as nat,
                    samples: samples@,
                }) && raster@.wf(),
                None => width == 0 || height == 0 || samples.len() != width * height,
            },
    {
        if width == 0 || height == 0 {
            return None;
        }
        assert(width * height <= 0xffff_fffe_0000_0001) by (nonlinear_arith)
            requires
                width <= 0xffff_ffff,
                height <= 0xffff_ffff,
        ;
        let area: u64 = (width as u64) * (height as u64);
        if samples.len() as u64 != area {
            return None;
        }
        Some(Raster { width, height, samples })
    }

    /// The raster of the given size over samples that are known to match it.
    pub(crate) fn assemble(width: u32, height: u32, samples: Vec<u8>) -> (raster: Raster)
        requires
            width > 0,
            height > 0,
            samples.len() == width * height,
        ensures
            raster@ == (RasterView {
                width: width as nat,
                height: height as nat,
                samples: samples@,
            }),
            raster@.wf(),
    {
        Raster { width, height, samples }
    }

    /// The number of columns; never zero.
    pub fn width(&self) -> (w: u32)
        ensures
            w == self@.width,
            w > 0,
    {
        proof {
            use_type_invariant(self);
        }
        self.width
    }

    /// The number of rows; never zero.
    pub fn height(&self) -> (h: u32)
        ensures
            h == self@.height,
            h > 0,
    {
        proof {
            use_type_invariant(self);
        }
        self.height
    }

    /// The samples, row by row.
    pub fn samples(&self) -> (s: &Vec<u8>)
        ensures
            s@ == self@.samples,
            self@.wf(),
    {
        proof {
            use_type_invariant(self);
        }
        &self.samples
    }

    /// The samples, row by row, leaving the raster.
    pub fn into_samples(self) -> (s: Vec<u8>)
        ensures
            s@ == self@.samples,
            self@.wf(),
    {
        proof {
            use_type_invariant(&self);
        }
        self.samples
    }

    /// The sample of the pixel in column `x` of row `y`.
    pub fn get(&self, x: u32, y: u32) -> (v: u8)
        requires
            x < self@.width,
            y < self@.height,
        ensures
            v == self@.at(x as int, y as int),
    {
        proof {
            use_type_invariant(self);
            lemma_row_major(x as int, y as int, self.width as int, self.height as int);
            assert(0 <= y * self.width <= 0xffff_fffe_0000_0001) by (nonlinear_arith)
                requires
                    0 <= y <= 0xffff_ffff,
                    0 <= self.width <= 0xffff_ffff,
            ;
        }
        let at: u64 = (y as u64) * (self.width as u64) + (x as u64);
        let len: usize = self.samples.len();
        assert(len == self.width as int * self.height as int);
        assert(at < len);
        self.samples[at as usize]
    }
}

} // verus!
