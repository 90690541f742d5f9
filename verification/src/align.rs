//! Alignment of band rasters of different sizes, and the index raster.
//!
//! An output pixel takes from each band raster the sample of its nearest
//! neighbour: the column and the row of the output pixel are scaled, each
//! by its own ratio of sizes, and rounded down. The samples of all bands,
//! in the order of the rasters, are the sample vector of the pixel, and the
//! index of that vector is the output sample.

use vstd::prelude::*;
use vstd::arithmetic::div_mod::{lemma_div_multiples_vanish, lemma_multiply_divide_lt};
use crate::raster::{lemma_row_major, Raster, RasterView};
use crate::ratio::Ratio;
use crate::registry::{Index, IndexError};

verus! {

/// The coordinate in a raster of `size_in` pixels along one axis that is
/// nearest to the coordinate `pos` of an output of `size_out` pixels:
/// `(pos / size_out) / (1 / size_in)` rounded down, which is
/// `pos * size_in / size_out` rounded down.
pub open spec fn source_coordinate(pos: int, size_out: int, size_in: int) -> int {
    (pos * size_in) / size_out
}

/// The sample that the output pixel `(x, y)` of an output of `width` by
/// `height` pixels takes from the raster.
pub open spec fn aligned_sample(raster: RasterView, x: int, y: int, width: int, height: int) -> u8 {
    raster.at(
        source_coordinate(x, width, raster.width as int),
        source_coordinate(y, height, raster.height as int),
    )
}

/// The views of the rasters, in their order.
pub open spec fn views(rasters: Seq<Raster>) -> Seq<RasterView> {
    Seq::new(rasters.len(), |i: int| rasters[i]@)
}

/// The sample vector of the output pixel `(x, y)`: one aligned sample from
/// each raster, in the order of the rasters.
pub open spec fn sample_vector(
    rasters: Seq<RasterView>,
    x: int,
    y: int,
    width: int,
    height: int,
) -> Seq<u8> {
    Seq::new(rasters.len(), |i: int| aligned_sample(rasters[i], x, y, width, height))
}

/// The nearest source coordinate lies inside the source raster.
pub proof fn lemma_source_coordinate_in_range(pos: int, size_out: int, size_in: int)
    requires
        0 <= pos < size_out,
        0 < size_in,
    ensures
        0 <= source_coordinate(pos, size_out, size_in) < size_in,
{
    assert(0 <= pos * size_in && pos * size_in < size_out * size_in) by (nonlinear_arith)
        requires
            0 <= pos < size_out,
            0 < size_in,
    ;
    lemma_multiply_divide_lt(pos * size_in, size_out, size_in);
    vstd::arithmetic::div_mod::lemma_div_pos_is_pos(pos * size_in, size_out);
}

/// The nearest source coordinate along one axis.
pub fn source_coord(pos: u32, size_out: u32, size_in: u32) -> (src: u32)
    requires
        pos < size_out,
    ensures
        src == source_coordinate(pos as int, size_out as int, size_in as int),
        size_in > 0 ==> src < size_in,
{
    proof {
        assert(0 <= pos * size_in <= 0xffff_fffe_0000_0001) by (nonlinear_arith)
            requires
                0 <= pos <= 0xffff_ffff,
                0 <= size_in <= 0xffff_ffff,
        ;
        if size_in > 0 {
            lemma_source_coordinate_in_range(pos as int, size_out as int, size_in as int);
        } else {
            assert(pos * size_in == 0) by (nonlinear_arith)
                requires
                    size_in == 0,
            ;
        }
    }
    let scaled: u64 = (pos as u64) * (size_in as u64);
    (scaled / (size_out as u64)) as u32
}

/// The sample vector of the output pixel `(x, y)`.
pub fn gather(rasters: &Vec<Raster>, x: u32, y: u32, width: u32, height: u32) -> (px: Vec<u8>)
    requires
        x < width,
        y < height,
    ensures
        px@ == sample_vector(views(rasters@), x as int, y as int, width as int, height as int),
{
    let mut px: Vec<u8> = Vec::new();
    let mut i: usize = 0;
    while i < rasters.len()
        invariant
            i <= rasters.len(),
            x < width,
            y < height,
            px@.len() == i,
            forall|j: int|
                0 <= j < i ==> px@[j] == aligned_sample(
                    #[trigger] views(rasters@)[j],
                    x as int,
                    y as int,
                    width as int,
                    height as int,
                ),
        decreases rasters.len() - i,
    {
        let raster = &rasters[i];
        let src_x = source_coord(x, width, raster.width());
        let src_y = source_coord(y, height, raster.height());
        px.push(raster.get(src_x, src_y));
        i += 1;
    }
    assert(px@ =~= sample_vector(
        views(rasters@),
        x as int,
        y as int,
        width as int,
        height as int,
    ));
    px
}

/// The byte of the index at the output pixel `(x, y)`.
pub open spec fn index_pixel(
    index: Index,
    rasters: Seq<RasterView>,
    x: int,
    y: int,
    width: int,
    height: int,
) -> int {
    index.value(sample_vector(rasters, x, y, width, height)).to_byte()
}

/// Whether `out` is the index raster of `width` by `height` pixels over the
/// band rasters: it has that size, and each of its pixels holds the index
/// of the pixel's sample vector.
pub open spec fn is_index_raster(
    out: RasterView,
    index: Index,
    rasters: Seq<RasterView>,
    width: int,
    height: int,
) -> bool {
    &&& out.wf()
    &&& out.width == width
    &&& out.height == height
    &&& forall|x: int, y: int|
        0 <= x < width && 0 <= y < height ==> #[trigger] out.at(x, y) == index_pixel(
            index,
            rasters,
            x,
            y,
            width,
            height,
        )
}

/// The index raster of `width` by `height` pixels over the band rasters,
/// which stand in the order of the bands of the index.
///
/// Fails with `MissingBand` if there are fewer rasters than the index has
/// bands, and otherwise with `DimensionMismatch` if `width` or `height` is
/// zero. Rasters beyond the bands of the index are not read by its formula.
pub fn calculate_index(index: Index, rasters: &Vec<Raster>, width: u32, height: u32) -> (made:
    Result<Raster, IndexError>)
    ensures
        match made {
            Ok(out) => {
                &&& rasters.len() >= index.arity()
                &&& is_index_raster(out@, index, views(rasters@), width as int, height as int)
            },
            Err(e) => if rasters.len() < index.arity() {
                e == IndexError::MissingBand
            } else {
                e == IndexError::DimensionMismatch && (width == 0 || height == 0)
            },
        },
{
    let needed: usize = index.required_bands().len();
    if rasters.len() < needed {
        return Err(IndexError::MissingBand);
    }
    if width == 0 || height == 0 {
        return Err(IndexError::DimensionMismatch);
    }
    let ghost bands = views(rasters@);
    let mut samples: Vec<u8> = Vec::new();
    let mut y: u32 = 0;
    while y < height
        invariant
            y <= height,
            width > 0,
            rasters.len() >= index.arity(),
            bands == views(rasters@),
            samples@.len() == y * width,
            forall|i: int|
                0 <= i < samples@.len() ==> #[trigger] samples@[i] == index_pixel(
                    index,
                    bands,
                    i % (width as int),
                    i / (width as int),
                    width as int,
                    height as int,
                ),
        decreases height - y,
    {
        let mut x: u32 = 0;
        while x < width
            invariant
                x <= width,
                y < height,
                rasters.len() >= index.arity(),
                bands == views(rasters@),
                samples@.len() == y * width + x,
                forall|i: int|
                    0 <= i < samples@.len() ==> #[trigger] samples@[i] == index_pixel(
                        index,
                        bands,
                        i % (width as int),
                        i / (width as int),
                        width as int,
                        height as int,
                    ),
            decreases width - x,
        {
            let px = gather(rasters, x, y, width, height);
            let value = index.evaluate(px);
            proof {
                lemma_row_major(x as int, y as int, width as int, height as int);
            }
            samples.push(value);
            x += 1;
        }
        proof {
            assert((y + 1) * width == y * width + width) by (nonlinear_arith);
        }
        y += 1;
    }
    proof {
        assert(height * width == width * height) by (nonlinear_arith);
    }
    let out = Raster::assemble(width, height, samples);
    proof {
        assert forall|x: int, y: int|
            0 <= x < width && 0 <= y < height implies #[trigger] out@.at(x, y) == index_pixel(
            index,
            bands,
            x,
            y,
            width as int,
            height as int,
        ) by {
            lemma_row_major(x, y, width as int, height as int);
        }
    }
    Ok(out)
}

/// The nearest source coordinate is the integer part of
/// `(pos / size_out) / (1 / size_in)` in exact arithmetic.
pub proof fn lemma_source_coordinate_is_quotient(pos: int, size_out: int, size_in: int)
    requires
        0 <= pos,
        0 < size_out,
        0 < size_in,
    ensures
        Ratio::whole(pos).over(Ratio::whole(size_out)).over(
            Ratio::whole(1).over(Ratio::whole(size_in)),
        ).truncated() == source_coordinate(pos, size_out, size_in),
{
    let scaled = Ratio::whole(pos).over(Ratio::whole(size_out));
    let step = Ratio::whole(1).over(Ratio::whole(size_in));
    assert(scaled == Ratio::Finite { num: pos, den: size_out });
    assert(step == Ratio::Finite { num: 1, den: size_in });
    assert(scaled.over(step) == Ratio::quotient(pos * size_in, size_out * 1));
    assert(0 <= pos * size_in) by (nonlinear_arith)
        requires
            0 <= pos,
            0 < size_in,
    ;
}

/// Identity resampling: an output of the size of the raster takes from it,
/// at each pixel, the sample of the same pixel.
pub proof fn lemma_identity_resampling(raster: RasterView, x: int, y: int)
    requires
        raster.wf(),
        0 <= x < raster.width,
        0 <= y < raster.height,
    ensures
        aligned_sample(raster, x, y, raster.width as int, raster.height as int) == raster.at(x, y),
{
    lemma_div_multiples_vanish(x, raster.width as int);
    lemma_div_multiples_vanish(y, raster.height as int);
    vstd::arithmetic::mul::lemma_mul_is_commutative(x, raster.width as int);
    vstd::arithmetic::mul::lemma_mul_is_commutative(y, raster.height as int);
}

/// Identity resampling of the whole sample vector: where every raster has
/// the size of the output, the sample vector of a pixel holds, for each
/// raster, the sample of that pixel.
pub proof fn lemma_identity_alignment(
    rasters: Seq<RasterView>,
    x: int,
    y: int,
    width: int,
    height: int,
)
    requires
        0 <= x < width,
        0 <= y < height,
        forall|i: int|
            0 <= i < rasters.len() ==> (#[trigger] rasters[i]).wf() && rasters[i].width == width
                && rasters[i].height == height,
    ensures
        sample_vector(rasters, x, y, width, height).len() == rasters.len(),
        forall|i: int|
            0 <= i < rasters.len() ==> #[trigger] sample_vector(rasters, x, y, width, height)[i]
                == rasters[i].at(x, y),
{
    assert forall|i: int| 0 <= i < rasters.len() implies #[trigger] sample_vector(
        rasters,
        x,
        y,
        width,
        height,
    )[i] == rasters[i].at(x, y) by {
        lemma_identity_resampling(rasters[i], x, y);
    }
}

/// Downsampling by two: an output of half the width and half the height of
/// the raster takes, at pixel `(x, y)`, the sample of pixel `(2x, 2y)`.
pub proof fn lemma_downsampling_by_two(raster: RasterView, x: int, y: int, width: int, height: int)
    requires
        raster.wf(),
        raster.width == 2 * width,
        raster.height == 2 * height,
        0 <= x < width,
        0 <= y < height,
    ensures
        aligned_sample(raster, x, y, width, height) == raster.at(2 * x, 2 * y),
{
    lemma_div_multiples_vanish(2 * x, width);
    lemma_div_multiples_vanish(2 * y, height);
    assert(x * (2 * width) == width * (2 * x)) by (nonlinear_arith);
    assert(y * (2 * height) == height * (2 * y)) by (nonlinear_arith);
}

/// At full resolution the index raster holds, at each pixel, the index of
/// the samples of that pixel: where every band raster has the size of the
/// output, nothing is resampled.
pub proof fn lemma_index_raster_at_full_resolution(
    out: RasterView,
    index: Index,
    rasters: Seq<RasterView>,
    width: int,
    height: int,
    x: int,
    y: int,
)
    requires
        is_index_raster(out, index, rasters, width, height),
        forall|i: int|
            0 <= i < rasters.len() ==> (#[trigger] rasters[i]).wf() && rasters[i].width == width
                && rasters[i].height == height,
        0 <= x < width,
        0 <= y < height,
    ensures
        out.at(x, y) == index.value(
            Seq::new(rasters.len(), |i: int| rasters[i].at(x, y)),
        ).to_byte(),
{
    lemma_identity_alignment(rasters, x, y, width, height);
    assert(sample_vector(rasters, x, y, width, height) =~= Seq::new(
        rasters.len(),
        |i: int| rasters[i].at(x, y),
    ));
}

/// There is one index raster: two rasters that both are the index raster of
/// the same bands at the same size are equal.
pub proof fn lemma_index_raster_is_unique(
    a: RasterView,
    b: RasterView,
    index: Index,
    rasters: Seq<RasterView>,
    width: int,
    height: int,
)
    requires
        is_index_raster(a, index, rasters, width, height),
        is_index_raster(b, index, rasters, width, height),
    ensures
        a == b,
{
    assert forall|i: int| 0 <= i < a.samples.len() implies a.samples[i] == b.samples[i] by {
        let x = i % width;
        let y = i / width;
        vstd::arithmetic::div_mod::lemma_fundamental_div_mod(i, width);
        vstd::arithmetic::div_mod::lemma_mod_pos_bound(i, width);
        vstd::arithmetic::div_mod::lemma_div_pos_is_pos(i, width);
        vstd::arithmetic::mul::lemma_mul_is_commutative(width, y);
        assert(y < height) by (nonlinear_arith)
            requires
                i < width * height,
                i == width * y + x,
                0 <= x,
                0 < width,
        ;
        assert(a.at(x, y) == b.at(x, y));
    }
    assert(a.samples =~= b.samples);
}

} // verus!
