//! What holds of the indices whatever the samples.

use vstd::prelude::*;
use crate::closed_forms::{closed_form, lemma_closed_form};
use crate::indices::ndvi_value;
use crate::ratio::{lemma_quotient_byte, lemma_to_byte_in_range, Ratio};
use crate::registry::{lemma_arity, Index};

verus! {

/// Whether the formula of the index is a normalised difference
/// `(p - q) / (p + q)` of two bands.
pub open spec fn is_normalized_difference(index: Index) -> bool {
    index == Index::Ndvi || index == Index::Gndvi || index == Index::Ndwi || index == Index::Ndbi
        || index == Index::Ndmi
}

/// Equal samples that are not zero give a normalised difference of zero,
/// whose byte is 0.
pub proof fn lemma_equal_bands_give_zero(index: Index, px: Seq<u8>)
    requires
        is_normalized_difference(index),
        px.len() >= 2,
        px[0] == px[1],
        px[0] != 0,
    ensures
        index.value(px).to_byte() == 0,
{
    lemma_closed_form(index, px);
    lemma_to_byte_in_range(0, 2 * px[0]);
}

/// Where the near infrared is no weaker than the red and one of them is
/// not zero, the byte of `ndvi` is `255 (b08 - b04) / (b08 + b04)` rounded
/// down.
pub proof fn lemma_ndvi_of_vegetation(px: Seq<u8>)
    requires
        px.len() >= 2,
        px[1] >= px[0],
        px[1] > 0,
    ensures
        ndvi_value(px).to_byte() == (255 * (px[1] - px[0])) / (px[1] + px[0]),
{
    lemma_closed_form(Index::Ndvi, px);
    lemma_to_byte_in_range(px[1] - px[0], px[1] + px[0]);
}

/// The byte of an index in integer division: the byte of the quotient of
/// the two integers of its closed form.
pub proof fn lemma_byte_in_integers(index: Index, px: Seq<u8>, num: int, den: int)
    requires
        px.len() >= index.arity(),
        closed_form(index, px) == Ratio::quotient(num, den),
        den > 0,
    ensures
        index.value(px).to_byte() == if num >= 0 {
            ((255 * num) / den) % 256
        } else {
            (-((255 * -num) / den)) % 256
        },
{
    lemma_closed_form(index, px);
    lemma_quotient_byte(num, den);
}

/// Evaluation is a function of the samples that the index reads: two
/// sample vectors that agree on the bands of the index have the same
/// value, and so the same byte.
pub proof fn lemma_value_is_a_function_of_the_samples(index: Index, a: Seq<u8>, b: Seq<u8>)
    requires
        a.len() >= index.arity(),
        b.len() >= index.arity(),
        forall|i: int| 0 <= i < index.arity() ==> a[i] == b[i],
    ensures
        index.value(a) == index.value(b),
        index.value(a).to_byte() == index.value(b).to_byte(),
{
    lemma_arity(index);
    assert(a[0] == b[0]);
    assert(a[1] == b[1]);
    if index.arity() == 3 {
        assert(a[2] == b[2]);
    }
}

} // verus!
