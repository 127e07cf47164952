//! What holds of the conversion for every buffer, proved over the model.

use vstd::prelude::*;

use crate::model::{complete_pixels, gray_of, grayscale, is_colour_byte, pixel_gray};

verus! {

/// The smallest of three channel values.
pub open spec fn min3(r: u8, g: u8, b: u8) -> u8 {
    if r <= g && r <= b {
        r
    } else if g <= b {
        g
    } else {
        b
    }
}

/// The largest of three channel values.
pub open spec fn max3(r: u8, g: u8, b: u8) -> u8 {
    if r >= g && r >= b {
        r
    } else if g >= b {
        g
    } else {
        b
    }
}

/// The gray value of a pixel lies between its darkest and its brightest
/// colour channel.
pub proof fn lemma_gray_between_channels(r: u8, g: u8, b: u8)
    ensures
        min3(r, g, b) <= gray_of(r, g, b) <= max3(r, g, b),
{
}

/// A pixel whose three colour channels are equal has that value as its
/// gray value.
pub proof fn lemma_gray_of_equal_channels(v: u8)
    ensures
        gray_of(v, v, v) == v,
{
}

/// Conversion keeps the length of the buffer.
pub proof fn lemma_length_kept(s: Seq<u8>)
    ensures
        grayscale(s).len() == s.len(),
{
}

/// Conversion keeps every alpha byte.
pub proof fn lemma_alpha_kept(s: Seq<u8>, i: int)
    requires
        0 <= i < s.len(),
        i % 4 == 3,
    ensures
        grayscale(s)[i] == s[i],
{
}

/// Conversion keeps every byte that lies behind the last complete pixel.
pub proof fn lemma_partial_pixel_kept(s: Seq<u8>, i: int)
    requires
        4 * complete_pixels(s.len()) <= i < s.len(),
    ensures
        grayscale(s)[i] == s[i],
{
}

/// A buffer too short to hold one pixel is left as it is.
pub proof fn lemma_short_buffer_kept(s: Seq<u8>)
    requires
        s.len() < 4,
    ensures
        grayscale(s) == s,
{
    assert(grayscale(s) =~= s);
}

/// After conversion the three colour channels of every complete pixel hold
/// the gray value of the pixel as it was before.
pub proof fn lemma_channels_hold_gray(s: Seq<u8>, k: int)
    requires
        0 <= k < complete_pixels(s.len()),
    ensures
        grayscale(s)[4 * k] == pixel_gray(s, k),
        grayscale(s)[4 * k + 1] == pixel_gray(s, k),
        grayscale(s)[4 * k + 2] == pixel_gray(s, k),
        grayscale(s)[4 * k + 3] == s[4 * k + 3],
{
    assert(is_colour_byte(s.len(), 4 * k));
    assert(is_colour_byte(s.len(), 4 * k + 1));
    assert(is_colour_byte(s.len(), 4 * k + 2));
    assert(!is_colour_byte(s.len(), 4 * k + 3));
}

/// After conversion the three colour channels of every complete pixel are
/// equal to each other.
pub proof fn lemma_channels_equal(s: Seq<u8>, k: int)
    requires
        0 <= k < complete_pixels(s.len()),
    ensures
        grayscale(s)[4 * k] == grayscale(s)[4 * k + 1],
        grayscale(s)[4 * k + 1] == grayscale(s)[4 * k + 2],
{
    lemma_channels_hold_gray(s, k);
}

/// After conversion the colour channels of every complete pixel lie between
/// the darkest and the brightest colour channel that the pixel had before.
pub proof fn lemma_converted_between_channels(s: Seq<u8>, k: int)
    requires
        0 <= k < complete_pixels(s.len()),
    ensures
        min3(s[4 * k], s[4 * k + 1], s[4 * k + 2]) <= grayscale(s)[4 * k] <= max3(
            s[4 * k],
            s[4 * k + 1],
            s[4 * k + 2],
        ),
{
    lemma_channels_hold_gray(s, k);
    lemma_gray_between_channels(s[4 * k], s[4 * k + 1], s[4 * k + 2]);
}

/// Converting a converted buffer changes nothing.
pub proof fn lemma_idempotent(s: Seq<u8>)
    ensures
        grayscale(grayscale(s)) == grayscale(s),
{
    let once = grayscale(s);
    let twice = grayscale(once);
    assert forall|i: int| 0 <= i < once.len() implies twice[i] == once[i] by {
        if is_colour_byte(once.len(), i) {
            let k = i / 4;
            lemma_channels_hold_gray(s, k);
            lemma_gray_of_equal_channels(pixel_gray(s, k));
        }
    }
    assert(twice =~= once);
}

/// The conversion of a pixel reads only that pixel: two buffers of one
/// length that agree on a complete pixel agree on it after conversion.
pub proof fn lemma_pixels_independent(s: Seq<u8>, t: Seq<u8>, k: int)
    requires
        s.len() == t.len(),
        0 <= k < complete_pixels(s.len()),
        forall|i: int| 4 * k <= i < 4 * k + 4 ==> s[i] == t[i],
    ensures
        forall|i: int| 4 * k <= i < 4 * k + 4 ==> grayscale(s)[i] == grayscale(t)[i],
{
    lemma_channels_hold_gray(s, k);
    lemma_channels_hold_gray(t, k);
}

} // verus!
