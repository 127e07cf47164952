//! In-place grayscale conversion of interleaved RGBA pixel buffers.

use vstd::prelude::*;

pub mod laws;
pub mod model;

use crate::model::{gray_of, grayscale};

verus! {

/// The truncated mean of three channel values.
pub fn gray_level(r: u8, g: u8, b: u8) -> (gray: u8)
    ensures
        gray == gray_of(r, g, b),
{
    let sum: u16 = r as u16 + g as u16 + b as u16;
    (sum / 3) as u8
}

/// Replaces the red, green and blue channel of every complete pixel by
/// their truncated mean. Alpha bytes and a trailing partial pixel are kept.
pub fn fast_grayscale(pixels: &mut [u8])
    ensures
        final(pixels)@ == grayscale(old(pixels)@),
        final(pixels)@.len() == old(pixels)@.len(),
{
    let len: usize = pixels.len();
    let mut i: usize = 0;
    while len - i >= 4
        invariant
            i <= len,
            i % 4 == 0,
            pixels@.len() == len,
            old(pixels)@.len() == len,
            forall|j: int| 0 <= j < i ==> pixels@[j] == #[trigger] grayscale(old(pixels)@)[j],
            forall|j: int| i <= j < len ==> #[trigger] pixels@[j] == old(pixels)@[j],
        decreases len - i,
    {
        let gray: u8 = gray_level(pixels[i], pixels[i + 1], pixels[i + 2]);
        pixels[i] = gray;
        pixels[i + 1] = gray;
        pixels[i + 2] = gray;
        i += 4;
    }
    assert(pixels@ =~= grayscale(old(pixels)@));
}

} // verus!
