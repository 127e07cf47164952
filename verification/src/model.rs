//! The mathematical model of the conversion, over sequences of bytes.
//!
//! A buffer is a sequence of pixels of four bytes each: red, green, blue,
//! alpha. Bytes behind the last complete pixel belong to no pixel.

use vstd::prelude::*;

verus! {

/// The gray value of a pixel: the mean of its three colour channels,
/// rounded down.
pub open spec fn gray_of(r: u8, g: u8, b: u8) -> u8 {
    ((r + g + b) / 3) as u8
}

/// Number of pixels that a buffer of `len` bytes holds in full.
pub open spec fn complete_pixels(len: nat) -> int {
    len as int / 4
}

/// Whether byte `i` of a buffer of `len` bytes is a colour channel of a
/// complete pixel.
pub open spec fn is_colour_byte(len: nat, i: int) -> bool {
    &&& 0 <= i
    &&& i / 4 < complete_pixels(len)
    &&& i % 4 != 3
}

/// The gray value of pixel `k` of `s`.
pub open spec fn pixel_gray(s: Seq<u8>, k: int) -> u8 {
    gray_of(s[4 * k], s[4 * k + 1], s[4 * k + 2])
}

/// The buffer after conversion: each colour byte of a complete pixel holds
/// that pixel's gray value, every other byte is as before.
pub open spec fn grayscale(s: Seq<u8>) -> Seq<u8> {
    Seq::new(
        s.len(),
        |i: int|
            if is_colour_byte(s.len(), i) {
                pixel_gray(s, i / 4)
            } else {
                s[i]
            },
    )
}

} // verus!
