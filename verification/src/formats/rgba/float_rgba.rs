use vstd::prelude::*;

use crate::formats::rgba::{Rgba, RgbaFormat};
use crate::pixel::raw::{RawPixel, F32x4};
use crate::pixel::Format;

verus! {

/// A 128-bit RGBA pixel format with four 32-bit floating point channels.
///
/// This format is used to represent pixels in the RGBA order:
/// - `R`ed (32 bits)
/// - `G`reen (32 bits)
/// - `B`lue (32 bits)
/// - `A`lpha (32 bits)
///
/// The pixel is four consecutive 32-bit slots, red first and alpha last.
#[derive(Copy, Clone, Debug, Eq, PartialEq, Ord, PartialOrd)]
pub struct FloatRgba;

impl crate::internal::Sealed for FloatRgba {

}

impl Format for FloatRgba {
    type RawPixel = F32x4;

    type Channels = Rgba;
}

impl RgbaFormat for FloatRgba {
    const RED_OFFSET: usize = 0;

    const GREEN_OFFSET: usize = 1;

    const BLUE_OFFSET: usize = 2;

    const ALPHA_OFFSET: usize = 3;

    open spec fn offset_of(channel: Rgba) -> int {
        match channel {
            Rgba::Red => 0,
            Rgba::Green => 1,
            Rgba::Blue => 2,
            Rgba::Alpha => 3,
        }
    }

    proof fn lemma_offset_constants() {
        assert(<FloatRgba as RgbaFormat>::RED_OFFSET == 0);
        assert(<FloatRgba as RgbaFormat>::GREEN_OFFSET == 1);
        assert(<FloatRgba as RgbaFormat>::BLUE_OFFSET == 2);
        assert(<FloatRgba as RgbaFormat>::ALPHA_OFFSET == 3);
    }

    proof fn lemma_offsets_are_a_permutation() {
        assert(F32x4::channel_count() == 4);
    }
}

} // verus!
