use vstd::prelude::*;

use crate::formats::rgba::{Rgba, RgbaFormat};
use crate::pixel::raw::{RawPixel, U32x8888};
use crate::pixel::Format;

verus! {

/// A 32-bit RGBA pixel format with four 8-bit channels.
///
/// This format is used to represent pixels in the RGBA order:
/// - `R`ed (8 bits)
/// - `G`reen (8 bits)
/// - `B`lue (8 bits)
/// - `A`lpha (8 bits)
///
/// The pixel is a 32-bit unsigned integer with red in its least significant
/// byte and alpha in its most significant byte.
#[derive(Copy, Clone, Debug, Eq, PartialEq, Ord, PartialOrd)]
pub struct Rgba8888;

impl crate::internal::Sealed for Rgba8888 {

}

impl Format for Rgba8888 {
    type RawPixel = U32x8888;

    type Channels = Rgba;
}

impl RgbaFormat for Rgba8888 {
    const RED_OFFSET: usize = 0;

    const GREEN_OFFSET: usize = 1;

    const BLUE_OFFSET: usize = 2;

    const ALPHA_OFFSET: usize = 3;

    open spec fn offset_of(channel: Rgba) -> int {
        match channel {
            Rgba::Red => 0,
            Rgba::Green => 1,
            Rgba::Blue => 2,
            Rgba::Alpha => 3,
        }
    }

    proof fn lemma_offset_constants() {
        assert(<Rgba8888 as RgbaFormat>::RED_OFFSET == 0);
        assert(<Rgba8888 as RgbaFormat>::GREEN_OFFSET == 1);
        assert(<Rgba8888 as RgbaFormat>::BLUE_OFFSET == 2);
        assert(<Rgba8888 as RgbaFormat>::ALPHA_OFFSET == 3);
    }

    proof fn lemma_offsets_are_a_permutation() {
        assert(U32x8888::channel_count() == 4);
    }
}

} // verus!
