use vstd::prelude::*;

use crate::formats::rgba::{Rgba, RgbaFormat};
use crate::pixel::raw::{RawPixel, U32x8888};
use crate::pixel::Format;

verus! {

/// A 32-bit ABGR pixel format with four 8-bit channels.
///
/// This format is used to represent pixels in the ABGR order, read from the
/// most significant byte of the 32-bit unsigned integer down:
/// - `A`lpha (8 bits)
/// - `B`lue (8 bits)
/// - `G`reen (8 bits)
/// - `R`ed (8 bits)
///
/// Alpha is the most significant byte and red the least significant one.
#[derive(Copy, Clone, Debug, Eq, PartialEq, Ord, PartialOrd)]
pub struct Abgr8888;

impl crate::internal::Sealed for Abgr8888 {

}

impl Format for Abgr8888 {
    type RawPixel = U32x8888;

    type Channels = Rgba;
}

impl RgbaFormat for Abgr8888 {
    const ALPHA_OFFSET: usize = 3;

    const BLUE_OFFSET: usize = 2;

    const GREEN_OFFSET: usize = 1;

    const RED_OFFSET: usize = 0;

    open spec fn offset_of(channel: Rgba) -> int {
        match channel {
            Rgba::Alpha => 3,
            Rgba::Blue => 2,
            Rgba::Green => 1,
            Rgba::Red => 0,
        }
    }

    proof fn lemma_offset_constants() {
        assert(<Abgr8888 as RgbaFormat>::RED_OFFSET == 0);
        assert(<Abgr8888 as RgbaFormat>::GREEN_OFFSET == 1);
        assert(<Abgr8888 as RgbaFormat>::BLUE_OFFSET == 2);
        assert(<Abgr8888 as RgbaFormat>::ALPHA_OFFSET == 3);
    }

    proof fn lemma_offsets_are_a_permutation() {
        assert(U32x8888::channel_count() == 4);
    }
}

} // verus!
