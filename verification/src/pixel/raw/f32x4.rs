use vstd::prelude::*;
use vstd::std_specs::convert::FromSpecImpl;

use crate::pixel::raw::RawPixel;

verus! {

/// A raw pixel value represented as 4 32-bit floating point numbers.
///
/// Each channel is stored as one of the four 32-bit components, in the order
/// of its offset. A channel is held and handed out as the IEEE 754 bit
/// pattern of its number, so that a channel read back is the channel that
/// was written, bit for bit.
#[derive(Copy, Clone, Debug)]
pub struct F32x4(pub [u32; 4]);

impl F32x4 {
    /// Creates a new raw pixel value with all channels set to zero.
    pub fn new_zeroed() -> (raw: Self)
        ensures
            raw.inner()@ =~= seq![0u32, 0u32, 0u32, 0u32],
    {
        Self([0, 0, 0, 0])
    }

    /// Creates a new raw pixel value from the given array of the bit patterns
    /// of 4 32-bit floating point numbers.
    pub fn from_f32x4(value: [u32; 4]) -> (raw: Self)
        ensures
            raw.inner() == value,
    {
        Self(value)
    }

    /// Creates a new raw pixel value from the bit patterns of the given 4
    /// 32-bit floating point numbers, the first of them at offset 0.
    pub fn from_channels(a: u32, b: u32, c: u32, d: u32) -> (raw: Self)
        ensures
            raw.channels() =~= seq![a, b, c, d],
    {
        Self([a, b, c, d])
    }
}

impl FromSpecImpl<[u32; 4]> for F32x4 {
    open spec fn obeys_from_spec() -> bool {
        true
    }

    open spec fn from_spec(value: [u32; 4]) -> Self {
        F32x4(value)
    }
}

impl From<[u32; 4]> for F32x4 {
    fn from(value: [u32; 4]) -> (raw: Self) {
        Self(value)
    }
}

impl Default for F32x4 {
    fn default() -> (raw: Self)
        ensures
            raw.channels() =~= seq![0u32, 0u32, 0u32, 0u32],
    {
        Self([0, 0, 0, 0])
    }
}

impl RawPixel for F32x4 {
    type Storage = [u32; 4];

    type Channel = u32;

    const CHANNELS: usize = 4;

    open spec fn channel_count() -> nat {
        4
    }

    open spec fn inner(&self) -> [u32; 4] {
        self.0
    }

    open spec fn channels(&self) -> Seq<u32> {
        self.inner()@
    }

    open spec fn zero_channel() -> u32 {
        0
    }

    proof fn lemma_channel_count(&self) {
        assert(<F32x4 as RawPixel>::CHANNELS == 4);
    }

    proof fn lemma_channels_determine_value(a: Self, b: Self) {
        assert(a.0 == b.0);
    }

    proof fn lemma_storage_round_trip(storage: [u32; 4]) {
    }

    fn zeroed() -> (raw: Self) {
        Self([0, 0, 0, 0])
    }

    fn get_channel(&self, offset: usize) -> (value: u32) {
        self.0[offset]
    }

    fn set_channel(&mut self, offset: usize, value: u32) -> (updated: &mut Self) {
        self.0[offset] = value;
        self
    }

    fn as_inner(&self) -> (storage: &[u32; 4]) {
        &self.0
    }

    fn into_inner(self) -> (storage: [u32; 4]) {
        self.0
    }
}

} // verus!
