//! Raw pixel data representation.
//!
//! A raw pixel is a fixed-size packed value that can be read and written one
//! channel at a time. [`RawPixel`] states what every such storage owes its
//! users; [`U32x8888`] is the storage of four bytes in one `u32`, and
//! [`F32x4`] the storage of four 32-bit floats.

use vstd::prelude::*;
use vstd::std_specs::convert::FromSpec;

mod f32x4;
pub use f32x4::F32x4;

mod hex;
pub use hex::{hex_digit, hex_digits};

mod u32x8888;
pub use u32x8888::{channel_weight, packed_byte, packed_value, U32x8888};

verus! {

/// A packed storage value made of equally sized channels.
pub trait RawPixel: Sized + From<Self::Storage> {
    /// The type that holds the whole packed value (`u32` for [`U32x8888`]).
    type Storage;

    /// The type of one channel (`u8` for [`U32x8888`]).
    type Channel;

    /// How many channels the storage holds: the size of the storage divided
    /// by the size of one channel.
    const CHANNELS: usize;

    /// The number of channels, as contracts speak of it.
    spec fn channel_count() -> nat;

    /// The packed value itself.
    spec fn inner(&self) -> Self::Storage;

    /// The channels of the value, by offset.
    spec fn channels(&self) -> Seq<Self::Channel>;

    /// The channel that every slot of a zeroed value holds.
    spec fn zero_channel() -> Self::Channel;

    /// `CHANNELS` is the number of channels, and every value has exactly
    /// that many.
    proof fn lemma_channel_count(&self)
        ensures
            Self::CHANNELS == Self::channel_count(),
            self.channels().len() == Self::channel_count(),
    ;

    /// A value is nothing but its channels: two values with the same channels
    /// are the same value.
    proof fn lemma_channels_determine_value(a: Self, b: Self)
        requires
            a.channels() =~= b.channels(),
        ensures
            a == b,
    ;

    /// A value is nothing but its packed storage, and the conversion from the
    /// storage type keeps the storage as it is.
    proof fn lemma_storage_round_trip(storage: Self::Storage)
        ensures
            Self::obeys_from_spec(),
            Self::from_spec(storage).inner() == storage,
            forall|a: Self| a.inner() == storage ==> a == Self::from_spec(storage),
    ;

    /// The value whose channels are all zero.
    fn zeroed() -> (raw: Self)
        ensures
            raw.channels() =~= Seq::new(Self::channel_count(), |i: int| Self::zero_channel()),
    ;

    /// Gets the channel at the provided offset, where `0` is the first
    /// channel.
    fn get_channel(&self, offset: usize) -> (value: Self::Channel)
        requires
            offset < Self::channel_count(),
        ensures
            value == self.channels()[offset as int],
    ;

    /// Sets the channel at the provided offset to the given value and leaves
    /// every other channel as it was.
    fn set_channel(&mut self, offset: usize, value: Self::Channel) -> (updated: &mut Self)
        requires
            offset < Self::channel_count(),
        ensures
            updated.channels() == old(self).channels().update(offset as int, value),
            *final(self) == *final(updated),
    ;

    /// Returns the value with the channel at the provided offset set to the
    /// given value.
    fn with_channel(self, offset: usize, value: Self::Channel) -> (updated: Self)
        requires
            offset < Self::channel_count(),
        ensures
            updated.channels() == self.channels().update(offset as int, value),
    {
        let mut raw = self;
        raw.set_channel(offset, value);
        raw
    }

    /// Returns the underlying packed value.
    fn as_inner(&self) -> (storage: &Self::Storage)
        ensures
            *storage == self.inner(),
    ;

    /// Consumes the pixel and returns the underlying packed value.
    fn into_inner(self) -> (storage: Self::Storage)
        ensures
            storage == self.inner(),
    ;
}

} // verus!
