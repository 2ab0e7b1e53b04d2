//! [`Pixel`] is a raw storage value read through a format.

use core::marker::PhantomData;
use vstd::prelude::*;
use vstd::std_specs::convert::{FromSpec, IntoSpec};

use crate::pixel::raw::{hex_digits, RawPixel, U32x8888};

pub mod raw;

verus! {

/// Describes the organization and characteristics of pixel data in memory.
pub trait Format: 'static + Copy + crate::internal::Sealed {
    /// Used to represent the raw pixel data in memory.
    type RawPixel: RawPixel;

    /// The type that names the channels of the pixel.
    type Channels: Copy + Eq + Ord;
}

/// A pixel value in a specific format.
///
/// The pixel holds its raw value and nothing else: the format is a marker
/// without a value of its own.
#[derive(Debug, Eq, PartialEq, Ord, PartialOrd)]
pub struct Pixel<F: Format> {
    raw: F::RawPixel,
    format: PhantomData<F>,
}

impl<F: Format> Clone for Pixel<F> where F::RawPixel: Clone {
    fn clone(&self) -> (copy: Self)
        ensures
            vstd::pervasive::cloned(self@, copy@),
    {
        Self { raw: self.raw.clone(), format: PhantomData }
    }
}

impl<F: Format> Copy for Pixel<F> where F::RawPixel: Copy {

}

impl<F: Format> View for Pixel<F> {
    type V = F::RawPixel;

    /// The raw value that the pixel wraps.
    closed spec fn view(&self) -> F::RawPixel {
        self.raw
    }
}

impl<F: Format> Default for Pixel<F> {
    /// The pixel whose channels are all zero.
    fn default() -> (pixel: Self)
        ensures
            pixel@.channels() =~= Seq::new(
                F::RawPixel::channel_count(),
                |i: int| F::RawPixel::zero_channel(),
            ),
    {
        Self::from_raw(F::RawPixel::zeroed())
    }
}

impl<F: Format> AsRef<F::RawPixel> for Pixel<F> {
    fn as_ref(&self) -> (raw: &F::RawPixel)
        ensures
            *raw == self@,
    {
        self.as_raw()
    }
}

impl<F: Format> AsMut<F::RawPixel> for Pixel<F> {
    fn as_mut(&mut self) -> (raw: &mut F::RawPixel)
        ensures
            *raw == old(self)@,
            final(self)@ == *final(raw),
    {
        self.as_raw_mut()
    }
}

impl<F: Format> Pixel<F> {
    /// The pixel of this format that wraps `raw`.
    pub closed spec fn of_raw(raw: F::RawPixel) -> Self {
        Pixel { raw, format: PhantomData }
    }

    /// Creates a new pixel by converting a value that can be converted into
    /// the raw pixel type.
    pub fn new<T: Into<F::RawPixel>>(raw: T) -> (pixel: Self)
        ensures
            call_ensures(T::into, (raw,), pixel@),
            T::obeys_into_spec() ==> pixel == Self::of_raw(raw.into_spec()),
            T::obeys_into_spec() ==> pixel@ == raw.into_spec(),
    {
        Self::from_raw(raw.into())
    }

    /// Creates a new pixel from a raw pixel value.
    pub fn from_raw(raw: F::RawPixel) -> (pixel: Self)
        ensures
            pixel == Self::of_raw(raw),
            pixel@ == raw,
    {
        Self { raw, format: PhantomData }
    }

    /// Creates the pixel whose channels are all zero.
    pub fn zeroed() -> (pixel: Self)
        ensures
            pixel@.channels() =~= Seq::new(
                F::RawPixel::channel_count(),
                |i: int| F::RawPixel::zero_channel(),
            ),
    {
        Self::from_raw(F::RawPixel::zeroed())
    }

    /// Returns a reference to the raw pixel value.
    pub fn as_raw(&self) -> (raw: &F::RawPixel)
        ensures
            *raw == self@,
    {
        &self.raw
    }

    /// Returns a mutable reference to the raw pixel value: what is written
    /// through it is what the pixel holds afterwards.
    pub fn as_raw_mut(&mut self) -> (raw: &mut F::RawPixel)
        ensures
            *raw == old(self)@,
            final(self)@ == *final(raw),
    {
        &mut self.raw
    }

    /// Consumes the pixel and returns the raw pixel value.
    pub fn into_raw(self) -> (raw: F::RawPixel)
        ensures
            raw == self@,
    {
        self.raw
    }

    /// A pixel made from a raw value wraps exactly that raw value, and a
    /// pixel is the pixel made from the raw value that it wraps: wrapping
    /// adds nothing and loses nothing.
    pub proof fn lemma_raw_round_trip(raw: F::RawPixel, pixel: Self)
        ensures
            Self::of_raw(raw)@ == raw,
            Self::of_raw(pixel@) == pixel,
    {
    }

    /// A pixel made from a packed storage value holds exactly that packed
    /// value.
    pub proof fn lemma_storage_round_trip(storage: <F::RawPixel as RawPixel>::Storage)
        ensures
            <F::RawPixel as FromSpec<<F::RawPixel as RawPixel>::Storage>>::obeys_from_spec(),
            Self::of_raw(F::RawPixel::from_spec(storage))@.inner() == storage,
    {
        F::RawPixel::lemma_storage_round_trip(storage);
    }

    /// A pixel is nothing but its raw value: two pixels of one format that
    /// wrap the same raw value are the same pixel.
    pub proof fn lemma_raw_determines_pixel(a: Self, b: Self)
        requires
            a@ == b@,
        ensures
            a == b,
    {
    }
}

impl<F: Format> Pixel<F> where F::RawPixel: Copy {
    /// `pixels` is `buffer` read as pixels: as many pixels as raw values,
    /// and each pixel wraps the raw value at its index.
    pub open spec fn wraps(pixels: Seq<Self>, buffer: Seq<F::RawPixel>) -> bool {
        &&& pixels.len() == buffer.len()
        &&& forall|i: int| 0 <= i < buffer.len() ==> (#[trigger] pixels[i])@ == buffer[i]
    }

    /// Reads a buffer of raw values as pixels of this format.
    pub fn from_raw_slice(buffer: &[F::RawPixel]) -> (pixels: Vec<Self>)
        ensures
            Self::wraps(pixels@, buffer@),
    {
        let mut pixels: Vec<Self> = Vec::new();
        let mut i: usize = 0;
        while i < buffer.len()
            invariant
                i <= buffer.len(),
                pixels.len() == i,
                forall|j: int| 0 <= j < i ==> (#[trigger] pixels[j])@ == buffer[j],
            decreases buffer.len() - i,
        {
            pixels.push(Self::from_raw(buffer[i]));
            i += 1;
        }
        pixels
    }

    /// Reads a buffer of pixels as the raw values that they wrap.
    pub fn to_raw_vec(pixels: &[Self]) -> (buffer: Vec<F::RawPixel>)
        ensures
            Self::wraps(pixels@, buffer@),
    {
        let mut buffer: Vec<F::RawPixel> = Vec::new();
        let mut i: usize = 0;
        while i < pixels.len()
            invariant
                i <= pixels.len(),
                buffer.len() == i,
                forall|j: int| 0 <= j < i ==> (#[trigger] pixels[j])@ == buffer[j],
            decreases pixels.len() - i,
        {
            buffer.push(pixels[i].raw);
            i += 1;
        }
        buffer
    }

    /// A buffer read as pixels and read back is the buffer, and pixels read
    /// as a buffer and read back are the pixels: each side of `wraps`
    /// determines the other.
    pub proof fn lemma_wraps_round_trip(
        pixels: Seq<Self>,
        buffer: Seq<F::RawPixel>,
        other_pixels: Seq<Self>,
        other_buffer: Seq<F::RawPixel>,
    )
        requires
            Self::wraps(pixels, buffer),
        ensures
            Self::wraps(pixels, other_buffer) ==> other_buffer == buffer,
            Self::wraps(other_pixels, buffer) ==> other_pixels == pixels,
    {
        if Self::wraps(pixels, other_buffer) {
            assert forall|i: int| 0 <= i < buffer.len() implies other_buffer[i] == buffer[i] by {
                assert(pixels[i]@ == buffer[i]);
            }
            assert(other_buffer =~= buffer);
        }
        if Self::wraps(other_pixels, buffer) {
            assert forall|i: int| 0 <= i < pixels.len() implies other_pixels[i] == pixels[i] by {
                assert(pixels[i]@ == buffer[i]);
                assert(other_pixels[i]@ == buffer[i]);
            }
            assert(other_pixels =~= pixels);
        }
    }
}

impl<F: Format<RawPixel = U32x8888>> Pixel<F> {
    /// Renders the pixel in upper-case hexadecimal: the rendering of its
    /// packed value.
    pub fn upper_hex(&self) -> (text: String)
        ensures
            text@ == hex_digits(self@.inner() as nat, true),
    {
        self.raw.upper_hex()
    }

    /// Renders the pixel in lower-case hexadecimal: the rendering of its
    /// packed value.
    pub fn lower_hex(&self) -> (text: String)
        ensures
            text@ == hex_digits(self@.inner() as nat, false),
    {
        self.raw.lower_hex()
    }
}

} // verus!
