//! RGBA pixel formats.

use vstd::prelude::*;

use crate::pixel::raw::RawPixel;
use crate::pixel::{Format, Pixel};

mod abgr8888;
pub use abgr8888::Abgr8888;

mod float_rgba;
pub use float_rgba::FloatRgba;

mod rgba8888;
pub use rgba8888::Rgba8888;

verus! {

/// Channels representing `R`ed, `G`reen, `B`lue, and `A`lpha components of a pixel.
///
/// Used in pixel formats that support RGBA color representation.
#[derive(Copy, Clone, Debug, Eq, PartialEq, Ord, PartialOrd)]
pub enum Rgba {
    Red,
    Green,
    Blue,
    Alpha,
}

/// A pixel format with red, green, blue, and alpha channels.
///
/// A format supplies the four offsets and nothing else; reading and writing
/// a named channel is written once, here, for all formats.
pub trait RgbaFormat: Format<Channels = Rgba> {
    /// The offset of the red channel in the pixel's raw representation.
    const RED_OFFSET: usize;

    /// The offset of the green channel in the pixel's raw representation.
    const GREEN_OFFSET: usize;

    /// The offset of the blue channel in the pixel's raw representation.
    const BLUE_OFFSET: usize;

    /// The offset of the alpha channel in the pixel's raw representation.
    const ALPHA_OFFSET: usize;

    /// The offset at which the format keeps `channel`, as contracts speak of
    /// it.
    spec fn offset_of(channel: Rgba) -> int;

    /// The four offset constants are the offsets that `offset_of` names.
    proof fn lemma_offset_constants()
        ensures
            Self::RED_OFFSET == Self::offset_of(Rgba::Red),
            Self::GREEN_OFFSET == Self::offset_of(Rgba::Green),
            Self::BLUE_OFFSET == Self::offset_of(Rgba::Blue),
            Self::ALPHA_OFFSET == Self::offset_of(Rgba::Alpha),
    ;

    /// The offsets are a permutation of the offsets of a raw value with four
    /// channels: each lies below 4, and no two channels share one.
    proof fn lemma_offsets_are_a_permutation()
        ensures
            <Self::RawPixel as RawPixel>::channel_count() == 4,
            forall|channel: Rgba| 0 <= #[trigger] Self::offset_of(channel) < 4,
            forall|a: Rgba, b: Rgba|
                #[trigger] Self::offset_of(a) == #[trigger] Self::offset_of(b) ==> a == b,
    ;

    /// Returns the red channel value of a pixel.
    fn get_red(pixel: &Self::RawPixel) -> (value: <Self::RawPixel as RawPixel>::Channel)
        ensures
            value == pixel.channels()[Self::offset_of(Rgba::Red)],
    {
        proof {
            Self::lemma_offset_constants();
            Self::lemma_offsets_are_a_permutation();
        }
        pixel.get_channel(Self::RED_OFFSET)
    }

    /// Sets the red channel value of a pixel.
    fn set_red(pixel: &mut Self::RawPixel, value: <Self::RawPixel as RawPixel>::Channel)
        ensures
            final(pixel).channels() == old(pixel).channels().update(
                Self::offset_of(Rgba::Red),
                value,
            ),
    {
        proof {
            Self::lemma_offset_constants();
            Self::lemma_offsets_are_a_permutation();
        }
        pixel.set_channel(Self::RED_OFFSET, value);
    }

    /// Returns the green channel value of a pixel.
    fn get_green(pixel: &Self::RawPixel) -> (value: <Self::RawPixel as RawPixel>::Channel)
        ensures
            value == pixel.channels()[Self::offset_of(Rgba::Green)],
    {
        proof {
            Self::lemma_offset_constants();
            Self::lemma_offsets_are_a_permutation();
        }
        pixel.get_channel(Self::GREEN_OFFSET)
    }

    /// Sets the green channel value of a pixel.
    fn set_green(pixel: &mut Self::RawPixel, value: <Self::RawPixel as RawPixel>::Channel)
        ensures
            final(pixel).channels() == old(pixel).channels().update(
                Self::offset_of(Rgba::Green),
                value,
            ),
    {
        proof {
            Self::lemma_offset_constants();
            Self::lemma_offsets_are_a_permutation();
        }
        pixel.set_channel(Self::GREEN_OFFSET, value);
    }

    /// Returns the blue channel value of a pixel.
    fn get_blue(pixel: &Self::RawPixel) -> (value: <Self::RawPixel as RawPixel>::Channel)
        ensures
            value == pixel.channels()[Self::offset_of(Rgba::Blue)],
    {
        proof {
            Self::lemma_offset_constants();
            Self::lemma_offsets_are_a_permutation();
        }
        pixel.get_channel(Self::BLUE_OFFSET)
    }

    /// Sets the blue channel value of a pixel.
    fn set_blue(pixel: &mut Self::RawPixel, value: <Self::RawPixel as RawPixel>::Channel)
        ensures
            final(pixel).channels() == old(pixel).channels().update(
                Self::offset_of(Rgba::Blue),
                value,
            ),
    {
        proof {
            Self::lemma_offset_constants();
            Self::lemma_offsets_are_a_permutation();
        }
        pixel.set_channel(Self::BLUE_OFFSET, value);
    }

    /// Returns the alpha channel value of a pixel.
    fn get_alpha(pixel: &Self::RawPixel) -> (value: <Self::RawPixel as RawPixel>::Channel)
        ensures
            value == pixel.channels()[Self::offset_of(Rgba::Alpha)],
    {
        proof {
            Self::lemma_offset_constants();
            Self::lemma_offsets_are_a_permutation();
        }
        pixel.get_channel(Self::ALPHA_OFFSET)
    }

    /// Sets the alpha channel value of a pixel.
    fn set_alpha(pixel: &mut Self::RawPixel, value: <Self::RawPixel as RawPixel>::Channel)
        ensures
            final(pixel).channels() == old(pixel).channels().update(
                Self::offset_of(Rgba::Alpha),
                value,
            ),
    {
        proof {
            Self::lemma_offset_constants();
            Self::lemma_offsets_are_a_permutation();
        }
        pixel.set_channel(Self::ALPHA_OFFSET, value);
    }
}

impl<F: RgbaFormat> Pixel<F> {
    /// The value that the pixel holds for `channel`.
    pub open spec fn channel(&self, channel: Rgba) -> <F::RawPixel as RawPixel>::Channel {
        self@.channels()[F::offset_of(channel)]
    }

    /// The pixel after a write of `value` to `channel`, as seen channel by
    /// channel: `channel` holds `value`, every other channel what it held.
    pub open spec fn written(
        &self,
        before: Self,
        channel: Rgba,
        value: <F::RawPixel as RawPixel>::Channel,
    ) -> bool {
        &&& self@.channels() == before@.channels().update(F::offset_of(channel), value)
        &&& forall|other: Rgba| #[trigger]
            self.channel(other) == if other == channel {
                value
            } else {
                before.channel(other)
            }
    }

    /// A write to one channel at its offset is seen channel by channel.
    proof fn lemma_written(
        before: Self,
        after: Self,
        channel: Rgba,
        value: <F::RawPixel as RawPixel>::Channel,
    )
        requires
            after@.channels() == before@.channels().update(F::offset_of(channel), value),
        ensures
            after.written(before, channel, value),
    {
        F::lemma_offsets_are_a_permutation();
        before@.lemma_channel_count();
        assert forall|other: Rgba| #[trigger]
            after.channel(other) == if other == channel {
                value
            } else {
                before.channel(other)
            } by {
            assert(0 <= F::offset_of(other) < 4);
            assert(0 <= F::offset_of(channel) < 4);
            if other != channel {
                assert(F::offset_of(other) != F::offset_of(channel));
            }
        }
    }

    /// The four named channels are the whole pixel: two pixels of one format
    /// that agree on red, green, blue and alpha are the same pixel.
    pub proof fn lemma_channels_determine_pixel(a: Self, b: Self)
        requires
            forall|channel: Rgba| a.channel(channel) == b.channel(channel),
        ensures
            a == b,
    {
        F::lemma_offsets_are_a_permutation();
        a@.lemma_channel_count();
        b@.lemma_channel_count();
        assert forall|offset: int| 0 <= offset < 4 implies a@.channels()[offset] == b@.channels()[offset] by {
            let named = choose|channel: Rgba| F::offset_of(channel) == offset;
            Self::lemma_every_offset_is_named(offset);
            assert(a.channel(named) == b.channel(named));
        }
        assert(a@.channels() =~= b@.channels());
        F::RawPixel::lemma_channels_determine_value(a@, b@);
        Self::lemma_raw_determines_pixel(a, b);
    }

    /// Every offset of the raw value is the offset of one of the four named
    /// channels.
    proof fn lemma_every_offset_is_named(offset: int)
        requires
            0 <= offset < 4,
        ensures
            exists|channel: Rgba| F::offset_of(channel) == offset,
    {
        F::lemma_offsets_are_a_permutation();
        let r = F::offset_of(Rgba::Red);
        let g = F::offset_of(Rgba::Green);
        let b = F::offset_of(Rgba::Blue);
        let a = F::offset_of(Rgba::Alpha);
        assert(0 <= r < 4 && 0 <= g < 4 && 0 <= b < 4 && 0 <= a < 4);
        assert(r != g && r != b && r != a && g != b && g != a && b != a);
        assert(r == offset || g == offset || b == offset || a == offset);
    }

    /// Reading a channel of a pixel that was read from a buffer is reading
    /// that channel of the raw value at the same index of the buffer.
    pub proof fn lemma_channel_of_wrapped(
        pixels: Seq<Self>,
        buffer: Seq<F::RawPixel>,
        i: int,
        channel: Rgba,
    ) where F::RawPixel: Copy
        requires
            Self::wraps(pixels, buffer),
            0 <= i < buffer.len(),
        ensures
            pixels[i].channel(channel) == buffer[i].channels()[F::offset_of(channel)],
    {
    }

    /// Returns the red channel value of the pixel.
    pub fn red(&self) -> (value: <F::RawPixel as RawPixel>::Channel)
        ensures
            value == self.channel(Rgba::Red),
    {
        F::get_red(self.as_raw())
    }

    /// Sets the red channel value of the pixel and leaves the other channels
    /// as they were.
    pub fn set_red(&mut self, value: <F::RawPixel as RawPixel>::Channel) -> (updated: &mut Self)
        ensures
            updated.written(*old(self), Rgba::Red, value),
            *final(self) == *final(updated),
    {
        F::set_red(self.as_raw_mut(), value);
        proof {
            Self::lemma_written(*old(self), *self, Rgba::Red, value);
        }
        self
    }

    /// Returns the green channel value of the pixel.
    pub fn green(&self) -> (value: <F::RawPixel as RawPixel>::Channel)
        ensures
            value == self.channel(Rgba::Green),
    {
        F::get_green(self.as_raw())
    }

    /// Sets the green channel value of the pixel and leaves the other
    /// channels as they were.
    pub fn set_green(&mut self, value: <F::RawPixel as RawPixel>::Channel) -> (updated: &mut Self)
        ensures
            updated.written(*old(self), Rgba::Green, value),
            *final(self) == *final(updated),
    {
        F::set_green(self.as_raw_mut(), value);
        proof {
            Self::lemma_written(*old(self), *self, Rgba::Green, value);
        }
        self
    }

    /// Returns the blue channel value of the pixel.
    pub fn blue(&self) -> (value: <F::RawPixel as RawPixel>::Channel)
        ensures
            value == self.channel(Rgba::Blue),
    {
        F::get_blue(self.as_raw())
    }

    /// Sets the blue channel value of the pixel and leaves the other channels
    /// as they were.
    pub fn set_blue(&mut self, value: <F::RawPixel as RawPixel>::Channel) -> (updated: &mut Self)
        ensures
            updated.written(*old(self), Rgba::Blue, value),
            *final(self) == *final(updated),
    {
        F::set_blue(self.as_raw_mut(), value);
        proof {
            Self::lemma_written(*old(self), *self, Rgba::Blue, value);
        }
        self
    }

    /// Returns the alpha channel value of the pixel.
    pub fn alpha(&self) -> (value: <F::RawPixel as RawPixel>::Channel)
        ensures
            value == self.channel(Rgba::Alpha),
    {
        F::get_alpha(self.as_raw())
    }

    /// Sets the alpha channel value of the pixel and leaves the other
    /// channels as they were.
    pub fn set_alpha(&mut self, value: <F::RawPixel as RawPixel>::Channel) -> (updated: &mut Self)
        ensures
            updated.written(*old(self), Rgba::Alpha, value),
            *final(self) == *final(updated),
    {
        F::set_alpha(self.as_raw_mut(), value);
        proof {
            Self::lemma_written(*old(self), *self, Rgba::Alpha, value);
        }
        self
    }

    /// Creates a new pixel from RGBA channel values.
    ///
    /// The pixel starts as the zeroed raw value and takes the four channels
    /// in the order red, green, blue, alpha. The four offsets cover the raw
    /// value, so nothing of the zeroed value is left.
    pub fn with_rgba(
        r: <F::RawPixel as RawPixel>::Channel,
        g: <F::RawPixel as RawPixel>::Channel,
        b: <F::RawPixel as RawPixel>::Channel,
        a: <F::RawPixel as RawPixel>::Channel,
    ) -> (pixel: Self)
        ensures
            pixel.channel(Rgba::Red) == r,
            pixel.channel(Rgba::Green) == g,
            pixel.channel(Rgba::Blue) == b,
            pixel.channel(Rgba::Alpha) == a,
    {
        let mut pixel = Self::from_raw(F::RawPixel::zeroed());
        pixel.set_red(r).set_green(g).set_blue(b).set_alpha(a);
        pixel
    }
}

} // verus!
