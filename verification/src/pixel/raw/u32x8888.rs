use vstd::prelude::*;
use vstd::std_specs::convert::FromSpecImpl;

use crate::pixel::raw::hex::{hex_digits, render_hex};
use crate::pixel::raw::RawPixel;

verus! {

/// The weight of the channel at `offset` within a packed `u32`: 256 to the
/// power of the offset.
pub open spec fn channel_weight(offset: int) -> int {
    if offset <= 0 {
        1
    } else if offset == 1 {
        0x100
    } else if offset == 2 {
        0x1_0000
    } else {
        0x100_0000
    }
}

/// The byte that a packed `u32` holds at `offset`: bits `8 * offset` up to
/// `8 * offset + 8`.
pub open spec fn packed_byte(packed: u32, offset: int) -> u8 {
    ((packed as int / channel_weight(offset)) % 0x100) as u8
}

/// The `u32` that holds `a`, `b`, `c` and `d` at the offsets 0, 1, 2 and 3.
pub open spec fn packed_value(a: u8, b: u8, c: u8, d: u8) -> u32 {
    (a as int + b as int * 0x100 + c as int * 0x1_0000 + d as int * 0x100_0000) as u32
}

/// Shifting a packed value down by 8 bits for each offset and masking it with
/// `0xFF` leaves the byte at that offset.
proof fn lemma_shift_and_mask_reads(packed: u32, shift: u32)
    requires
        shift == 0 || shift == 8 || shift == 16 || shift == 24,
    ensures
        (packed >> shift) & 0xFF == packed_byte(packed, shift as int / 8),
{
    let byte = (packed >> shift) & 0xFF;
    assert(byte < 0x100 && (shift == 0 ==> byte == packed % 0x100) && (shift == 8 ==> byte == (
    packed / 0x100) % 0x100) && (shift == 16 ==> byte == (packed / 0x1_0000) % 0x100) && (shift
        == 24 ==> byte == (packed / 0x100_0000) % 0x100)) by (bit_vector)
        requires
            byte == (packed >> shift) & 0xFF,
    ;
}

/// Clearing the 8 bits at an offset and putting a byte there changes the byte
/// at that offset to the new one, and no other byte.
proof fn lemma_mask_and_or_writes(before: u32, shift: u32, value: u8)
    requires
        shift == 0 || shift == 8 || shift == 16 || shift == 24,
    ensures
        forall|offset: int|
            0 <= offset < 4 ==> #[trigger] packed_byte(
                (before & !(0xFFu32 << shift)) | ((value as u32) << shift),
                offset,
            ) == if offset == shift as int / 8 {
                value
            } else {
                packed_byte(before, offset)
            },
{
    let after = (before & !(0xFFu32 << shift)) | ((value as u32) << shift);
    assert(after % 0x100 == (if shift == 0 {
        value as u32
    } else {
        before % 0x100
    }) && (after / 0x100) % 0x100 == (if shift == 8 {
        value as u32
    } else {
        (before / 0x100) % 0x100
    }) && (after / 0x1_0000) % 0x100 == (if shift == 16 {
        value as u32
    } else {
        (before / 0x1_0000) % 0x100
    }) && (after / 0x100_0000) % 0x100 == (if shift == 24 {
        value as u32
    } else {
        (before / 0x100_0000) % 0x100
    })) by (bit_vector)
        requires
            shift == 0 || shift == 8 || shift == 16 || shift == 24,
            after == (before & !(0xFFu32 << shift)) | ((value as u32) << shift),
    ;
    assert(packed_byte(after, 0) == if shift == 0 { value } else { packed_byte(before, 0) });
    assert(packed_byte(after, 1) == if shift == 8 { value } else { packed_byte(before, 1) });
    assert(packed_byte(after, 2) == if shift == 16 { value } else { packed_byte(before, 2) });
    assert(packed_byte(after, 3) == if shift == 24 { value } else { packed_byte(before, 3) });
}

/// A raw pixel value represented as a 32-bit unsigned integer.
///
/// Each channel is stored as one of the four 8-bit components; the channel at
/// offset 0 is the least significant byte.
#[derive(Copy, Clone, Debug, PartialEq, Eq, PartialOrd, Ord, Structural)]
pub struct U32x8888(pub u32);

impl U32x8888 {
    /// Renders the packed value in upper-case hexadecimal.
    pub fn upper_hex(&self) -> (text: String)
        ensures
            text@ == hex_digits(self.inner() as nat, true),
    {
        render_hex(self.0, true)
    }

    /// Renders the packed value in lower-case hexadecimal.
    pub fn lower_hex(&self) -> (text: String)
        ensures
            text@ == hex_digits(self.inner() as nat, false),
    {
        render_hex(self.0, false)
    }

    /// The packed value is its four channels, each at its weight.
    pub proof fn lemma_packed_channels(&self)
        ensures
            self.inner() == packed_value(
                self.channels()[0],
                self.channels()[1],
                self.channels()[2],
                self.channels()[3],
            ),
    {
        let x = self.0;
        assert(x == x % 0x100 + ((x / 0x100) % 0x100) * 0x100 + ((x / 0x1_0000) % 0x100)
            * 0x1_0000 + ((x / 0x100_0000) % 0x100) * 0x100_0000) by (bit_vector);
    }

    /// Creates a new raw pixel value from the given 32-bit unsigned integer.
    pub fn new(value: u32) -> (raw: Self)
        ensures
            raw.inner() == value,
    {
        Self(value)
    }

    /// Creates a new raw pixel value with all channels set to zero.
    pub fn new_zeroed() -> (raw: Self)
        ensures
            raw.inner() == 0,
    {
        Self(0)
    }

    /// Creates a new raw pixel value from the given 32-bit unsigned integer.
    pub fn from_u32(value: u32) -> (raw: Self)
        ensures
            raw.inner() == value,
    {
        Self(value)
    }

    /// Creates a new raw pixel value from the given 4 8-bit channels, the
    /// first of them at offset 0.
    pub fn from_channels(a: u8, b: u8, c: u8, d: u8) -> (raw: Self)
        ensures
            raw.inner() == packed_value(a, b, c, d),
            raw.channels() =~= seq![a, b, c, d],
    {
        let packed: u32 = a as u32 | (b as u32) << 8 | (c as u32) << 16 | (d as u32) << 24;
        assert(packed == a as u32 + b as u32 * 0x100 + c as u32 * 0x1_0000 + d as u32 * 0x100_0000
            && packed % 0x100 == a as u32
            && (packed / 0x100) % 0x100 == b as u32
            && (packed / 0x1_0000) % 0x100 == c as u32
            && (packed / 0x100_0000) % 0x100 == d as u32) by (bit_vector)
            requires
                packed == a as u32 | (b as u32) << 8 | (c as u32) << 16 | (d as u32) << 24,
        ;
        Self(packed)
    }
}

impl Default for U32x8888 {
    fn default() -> (raw: Self)
        ensures
            raw.inner() == 0,
    {
        Self(0)
    }
}

impl FromSpecImpl<u32> for U32x8888 {
    open spec fn obeys_from_spec() -> bool {
        true
    }

    open spec fn from_spec(value: u32) -> Self {
        U32x8888(value)
    }
}

impl From<u32> for U32x8888 {
    fn from(value: u32) -> (raw: Self) {
        Self(value)
    }
}

impl RawPixel for U32x8888 {
    type Storage = u32;

    type Channel = u8;

    const CHANNELS: usize = 4;

    open spec fn channel_count() -> nat {
        4
    }

    open spec fn inner(&self) -> u32 {
        self.0
    }

    open spec fn channels(&self) -> Seq<u8> {
        Seq::new(4, |offset: int| packed_byte(self.inner(), offset))
    }

    open spec fn zero_channel() -> u8 {
        0
    }

    proof fn lemma_channel_count(&self) {
    }

    proof fn lemma_channels_determine_value(a: Self, b: Self) {
        let x = a.0;
        let y = b.0;
        assert(a.channels()[0] == b.channels()[0]);
        assert(a.channels()[1] == b.channels()[1]);
        assert(a.channels()[2] == b.channels()[2]);
        assert(a.channels()[3] == b.channels()[3]);
        assert(x == y) by (bit_vector)
            requires
                x % 0x100 == y % 0x100,
                (x / 0x100) % 0x100 == (y / 0x100) % 0x100,
                (x / 0x1_0000) % 0x100 == (y / 0x1_0000) % 0x100,
                (x / 0x100_0000) % 0x100 == (y / 0x100_0000) % 0x100,
        ;
    }

    proof fn lemma_storage_round_trip(storage: u32) {
    }

    fn zeroed() -> (raw: Self) {
        Self(0)
    }

    fn get_channel(&self, offset: usize) -> (value: u8) {
        let shift: u32 = (offset * 8) as u32;
        let byte: u32 = (self.0 >> shift) & 0xFF;
        proof {
            lemma_shift_and_mask_reads(self.0, shift);
        }
        byte as u8
    }

    fn set_channel(&mut self, offset: usize, value: u8) -> (updated: &mut Self) {
        let shift: u32 = (offset * 8) as u32;
        let mask: u32 = !(0xFFu32 << shift);
        proof {
            lemma_mask_and_or_writes(self.0, shift, value);
        }
        self.0 = (self.0 & mask) | ((value as u32) << shift);
        assert(self.channels() =~= old(self).channels().update(offset as int, value));
        self
    }

    fn as_inner(&self) -> (storage: &u32)
        ensures
            *storage == packed_value(
                self.channels()[0],
                self.channels()[1],
                self.channels()[2],
                self.channels()[3],
            ),
    {
        proof {
            self.lemma_packed_channels();
        }
        &self.0
    }

    fn into_inner(self) -> (storage: u32)
        ensures
            storage == packed_value(
                self.channels()[0],
                self.channels()[1],
                self.channels()[2],
                self.channels()[3],
            ),
    {
        proof {
            self.lemma_packed_channels();
        }
        self.0
    }
}

} // verus!
