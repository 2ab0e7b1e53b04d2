use pxlfmt::pixel::raw::{F32x4, RawPixel, U32x8888};

fn bits(values: [f32; 4]) -> [u32; 4] {
    values.map(f32::to_bits)
}

fn floats(raw: &F32x4) -> [f32; 4] {
    raw.as_inner().map(f32::from_bits)
}

#[test]
fn with_channel() {
    let mut pixel = U32x8888::from(0xFF00_00FF);
    pixel = pixel.with_channel(1, 0xFF);
    assert_eq!(pixel.get_channel(1), 0xFF); // Green channel
}

#[test]
fn u32x8888_as_inner() {
    let pixel = U32x8888::from(0xFF00_00FF);
    assert_eq!(pixel.as_inner(), &0xFF00_00FF);
}

#[test]
fn u32x8888_into_inner() {
    let pixel = U32x8888::from(0xFF00_00FF);
    assert_eq!(pixel.into_inner(), 0xFF00_00FF);
}

#[test]
fn u32x8888_new_zero() {
    let pixel = U32x8888::new_zeroed();
    assert_eq!(pixel.into_inner(), 0);
}

#[test]
fn from_u32() {
    let pixel = U32x8888::from_u32(0xFF00_00FF);
    assert_eq!(pixel.into_inner(), 0xFF00_00FF);
}

#[test]
fn u32x8888_from_channels() {
    let pixel = U32x8888::from_channels(0xFF, 0x00, 0x00, 0xFF);
    assert_eq!(pixel.into_inner(), 0xFF00_00FF);
}

#[test]
fn raw_as_inner() {
    let pixel = U32x8888::new(0xFF00_00FF);
    assert_eq!(pixel.as_inner(), &0xFF00_00FF);
}

#[test]
fn raw_into_inner() {
    let pixel = U32x8888::new(0xFF00_00FF);
    assert_eq!(pixel.into_inner(), 0xFF00_00FF);
}

#[test]
fn f32x4_as_inner() {
    let pixel = F32x4::from(bits([0.0, 1.0, 2.0, 3.0]));
    assert_eq!(pixel.as_inner().map(f32::from_bits), [0.0, 1.0, 2.0, 3.0]);
}

#[test]
fn f32x4_into_inner() {
    let pixel = F32x4::from(bits([0.0, 1.0, 2.0, 3.0]));
    assert_eq!(pixel.into_inner().map(f32::from_bits), [0.0, 1.0, 2.0, 3.0]);
}

#[test]
fn f32x4_new_zero() {
    let pixel = F32x4::new_zeroed();
    assert_eq!(pixel.as_inner().map(f32::from_bits), [0.0, 0.0, 0.0, 0.0]);
}

#[test]
fn from_f32x4() {
    let pixel = F32x4::from_f32x4(bits([0.0, 1.0, 2.0, 3.0]));
    assert_eq!(pixel.as_inner().map(f32::from_bits), [0.0, 1.0, 2.0, 3.0]);
}

#[test]
fn f32x4_from_channels() {
    let pixel = F32x4::from_channels(
        0.0f32.to_bits(),
        1.0f32.to_bits(),
        2.0f32.to_bits(),
        3.0f32.to_bits(),
    );
    assert_eq!(pixel.as_inner().map(f32::from_bits), [0.0, 1.0, 2.0, 3.0]);
}

#[test]
fn get_channel() {
    let pixel = F32x4::from(bits([0.0, 1.0, 2.0, 3.0]));
    assert_eq!(f32::from_bits(pixel.get_channel(0)), 0.0);
    assert_eq!(f32::from_bits(pixel.get_channel(1)), 1.0);
    assert_eq!(f32::from_bits(pixel.get_channel(2)), 2.0);
    assert_eq!(f32::from_bits(pixel.get_channel(3)), 3.0);
}

#[test]
fn set_channel() {
    let mut pixel = F32x4::from(bits([0.0, 1.0, 2.0, 3.0]));
    pixel.set_channel(0, 4.0f32.to_bits());
    pixel.set_channel(1, 5.0f32.to_bits());
    pixel.set_channel(2, 6.0f32.to_bits());
    pixel.set_channel(3, 7.0f32.to_bits());
    assert_eq!(f32::from_bits(pixel.get_channel(0)), 4.0);
    assert_eq!(f32::from_bits(pixel.get_channel(1)), 5.0);
    assert_eq!(f32::from_bits(pixel.get_channel(2)), 6.0);
    assert_eq!(f32::from_bits(pixel.get_channel(3)), 7.0);
}

#[test]
fn u32x8888_reads_each_byte_at_its_offset() {
    let pixel = U32x8888::new(0x4433_2211);
    assert_eq!(pixel.get_channel(0), 0x11);
    assert_eq!(pixel.get_channel(1), 0x22);
    assert_eq!(pixel.get_channel(2), 0x33);
    assert_eq!(pixel.get_channel(3), 0x44);
}

#[test]
fn u32x8888_writes_only_the_byte_at_the_offset() {
    for offset in 0..4usize {
        for value in [0x00u8, 0x01, 0x7F, 0x80, 0xFF] {
            for start in [0u32, 0x4433_2211, 0xFF00_00FF, u32::MAX] {
                let mut pixel = U32x8888::new(start);
                pixel.set_channel(offset, value);
                for other in 0..4usize {
                    let expected = if other == offset {
                        value
                    } else {
                        U32x8888::new(start).get_channel(other)
                    };
                    assert_eq!(pixel.get_channel(other), expected);
                }
            }
        }
    }
}

#[test]
fn u32x8888_set_channel_packs_the_byte_in_place() {
    let mut pixel = U32x8888::new(0xFF00_00FF);
    pixel.set_channel(1, 0xFF);
    assert_eq!(pixel.into_inner(), 0xFF00_FFFF);
    pixel.set_channel(3, 0x12);
    assert_eq!(pixel.into_inner(), 0x1200_FFFF);
    pixel.set_channel(0, 0x00);
    assert_eq!(pixel.into_inner(), 0x1200_FF00);
    pixel.set_channel(2, 0xAB);
    assert_eq!(pixel.into_inner(), 0x12AB_FF00);
}

#[test]
fn u32x8888_set_channel_returns_the_pixel_for_chaining() {
    let mut pixel = U32x8888::new_zeroed();
    pixel.set_channel(0, 0x01).set_channel(1, 0x02).set_channel(2, 0x03).set_channel(3, 0x04);
    assert_eq!(pixel.into_inner(), 0x0403_0201);
}

#[test]
fn u32x8888_with_channel_leaves_the_other_channels() {
    let pixel = U32x8888::new(0x4433_2211).with_channel(2, 0xEE);
    assert_eq!(pixel.into_inner(), 0x44EE_2211);
}

#[test]
fn u32x8888_from_channels_puts_the_first_channel_lowest() {
    let pixel = U32x8888::from_channels(0x01, 0x02, 0x03, 0x04);
    assert_eq!(pixel.into_inner(), 0x0403_0201);
    assert_eq!(pixel.get_channel(0), 0x01);
    assert_eq!(pixel.get_channel(3), 0x04);
    assert_eq!(U32x8888::from_channels(0xFF, 0xFF, 0xFF, 0xFF).into_inner(), u32::MAX);
    assert_eq!(U32x8888::from_channels(0, 0, 0, 0).into_inner(), 0);
}

#[test]
fn u32x8888_zeroed_and_default_are_zero() {
    assert_eq!(U32x8888::zeroed().into_inner(), 0);
    assert_eq!(U32x8888::default().into_inner(), 0);
    assert_eq!(U32x8888::zeroed(), U32x8888::new_zeroed());
}

#[test]
fn u32x8888_has_four_channels() {
    assert_eq!(U32x8888::CHANNELS, 4);
    assert_eq!(F32x4::CHANNELS, 4);
}

#[test]
fn u32x8888_conversion_keeps_the_value() {
    for value in [0u32, 1, 0xFF, 0x0403_0201, 0xFF00_00FF, u32::MAX] {
        assert_eq!(U32x8888::from(value).into_inner(), value);
        assert_eq!(*U32x8888::from(value).as_inner(), value);
        assert_eq!(U32x8888::from(value), U32x8888::new(value));
        let converted: U32x8888 = value.into();
        assert_eq!(converted.into_inner(), value);
    }
}

#[test]
fn u32x8888_hex() {
    assert_eq!(U32x8888::new(0xFF00_00FF).upper_hex(), "FF0000FF");
    assert_eq!(U32x8888::new(0xFF00_00FF).lower_hex(), "ff0000ff");
    assert_eq!(U32x8888::new(0).upper_hex(), "0");
    assert_eq!(U32x8888::new(0xF).lower_hex(), "f");
    assert_eq!(U32x8888::new(0x10).upper_hex(), "10");
    assert_eq!(U32x8888::new(0x0BAD_F00D).upper_hex(), "BADF00D");
    assert_eq!(U32x8888::new(0x0BAD_F00D).lower_hex(), "badf00d");
}

#[test]
fn u32x8888_orders_by_the_packed_value() {
    assert!(U32x8888::new(1) < U32x8888::new(2));
    assert!(U32x8888::new(0x0100_0000) > U32x8888::new(0x00FF_FFFF));
    assert_eq!(U32x8888::new(5), U32x8888::new(5));
}

#[test]
fn f32x4_writes_only_the_slot_at_the_offset() {
    for offset in 0..4usize {
        let mut pixel = F32x4::from(bits([0.5, 0.25, 0.75, 1.0]));
        pixel.set_channel(offset, 9.5f32.to_bits());
        let mut expected = [0.5, 0.25, 0.75, 1.0];
        expected[offset] = 9.5;
        assert_eq!(floats(&pixel), expected);
    }
}

#[test]
fn f32x4_keeps_every_bit_of_a_channel() {
    let odd = [f32::NAN.to_bits(), (-0.0f32).to_bits(), f32::INFINITY.to_bits(), 0x7FC0_1234];
    let pixel = F32x4::from(odd);
    assert_eq!(pixel.into_inner(), odd);
    for offset in 0..4usize {
        assert_eq!(pixel.get_channel(offset), odd[offset]);
    }
}

#[test]
fn f32x4_with_channel_and_chaining() {
    let pixel = F32x4::new_zeroed().with_channel(3, 1.0f32.to_bits());
    assert_eq!(floats(&pixel), [0.0, 0.0, 0.0, 1.0]);
    let mut chained = F32x4::zeroed();
    chained.set_channel(0, 0.5f32.to_bits()).set_channel(2, 0.75f32.to_bits());
    assert_eq!(floats(&chained), [0.5, 0.0, 0.75, 0.0]);
    assert_eq!(floats(&F32x4::default()), [0.0; 4]);
}
