use pxlfmt::prelude::{Format, Pixel, Rgba, Rgba8888, RgbaFormat};
use pxlfmt::uint::Uint;

fn span<T: Uint>() -> (T, T) {
    (T::ZERO, T::MAX)
}

fn red_of<F: RgbaFormat>(pixel: &Pixel<F>) -> <F::RawPixel as pxlfmt::pixel::raw::RawPixel>::Channel
where
    F: Format<Channels = Rgba>,
{
    pixel.red()
}

#[test]
fn uint_zero_and_max() {
    assert_eq!(span::<u8>(), (0, 0xFF));
    assert_eq!(span::<u16>(), (0, 0xFFFF));
    assert_eq!(span::<u32>(), (0, 0xFFFF_FFFF));
    assert_eq!(span::<u64>(), (0, 0xFFFF_FFFF_FFFF_FFFF));
}

#[test]
fn prelude_names_the_common_items() {
    let pixel = Pixel::<Rgba8888>::new(0xFF00_00FF);
    assert_eq!(red_of(&pixel), 0xFF);
    assert_eq!(pixel.green(), 0x00);
    assert_eq!(pixel.blue(), 0x00);
    assert_eq!(pixel.alpha(), 0xFF);
}
