use show_image::image::{convert_to_rgba8, Alpha, ImageInfo, ImageView, PixelFormat, UVec2};

fn info(pixel_format: PixelFormat, w: u32, h: u32, sx: u32, sy: u32) -> ImageInfo {
    ImageInfo { pixel_format, size: UVec2 { x: w, y: h }, stride: UVec2 { x: sx, y: sy } }
}

#[test]
fn mono8_becomes_opaque_grey() {
    let data = [10u8, 20, 30, 40];
    let view = ImageView::new(info(PixelFormat::Mono8, 2, 2, 1, 2), &data);
    assert_eq!(
        convert_to_rgba8(&view),
        vec![10, 10, 10, 255, 20, 20, 20, 255, 30, 30, 30, 255, 40, 40, 40, 255]
    );
}

#[test]
fn mono_alpha_unpremultiplied_keeps_alpha() {
    let data = [7u8, 100];
    let view = ImageView::new(info(PixelFormat::MonoAlpha8(Alpha::Unpremultiplied), 1, 1, 2, 2), &data);
    assert_eq!(convert_to_rgba8(&view), vec![7, 7, 7, 100]);
}

#[test]
fn mono_alpha_premultiplied_divides_by_alpha() {
    // 50 * 255 / 100 = 127
    let data = [50u8, 100, 9, 0];
    let view = ImageView::new(info(PixelFormat::MonoAlpha8(Alpha::Premultiplied), 2, 1, 2, 4), &data);
    assert_eq!(convert_to_rgba8(&view), vec![127, 127, 127, 100, 0, 0, 0, 0]);
}

#[test]
fn premultiplied_overflow_keeps_low_byte() {
    // 200 * 255 / 100 = 510, whose low byte is 254
    let data = [200u8, 100];
    let view = ImageView::new(info(PixelFormat::MonoAlpha8(Alpha::Premultiplied), 1, 1, 2, 2), &data);
    assert_eq!(convert_to_rgba8(&view), vec![254, 254, 254, 100]);
}

#[test]
fn bgr8_swaps_red_and_blue() {
    let data = [1u8, 2, 3];
    let view = ImageView::new(info(PixelFormat::Bgr8, 1, 1, 3, 3), &data);
    assert_eq!(convert_to_rgba8(&view), vec![3, 2, 1, 255]);
}

#[test]
fn bgra8_unpremultiplied_swaps_red_and_blue() {
    let data = [1u8, 2, 3, 4];
    let view = ImageView::new(info(PixelFormat::Bgra8(Alpha::Unpremultiplied), 1, 1, 4, 4), &data);
    assert_eq!(convert_to_rgba8(&view), vec![3, 2, 1, 4]);
}

#[test]
fn bgra8_premultiplied_divides_and_swaps() {
    // 10*255/51 = 50, 20*255/51 = 100, 30*255/51 = 150
    let data = [30u8, 20, 10, 51, 5, 5, 5, 0];
    let view = ImageView::new(info(PixelFormat::Bgra8(Alpha::Premultiplied), 2, 1, 4, 8), &data);
    assert_eq!(convert_to_rgba8(&view), vec![50, 100, 150, 51, 0, 0, 0, 0]);
}

#[test]
fn rgb8_adds_opaque_alpha() {
    let data = [1u8, 2, 3];
    let view = ImageView::new(info(PixelFormat::Rgb8, 1, 1, 3, 3), &data);
    assert_eq!(convert_to_rgba8(&view), vec![1, 2, 3, 255]);
}

#[test]
fn rgba8_premultiplied_divides_by_alpha() {
    let data = [10u8, 20, 30, 51];
    let view = ImageView::new(info(PixelFormat::Rgba8(Alpha::Premultiplied), 1, 1, 4, 4), &data);
    assert_eq!(convert_to_rgba8(&view), vec![50, 100, 150, 51]);
}

#[test]
fn packed_rgba8_converts_to_itself() {
    let data: Vec<u8> = (0u8..24).collect();
    let view = ImageView::new(info(PixelFormat::Rgba8(Alpha::Unpremultiplied), 3, 2, 4, 12), &data);
    assert_eq!(convert_to_rgba8(&view), data);
}

#[test]
fn opaque_premultiplied_matches_unpremultiplied() {
    let data = [10u8, 20, 30, 255, 200, 100, 0, 255];
    let pre = ImageView::new(info(PixelFormat::Rgba8(Alpha::Premultiplied), 2, 1, 4, 8), &data);
    let un = ImageView::new(info(PixelFormat::Rgba8(Alpha::Unpremultiplied), 2, 1, 4, 8), &data);
    assert_eq!(convert_to_rgba8(&pre), convert_to_rgba8(&un));
}

#[test]
fn strides_skip_padding() {
    // two rows of one Rgb8 pixel, each row padded to five bytes
    let data = [1u8, 2, 3, 0, 0, 4, 5, 6, 0, 0];
    let view = ImageView::new(info(PixelFormat::Rgb8, 1, 2, 3, 5), &data);
    assert_eq!(convert_to_rgba8(&view), vec![1, 2, 3, 255, 4, 5, 6, 255]);
}

#[test]
fn empty_image_converts_to_nothing() {
    let data: [u8; 0] = [];
    let view = ImageView::new(info(PixelFormat::Rgba8(Alpha::Unpremultiplied), 0, 5, 4, 0), &data);
    assert!(convert_to_rgba8(&view).is_empty());
}

#[test]
fn fits_checks_the_last_pixel() {
    let i = info(PixelFormat::Rgb8, 2, 2, 3, 7);
    // last pixel starts at 7 + 3 = 10 and needs three bytes
    assert!(i.fits(13));
    assert!(!i.fits(12));
    assert!(info(PixelFormat::Rgba8(Alpha::Premultiplied), 0, 9, 4, 0).fits(0));
    assert!(!info(PixelFormat::Mono8, u32::MAX, u32::MAX, 1, 1).fits(usize::MAX));
}
