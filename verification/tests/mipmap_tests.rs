use show_image::image::{Alpha, ImageInfo, ImageView, PixelFormat, UVec2};
use show_image::mipmap::{downsample_2x, mip_chain, mip_levels, next_mip_size};

#[test]
fn mip_levels_counts_halvings() {
    assert_eq!(mip_levels(0, 0), 1);
    assert_eq!(mip_levels(1, 1), 1);
    assert_eq!(mip_levels(2, 1), 2);
    assert_eq!(mip_levels(3, 2), 2);
    assert_eq!(mip_levels(4, 3), 3);
    assert_eq!(mip_levels(256, 100), 9);
    assert_eq!(mip_levels(100, 1023), 10);
    assert_eq!(mip_levels(1024, 1024), 11);
    assert_eq!(mip_levels(u32::MAX, 1), 32);
}

#[test]
fn next_mip_size_halves_down_to_one() {
    assert_eq!(next_mip_size(0), 1);
    assert_eq!(next_mip_size(1), 1);
    assert_eq!(next_mip_size(2), 1);
    assert_eq!(next_mip_size(7), 3);
    assert_eq!(next_mip_size(8), 4);
}

#[test]
fn downsample_averages_blocks() {
    // 2x2 image, one pixel out
    let src = [
        0u8, 10, 20, 255, 4, 10, 20, 255, //
        8, 10, 21, 255, 12, 10, 22, 0,
    ];
    let out = downsample_2x(&src, 2, 2, 1, 1);
    assert_eq!(out, vec![6, 10, 20, 191]);
}

#[test]
fn downsample_clamps_odd_edges() {
    // 3x1 image to 1x1: the block of pixel 0 covers columns 0 and 1 of row 0 twice
    let src = [0u8, 0, 0, 0, 100, 100, 100, 100, 7, 7, 7, 7];
    let out = downsample_2x(&src, 3, 1, 1, 1);
    assert_eq!(out, vec![50, 50, 50, 50]);
    // 1x1 image stays one pixel
    let one = [9u8, 8, 7, 6];
    assert_eq!(downsample_2x(&one, 1, 1, 1, 1), vec![9, 8, 7, 6]);
}

#[test]
fn downsample_of_uniform_is_uniform() {
    let src: Vec<u8> = [1u8, 2, 3, 4].iter().cycle().take(4 * 6 * 4).copied().collect();
    let out = downsample_2x(&src, 6, 4, 3, 2);
    let expected: Vec<u8> = [1u8, 2, 3, 4].iter().cycle().take(3 * 2 * 4).copied().collect();
    assert_eq!(out, expected);
}

#[test]
fn downsample_to_nothing() {
    let src: [u8; 0] = [];
    assert!(downsample_2x(&src, 0, 0, 0, 3).is_empty());
}

#[test]
fn mip_chain_ends_in_one_pixel() {
    let data: Vec<u8> = (0..5u8 * 3).collect();
    let info = ImageInfo {
        pixel_format: PixelFormat::Mono8,
        size: UVec2 { x: 5, y: 3 },
        stride: UVec2 { x: 1, y: 5 },
    };
    let view = ImageView::new(info, &data);
    let levels = mip_chain(&view);
    assert_eq!(levels.len(), 3);
    let sizes: Vec<(u32, u32)> = levels.iter().map(|l| (l.width, l.height)).collect();
    assert_eq!(sizes, vec![(5, 3), (2, 1), (1, 1)]);
    assert_eq!(levels[0].data.len(), 5 * 3 * 4);
    // level 1, pixel 0: mean of grey 0, 1, 5, 6 = 3
    assert_eq!(&levels[1].data[0..4], &[3, 3, 3, 255]);
    // level 1, pixel 1: mean of grey 2, 3, 7, 8 = 5
    assert_eq!(&levels[1].data[4..8], &[5, 5, 5, 255]);
    // level 2: 2x1 to 1x1, the block clamps to its own row: mean of 3, 5, 3, 5 = 4
    assert_eq!(levels[2].data, vec![4, 4, 4, 255]);
}

#[test]
fn mip_chain_of_single_pixel() {
    let data = [1u8, 2, 3, 4];
    let info = ImageInfo {
        pixel_format: PixelFormat::Rgba8(Alpha::Unpremultiplied),
        size: UVec2 { x: 1, y: 1 },
        stride: UVec2 { x: 4, y: 4 },
    };
    let levels = mip_chain(&ImageView::new(info, &data));
    assert_eq!(levels.len(), 1);
    assert_eq!(levels[0].data, vec![1, 2, 3, 4]);
}
