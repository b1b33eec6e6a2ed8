use aart::{can_scale, scale_image, scaled_dimensions, Config, Image, Rgba, Scale};
use image::{DynamicImage, ImageBuffer, Rgb};

fn create_test_image(width: u32, height: u32) -> Image {
    let img = ImageBuffer::from_fn(width, height, |_, _| Rgb([100u8, 100, 100]));
    let decoded = DynamicImage::ImageRgb8(img);
    Image::from_raw(width, height, decoded.to_rgba8().into_raw()).unwrap()
}

fn image_of(width: u32, height: u32, pixels: &[[u8; 4]]) -> Image {
    let mut data = Vec::new();
    for pixel in pixels {
        data.extend_from_slice(pixel);
    }
    Image::from_raw(width, height, data).unwrap()
}

#[test]
fn scale_image_does_no_scaling_when_input_and_output_dimensions_are_equal() {
    let input = create_test_image(100, 100);
    let config = Config {
        scale: Scale { num: 1, den: 1 },
        char_width: 1,
        char_height: 1,
        ..Default::default()
    };

    let scaled = scale_image(input, &config);
    assert_eq!(scaled.dimensions(), (100, 100));
}

#[test]
fn scale_image_doubles_output_image_scale() {
    let input = create_test_image(100, 100);
    let config = Config {
        scale: Scale { num: 2, den: 1 },
        char_width: 1,
        char_height: 1,
        ..Default::default()
    };

    let scaled = scale_image(input, &config);
    assert_eq!(scaled.dimensions(), (200, 200));
}

#[test]
fn default_config_has_scale_one_and_square_cells() {
    let config = Config::default();
    assert_eq!(config.scale, Scale { num: 1, den: 1 });
    assert_eq!(config.char_width, 1);
    assert_eq!(config.char_height, 1);
    assert!(config.is_valid());
}

#[test]
fn config_new_keeps_its_arguments() {
    let config = Config::new(Scale::new(3, 4), 10, 18);
    assert_eq!(config.scale.num, 3);
    assert_eq!(config.scale.den, 4);
    assert_eq!(config.char_width, 10);
    assert_eq!(config.char_height, 18);
    assert_eq!(config, Config { scale: Scale { num: 3, den: 4 }, char_width: 10, char_height: 18 });
}

#[test]
fn config_is_valid_only_with_positive_parts() {
    assert!(Config::new(Scale::new(1, 100), 1, 256).is_valid());
    assert!(!Config::new(Scale::new(0, 1), 1, 1).is_valid());
    assert!(!Config::new(Scale::new(1, 0), 1, 1).is_valid());
    assert!(!Config::new(Scale::new(1, 1), 0, 1).is_valid());
    assert!(!Config::new(Scale::new(1, 1), 1, 0).is_valid());
}

#[test]
fn scaled_dimensions_keeps_the_size_at_scale_one() {
    let config = Config::new(Scale::new(1, 1), 1, 1);
    assert_eq!(scaled_dimensions(100, 100, &config), (100, 100));
    assert_eq!(scaled_dimensions(u32::MAX, 7, &config), (u32::MAX, 7));
    let same = Config::new(Scale::new(5, 5), 18, 18);
    assert_eq!(scaled_dimensions(640, 480, &same), (640, 480));
}

#[test]
fn scaled_dimensions_doubles_at_scale_two() {
    let config = Config::new(Scale::new(2, 1), 1, 1);
    assert_eq!(scaled_dimensions(100, 100, &config), (200, 200));
}

#[test]
fn scaled_dimensions_corrects_the_height_by_the_cell_ratio() {
    // 100 * 10 / 18 = 55.55...
    let config = Config::new(Scale::new(1, 1), 10, 18);
    assert_eq!(scaled_dimensions(100, 100, &config), (100, 55));
    // 480 * (1 / 2) * (2 / 1) = 480
    let wide = Config::new(Scale::new(1, 2), 2, 1);
    assert_eq!(scaled_dimensions(640, 480, &wide), (320, 480));
}

#[test]
fn scaled_dimensions_rounds_down_once() {
    // 10 * 7 / 10 = 7 exactly, 3 * 7 / 10 = 2.1
    let config = Config::new(Scale::new(7, 10), 1, 1);
    assert_eq!(scaled_dimensions(10, 3, &config), (7, 2));
    // 7 * (1 / 3) * (3 / 7) = 1 exactly, though 7 / 3 and 3 / 7 are not whole.
    let thirds = Config::new(Scale::new(1, 3), 3, 7);
    assert_eq!(scaled_dimensions(7, 7, &thirds), (2, 1));
    // 99 / 100 rounds down to nothing.
    let tiny = Config::new(Scale::new(1, 100), 1, 1);
    assert_eq!(scaled_dimensions(99, 100, &tiny), (0, 1));
}

#[test]
fn scaled_dimensions_of_an_empty_image_are_zero() {
    let config = Config::new(Scale::new(2, 1), 10, 18);
    assert_eq!(scaled_dimensions(0, 0, &config), (0, 0));
    assert_eq!(scaled_dimensions(0, 9, &config), (0, 10));
    assert_eq!(scaled_dimensions(9, 0, &config), (18, 0));
}

#[test]
fn scaled_dimensions_stop_at_the_largest_dimension() {
    let config = Config::new(Scale::new(u32::MAX, 1), u32::MAX, 1);
    assert_eq!(scaled_dimensions(2, 2, &config), (u32::MAX, u32::MAX));
    let exact = Config::new(Scale::new(u32::MAX, 1), 1, 1);
    assert_eq!(scaled_dimensions(1, 1, &exact), (u32::MAX, u32::MAX));
}

#[test]
fn image_from_raw_wants_four_samples_for_each_pixel() {
    assert!(Image::from_raw(2, 1, vec![0; 8]).is_some());
    assert!(Image::from_raw(2, 1, vec![0; 7]).is_none());
    assert!(Image::from_raw(2, 1, vec![0; 9]).is_none());
    assert!(Image::from_raw(0, 5, vec![]).is_some());
    assert!(Image::from_raw(0, 5, vec![0; 4]).is_none());
    assert!(Image::from_raw(u32::MAX, u32::MAX, vec![0; 4]).is_none());
}

#[test]
fn image_gives_back_its_pixels_and_samples() {
    let image = image_of(2, 2, &[[1, 2, 3, 4], [5, 6, 7, 8], [9, 10, 11, 12], [13, 14, 15, 16]]);
    assert_eq!(image.dimensions(), (2, 2));
    assert_eq!(image.get_pixel(0, 0), Rgba([1, 2, 3, 4]));
    assert_eq!(image.get_pixel(1, 0), Rgba([5, 6, 7, 8]));
    assert_eq!(image.get_pixel(0, 1), Rgba([9, 10, 11, 12]));
    assert_eq!(image.get_pixel(1, 1), Rgba([13, 14, 15, 16]));
    assert_eq!(image.into_raw(), (1..=16).collect::<Vec<u8>>());
}

#[test]
fn image_clone_is_the_same_image() {
    let image = image_of(2, 1, &[[1, 2, 3, 4], [5, 6, 7, 8]]);
    let copy = image.clone();
    assert_eq!(copy, image);
    assert_eq!(copy.dimensions(), (2, 1));
    assert_eq!(copy.into_raw(), vec![1, 2, 3, 4, 5, 6, 7, 8]);
}

#[test]
fn scale_image_at_scale_one_returns_the_same_image() {
    let pixels = [[1, 2, 3, 4], [5, 6, 7, 8], [9, 10, 11, 12], [13, 14, 15, 16], [17, 18, 19, 20], [
        21, 22, 23, 24,
    ]];
    let scaled = scale_image(image_of(3, 2, &pixels), &Config::default());
    assert_eq!(scaled, image_of(3, 2, &pixels));
}

#[test]
fn scale_image_upscales_by_repeating_pixels() {
    let a = [10, 20, 30, 255];
    let b = [200, 100, 50, 7];
    let config = Config::new(Scale::new(2, 1), 1, 1);
    let scaled = scale_image(image_of(2, 1, &[a, b]), &config);
    assert_eq!(scaled.dimensions(), (4, 2));
    assert_eq!(scaled, image_of(4, 2, &[a, a, b, b, a, a, b, b]));
}

#[test]
fn scale_image_downscales_by_picking_pixels() {
    let mut pixels = Vec::new();
    for y in 0..4u8 {
        for x in 0..4u8 {
            pixels.push([x, y, 10 * y + x, 255]);
        }
    }
    let config = Config::new(Scale::new(1, 2), 1, 1);
    let scaled = scale_image(image_of(4, 4, &pixels), &config);
    assert_eq!(scaled.dimensions(), (2, 2));
    for y in 0..2 {
        for x in 0..2 {
            let picked = scaled.get_pixel(x, y);
            assert!(pixels.contains(&picked.0));
            assert_eq!(picked.0[0] as u32 / 2, x);
            assert_eq!(picked.0[1] as u32 / 2, y);
        }
    }
}

#[test]
fn scale_image_copies_every_pixel_from_the_source() {
    let (width, height) = (7u32, 5u32);
    let mut pixels = Vec::new();
    for y in 0..height {
        for x in 0..width {
            pixels.push([x as u8, y as u8, (16 * y + x) as u8, (255 - x - y) as u8]);
        }
    }
    for config in [
        Config::new(Scale::new(3, 7), 1, 1),
        Config::new(Scale::new(5, 3), 10, 18),
        Config::new(Scale::new(1, 1), 18, 10),
        Config::new(Scale::new(9, 10), 3, 2),
        Config::new(Scale::new(13, 1), 1, 4),
    ] {
        let expected = scaled_dimensions(width, height, &config);
        let scaled = scale_image(image_of(width, height, &pixels), &config);
        assert_eq!(scaled.dimensions(), expected);
        for y in 0..expected.1 {
            for x in 0..expected.0 {
                let picked = scaled.get_pixel(x, y);
                assert!(pixels.contains(&picked.0));
                // One source column for each column and one source row for each row.
                assert_eq!(picked.0[0], scaled.get_pixel(x, 0).0[0]);
                assert_eq!(picked.0[1], scaled.get_pixel(0, y).0[1]);
            }
        }
    }
}

fn numbered(width: u32, height: u32) -> Image {
    let mut data = Vec::new();
    for y in 0..height {
        for x in 0..width {
            data.extend_from_slice(&[(x >> 16) as u8, (x >> 8) as u8, x as u8, y as u8]);
        }
    }
    Image::from_raw(width, height, data).unwrap()
}

fn column_of(pixel: Rgba) -> u32 {
    ((pixel.0[0] as u32) << 16) | ((pixel.0[1] as u32) << 8) | pixel.0[2] as u32
}

#[test]
fn scale_image_takes_whole_pixels_at_many_sizes() {
    for width in 1..=9u32 {
        for height in 1..=5u32 {
            for (num, den) in [(1, 4), (1, 3), (2, 5), (1, 2), (2, 3), (7, 8), (1, 1), (9, 8), (3, 2), (5, 1)] {
                for (cell_width, cell_height) in [(1, 1), (10, 18), (3, 1)] {
                    let config = Config::new(Scale::new(num, den), cell_width, cell_height);
                    let expected = scaled_dimensions(width, height, &config);
                    let scaled = scale_image(numbered(width, height), &config);
                    assert_eq!(scaled.dimensions(), expected);
                    for y in 0..expected.1 {
                        for x in 0..expected.0 {
                            let picked = scaled.get_pixel(x, y);
                            let from_x = column_of(picked);
                            let from_y = picked.0[3] as u32;
                            assert!(from_x < width && from_y < height);
                            assert_eq!(from_x, column_of(scaled.get_pixel(x, 0)));
                            assert_eq!(from_y, scaled.get_pixel(0, y).0[3] as u32);
                        }
                    }
                }
            }
        }
    }
}

#[test]
fn scale_image_takes_whole_pixels_of_a_wide_image() {
    let width = 300_000u32;
    for (num, den) in [(2, 3), (299_999, 300_000), (4, 3)] {
        let config = Config::new(Scale::new(num, den), 1, 1);
        let expected = scaled_dimensions(width, 2, &config);
        let scaled = scale_image(numbered(width, 2), &config);
        assert_eq!(scaled.dimensions(), expected);
        let mut last = 0;
        for x in 0..expected.0 {
            let from_x = column_of(scaled.get_pixel(x, 0));
            assert!(from_x < width);
            assert!(last <= from_x);
            last = from_x;
        }
    }
}

#[test]
fn scale_image_squeezes_rows_by_the_cell_ratio() {
    let config = Config::new(Scale::new(1, 1), 10, 18);
    let scaled = scale_image(create_test_image(100, 100), &config);
    assert_eq!(scaled.dimensions(), (100, 55));
    assert_eq!(scaled.get_pixel(99, 54), Rgba([100, 100, 100, 255]));
}

#[test]
fn scale_image_to_nothing_gives_an_empty_image() {
    let config = Config::new(Scale::new(1, 100), 1, 1);
    let scaled = scale_image(create_test_image(50, 50), &config);
    assert_eq!(scaled.dimensions(), (0, 0));
    assert_eq!(scaled.into_raw(), Vec::<u8>::new());

    let flat = scale_image(create_test_image(200, 50), &config);
    assert_eq!(flat.dimensions(), (2, 0));
    assert_eq!(flat.into_raw(), Vec::<u8>::new());
}

#[test]
fn scale_image_of_an_empty_image_is_empty() {
    let config = Config::new(Scale::new(2, 1), 1, 1);
    let scaled = scale_image(Image::from_raw(0, 3, vec![]).unwrap(), &config);
    assert_eq!(scaled.dimensions(), (0, 6));
    assert_eq!(scaled.into_raw(), Vec::<u8>::new());
}

#[test]
fn can_scale_accepts_ordinary_images() {
    let image = create_test_image(100, 100);
    assert!(can_scale(&image, &Config::default()));
    assert!(can_scale(&image, &Config::new(Scale::new(1, 100), 10, 18)));
    assert!(can_scale(&image, &Config::new(Scale::new(2, 1), 1, 1)));
}

#[test]
fn can_scale_refuses_an_invalid_configuration() {
    let image = create_test_image(4, 4);
    assert!(!can_scale(&image, &Config::new(Scale::new(1, 1), 1, 0)));
    assert!(!can_scale(&image, &Config::new(Scale::new(1, 0), 1, 1)));
    assert!(!can_scale(&image, &Config::new(Scale::new(0, 1), 1, 1)));
    assert!(!can_scale(&image, &Config::new(Scale::new(1, 1), 0, 1)));
}

#[test]
fn can_scale_refuses_what_memory_cannot_hold() {
    let image = create_test_image(4, 4);
    let config = Config::new(Scale::new(u32::MAX, 1), 1, 1);
    assert_eq!(scaled_dimensions(4, 4, &config), (u32::MAX, u32::MAX));
    assert!(!can_scale(&image, &config));
}
