use ccrop::crop::apply_circular_crop;
use ccrop::img::{pixels_from_raw, Image, Pixel};

fn solid_image(width: u32, height: u32, p: Pixel) -> Image {
    let pixels = vec![p; (width as usize) * (height as usize)];
    Image::new(width, height, pixels).expect("valid image parts")
}

fn gradient_image(width: u32, height: u32) -> Image {
    let mut pixels = Vec::new();
    for y in 0..height {
        for x in 0..width {
            pixels.push(Pixel { r: x as u8, g: y as u8, b: (x + y) as u8, a: 255 });
        }
    }
    Image::new(width, height, pixels).expect("valid image parts")
}

#[test]
fn wide_opaque_image_end_to_end() {
    let src = Pixel { r: 200, g: 100, b: 50, a: 255 };
    let img = solid_image(100, 60, src);
    let out = apply_circular_crop(&img);
    assert_eq!(out.width(), 60);
    assert_eq!(out.height(), 60);
    let transparent = Pixel { r: 0, g: 0, b: 0, a: 0 };
    // The four extreme corners lie outside the circle (distance about 42.4
    // from the center, radius 30) and must be fully transparent black.
    assert_eq!(out.pixel(0, 0), transparent);
    assert_eq!(out.pixel(59, 0), transparent);
    assert_eq!(out.pixel(0, 59), transparent);
    assert_eq!(out.pixel(59, 59), transparent);
    // The center keeps the original color with full alpha.
    assert_eq!(out.pixel(30, 30), src);
}

#[test]
fn boundary_pixels_are_included() {
    let src = Pixel { r: 1, g: 2, b: 3, a: 255 };
    let img = solid_image(60, 60, src);
    let out = apply_circular_crop(&img);
    // (30, 0) and (0, 30) are exactly on the boundary: distance 30 equals
    // the radius, and the <= comparison keeps them.
    assert_eq!(out.pixel(30, 0), src);
    assert_eq!(out.pixel(0, 30), src);
    assert_eq!(out.pixel(30, 59), src);
    assert_eq!(out.pixel(59, 30), src);
}

#[test]
fn output_is_square_of_min_dimension() {
    let out = apply_circular_crop(&solid_image(100, 60, Pixel { r: 0, g: 0, b: 0, a: 255 }));
    assert_eq!((out.width(), out.height()), (60, 60));
    let out = apply_circular_crop(&solid_image(60, 100, Pixel { r: 0, g: 0, b: 0, a: 255 }));
    assert_eq!((out.width(), out.height()), (60, 60));
    let out = apply_circular_crop(&solid_image(7, 5, Pixel { r: 0, g: 0, b: 0, a: 255 }));
    assert_eq!((out.width(), out.height()), (5, 5));
    let out = apply_circular_crop(&solid_image(1, 1, Pixel { r: 9, g: 9, b: 9, a: 9 }));
    assert_eq!((out.width(), out.height()), (1, 1));
}

#[test]
fn crop_is_deterministic() {
    let img = gradient_image(33, 21);
    let a = apply_circular_crop(&img);
    let b = apply_circular_crop(&img);
    assert_eq!(a, b);
}

#[test]
fn square_image_keeps_in_circle_pixels_in_place() {
    let img = gradient_image(16, 16);
    let out = apply_circular_crop(&img);
    assert_eq!(out.width(), 16);
    assert_eq!(out.height(), 16);
    for y in 0..16u32 {
        for x in 0..16u32 {
            let dx = 2 * (x as i64) - 16;
            let dy = 2 * (y as i64) - 16;
            if dx * dx + dy * dy <= 16 * 16 {
                assert_eq!(out.pixel(x, y), img.pixel(x, y));
            } else {
                assert_eq!(out.pixel(x, y), Pixel { r: 0, g: 0, b: 0, a: 0 });
            }
        }
    }
}

#[test]
fn odd_difference_offset_truncates() {
    // 5x2: size 2, x offset (5 - 2) / 2 = 1 truncated, y offset 0. The
    // kept square starts at column 1.
    let mut pixels = Vec::new();
    for i in 0..10u32 {
        pixels.push(Pixel { r: i as u8, g: 0, b: 0, a: 255 });
    }
    let img = Image::new(5, 2, pixels).unwrap();
    let out = apply_circular_crop(&img);
    assert_eq!((out.width(), out.height()), (2, 2));
    // size 2: (2x - 2)^2 + (2y - 2)^2 <= 4 fails only at (0, 0), which is
    // masked; the other three pixels come from the shifted square.
    assert_eq!(out.pixel(0, 0), Pixel { r: 0, g: 0, b: 0, a: 0 });
    assert_eq!(out.pixel(1, 0).r, 2);
    assert_eq!(out.pixel(0, 1).r, 6);
    assert_eq!(out.pixel(1, 1).r, 7);
}

#[test]
fn image_new_rejects_bad_parts() {
    assert!(Image::new(0, 5, Vec::new()).is_none());
    assert!(Image::new(5, 0, Vec::new()).is_none());
    assert!(Image::new(2, 2, vec![Pixel { r: 0, g: 0, b: 0, a: 0 }; 3]).is_none());
    assert!(Image::new(2, 2, vec![Pixel { r: 0, g: 0, b: 0, a: 0 }; 4]).is_some());
}

#[test]
fn raw_byte_round_trip() {
    let img = Image::new(
        2,
        1,
        vec![Pixel { r: 1, g: 2, b: 3, a: 4 }, Pixel { r: 5, g: 6, b: 7, a: 8 }],
    )
    .unwrap();
    let raw = img.to_rgba_bytes();
    assert_eq!(raw, vec![1, 2, 3, 4, 5, 6, 7, 8]);
    let pixels = pixels_from_raw(&raw);
    assert_eq!(pixels.len(), 2);
    assert_eq!(pixels[0], Pixel { r: 1, g: 2, b: 3, a: 4 });
    assert_eq!(pixels[1], Pixel { r: 5, g: 6, b: 7, a: 8 });
}

#[test]
fn pixels_from_raw_ignores_trailing_bytes() {
    let raw = vec![9, 8, 7, 6, 1, 2, 3];
    let pixels = pixels_from_raw(&raw);
    assert_eq!(pixels.len(), 1);
    assert_eq!(pixels[0], Pixel { r: 9, g: 8, b: 7, a: 6 });
}
