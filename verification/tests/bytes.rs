use egui::epaint::FontImage;
use egui::Color32;
use egui_ash_integration::texture::{
    color_pixels, font_pixels, pixel_bytes, pixels_of_arrays, ImageData, Rgba,
};
use egui_ash_integration::word::word_bytes;

fn gray(a: u8) -> Rgba {
    Rgba { r: a, g: a, b: a, a }
}

#[test]
fn pixels_become_four_bytes_each() {
    let pixels = vec![Rgba { r: 1, g: 2, b: 3, a: 4 }, Rgba { r: 5, g: 6, b: 7, a: 8 }];
    assert_eq!(pixel_bytes(&pixels), vec![1, 2, 3, 4, 5, 6, 7, 8]);
    assert_eq!(pixel_bytes(&Vec::new()), Vec::<u8>::new());
}

#[test]
fn different_pixels_have_different_bytes() {
    let first = vec![Rgba { r: 1, g: 0, b: 0, a: 0 }];
    let second = vec![Rgba { r: 0, g: 1, b: 0, a: 0 }];
    assert_ne!(pixel_bytes(&first), pixel_bytes(&second));
}

#[test]
fn colors_become_pixels() {
    let colors = vec![Color32::from_rgba_premultiplied(1, 2, 3, 4), Color32::WHITE];
    assert_eq!(color_pixels(&colors), vec![Rgba { r: 1, g: 2, b: 3, a: 4 }, gray(255)]);
    assert_eq!(color_pixels(&Vec::new()), Vec::<Rgba>::new());
}

#[test]
fn arrays_become_pixels() {
    assert_eq!(
        pixels_of_arrays(&vec![[1, 2, 3, 4], [9, 8, 7, 6]]),
        vec![Rgba { r: 1, g: 2, b: 3, a: 4 }, Rgba { r: 9, g: 8, b: 7, a: 6 }],
    );
}

#[test]
fn font_coverage_becomes_transparent_white() {
    let mut image = FontImage::new([2, 2]);
    image.pixels = vec![0.0, 1.0, 0.5, 0.0];
    let pixels = font_pixels(&image);
    assert_eq!(pixels.len(), 4);
    assert_eq!(pixels[0], gray(0));
    assert_eq!(pixels[1], gray(255));
    // 0.5 to the power of 0.55 is 0.683.
    assert_eq!(pixels[2], gray(174));
    assert_eq!(pixels[3], gray(0));
}

#[test]
fn font_pixels_follow_the_coverage_not_the_size() {
    let mut image = FontImage::new([2, 2]);
    image.pixels = vec![1.0];
    assert_eq!(font_pixels(&image), vec![gray(255)]);
}

#[test]
fn color_images_need_a_pixel_for_each_place() {
    let pixels = vec![gray(0), gray(1), gray(2), gray(3), gray(4), gray(5)];
    assert!(ImageData::Color { width: 3, height: 2, pixels }.is_consistent());
    let pixels = vec![gray(0), gray(1), gray(2), gray(3), gray(4)];
    assert!(!ImageData::Color { width: 3, height: 2, pixels }.is_consistent());
    assert!(ImageData::Color { width: 0, height: 7, pixels: Vec::new() }.is_consistent());
    assert!(!ImageData::Color { width: usize::MAX, height: 2, pixels: Vec::new() }.is_consistent());
}

#[test]
fn font_images_are_not_counted() {
    assert!(ImageData::Font { width: 3, height: 2, pixels: Vec::new() }.is_consistent());
}

#[test]
fn images_tell_their_size_and_pixels() {
    let image = ImageData::Color { width: 1, height: 2, pixels: vec![gray(3), gray(4)] };
    assert_eq!((image.width(), image.height()), (1, 2));
    assert_eq!(image.pixels(), &vec![gray(3), gray(4)]);
    let image = ImageData::Font { width: 2, height: 1, pixels: vec![gray(3), gray(4)] };
    assert_eq!((image.width(), image.height()), (2, 1));
    assert_eq!(image.pixels(), &vec![gray(3), gray(4)]);
}

#[test]
fn words_lie_in_memory_as_the_machine_has_it() {
    assert_eq!(word_bytes(0x0102_0304), 0x0102_0304u32.to_ne_bytes());
    assert_eq!(word_bytes(1.5f32.to_bits()), 1.5f32.to_ne_bytes());
    assert_eq!(word_bytes(0), [0, 0, 0, 0]);
}
