use std::io::Cursor;

use clef::rgba::{load_cached_rgba_bmp, load_rgba, rgba_from_decoded};
use image::{DynamicImage, ImageOutputFormat, Rgb, RgbImage};

fn encoded(width: u32, height: u32, format: ImageOutputFormat) -> Vec<u8> {
    let img = RgbImage::from_fn(width, height, |x, y| Rgb([x as u8, y as u8, 7]));
    let mut buf = Vec::new();
    DynamicImage::ImageRgb8(img).write_to(&mut Cursor::new(&mut buf), format).unwrap();
    buf
}

#[test]
fn cover_art_is_scaled_to_fit_the_art_size() {
    let wide = load_rgba("album/cover.png", &encoded(512, 256, ImageOutputFormat::Png)).unwrap();
    assert_eq!((wide.width(), wide.height()), (256, 128));
    assert_eq!(wide.into_bytes().len(), 256 * 128 * 4);

    let small = load_rgba("album/cover.png", &encoded(4, 2, ImageOutputFormat::Png)).unwrap();
    assert_eq!((small.width(), small.height()), (256, 128));
}

#[test]
fn cached_art_keeps_its_size_and_pixels() {
    let img = load_cached_rgba_bmp("cache/a_256.bmp", &encoded(3, 2, ImageOutputFormat::Bmp)).unwrap();
    assert_eq!((img.width(), img.height()), (3, 2));
    assert_eq!(
        img.into_bytes(),
        vec![
            0, 0, 7, 255, 1, 0, 7, 255, 2, 0, 7, 255, //
            0, 1, 7, 255, 1, 1, 7, 255, 2, 1, 7, 255,
        ]
    );
}

#[test]
fn art_that_cannot_be_decoded_gives_none() {
    let png = encoded(4, 2, ImageOutputFormat::Png);
    assert!(load_rgba("album/cover.txt", &png).is_none());
    assert!(load_rgba("album/cover", &png).is_none());
    assert!(load_rgba("album/cover.png", b"not an image").is_none());
    assert!(load_cached_rgba_bmp("cache/a_256.bmp", &png).is_none());
}

#[test]
fn decoded_pixels_are_kept_as_they_are() {
    assert!(rgba_from_decoded(None).is_none());
    let img = rgba_from_decoded(Some((1, 1, vec![1, 2, 3, 4]))).unwrap();
    assert_eq!((img.width(), img.height()), (1, 1));
    assert_eq!(img.into_bytes(), vec![1, 2, 3, 4]);
}
