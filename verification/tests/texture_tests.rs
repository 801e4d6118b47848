use raytracer::color::Color;
use raytracer::texture::Texture;

fn two_by_two() -> Texture {
    let samples: Vec<u8> = vec![1, 2, 3, 4, 5, 6, 7, 8, 9, 10, 11, 12];
    Texture::new(2, 2, samples).unwrap()
}

#[test]
fn texture_keeps_its_size() {
    let t = two_by_two();
    assert_eq!(t.width(), 2);
    assert_eq!(t.height(), 2);
}

#[test]
fn get_pixel_reads_row_major_triples() {
    let t = two_by_two();
    assert_eq!(t.get_pixel(0, 0), Color::new(1, 2, 3));
    assert_eq!(t.get_pixel(1, 0), Color::new(4, 5, 6));
    assert_eq!(t.get_pixel(0, 1), Color::new(7, 8, 9));
    assert_eq!(t.get_pixel(1, 1), Color::new(10, 11, 12));
}

#[test]
fn get_pixel_clamps_to_last_column_and_row() {
    let t = two_by_two();
    assert_eq!(t.get_pixel(2, 0), Color::new(4, 5, 6));
    assert_eq!(t.get_pixel(0, 5), Color::new(7, 8, 9));
    assert_eq!(t.get_pixel(usize::MAX, usize::MAX), Color::new(10, 11, 12));
}

#[test]
fn wide_texture_uses_its_width_as_stride() {
    let samples: Vec<u8> = (0..18).collect();
    let t = Texture::new(3, 2, samples).unwrap();
    assert_eq!(t.get_pixel(2, 0), Color::new(6, 7, 8));
    assert_eq!(t.get_pixel(0, 1), Color::new(9, 10, 11));
    assert_eq!(t.get_pixel(2, 1), Color::new(15, 16, 17));
}

#[test]
fn texture_needs_enough_samples() {
    assert!(Texture::new(2, 2, vec![0; 11]).is_none());
    assert!(Texture::new(2, 2, vec![0; 12]).is_some());
    assert!(Texture::new(u32::MAX, u32::MAX, vec![0; 12]).is_none());
}

#[test]
fn texture_accepts_a_longer_buffer() {
    let samples: Vec<u8> = vec![1, 2, 3, 4, 5, 6, 99, 99];
    let t = Texture::new(2, 1, samples).unwrap();
    assert_eq!(t.get_pixel(1, 0), Color::new(4, 5, 6));
    assert_eq!(t.get_pixel(1, 9), Color::new(4, 5, 6));
}

#[test]
fn texture_without_pixels_is_refused() {
    assert!(Texture::new(0, 2, vec![0; 12]).is_none());
    assert!(Texture::new(2, 0, vec![0; 12]).is_none());
    assert!(Texture::new(0, 0, Vec::new()).is_none());
}

#[test]
fn texture_agrees_with_the_decoded_image() {
    let mut image = image::RgbImage::new(3, 2);
    image.put_pixel(2, 1, image::Rgb([9, 8, 7]));
    image.put_pixel(0, 1, image::Rgb([1, 1, 2]));
    let (width, height) = image.dimensions();
    let t = Texture::new(width, height, image.into_raw()).unwrap();
    assert_eq!(t.get_pixel(2, 1), Color::new(9, 8, 7));
    assert_eq!(t.get_pixel(0, 1), Color::new(1, 1, 2));
    assert_eq!(t.get_pixel(1, 0), Color::new(0, 0, 0));
}
