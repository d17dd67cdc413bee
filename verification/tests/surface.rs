use marshmallow_fm::surface::{Surface, SurfaceError};

#[test]
fn created_surface_is_transparent_black() {
    let s = Surface::create((4, 2)).unwrap();
    assert_eq!(s.resolution(), (4, 2));
    let (pixels, size) = s.read_pixels();
    assert_eq!(size, (4, 2));
    assert_eq!(pixels.bytes(), &vec![0u8; 32]);
}

#[test]
fn surface_that_cannot_be_addressed_is_refused() {
    assert_eq!(Surface::create((usize::MAX, usize::MAX)).err(), Some(SurfaceError::TooLarge));
    assert_eq!(Surface::create((usize::MAX / 2, 1)).err(), Some(SurfaceError::TooLarge));
    assert!(Surface::create((0, usize::MAX)).is_ok());
}

#[test]
fn resize_reallocates_and_clears() {
    let mut s = Surface::create((1, 1)).unwrap();
    assert_eq!(s.store_pixels(vec![9, 9, 9, 9]), Ok(()));
    assert_eq!(s.resize((3, 2)), Ok(()));
    assert_eq!(s.resolution(), (3, 2));
    let (pixels, size) = s.read_pixels();
    assert_eq!(size, (3, 2));
    assert_eq!((pixels.width(), pixels.height()), (3, 2));
    assert_eq!(pixels.bytes(), &vec![0u8; 24]);
}

#[test]
fn failed_resize_keeps_the_surface() {
    let mut s = Surface::create((1, 1)).unwrap();
    assert_eq!(s.store_pixels(vec![1, 2, 3, 4]), Ok(()));
    assert_eq!(s.resize((usize::MAX, 3)), Err(SurfaceError::TooLarge));
    assert_eq!(s.resolution(), (1, 1));
    assert_eq!(s.read_pixels().0.bytes(), &vec![1, 2, 3, 4]);
}

#[test]
fn stored_pixels_are_read_back() {
    let mut s = Surface::create((2, 1)).unwrap();
    let bytes = vec![1, 2, 3, 4, 5, 6, 7, 8];
    assert_eq!(s.store_pixels(bytes.clone()), Ok(()));
    let (pixels, size) = s.read_pixels();
    assert_eq!(size, (2, 1));
    assert_eq!(pixels.bytes(), &bytes);
}

#[test]
fn pixels_of_another_size_are_refused() {
    let mut s = Surface::create((2, 1)).unwrap();
    assert_eq!(s.store_pixels(vec![7; 8]), Ok(()));
    assert_eq!(s.store_pixels(vec![1; 4]), Err(SurfaceError::PixelCountMismatch));
    assert_eq!(s.store_pixels(vec![1; 9]), Err(SurfaceError::PixelCountMismatch));
    assert_eq!(s.store_pixels(Vec::new()), Err(SurfaceError::PixelCountMismatch));
    assert_eq!(s.read_pixels().0.bytes(), &vec![7u8; 8]);
}

#[test]
fn clear_keeps_the_size() {
    let mut s = Surface::create((2, 2)).unwrap();
    assert_eq!(s.store_pixels(vec![200; 16]), Ok(()));
    s.clear();
    assert_eq!(s.resolution(), (2, 2));
    assert_eq!(s.read_pixels().0.bytes(), &vec![0u8; 16]);
}
