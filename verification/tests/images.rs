use rive_rs::raster::Image;
use rive_rs::raw_iter::RawIter;

// A 2x1 RGB PNG: one red pixel, one blue pixel.
fn tiny_png() -> Vec<u8> {
    vec![
        137, 80, 78, 71, 13, 10, 26, 10, 0, 0, 0, 13, 73, 72, 68, 82, 0, 0, 0, 2, 0, 0, 0, 1, 8,
        2, 0, 0, 0, 123, 64, 232, 221, 0, 0, 0, 13, 73, 68, 65, 84, 120, 156, 99, 248, 207, 0, 4,
        255, 1, 7, 0, 1, 255, 226, 35, 158, 89, 0, 0, 0, 0, 73, 69, 78, 68, 174, 66, 96, 130,
    ]
}

#[test]
fn decoding_yields_rgba_pixels() {
    let image = Image::decode(&tiny_png()).unwrap();
    assert_eq!((image.width, image.height), (2, 1));
    assert_eq!(image.data.len(), 8);
    assert_eq!(image.data, vec![255, 0, 0, 255, 0, 0, 255, 255]);
}

#[test]
fn undecodable_bytes_yield_no_image() {
    assert!(Image::decode(&vec![1, 2, 3, 4]).is_none());
    assert!(Image::decode(&Vec::new()).is_none());
}

#[test]
fn raw_iter_walks_both_ends() {
    let mut iter = RawIter::new(3);
    assert_eq!(iter.size_hint(), (3, Some(3)));
    assert_eq!(iter.next(), Some(0));
    assert_eq!(iter.next_back(), Some(2));
    assert_eq!(iter.size_hint(), (1, Some(1)));
    assert_eq!(iter.next(), Some(1));
    assert_eq!(iter.next(), None);
    assert_eq!(iter.next_back(), None);
}

#[test]
fn raw_iter_peeks_without_moving() {
    let mut iter = RawIter::new(5);
    assert_eq!(iter.nth(2), Some(2));
    assert_eq!(iter.nth(5), None);
    assert_eq!(iter.nth_back(0), Some(4));
    assert_eq!(iter.nth_back(4), Some(0));
    assert_eq!(iter.nth_back(5), None);
    assert_eq!(iter.size_hint(), (5, Some(5)));
}
