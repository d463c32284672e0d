use slowscan::PixelRGBA;

#[test]
fn default_pixel_is_opaque_black() {
    let p = PixelRGBA::default();
    assert_eq!((p.r, p.g, p.b, p.a), (0, 0, 0, 255));
}

#[test]
fn pixel_into_bytes_is_rgba_order() {
    let p = PixelRGBA { r: 1, g: 2, b: 3, a: 4 };
    let bytes: Vec<u8> = p.into();
    assert_eq!(bytes, vec![1, 2, 3, 4]);
}

#[test]
fn pixel_from_keeps_all_channels() {
    let p = PixelRGBA { r: 255, g: 0, b: 128, a: 7 };
    assert_eq!(Vec::<u8>::from(p), vec![255, 0, 128, 7]);
}
